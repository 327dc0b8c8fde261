use geo_types::{Coordinate, CoordinateType};

#[test]
fn dot_example_scaled() {
    // (1.5, 0.5) . (2.0, 4.5) == 5.25, scaled by two on each coordinate.
    let coord = Coordinate { x: 3i64, y: 1i64 };
    let dot = coord.dot(&Coordinate { x: 4i64, y: 9i64 });
    assert_eq!(dot, 21);
}

#[test]
fn dot_exact_value() {
    let a = Coordinate { x: 2i32, y: -3i32 };
    let b = Coordinate { x: 5i32, y: 7i32 };
    assert_eq!(a.dot(&b), 10 - 21);
}

#[test]
fn dot_is_symmetric() {
    let a = Coordinate { x: -4i64, y: 11i64 };
    let b = Coordinate { x: 6i64, y: -2i64 };
    assert_eq!(a.dot(&b), b.dot(&a));
    assert_eq!(a.dot(&b), -46);
}

#[test]
fn dot_with_self_is_squared_magnitude() {
    let a = Coordinate { x: -3i64, y: 4i64 };
    assert_eq!(a.dot(&a), 25);
    let zero = Coordinate { x: 0i64, y: 0i64 };
    assert_eq!(zero.dot(&zero), 0);
}

#[test]
fn dot_large_values() {
    let a = Coordinate { x: i64::MAX, y: 0i64 };
    let b = Coordinate { x: 1i64, y: i64::MIN };
    assert_eq!(a.dot(&b), i64::MAX);
    let c = Coordinate { x: 1i128 << 62, y: 1i128 << 62 };
    assert_eq!(c.dot(&c), 1i128 << 125);
}

#[test]
fn cross_prod_example() {
    let coord_a = Coordinate { x: 1i64, y: 2i64 };
    let coord_b = Coordinate { x: 3i64, y: 5i64 };
    let coord_c = Coordinate { x: 7i64, y: 12i64 };
    assert_eq!(coord_a.cross_prod(&coord_b, &coord_c), 2);
}

#[test]
fn cross_prod_winding_order() {
    let a = Coordinate { x: 0i32, y: 0i32 };
    let b = Coordinate { x: 4i32, y: 0i32 };
    let c = Coordinate { x: 0i32, y: 3i32 };
    // counter-clockwise
    assert_eq!(a.cross_prod(&b, &c), 12);
    // clockwise
    assert_eq!(a.cross_prod(&c, &b), -12);
}

#[test]
fn cross_prod_collinear_is_zero() {
    let a = Coordinate { x: 1i64, y: 1i64 };
    let b = Coordinate { x: 3i64, y: 5i64 };
    // c = a + 3 * (b - a)
    let c = Coordinate { x: 7i64, y: 13i64 };
    assert_eq!(a.cross_prod(&b, &c), 0);
    // c = a + (1/2) * (b - a)
    let m = Coordinate { x: 2i64, y: 3i64 };
    assert_eq!(a.cross_prod(&b, &m), 0);
    // all three points equal
    assert_eq!(a.cross_prod(&a, &a), 0);
}

#[test]
fn from_tuple_keeps_components() {
    let c: Coordinate<i64> = Coordinate::from((5i64, -8i64));
    assert_eq!(c.x, 5);
    assert_eq!(c.y, -8);
    let d: Coordinate<i32> = (i32::MIN, i32::MAX).into();
    assert_eq!(d.x, i32::MIN);
    assert_eq!(d.y, i32::MAX);
}

#[test]
fn from_array_keeps_components() {
    let c: Coordinate<i64> = Coordinate::from([5i64, -8i64]);
    assert_eq!(c.x, 5);
    assert_eq!(c.y, -8);
    let d: Coordinate<i128> = [7i128, 7i128].into();
    assert_eq!(d, Coordinate { x: 7i128, y: 7i128 });
}

#[test]
fn coordinate_equality_is_componentwise() {
    let a = Coordinate { x: 1i64, y: 2i64 };
    let b = Coordinate { x: 1i64, y: 2i64 };
    let c = Coordinate { x: 1i64, y: 3i64 };
    let d = Coordinate { x: 0i64, y: 2i64 };
    assert!(a == a);
    assert!(a == b && b == a);
    assert!(a != c);
    assert!(a != d);
    assert_eq!(Coordinate::from((1i64, 2i64)), Coordinate::from([1i64, 2i64]));
}

#[test]
fn coordinate_type_arithmetic() {
    assert_eq!(<i64 as CoordinateType>::zero(), 0);
    assert_eq!(7i32.plus(-9), -2);
    assert_eq!(7i128.minus(9), -2);
    assert_eq!((-6i64).times(7), -42);
    assert!(5i64.same(&5));
    assert!(!5i64.same(&6));
}
