use crate::coordinate_type::CoordinateType;
use vstd::prelude::*;
use vstd::std_specs::cmp::PartialEqSpec;

verus! {

/// A primitive type which holds `x` and `y` position information.
#[derive(Clone, Copy, Debug)]
pub struct Coordinate<T> where T: CoordinateType {
    pub x: T,
    pub y: T,
}

/// The dot product `x1 * x2 + y1 * y2`, over the integers.
pub open spec fn dot_of(ax: int, ay: int, bx: int, by: int) -> int {
    ax * bx + ay * by
}

/// The three-point cross product of `a`, `b`, `c`, over the integers.
pub open spec fn cross_of(ax: int, ay: int, bx: int, by: int, cx: int, cy: int) -> int {
    (bx - ax) * (cy - ay) - (by - ay) * (cx - ax)
}

impl<T> Coordinate<T> where T: CoordinateType {
    /// The integer value of `x`.
    pub open spec fn vx(&self) -> int {
        self.x.value()
    }

    /// The integer value of `y`.
    pub open spec fn vy(&self) -> int {
        self.y.value()
    }

    /// The dot product of `self` and `other`, over the integers.
    pub open spec fn dot_spec(&self, other: &Coordinate<T>) -> int {
        dot_of(self.vx(), self.vy(), other.vx(), other.vy())
    }

    /// The squared length of the vector from the origin to `self`.
    pub open spec fn magnitude_squared(&self) -> int {
        self.vx() * self.vx() + self.vy() * self.vy()
    }

    /// The cross product of `self`, `b`, `c`, over the integers.
    pub open spec fn cross_spec(&self, b: &Coordinate<T>, c: &Coordinate<T>) -> int {
        cross_of(self.vx(), self.vy(), b.vx(), b.vy(), c.vx(), c.vy())
    }

    /// Whether every intermediate value of `dot` is representable in `T`.
    pub open spec fn dot_fits(&self, other: &Coordinate<T>) -> bool {
        &&& T::fits(self.vx() * other.vx())
        &&& T::fits(self.vy() * other.vy())
        &&& T::fits(self.dot_spec(other))
    }

    /// Whether every intermediate value of `cross_prod` is representable in `T`.
    pub open spec fn cross_fits(&self, b: &Coordinate<T>, c: &Coordinate<T>) -> bool {
        &&& T::fits(b.vx() - self.vx())
        &&& T::fits(b.vy() - self.vy())
        &&& T::fits(c.vx() - self.vx())
        &&& T::fits(c.vy() - self.vy())
        &&& T::fits((b.vx() - self.vx()) * (c.vy() - self.vy()))
        &&& T::fits((b.vy() - self.vy()) * (c.vx() - self.vx()))
        &&& T::fits(self.cross_spec(b, c))
    }

    /// Returns the dot product of the two points: `x1 * x2 + y1 * y2`.
    pub fn dot(&self, coord: &Coordinate<T>) -> (r: T)
        requires
            self.dot_fits(coord),
        ensures
            r.value() == self.dot_spec(coord),
    {
        self.x.times(coord.x).plus(self.y.times(coord.y))
    }

    /// Returns the cross product of 3 points. A positive value implies
    /// `self` -> `coord_b` -> `coord_c` is counter-clockwise, negative implies
    /// clockwise, zero implies the three are collinear.
    pub fn cross_prod(&self, coord_b: &Coordinate<T>, coord_c: &Coordinate<T>) -> (r: T)
        requires
            self.cross_fits(coord_b, coord_c),
        ensures
            r.value() == self.cross_spec(coord_b, coord_c),
    {
        let bx = coord_b.x.minus(self.x);
        let by = coord_b.y.minus(self.y);
        let cx = coord_c.x.minus(self.x);
        let cy = coord_c.y.minus(self.y);
        bx.times(cy).minus(by.times(cx))
    }
}

impl<T> PartialEq for Coordinate<T> where T: CoordinateType {
    fn eq(&self, other: &Coordinate<T>) -> (r: bool) {
        self.x.same(&other.x) && self.y.same(&other.y)
    }
}

impl<T> vstd::std_specs::cmp::PartialEqSpecImpl for Coordinate<T> where T: CoordinateType {
    open spec fn obeys_eq_spec() -> bool {
        true
    }

    open spec fn eq_spec(&self, other: &Coordinate<T>) -> bool {
        self.x == other.x && self.y == other.y
    }
}

impl<T> From<(T, T)> for Coordinate<T> where T: CoordinateType {
    fn from(coords: (T, T)) -> (r: Coordinate<T>) {
        Coordinate { x: coords.0, y: coords.1 }
    }
}

impl<T> vstd::std_specs::convert::FromSpecImpl<(T, T)> for Coordinate<T> where T: CoordinateType {
    open spec fn obeys_from_spec() -> bool {
        true
    }

    open spec fn from_spec(coords: (T, T)) -> Coordinate<T> {
        Coordinate { x: coords.0, y: coords.1 }
    }
}

impl<T> From<[T; 2]> for Coordinate<T> where T: CoordinateType {
    fn from(coords: [T; 2]) -> (r: Coordinate<T>) {
        Coordinate { x: coords[0], y: coords[1] }
    }
}

impl<T> vstd::std_specs::convert::FromSpecImpl<[T; 2]> for Coordinate<T> where T: CoordinateType {
    open spec fn obeys_from_spec() -> bool {
        true
    }

    open spec fn from_spec(coords: [T; 2]) -> Coordinate<T> {
        Coordinate { x: coords@[0], y: coords@[1] }
    }
}

/// The dot product is bilinear: it distributes over a sum in its first
/// argument and takes out a scalar factor.
pub proof fn lemma_dot_bilinear(ax: int, ay: int, bx: int, by: int, cx: int, cy: int, k: int)
    ensures
        dot_of(ax + bx, ay + by, cx, cy) == dot_of(ax, ay, cx, cy) + dot_of(bx, by, cx, cy),
        dot_of(k * ax, k * ay, cx, cy) == k * dot_of(ax, ay, cx, cy),
{
    assert(dot_of(ax + bx, ay + by, cx, cy) == dot_of(ax, ay, cx, cy) + dot_of(bx, by, cx, cy))
        by (nonlinear_arith);
    assert(dot_of(k * ax, k * ay, cx, cy) == k * dot_of(ax, ay, cx, cy)) by (nonlinear_arith);
}

/// The dot product is symmetric: `a.dot(b) == b.dot(a)`.
pub proof fn lemma_dot_symmetric<T: CoordinateType>(a: Coordinate<T>, b: Coordinate<T>)
    ensures
        a.dot_spec(&b) == b.dot_spec(&a),
{
    assert(a.dot_spec(&b) == b.dot_spec(&a)) by (nonlinear_arith);
}

/// The dot product of a coordinate with itself is its squared magnitude,
/// and so never negative.
pub proof fn lemma_dot_self<T: CoordinateType>(a: Coordinate<T>)
    ensures
        a.dot_spec(&a) == a.magnitude_squared(),
        a.dot_spec(&a) >= 0,
{
    assert(a.vx() * a.vx() >= 0) by (nonlinear_arith);
    assert(a.vy() * a.vy() >= 0) by (nonlinear_arith);
}

/// The cross product of three collinear points is zero: if `c - a` is
/// `p / q` times `b - a`, for any rational `p / q`, then
/// `a.cross_prod(b, c) == 0`.
pub proof fn lemma_cross_prod_collinear<T: CoordinateType>(
    a: Coordinate<T>,
    b: Coordinate<T>,
    c: Coordinate<T>,
    p: int,
    q: int,
)
    requires
        q != 0,
        q * (c.vx() - a.vx()) == p * (b.vx() - a.vx()),
        q * (c.vy() - a.vy()) == p * (b.vy() - a.vy()),
    ensures
        a.cross_spec(&b, &c) == 0,
{
    let dx = b.vx() - a.vx();
    let dy = b.vy() - a.vy();
    let ex = c.vx() - a.vx();
    let ey = c.vy() - a.vy();
    assert(q * (dx * ey - dy * ex) == dx * (q * ey) - dy * (q * ex)) by (nonlinear_arith);
    assert(dx * (p * dy) - dy * (p * dx) == 0) by (nonlinear_arith);
    assert(q * (dx * ey - dy * ex) == 0);
    assert(dx * ey - dy * ex == 0) by (nonlinear_arith)
        requires
            q != 0,
            q * (dx * ey - dy * ex) == 0,
    ;
}

/// Equality of coordinates is reflexive, symmetric and transitive, and holds
/// exactly when both components are equal.
pub proof fn lemma_coordinate_eq<T: CoordinateType>(
    a: Coordinate<T>,
    b: Coordinate<T>,
    c: Coordinate<T>,
)
    ensures
        a.eq_spec(&a),
        a.eq_spec(&b) ==> b.eq_spec(&a),
        a.eq_spec(&b) && b.eq_spec(&c) ==> a.eq_spec(&c),
        a.eq_spec(&b) <==> (a.x == b.x && a.y == b.y),
        a.eq_spec(&b) <==> (a.vx() == b.vx() && a.vy() == b.vy()),
        a.eq_spec(&b) <==> a == b,
{
    T::value_injective(a.x, b.x);
    T::value_injective(a.y, b.y);
}

} // verus!
