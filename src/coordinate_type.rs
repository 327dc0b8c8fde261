use vstd::prelude::*;

verus! {

/// A numeric type that can hold a coordinate component.
///
/// Each value stands for a mathematical integer (`value`); the arithmetic
/// operations are exact on every input whose result the type can represent.
pub trait CoordinateType: Copy + Sized {
    /// The integer that this value stands for.
    spec fn value(&self) -> int;

    /// Whether the integer `v` can be represented by this type.
    spec fn fits(v: int) -> bool;

    /// Distinct values stand for distinct integers.
    proof fn value_injective(a: Self, b: Self)
        ensures
            a.value() == b.value() <==> a == b,
    ;

    /// The zero of the type.
    fn zero() -> (r: Self)
        ensures
            r.value() == 0,
    ;

    /// Exact sum.
    fn plus(self, other: Self) -> (r: Self)
        requires
            Self::fits(self.value() + other.value()),
        ensures
            r.value() == self.value() + other.value(),
    ;

    /// Exact difference.
    fn minus(self, other: Self) -> (r: Self)
        requires
            Self::fits(self.value() - other.value()),
        ensures
            r.value() == self.value() - other.value(),
    ;

    /// Exact product.
    fn times(self, other: Self) -> (r: Self)
        requires
            Self::fits(self.value() * other.value()),
        ensures
            r.value() == self.value() * other.value(),
    ;

    /// Equality of values.
    fn same(&self, other: &Self) -> (r: bool)
        ensures
            r == (*self == *other),
    ;
}

impl CoordinateType for i64 {
    open spec fn value(&self) -> int {
        *self as int
    }

    open spec fn fits(v: int) -> bool {
        i64::MIN <= v <= i64::MAX
    }

    proof fn value_injective(a: Self, b: Self) {
    }

    fn zero() -> (r: Self) {
        0
    }

    fn plus(self, other: Self) -> (r: Self) {
        self + other
    }

    fn minus(self, other: Self) -> (r: Self) {
        self - other
    }

    fn times(self, other: Self) -> (r: Self) {
        self * other
    }

    fn same(&self, other: &Self) -> (r: bool) {
        *self == *other
    }
}

impl CoordinateType for i32 {
    open spec fn value(&self) -> int {
        *self as int
    }

    open spec fn fits(v: int) -> bool {
        i32::MIN <= v <= i32::MAX
    }

    proof fn value_injective(a: Self, b: Self) {
    }

    fn zero() -> (r: Self) {
        0
    }

    fn plus(self, other: Self) -> (r: Self) {
        self + other
    }

    fn minus(self, other: Self) -> (r: Self) {
        self - other
    }

    fn times(self, other: Self) -> (r: Self) {
        self * other
    }

    fn same(&self, other: &Self) -> (r: bool) {
        *self == *other
    }
}

impl CoordinateType for i128 {
    open spec fn value(&self) -> int {
        *self as int
    }

    open spec fn fits(v: int) -> bool {
        i128::MIN <= v <= i128::MAX
    }

    proof fn value_injective(a: Self, b: Self) {
    }

    fn zero() -> (r: Self) {
        0
    }

    fn plus(self, other: Self) -> (r: Self) {
        self + other
    }

    fn minus(self, other: Self) -> (r: Self) {
        self - other
    }

    fn times(self, other: Self) -> (r: Self) {
        self * other
    }

    fn same(&self, other: &Self) -> (r: bool) {
        *self == *other
    }
}

} // verus!
