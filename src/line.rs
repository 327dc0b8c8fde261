use crate::coordinate::Coordinate;
use crate::coordinate_type::CoordinateType;
use vstd::prelude::*;
use vstd::std_specs::cmp::PartialEqSpec;

verus! {

/// A line segment made up of exactly two coordinates, from `start` to `end`.
#[derive(Clone, Copy, Debug)]
pub struct Line<T> where T: CoordinateType {
    pub start: Coordinate<T>,
    pub end: Coordinate<T>,
}

impl<T> Line<T> where T: CoordinateType {
    /// Creates a new line segment; both endpoints are kept as given, and
    /// `start == end` is allowed.
    pub fn new(start: Coordinate<T>, end: Coordinate<T>) -> (r: Line<T>)
        ensures
            r.start == start,
            r.end == end,
    {
        Line { start, end }
    }
}

impl<T> PartialEq for Line<T> where T: CoordinateType {
    fn eq(&self, other: &Line<T>) -> (r: bool) {
        self.start.eq(&other.start) && self.end.eq(&other.end)
    }
}

impl<T> vstd::std_specs::cmp::PartialEqSpecImpl for Line<T> where T: CoordinateType {
    open spec fn obeys_eq_spec() -> bool {
        true
    }

    open spec fn eq_spec(&self, other: &Line<T>) -> bool {
        self.start == other.start && self.end == other.end
    }
}

/// Equality of lines is reflexive, symmetric and transitive, and holds
/// exactly when both endpoints are equal coordinates.
pub proof fn lemma_line_eq<T: CoordinateType>(a: Line<T>, b: Line<T>, c: Line<T>)
    ensures
        a.eq_spec(&a),
        a.eq_spec(&b) ==> b.eq_spec(&a),
        a.eq_spec(&b) && b.eq_spec(&c) ==> a.eq_spec(&c),
        a.eq_spec(&b) <==> (a.start.eq_spec(&b.start) && a.end.eq_spec(&b.end)),
        a.eq_spec(&b) <==> a == b,
{
}

} // verus!
