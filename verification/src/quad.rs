use vstd::prelude::*;

use crate::point::Point;

verus! {

/// A representation for a region defined by 4 points.
///
/// Field order matches the native quad record (upper-left, upper-right,
/// lower-left, lower-right), so a native buffer of quads and a vector of
/// these values have the same layout, scalar for scalar.
#[derive(Clone, Copy, Debug, PartialEq, Eq, Structural)]
pub struct Quad {
    pub ul: Point,
    pub ur: Point,
    pub ll: Point,
    pub lr: Point,
}

impl Quad {
    pub fn new(ul: Point, ur: Point, ll: Point, lr: Point) -> (q: Quad)
        ensures
            q.ul == ul,
            q.ur == ur,
            q.ll == ll,
            q.lr == lr,
    {
        Quad { ul, ur, ll, lr }
    }
}

} // verus!
