use vstd::prelude::*;

verus! {

/// A point in two-dimensional space.
///
/// Coordinates are plain integer scalars, one scalar per native field, so a
/// point occupies exactly two records of the native scalar width and a buffer
/// of points can be reinterpreted without per-field conversion.
#[derive(Clone, Copy, Debug, PartialEq, Eq, Structural)]
pub struct Point {
    pub x: i32,
    pub y: i32,
}

impl Point {
    pub fn new(x: i32, y: i32) -> (p: Point)
        ensures
            p.x == x,
            p.y == y,
    {
        Point { x, y }
    }
}

} // verus!
