//! A point in the plane.

use vstd::prelude::*;

verus! {

/// A point in the plane with integer coordinates.
#[derive(Clone, Copy, Debug, PartialEq, Eq, Structural)]
pub struct QPoint {
    /// The horizontal coordinate, growing to the right.
    pub x: i32,
    /// The vertical coordinate, growing downwards.
    pub y: i32,
}

impl QPoint {
    /// Constructs the point with the given coordinates.
    pub fn new(x: i32, y: i32) -> (point: QPoint)
        ensures
            point == (QPoint { x, y }),
    {
        QPoint { x, y }
    }
}

} // verus!
