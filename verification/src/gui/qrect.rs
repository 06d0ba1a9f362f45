//! A rectangle in the plane.

use crate::gui::qpoint::QPoint;
use vstd::prelude::*;

verus! {

/// A rectangle with sides parallel to the axes, given by its edges.
#[derive(Clone, Copy, Debug, PartialEq, Eq, Structural)]
pub struct QRect {
    /// The horizontal coordinate of the left edge.
    pub left: i32,
    /// The vertical coordinate of the top edge.
    pub top: i32,
    /// The horizontal coordinate of the right edge.
    pub right: i32,
    /// The vertical coordinate of the bottom edge.
    pub bottom: i32,
}

impl QRect {
    /// The corner at the top left.
    pub open spec fn spec_top_left(self) -> QPoint {
        QPoint { x: self.left, y: self.top }
    }

    /// The corner at the top right.
    pub open spec fn spec_top_right(self) -> QPoint {
        QPoint { x: self.right, y: self.top }
    }

    /// The corner at the bottom right.
    pub open spec fn spec_bottom_right(self) -> QPoint {
        QPoint { x: self.right, y: self.bottom }
    }

    /// The corner at the bottom left.
    pub open spec fn spec_bottom_left(self) -> QPoint {
        QPoint { x: self.left, y: self.bottom }
    }

    /// Constructs the rectangle between two opposite corners.
    pub fn new(top_left: QPoint, bottom_right: QPoint) -> (rect: QRect)
        ensures
            rect.spec_top_left() == top_left,
            rect.spec_bottom_right() == bottom_right,
    {
        QRect { left: top_left.x, top: top_left.y, right: bottom_right.x, bottom: bottom_right.y }
    }

    /// The corner at the top left.
    #[verifier::when_used_as_spec(spec_top_left)]
    pub fn top_left(self) -> (corner: QPoint)
        ensures
            corner == self.spec_top_left(),
    {
        QPoint { x: self.left, y: self.top }
    }

    /// The corner at the top right.
    #[verifier::when_used_as_spec(spec_top_right)]
    pub fn top_right(self) -> (corner: QPoint)
        ensures
            corner == self.spec_top_right(),
    {
        QPoint { x: self.right, y: self.top }
    }

    /// The corner at the bottom right.
    #[verifier::when_used_as_spec(spec_bottom_right)]
    pub fn bottom_right(self) -> (corner: QPoint)
        ensures
            corner == self.spec_bottom_right(),
    {
        QPoint { x: self.right, y: self.bottom }
    }

    /// The corner at the bottom left.
    #[verifier::when_used_as_spec(spec_bottom_left)]
    pub fn bottom_left(self) -> (corner: QPoint)
        ensures
            corner == self.spec_bottom_left(),
    {
        QPoint { x: self.left, y: self.bottom }
    }
}

} // verus!
