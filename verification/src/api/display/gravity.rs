use vstd::prelude::*;

use crate::ffi::Single;

verus! {

/// How the edges of a window follow the edges of the screen when it is
/// resized: for each edge a weight, 0 for the left or bottom of the screen
/// and 1 for the right or top.
#[derive(Clone, Copy, Debug, PartialEq, Eq, Structural)]
pub struct WindowGravityRect {
    /// The weight of the left edge.
    pub left: Single,
    /// The weight of the top edge.
    pub top: Single,
    /// The weight of the right edge.
    pub right: Single,
    /// The weight of the bottom edge.
    pub bottom: Single,
}

impl Default for WindowGravityRect {
    fn default() -> (r: Self)
        ensures
            r == (WindowGravityRect {
                left: Single(0),
                top: Single(0),
                right: Single(0),
                bottom: Single(0),
            }),
    {
        WindowGravityRect { left: Single(0), top: Single(0), right: Single(0), bottom: Single(0) }
    }
}

impl WindowGravityRect {
    /// The gravity of four weights.
    pub fn new(left: Single, top: Single, right: Single, bottom: Single) -> (r: Self)
        ensures
            r == (WindowGravityRect { left, top, right, bottom }),
    {
        Self { left, top, right, bottom }
    }

    /// The gravity with another weight of the left edge.
    pub fn left(self, value: Single) -> (r: Self)
        ensures
            r == (WindowGravityRect { left: value, ..self }),
    {
        let mut rect = self;
        rect.left = value;
        rect
    }

    /// The gravity with another weight of the top edge.
    pub fn top(self, value: Single) -> (r: Self)
        ensures
            r == (WindowGravityRect { top: value, ..self }),
    {
        let mut rect = self;
        rect.top = value;
        rect
    }

    /// The gravity with another weight of the right edge.
    pub fn right(self, value: Single) -> (r: Self)
        ensures
            r == (WindowGravityRect { right: value, ..self }),
    {
        let mut rect = self;
        rect.right = value;
        rect
    }

    /// The gravity with another weight of the bottom edge.
    pub fn bottom(self, value: Single) -> (r: Self)
        ensures
            r == (WindowGravityRect { bottom: value, ..self }),
    {
        let mut rect = self;
        rect.bottom = value;
        rect
    }
}

} // verus!
