use vstd::prelude::*;

use super::coord::Coord;
use super::size::Size;

verus! {

/// A coordinate of a rectangle, as the host counts it.
pub type RectCoordType = i32;

/// A rectangle of the screen. The Y axis points up: the top is above the
/// bottom.
#[derive(Clone, Copy, Debug, PartialEq, Eq, Structural)]
pub struct Rect {
    /// The left edge.
    pub left: RectCoordType,
    /// The top edge.
    pub top: RectCoordType,
    /// The right edge.
    pub right: RectCoordType,
    /// The bottom edge.
    pub bottom: RectCoordType,
}

impl Default for Rect {
    fn default() -> (r: Self)
        ensures
            r == (Rect { left: 0, top: 0, right: 0, bottom: 0 }),
    {
        Rect { left: 0, top: 0, right: 0, bottom: 0 }
    }
}

/// Half of a length, rounded towards zero.
pub open spec fn half(v: int) -> int {
    if v >= 0 {
        v / 2
    } else {
        -((-v) / 2)
    }
}

impl Rect {
    /// The rectangle of four edges.
    pub fn new(
        left: RectCoordType,
        top: RectCoordType,
        right: RectCoordType,
        bottom: RectCoordType,
    ) -> (r: Self)
        ensures
            r == (Rect { left, top, right, bottom }),
    {
        Self { left, top, right, bottom }
    }

    /// The rectangle with another left edge.
    pub fn left(self, value: RectCoordType) -> (r: Self)
        ensures
            r == (Rect { left: value, ..self }),
    {
        let mut rect = self;
        rect.left = value;
        rect
    }

    /// The rectangle with another top edge.
    pub fn top(self, value: RectCoordType) -> (r: Self)
        ensures
            r == (Rect { top: value, ..self }),
    {
        let mut rect = self;
        rect.top = value;
        rect
    }

    /// The rectangle with another right edge.
    pub fn right(self, value: RectCoordType) -> (r: Self)
        ensures
            r == (Rect { right: value, ..self }),
    {
        let mut rect = self;
        rect.right = value;
        rect
    }

    /// The rectangle with another bottom edge.
    pub fn bottom(self, value: RectCoordType) -> (r: Self)
        ensures
            r == (Rect { bottom: value, ..self }),
    {
        let mut rect = self;
        rect.bottom = value;
        rect
    }

    /// The width and the height of the rectangle fit the host's integers.
    pub open spec fn spans(self) -> bool {
        &&& i32::MIN <= self.right - self.left <= i32::MAX
        &&& i32::MIN <= self.top - self.bottom <= i32::MAX
    }

    /// The center of the rectangle: half the width from the left edge and
    /// half the height from the bottom edge.
    pub open spec fn center_point(self) -> Coord {
        Coord {
            x: (self.left + half(self.right - self.left)) as i32,
            y: (self.bottom + half(self.top - self.bottom)) as i32,
        }
    }

    /// The center of the rectangle.
    pub fn center(&self) -> (r: Coord)
        requires
            self.spans(),
        ensures
            r == self.center_point(),
            r.x == self.left + half(self.right - self.left),
            r.y == self.bottom + half(self.top - self.bottom),
    {
        let x = self.left + ((self.right - self.left) / 2);
        let y = self.bottom + ((self.top - self.bottom) / 2);
        Coord::default().x(x).y(y)
    }

    /// The rectangle of the given size around a center.
    pub open spec fn around(center: Coord, size: Size) -> Rect {
        Rect {
            left: (center.x - half(size.width as int)) as i32,
            top: (center.y + half(size.height as int)) as i32,
            right: (center.x + half(size.width as int)) as i32,
            bottom: (center.y - half(size.height as int)) as i32,
        }
    }

    /// The edges of the rectangle of the given size around the center of this
    /// one fit the host's integers.
    pub open spec fn holds(self, size: Size) -> bool {
        let center = self.center_point();
        &&& self.spans()
        &&& i32::MIN <= center.x - half(size.width as int)
        &&& center.x + half(size.width as int) <= i32::MAX
        &&& i32::MIN <= center.y - half(size.height as int)
        &&& center.y + half(size.height as int) <= i32::MAX
        &&& i32::MIN <= center.x + half(size.width as int)
        &&& center.x - half(size.width as int) <= i32::MAX
        &&& i32::MIN <= center.y + half(size.height as int)
        &&& center.y - half(size.height as int) <= i32::MAX
    }

    /// Shrinks the rectangle to a size, around its center.
    pub fn shrink(self, size: &Size) -> (r: Self)
        requires
            self.holds(*size),
        ensures
            r == Rect::around(self.center_point(), *size),
            r.left == self.center_point().x - half(size.width as int),
            r.right == self.center_point().x + half(size.width as int),
            r.top == self.center_point().y + half(size.height as int),
            r.bottom == self.center_point().y - half(size.height as int),
    {
        let center = self.center();
        let half_width = size.width / 2;
        let half_height = size.height / 2;
        Self {
            left: center.x - half_width,
            top: center.y + half_height,
            right: center.x + half_width,
            bottom: center.y - half_height,
        }
    }
}

} // verus!
