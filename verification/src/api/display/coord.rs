use vstd::prelude::*;

verus! {

/// A coordinate, as the host counts it.
pub type CoordType = i32;

/// A point of the screen.
#[derive(Clone, Copy, Debug, PartialEq, Eq, Structural)]
pub struct Coord {
    /// The X coordinate.
    pub x: CoordType,
    /// The Y coordinate.
    pub y: CoordType,
}

impl Default for Coord {
    fn default() -> (r: Self)
        ensures
            r == (Coord { x: 0, y: 0 }),
    {
        Coord { x: 0, y: 0 }
    }
}

impl Coord {
    /// The point at the two coordinates.
    pub fn new(x: CoordType, y: CoordType) -> (r: Self)
        ensures
            r == (Coord { x, y }),
    {
        Self { x, y }
    }

    /// The point with another X coordinate.
    pub fn x(self, value: CoordType) -> (r: Self)
        ensures
            r == (Coord { x: value, y: self.y }),
    {
        let mut moved = self;
        moved.x = value;
        moved
    }

    /// The point with another Y coordinate.
    pub fn y(self, value: CoordType) -> (r: Self)
        ensures
            r == (Coord { x: self.x, y: value }),
    {
        let mut moved = self;
        moved.y = value;
        moved
    }

    /// The point `value` to the left.
    pub fn shift_left(self, value: CoordType) -> (r: Self)
        requires
            i32::MIN <= self.x - value <= i32::MAX,
        ensures
            r.x == self.x - value,
            r.y == self.y,
    {
        let mut moved = self;
        moved.x = moved.x - value;
        moved
    }

    /// The point `value` to the right.
    pub fn shift_right(self, value: CoordType) -> (r: Self)
        requires
            i32::MIN <= self.x + value <= i32::MAX,
        ensures
            r.x == self.x + value,
            r.y == self.y,
    {
        let mut moved = self;
        moved.x = moved.x + value;
        moved
    }

    /// The point `value` higher.
    pub fn shift_top(self, value: CoordType) -> (r: Self)
        requires
            i32::MIN <= self.y + value <= i32::MAX,
        ensures
            r.x == self.x,
            r.y == self.y + value,
    {
        let mut moved = self;
        moved.y = moved.y + value;
        moved
    }

    /// The point `value` lower.
    pub fn shift_bottom(self, value: CoordType) -> (r: Self)
        requires
            i32::MIN <= self.y - value <= i32::MAX,
        ensures
            r.x == self.x,
            r.y == self.y - value,
    {
        let mut moved = self;
        moved.y = moved.y - value;
        moved
    }
}

} // verus!
