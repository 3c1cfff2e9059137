use vstd::prelude::*;

verus! {

/// A length, as the host counts it.
pub type SizeType = i32;

/// A width and a height.
#[derive(Clone, Copy, Debug, PartialEq, Eq, Structural)]
pub struct Size {
    /// The width.
    pub width: SizeType,
    /// The height.
    pub height: SizeType,
}

impl Default for Size {
    fn default() -> (r: Self)
        ensures
            r == (Size { width: 0, height: 0 }),
    {
        Size { width: 0, height: 0 }
    }
}

impl Size {
    /// The size of a width and a height.
    pub fn new(width: SizeType, height: SizeType) -> (r: Self)
        ensures
            r == (Size { width, height }),
    {
        Self { width, height }
    }

    /// The size with another width.
    pub fn width(self, value: SizeType) -> (r: Self)
        ensures
            r == (Size { width: value, height: self.height }),
    {
        let mut sized = self;
        sized.width = value;
        sized
    }

    /// The size with another height.
    pub fn height(self, value: SizeType) -> (r: Self)
        ensures
            r == (Size { width: self.width, height: value }),
    {
        let mut sized = self;
        sized.height = value;
        sized
    }

    /// The size, wider by `value`.
    pub fn add_width(self, value: SizeType) -> (r: Self)
        requires
            i32::MIN <= self.width + value <= i32::MAX,
        ensures
            r.width == self.width + value,
            r.height == self.height,
    {
        let mut sized = self;
        sized.width = sized.width + value;
        sized
    }

    /// The size, higher by `value`.
    pub fn add_height(self, value: SizeType) -> (r: Self)
        requires
            i32::MIN <= self.height + value <= i32::MAX,
        ensures
            r.width == self.width,
            r.height == self.height + value,
    {
        let mut sized = self;
        sized.height = sized.height + value;
        sized
    }
}

} // verus!
