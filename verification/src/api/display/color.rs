use vstd::prelude::*;

use crate::ffi::Single;

verus! {

/// The bits of the single-precision number one.
pub const ONE: u32 = 0x3F80_0000;

/// The bits of the single-precision number zero.
pub const ZERO: u32 = 0;

/// A color, as three parts between zero and one.
#[derive(Clone, Copy, Debug, PartialEq, Eq, Structural)]
pub struct Color {
    /// The red part.
    pub r: Single,
    /// The green part.
    pub g: Single,
    /// The blue part.
    pub b: Single,
}

impl Color {
    /// White: every part is one.
    pub fn white() -> (color: Self)
        ensures
            color == (Color { r: Single(ONE), g: Single(ONE), b: Single(ONE) }),
    {
        Self { r: Single(ONE), g: Single(ONE), b: Single(ONE) }
    }

    /// Black: every part is zero.
    pub fn black() -> (color: Self)
        ensures
            color == (Color { r: Single(ZERO), g: Single(ZERO), b: Single(ZERO) }),
    {
        Self { r: Single(ZERO), g: Single(ZERO), b: Single(ZERO) }
    }
}

impl Default for Color {
    fn default() -> (color: Self)
        ensures
            color == (Color { r: Single(ONE), g: Single(ONE), b: Single(ONE) }),
    {
        Self::white()
    }
}

} // verus!
