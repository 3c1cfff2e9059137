use vstd::prelude::*;

verus! {

/// A font of the host.
#[derive(Clone, Copy, Debug, PartialEq, Eq, Structural)]
pub enum Font {
    /// The font of the user interface, with letters of one width.
    Basic,
    /// The font of the user interface, with letters of their own widths.
    Proportional,
}

impl Font {
    /// The code by which the host names the font.
    pub open spec fn code(self) -> i32 {
        match self {
            Font::Basic => 0,
            Font::Proportional => 18,
        }
    }
}

impl From<Font> for i32 {
    fn from(value: Font) -> (r: i32) {
        match value {
            Font::Basic => 0,
            Font::Proportional => 18,
        }
    }
}

impl vstd::std_specs::convert::FromSpecImpl<Font> for i32 {
    open spec fn obeys_from_spec() -> bool {
        true
    }

    open spec fn from_spec(value: Font) -> i32 {
        value.code()
    }
}

/// The size of a character of a font.
#[derive(Clone, Copy, Debug, PartialEq, Eq, Structural)]
pub struct FontDimensions {
    /// The width of a character.
    pub width: i32,
    /// The height of a character.
    pub height: i32,
}

} // verus!
