pub mod error;
pub mod font;
pub mod position;
pub mod state;

use vstd::prelude::*;
use vstd::string::StringSliceAdditionalSpecFns;

pub use self::error::GraphicsError;
pub use self::font::{Font, FontDimensions};
pub use self::position::{LocalPosition, WorldPosition};
pub use self::state::GraphicsState;

use super::display::{Color, Coord, Rect};
use crate::ffi::{c_str_len, c_string, nul_free, Double, NulError, Single};

verus! {

/// What the functions of this interface give back.
pub type Result<T> = std::result::Result<T, GraphicsError>;

/// A call into the host's graphics interface: which function, and what is
/// handed to it. Text stands as C strings.
#[derive(Clone, Debug, PartialEq, Eq)]
#[allow(inconsistent_fields)]
pub enum GraphicsCall {
    /// Sets the state of the drawing pipeline.
    SetGraphicsState { state: GraphicsState },
    /// Binds a texture to a texture unit.
    BindTexture2d { texture: i32, unit: i32 },
    /// Asks for the place in the scene of a place in the world.
    WorldToLocal { latitude: Double, longitude: Double, altitude: Double },
    /// Asks for the place in the world of a place in the scene.
    LocalToWorld { x: Double, y: Double, z: Double },
    /// Draws a dark box that can be seen through.
    DrawTranslucentDarkBox { left: i32, top: i32, right: i32, bottom: i32 },
    /// Draws a text, without wrapping it.
    DrawString {
        red: Single,
        green: Single,
        blue: Single,
        x: i32,
        y: i32,
        text: Vec<u8>,
        font: i32,
    },
    /// Draws a number.
    DrawNumber {
        red: Single,
        green: Single,
        blue: Single,
        x: i32,
        y: i32,
        value: Double,
        digits: i32,
        decimals: i32,
        show_sign: i32,
        font: i32,
    },
    /// Asks for the size of a character of a font.
    GetFontDimensions { font: i32 },
    /// Asks for the length of a text in a font.
    MeasureString { font: i32, text: Vec<u8>, chars: i32 },
}

/// The call that sets the state of the drawing pipeline.
pub fn set_graphics_state(state: &GraphicsState) -> (call: GraphicsCall)
    ensures
        call == (GraphicsCall::SetGraphicsState { state: *state }),
{
    GraphicsCall::SetGraphicsState { state: *state }
}

/// The call that binds a texture to a texture unit.
pub fn bind_texture_2d(num: i32, unit: i32) -> (call: GraphicsCall)
    ensures
        call == (GraphicsCall::BindTexture2d { texture: num, unit }),
{
    GraphicsCall::BindTexture2d { texture: num, unit }
}

/// The call that asks for the place in the scene of a place in the world.
pub fn world_to_local(world: &WorldPosition) -> (call: GraphicsCall)
    ensures
        call == (GraphicsCall::WorldToLocal {
            latitude: world.latitude,
            longitude: world.longitude,
            altitude: world.altitude,
        }),
{
    GraphicsCall::WorldToLocal {
        latitude: world.latitude,
        longitude: world.longitude,
        altitude: world.altitude,
    }
}

/// The call that asks for the place in the world of a place in the scene.
pub fn local_to_world(local: &LocalPosition) -> (call: GraphicsCall)
    ensures
        call == (GraphicsCall::LocalToWorld { x: local.x, y: local.y, z: local.z }),
{
    GraphicsCall::LocalToWorld { x: local.x, y: local.y, z: local.z }
}

/// The call that draws a dark box that can be seen through.
pub fn draw_translucent_dark_box(rect: &Rect) -> (call: GraphicsCall)
    ensures
        call == (GraphicsCall::DrawTranslucentDarkBox {
            left: rect.left,
            top: rect.top,
            right: rect.right,
            bottom: rect.bottom,
        }),
{
    GraphicsCall::DrawTranslucentDarkBox {
        left: rect.left,
        top: rect.top,
        right: rect.right,
        bottom: rect.bottom,
    }
}

/// The call that draws a text in a font and a color at a place.
pub fn draw_string(value: &str, font: Font, color: &Color, coord: &Coord) -> (r: Result<
    GraphicsCall,
>)
    ensures
        r is Ok <==> nul_free(value.spec_bytes()),
        r matches Ok(call) ==> call matches GraphicsCall::DrawString {
            red,
            green,
            blue,
            x,
            y,
            text,
            font: code,
        } && red == color.r && green == color.g && blue == color.b && x == coord.x && y == coord.y
            && text@ == value.spec_bytes().push(0) && code == font.code(),
        r matches Err(e) ==> e == GraphicsError::InvalidString(
            NulError { position: c_str_len(value.spec_bytes()) as usize },
        ),
{
    match c_string(value) {
        Ok(text) => Ok(
            GraphicsCall::DrawString {
                red: color.r,
                green: color.g,
                blue: color.b,
                x: coord.x,
                y: coord.y,
                text,
                font: i32::from(font),
            },
        ),
        Err(e) => Err(GraphicsError::InvalidString(e)),
    }
}

/// The call that draws a number with so many digits before and after the
/// point, with its sign.
pub fn draw_number_with_digits(
    value: Double,
    font: Font,
    color: &Color,
    coord: &Coord,
    digits: u8,
    decimals: u8,
) -> (call: GraphicsCall)
    ensures
        call == (GraphicsCall::DrawNumber {
            red: color.r,
            green: color.g,
            blue: color.b,
            x: coord.x,
            y: coord.y,
            value,
            digits: digits as i32,
            decimals: decimals as i32,
            show_sign: 1,
            font: font.code(),
        }),
{
    GraphicsCall::DrawNumber {
        red: color.r,
        green: color.g,
        blue: color.b,
        x: coord.x,
        y: coord.y,
        value,
        digits: digits as i32,
        decimals: decimals as i32,
        show_sign: 1,
        font: i32::from(font),
    }
}

/// The call that asks for the size of a character of a font.
/// [`font_dimensions`] reads the answer.
pub fn get_font_dimensions(font: Font) -> (call: GraphicsCall)
    ensures
        call == (GraphicsCall::GetFontDimensions { font: font.code() }),
{
    GraphicsCall::GetFontDimensions { font: i32::from(font) }
}

/// Reads the three numbers that the host filled in for a font: the size of a
/// character, and whether the font has digits only.
pub fn font_dimensions(width: i32, height: i32, digits: i32) -> (r: (FontDimensions, bool))
    ensures
        r.0 == (FontDimensions { width, height }),
        r.1 == (digits != 0),
{
    (FontDimensions { width, height }, digits != 0)
}

/// The call that asks for the length of the first `len` characters of a text
/// in a font.
pub fn measure_string(value: &str, font: Font, len: usize) -> (r: Result<GraphicsCall>)
    ensures
        r is Ok <==> nul_free(value.spec_bytes()),
        r matches Ok(call) ==> call matches GraphicsCall::MeasureString {
            font: code,
            text,
            chars,
        } && code == font.code() && text@ == value.spec_bytes().push(0) && chars == len as i32,
        r matches Err(e) ==> e == GraphicsError::InvalidString(
            NulError { position: c_str_len(value.spec_bytes()) as usize },
        ),
{
    match c_string(value) {
        Ok(text) => Ok(
            GraphicsCall::MeasureString {
                font: i32::from(font),
                text,
                chars: #[verifier::truncate]
                (len as i32),
            },
        ),
        Err(e) => Err(GraphicsError::InvalidString(e)),
    }
}

} // verus!
