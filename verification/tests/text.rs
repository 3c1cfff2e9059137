use xplm::api::ffi::FromStringBuf;
use xplm::api::graphics::{
    bind_texture_2d, draw_number_with_digits, draw_string, draw_translucent_dark_box,
    font_dimensions, get_font_dimensions, local_to_world, measure_string, set_graphics_state,
    world_to_local, Font, FontDimensions, GraphicsCall, GraphicsError, GraphicsState,
    LocalPosition, WorldPosition,
};
use xplm::api::display::{Color, Coord, Rect};
use xplm::ffi::{
    c_str_bytes, c_str_length, c_string, text_from_bytes, Double, FromCStringBytes, NulError,
    Single, Utf8Error,
};
use xplm::log::{log_line, Level};

#[test]
fn c_string_ends_at_the_first_nul() {
    assert_eq!(c_str_length(b"abc\0def\0"), 3);
    assert_eq!(c_str_length(b"\0"), 0);
    assert_eq!(c_str_length(b""), 0);
    assert_eq!(c_str_length(b"abc"), 3);
    assert_eq!(c_str_bytes(b"abc\0def\0"), b"abc".to_vec());
    assert_eq!(c_str_bytes(b"abc"), b"abc".to_vec());
    assert_eq!(c_str_bytes(b"\0abc"), Vec::<u8>::new());
}

#[test]
fn text_for_the_host_gets_a_terminator() {
    assert_eq!(c_string("abc"), Ok(b"abc\0".to_vec()));
    assert_eq!(c_string(""), Ok(vec![0]));
    assert_eq!(c_string("ä"), Ok(vec![0xC3, 0xA4, 0]));
    assert_eq!(c_string("ab\0c\0"), Err(NulError { position: 2 }));
    assert_eq!(c_string("\0"), Err(NulError { position: 0 }));
}

#[test]
fn bytes_are_read_as_text() {
    assert_eq!(text_from_bytes(b"plain".to_vec()), Ok("plain".to_string()));
    assert_eq!(text_from_bytes(vec![0xE2, 0x82, 0xAC]), Ok("€".to_string()));
    assert_eq!(text_from_bytes(vec![]), Ok(String::new()));
    assert_eq!(text_from_bytes(vec![0xE2, 0x82]), Err(Utf8Error));
    assert_eq!(text_from_bytes(vec![0xFF]), Err(Utf8Error));
    assert_eq!(String::from_cstring_buffer(b"KBOS\0\xFF"), Ok("KBOS".to_string()));
    assert_eq!(String::from_cstring_buffer(b"\xFF\0"), Err(Utf8Error));
}

#[test]
fn buffer_of_c_characters_is_read_as_text() {
    let buf: [i8; 8] = [b'a' as i8, b'b' as i8, 0, b'c' as i8, 0, 0, 0, 0];
    assert_eq!(String::from_string_buf(buf), Ok("ab".to_string()));
    // Bytes above 127 arrive as negative characters.
    let buf: [i8; 3] = [0xC3u8 as i8, 0xA4u8 as i8, 0];
    assert_eq!(String::from_string_buf(buf), Ok("ä".to_string()));
    let buf: [i8; 2] = [b'x' as i8, b'y' as i8];
    assert_eq!(String::from_string_buf(buf), Ok("xy".to_string()));
    let buf: [i8; 2] = [-1, 0];
    assert_eq!(String::from_string_buf(buf), Err(Utf8Error));
    let buf: [i8; 0] = [];
    assert_eq!(String::from_string_buf(buf), Ok(String::new()));
}

#[test]
fn log_line_has_prefix_level_and_message() {
    assert_eq!(log_line(None, Level::Info, "started"), "INFO: started\n");
    assert_eq!(log_line(None, Level::Warn, "slow"), "WARNING: slow\n");
    assert_eq!(log_line(Some("[map]"), Level::Error, "no window"), "[map] ERROR: no window\n");
    assert_eq!(log_line(Some(""), Level::Info, ""), " INFO: \n");
    assert_eq!(Level::Info.label(), "INFO");
    assert_eq!(Level::Warn.label(), "WARNING");
    assert_eq!(Level::Error.label(), "ERROR");
}

#[test]
fn graphics_calls_carry_what_the_host_needs() {
    let state = GraphicsState::ui();
    assert_eq!(
        state,
        GraphicsState {
            enable_fog: 0,
            number_tex_units: 0,
            enable_lighting: 0,
            enable_alpha_testing: 0,
            enable_alpha_blending: 0,
            enable_depth_testing: 0,
            enable_depth_writing: 0,
        }
    );
    assert_eq!(set_graphics_state(&state), GraphicsCall::SetGraphicsState { state });
    assert_eq!(bind_texture_2d(3, 1), GraphicsCall::BindTexture2d { texture: 3, unit: 1 });
    assert_eq!(
        draw_translucent_dark_box(&Rect::new(1, 2, 3, 4)),
        GraphicsCall::DrawTranslucentDarkBox { left: 1, top: 2, right: 3, bottom: 4 }
    );
    assert_eq!(get_font_dimensions(Font::Basic), GraphicsCall::GetFontDimensions { font: 0 });
    assert_eq!(
        get_font_dimensions(Font::Proportional),
        GraphicsCall::GetFontDimensions { font: 18 }
    );
    assert_eq!(i32::from(Font::Proportional), 18);
    assert_eq!(font_dimensions(6, 10, 0), (FontDimensions { width: 6, height: 10 }, false));
    assert_eq!(font_dimensions(6, 10, 1), (FontDimensions { width: 6, height: 10 }, true));
    assert_eq!(font_dimensions(6, 10, -5), (FontDimensions { width: 6, height: 10 }, true));
}

#[test]
fn positions_carry_bits() {
    let d = |v: f64| Double(v.to_bits());
    let world = WorldPosition::default().latitude(d(47.5)).longitude(d(-122.3)).altitude(d(100.0));
    assert_eq!(
        world_to_local(&world),
        GraphicsCall::WorldToLocal {
            latitude: d(47.5),
            longitude: d(-122.3),
            altitude: d(100.0)
        }
    );
    let local = LocalPosition::default().x(d(1.0)).y(d(2.0)).z(d(3.0));
    assert_eq!(
        local_to_world(&local),
        GraphicsCall::LocalToWorld { x: d(1.0), y: d(2.0), z: d(3.0) }
    );
    assert_eq!(WorldPosition::default().latitude, d(0.0));
    assert_eq!(LocalPosition::default().z, d(0.0));
}

#[test]
fn text_is_drawn_and_measured_as_a_c_string() {
    let one = Single(1.0f32.to_bits());
    assert_eq!(
        draw_string("N123", Font::Proportional, &Color::white(), &Coord::new(5, 6)),
        Ok(GraphicsCall::DrawString {
            red: one,
            green: one,
            blue: one,
            x: 5,
            y: 6,
            text: b"N123\0".to_vec(),
            font: 18
        })
    );
    assert_eq!(
        draw_string("N\0", Font::Basic, &Color::black(), &Coord::default()),
        Err(GraphicsError::InvalidString(NulError { position: 1 }))
    );
    assert_eq!(
        measure_string("N123", Font::Basic, 4),
        Ok(GraphicsCall::MeasureString { font: 0, text: b"N123\0".to_vec(), chars: 4 })
    );
    assert_eq!(
        measure_string("\0", Font::Basic, 1),
        Err(GraphicsError::InvalidString(NulError { position: 0 }))
    );
    let zero = Single(0);
    assert_eq!(
        draw_number_with_digits(
            Double(3.25f64.to_bits()),
            Font::Basic,
            &Color::black(),
            &Coord::new(1, 2),
            4,
            2
        ),
        GraphicsCall::DrawNumber {
            red: zero,
            green: zero,
            blue: zero,
            x: 1,
            y: 2,
            value: Double(3.25f64.to_bits()),
            digits: 4,
            decimals: 2,
            show_sign: 1,
            font: 0
        }
    );
}
