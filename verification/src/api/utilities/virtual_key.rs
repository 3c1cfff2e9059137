use vstd::prelude::*;
use vstd::std_specs::convert::TryFromSpec;

use super::error::UtilitiesError;
use crate::ffi::{byte, byte_of, c_char, char_of};

verus! {

/// A key of the keyboard, whatever the platform calls it.
#[derive(Clone, Copy, Debug, PartialEq, Eq, Structural)]
pub enum VirtualKey {
    Back,
    Tab,
    Clear,
    Return,
    Escape,
    Space,
    Prior,
    Next,
    End,
    Home,
    Left,
    Up,
    Right,
    Down,
    Select,
    Print,
    Execute,
    Snapshot,
    Insert,
    Delete,
    Help,
    Zero,
    One,
    Two,
    Three,
    Four,
    Five,
    Six,
    Seven,
    Eight,
    Nine,
    A,
    B,
    C,
    D,
    E,
    F,
    G,
    H,
    I,
    J,
    K,
    L,
    M,
    N,
    O,
    P,
    Q,
    R,
    S,
    T,
    U,
    V,
    W,
    X,
    Y,
    Z,
    Numpad0,
    Numpad1,
    Numpad2,
    Numpad3,
    Numpad4,
    Numpad5,
    Numpad6,
    Numpad7,
    Numpad8,
    Numpad9,
    Multiply,
    Add,
    Separator,
    Subtract,
    Decimal,
    Divide,
    F1,
    F2,
    F3,
    F4,
    F5,
    F6,
    F7,
    F8,
    F9,
    F10,
    F11,
    F12,
    F13,
    F14,
    F15,
    F16,
    F17,
    F18,
    F19,
    F20,
    F21,
    F22,
    F23,
    F24,
    Equal,
    Minus,
    RBrace,
    LBrace,
    Quote,
    Semicolon,
    Backslash,
    Comma,
    Slash,
    Period,
    Backquote,
    Enter,
    NumpadEnter,
    NumpadEq,
}

impl VirtualKey {
    /// The code by which the host knows the key.
    pub open spec fn code(self) -> u8 {
        match self {
            VirtualKey::Back => 0x08,
            VirtualKey::Tab => 0x09,
            VirtualKey::Clear => 0x0C,
            VirtualKey::Return => 0x0D,
            VirtualKey::Escape => 0x1B,
            VirtualKey::Space => 0x20,
            VirtualKey::Prior => 0x21,
            VirtualKey::Next => 0x22,
            VirtualKey::End => 0x23,
            VirtualKey::Home => 0x24,
            VirtualKey::Left => 0x25,
            VirtualKey::Up => 0x26,
            VirtualKey::Right => 0x27,
            VirtualKey::Down => 0x28,
            VirtualKey::Select => 0x29,
            VirtualKey::Print => 0x2A,
            VirtualKey::Execute => 0x2B,
            VirtualKey::Snapshot => 0x2C,
            VirtualKey::Insert => 0x2D,
            VirtualKey::Delete => 0x2E,
            VirtualKey::Help => 0x2F,
            VirtualKey::Zero => 0x30,
            VirtualKey::One => 0x31,
            VirtualKey::Two => 0x32,
            VirtualKey::Three => 0x33,
            VirtualKey::Four => 0x34,
            VirtualKey::Five => 0x35,
            VirtualKey::Six => 0x36,
            VirtualKey::Seven => 0x37,
            VirtualKey::Eight => 0x38,
            VirtualKey::Nine => 0x39,
            VirtualKey::A => 0x41,
            VirtualKey::B => 0x42,
            VirtualKey::C => 0x43,
            VirtualKey::D => 0x44,
            VirtualKey::E => 0x45,
            VirtualKey::F => 0x46,
            VirtualKey::G => 0x47,
            VirtualKey::H => 0x48,
            VirtualKey::I => 0x49,
            VirtualKey::J => 0x4A,
            VirtualKey::K => 0x4B,
            VirtualKey::L => 0x4C,
            VirtualKey::M => 0x4D,
            VirtualKey::N => 0x4E,
            VirtualKey::O => 0x4F,
            VirtualKey::P => 0x50,
            VirtualKey::Q => 0x51,
            VirtualKey::R => 0x52,
            VirtualKey::S => 0x53,
            VirtualKey::T => 0x54,
            VirtualKey::U => 0x55,
            VirtualKey::V => 0x56,
            VirtualKey::W => 0x57,
            VirtualKey::X => 0x58,
            VirtualKey::Y => 0x59,
            VirtualKey::Z => 0x5A,
            VirtualKey::Numpad0 => 0x60,
            VirtualKey::Numpad1 => 0x61,
            VirtualKey::Numpad2 => 0x62,
            VirtualKey::Numpad3 => 0x63,
            VirtualKey::Numpad4 => 0x64,
            VirtualKey::Numpad5 => 0x65,
            VirtualKey::Numpad6 => 0x66,
            VirtualKey::Numpad7 => 0x67,
            VirtualKey::Numpad8 => 0x68,
            VirtualKey::Numpad9 => 0x69,
            VirtualKey::Multiply => 0x6A,
            VirtualKey::Add => 0x6B,
            VirtualKey::Separator => 0x6C,
            VirtualKey::Subtract => 0x6D,
            VirtualKey::Decimal => 0x6E,
            VirtualKey::Divide => 0x6F,
            VirtualKey::F1 => 0x70,
            VirtualKey::F2 => 0x71,
            VirtualKey::F3 => 0x72,
            VirtualKey::F4 => 0x73,
            VirtualKey::F5 => 0x74,
            VirtualKey::F6 => 0x75,
            VirtualKey::F7 => 0x76,
            VirtualKey::F8 => 0x77,
            VirtualKey::F9 => 0x78,
            VirtualKey::F10 => 0x79,
            VirtualKey::F11 => 0x7A,
            VirtualKey::F12 => 0x7B,
            VirtualKey::F13 => 0x7C,
            VirtualKey::F14 => 0x7D,
            VirtualKey::F15 => 0x7E,
            VirtualKey::F16 => 0x7F,
            VirtualKey::F17 => 0x80,
            VirtualKey::F18 => 0x81,
            VirtualKey::F19 => 0x82,
            VirtualKey::F20 => 0x83,
            VirtualKey::F21 => 0x84,
            VirtualKey::F22 => 0x85,
            VirtualKey::F23 => 0x86,
            VirtualKey::F24 => 0x87,
            VirtualKey::Equal => 0xB0,
            VirtualKey::Minus => 0xB1,
            VirtualKey::RBrace => 0xB2,
            VirtualKey::LBrace => 0xB3,
            VirtualKey::Quote => 0xB4,
            VirtualKey::Semicolon => 0xB5,
            VirtualKey::Backslash => 0xB6,
            VirtualKey::Comma => 0xB7,
            VirtualKey::Slash => 0xB8,
            VirtualKey::Period => 0xB9,
            VirtualKey::Backquote => 0xBA,
            VirtualKey::Enter => 0xBB,
            VirtualKey::NumpadEnter => 0xBC,
            VirtualKey::NumpadEq => 0xBD,
        }
    }

    /// The code by which the host knows the key.
    pub fn code_of(self) -> (code: u8)
        ensures
            code == self.code(),
    {
        match self {
            VirtualKey::Back => 0x08,
            VirtualKey::Tab => 0x09,
            VirtualKey::Clear => 0x0C,
            VirtualKey::Return => 0x0D,
            VirtualKey::Escape => 0x1B,
            VirtualKey::Space => 0x20,
            VirtualKey::Prior => 0x21,
            VirtualKey::Next => 0x22,
            VirtualKey::End => 0x23,
            VirtualKey::Home => 0x24,
            VirtualKey::Left => 0x25,
            VirtualKey::Up => 0x26,
            VirtualKey::Right => 0x27,
            VirtualKey::Down => 0x28,
            VirtualKey::Select => 0x29,
            VirtualKey::Print => 0x2A,
            VirtualKey::Execute => 0x2B,
            VirtualKey::Snapshot => 0x2C,
            VirtualKey::Insert => 0x2D,
            VirtualKey::Delete => 0x2E,
            VirtualKey::Help => 0x2F,
            VirtualKey::Zero => 0x30,
            VirtualKey::One => 0x31,
            VirtualKey::Two => 0x32,
            VirtualKey::Three => 0x33,
            VirtualKey::Four => 0x34,
            VirtualKey::Five => 0x35,
            VirtualKey::Six => 0x36,
            VirtualKey::Seven => 0x37,
            VirtualKey::Eight => 0x38,
            VirtualKey::Nine => 0x39,
            VirtualKey::A => 0x41,
            VirtualKey::B => 0x42,
            VirtualKey::C => 0x43,
            VirtualKey::D => 0x44,
            VirtualKey::E => 0x45,
            VirtualKey::F => 0x46,
            VirtualKey::G => 0x47,
            VirtualKey::H => 0x48,
            VirtualKey::I => 0x49,
            VirtualKey::J => 0x4A,
            VirtualKey::K => 0x4B,
            VirtualKey::L => 0x4C,
            VirtualKey::M => 0x4D,
            VirtualKey::N => 0x4E,
            VirtualKey::O => 0x4F,
            VirtualKey::P => 0x50,
            VirtualKey::Q => 0x51,
            VirtualKey::R => 0x52,
            VirtualKey::S => 0x53,
            VirtualKey::T => 0x54,
            VirtualKey::U => 0x55,
            VirtualKey::V => 0x56,
            VirtualKey::W => 0x57,
            VirtualKey::X => 0x58,
            VirtualKey::Y => 0x59,
            VirtualKey::Z => 0x5A,
            VirtualKey::Numpad0 => 0x60,
            VirtualKey::Numpad1 => 0x61,
            VirtualKey::Numpad2 => 0x62,
            VirtualKey::Numpad3 => 0x63,
            VirtualKey::Numpad4 => 0x64,
            VirtualKey::Numpad5 => 0x65,
            VirtualKey::Numpad6 => 0x66,
            VirtualKey::Numpad7 => 0x67,
            VirtualKey::Numpad8 => 0x68,
            VirtualKey::Numpad9 => 0x69,
            VirtualKey::Multiply => 0x6A,
            VirtualKey::Add => 0x6B,
            VirtualKey::Separator => 0x6C,
            VirtualKey::Subtract => 0x6D,
            VirtualKey::Decimal => 0x6E,
            VirtualKey::Divide => 0x6F,
            VirtualKey::F1 => 0x70,
            VirtualKey::F2 => 0x71,
            VirtualKey::F3 => 0x72,
            VirtualKey::F4 => 0x73,
            VirtualKey::F5 => 0x74,
            VirtualKey::F6 => 0x75,
            VirtualKey::F7 => 0x76,
            VirtualKey::F8 => 0x77,
            VirtualKey::F9 => 0x78,
            VirtualKey::F10 => 0x79,
            VirtualKey::F11 => 0x7A,
            VirtualKey::F12 => 0x7B,
            VirtualKey::F13 => 0x7C,
            VirtualKey::F14 => 0x7D,
            VirtualKey::F15 => 0x7E,
            VirtualKey::F16 => 0x7F,
            VirtualKey::F17 => 0x80,
            VirtualKey::F18 => 0x81,
            VirtualKey::F19 => 0x82,
            VirtualKey::F20 => 0x83,
            VirtualKey::F21 => 0x84,
            VirtualKey::F22 => 0x85,
            VirtualKey::F23 => 0x86,
            VirtualKey::F24 => 0x87,
            VirtualKey::Equal => 0xB0,
            VirtualKey::Minus => 0xB1,
            VirtualKey::RBrace => 0xB2,
            VirtualKey::LBrace => 0xB3,
            VirtualKey::Quote => 0xB4,
            VirtualKey::Semicolon => 0xB5,
            VirtualKey::Backslash => 0xB6,
            VirtualKey::Comma => 0xB7,
            VirtualKey::Slash => 0xB8,
            VirtualKey::Period => 0xB9,
            VirtualKey::Backquote => 0xBA,
            VirtualKey::Enter => 0xBB,
            VirtualKey::NumpadEnter => 0xBC,
            VirtualKey::NumpadEq => 0xBD,
        }
    }

    /// The key as the host takes it: the C character that holds its code.
    pub open spec fn raw(self) -> i8 {
        char_of(self.code())
    }

    /// The key as the host takes it: the C character that holds its code.
    pub fn native(self) -> (raw: i8)
        ensures
            raw == self.raw(),
            byte_of(raw) == self.code(),
    {
        c_char(self.code_of())
    }

    /// Different keys have different codes.
    pub proof fn lemma_code_names_one_key(self, other: Self)
        ensures
            self.code() == other.code() <==> self == other,
    {
    }

    /// Every key is read back from the character that the host takes for
    /// it.
    pub proof fn lemma_decoding_inverts_native(self)
        ensures
            byte_of(self.raw()) == self.code(),
            VirtualKey::try_from_spec(self.raw()) == Ok::<VirtualKey, UtilitiesError>(self),
    {
        assert(byte_of(self.raw()) == self.code());
        let named = choose|key: VirtualKey| #[trigger] key.code() == byte_of(self.raw());
        self.lemma_code_names_one_key(named);
    }
}

impl TryFrom<i8> for VirtualKey {
    type Error = UtilitiesError;

    /// The key that a C character from the host stands for: the key whose
    /// code is the byte that the character holds. A code above 127 arrives
    /// as a negative character.
    fn try_from(value: i8) -> (r: Result<Self, UtilitiesError>)
        ensures
            match r {
                Ok(key) => key.code() == byte_of(value),
                Err(e) => e == UtilitiesError::InvalidVirtualKey(value) && forall|key: VirtualKey|
                    #[trigger] key.code() != byte_of(value),
            },
    {
        let r = match byte(value) {
            0x08 => Ok(VirtualKey::Back),
            0x09 => Ok(VirtualKey::Tab),
            0x0C => Ok(VirtualKey::Clear),
            0x0D => Ok(VirtualKey::Return),
            0x1B => Ok(VirtualKey::Escape),
            0x20 => Ok(VirtualKey::Space),
            0x21 => Ok(VirtualKey::Prior),
            0x22 => Ok(VirtualKey::Next),
            0x23 => Ok(VirtualKey::End),
            0x24 => Ok(VirtualKey::Home),
            0x25 => Ok(VirtualKey::Left),
            0x26 => Ok(VirtualKey::Up),
            0x27 => Ok(VirtualKey::Right),
            0x28 => Ok(VirtualKey::Down),
            0x29 => Ok(VirtualKey::Select),
            0x2A => Ok(VirtualKey::Print),
            0x2B => Ok(VirtualKey::Execute),
            0x2C => Ok(VirtualKey::Snapshot),
            0x2D => Ok(VirtualKey::Insert),
            0x2E => Ok(VirtualKey::Delete),
            0x2F => Ok(VirtualKey::Help),
            0x30 => Ok(VirtualKey::Zero),
            0x31 => Ok(VirtualKey::One),
            0x32 => Ok(VirtualKey::Two),
            0x33 => Ok(VirtualKey::Three),
            0x34 => Ok(VirtualKey::Four),
            0x35 => Ok(VirtualKey::Five),
            0x36 => Ok(VirtualKey::Six),
            0x37 => Ok(VirtualKey::Seven),
            0x38 => Ok(VirtualKey::Eight),
            0x39 => Ok(VirtualKey::Nine),
            0x41 => Ok(VirtualKey::A),
            0x42 => Ok(VirtualKey::B),
            0x43 => Ok(VirtualKey::C),
            0x44 => Ok(VirtualKey::D),
            0x45 => Ok(VirtualKey::E),
            0x46 => Ok(VirtualKey::F),
            0x47 => Ok(VirtualKey::G),
            0x48 => Ok(VirtualKey::H),
            0x49 => Ok(VirtualKey::I),
            0x4A => Ok(VirtualKey::J),
            0x4B => Ok(VirtualKey::K),
            0x4C => Ok(VirtualKey::L),
            0x4D => Ok(VirtualKey::M),
            0x4E => Ok(VirtualKey::N),
            0x4F => Ok(VirtualKey::O),
            0x50 => Ok(VirtualKey::P),
            0x51 => Ok(VirtualKey::Q),
            0x52 => Ok(VirtualKey::R),
            0x53 => Ok(VirtualKey::S),
            0x54 => Ok(VirtualKey::T),
            0x55 => Ok(VirtualKey::U),
            0x56 => Ok(VirtualKey::V),
            0x57 => Ok(VirtualKey::W),
            0x58 => Ok(VirtualKey::X),
            0x59 => Ok(VirtualKey::Y),
            0x5A => Ok(VirtualKey::Z),
            0x60 => Ok(VirtualKey::Numpad0),
            0x61 => Ok(VirtualKey::Numpad1),
            0x62 => Ok(VirtualKey::Numpad2),
            0x63 => Ok(VirtualKey::Numpad3),
            0x64 => Ok(VirtualKey::Numpad4),
            0x65 => Ok(VirtualKey::Numpad5),
            0x66 => Ok(VirtualKey::Numpad6),
            0x67 => Ok(VirtualKey::Numpad7),
            0x68 => Ok(VirtualKey::Numpad8),
            0x69 => Ok(VirtualKey::Numpad9),
            0x6A => Ok(VirtualKey::Multiply),
            0x6B => Ok(VirtualKey::Add),
            0x6C => Ok(VirtualKey::Separator),
            0x6D => Ok(VirtualKey::Subtract),
            0x6E => Ok(VirtualKey::Decimal),
            0x6F => Ok(VirtualKey::Divide),
            0x70 => Ok(VirtualKey::F1),
            0x71 => Ok(VirtualKey::F2),
            0x72 => Ok(VirtualKey::F3),
            0x73 => Ok(VirtualKey::F4),
            0x74 => Ok(VirtualKey::F5),
            0x75 => Ok(VirtualKey::F6),
            0x76 => Ok(VirtualKey::F7),
            0x77 => Ok(VirtualKey::F8),
            0x78 => Ok(VirtualKey::F9),
            0x79 => Ok(VirtualKey::F10),
            0x7A => Ok(VirtualKey::F11),
            0x7B => Ok(VirtualKey::F12),
            0x7C => Ok(VirtualKey::F13),
            0x7D => Ok(VirtualKey::F14),
            0x7E => Ok(VirtualKey::F15),
            0x7F => Ok(VirtualKey::F16),
            0x80 => Ok(VirtualKey::F17),
            0x81 => Ok(VirtualKey::F18),
            0x82 => Ok(VirtualKey::F19),
            0x83 => Ok(VirtualKey::F20),
            0x84 => Ok(VirtualKey::F21),
            0x85 => Ok(VirtualKey::F22),
            0x86 => Ok(VirtualKey::F23),
            0x87 => Ok(VirtualKey::F24),
            0xB0 => Ok(VirtualKey::Equal),
            0xB1 => Ok(VirtualKey::Minus),
            0xB2 => Ok(VirtualKey::RBrace),
            0xB3 => Ok(VirtualKey::LBrace),
            0xB4 => Ok(VirtualKey::Quote),
            0xB5 => Ok(VirtualKey::Semicolon),
            0xB6 => Ok(VirtualKey::Backslash),
            0xB7 => Ok(VirtualKey::Comma),
            0xB8 => Ok(VirtualKey::Slash),
            0xB9 => Ok(VirtualKey::Period),
            0xBA => Ok(VirtualKey::Backquote),
            0xBB => Ok(VirtualKey::Enter),
            0xBC => Ok(VirtualKey::NumpadEnter),
            0xBD => Ok(VirtualKey::NumpadEq),
            _ => Err(UtilitiesError::InvalidVirtualKey(value)),
        };
        proof {
            if let Ok(key) = r {
                assert(key.code() == byte_of(value));
                let named = choose|key: VirtualKey| #[trigger] key.code() == byte_of(value);
                key.lemma_code_names_one_key(named);
            }
        }
        r
    }
}

impl vstd::std_specs::convert::TryFromSpecImpl<i8> for VirtualKey {
    open spec fn obeys_try_from_spec() -> bool {
        true
    }

    open spec fn try_from_spec(value: i8) -> Result<Self, UtilitiesError> {
        if exists|key: VirtualKey| #[trigger] key.code() == byte_of(value) {
            Ok(choose|key: VirtualKey| #[trigger] key.code() == byte_of(value))
        } else {
            Err(UtilitiesError::InvalidVirtualKey(value))
        }
    }
}

} // verus!
