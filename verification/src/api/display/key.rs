use vstd::prelude::*;

verus! {

/// A modifier of a key event.
#[derive(Clone, Copy, Debug, PartialEq, Eq, Structural)]
pub enum KeyFlag {
    Shift,
    OptionAlt,
    Control,
    Down,
    Up,
}

impl KeyFlag {
    /// The bit that stands for the flag in the host's bitmap.
    pub open spec fn mask(self) -> i32 {
        match self {
            KeyFlag::Shift => 1,
            KeyFlag::OptionAlt => 2,
            KeyFlag::Control => 4,
            KeyFlag::Down => 8,
            KeyFlag::Up => 16,
        }
    }
}

/// The modifiers of a key event, as a bitmap.
#[derive(Clone, Copy, Debug, PartialEq, Eq, Structural)]
pub struct KeyFlags(i32);

impl View for KeyFlags {
    type V = i32;

    /// The bitmap as the host delivers it.
    closed spec fn view(&self) -> i32 {
        self.0
    }
}

impl KeyFlags {
    /// The bitmap holds the flag.
    pub open spec fn has(self, flag: KeyFlag) -> bool {
        self@ & flag.mask() != 0
    }

    /// Checks whether the bitmap holds a flag.
    pub fn contains(&self, flag: KeyFlag) -> (r: bool)
        ensures
            r == self.has(flag),
    {
        match flag {
            KeyFlag::Shift => self.contains_shift_flag(),
            KeyFlag::OptionAlt => self.contains_option_alt_flag(),
            KeyFlag::Control => self.contains_control_flag(),
            KeyFlag::Down => self.contains_down_flag(),
            KeyFlag::Up => self.contains_up_flag(),
        }
    }

    /// Checks whether the bitmap holds the shift flag.
    pub fn contains_shift_flag(&self) -> (r: bool)
        ensures
            r == self.has(KeyFlag::Shift),
    {
        self.0 & 1 != 0
    }

    /// Checks whether the bitmap holds the flag of the option or alt key.
    pub fn contains_option_alt_flag(&self) -> (r: bool)
        ensures
            r == self.has(KeyFlag::OptionAlt),
    {
        self.0 & 2 != 0
    }

    /// Checks whether the bitmap holds the flag of the control key.
    pub fn contains_control_flag(&self) -> (r: bool)
        ensures
            r == self.has(KeyFlag::Control),
    {
        self.0 & 4 != 0
    }

    /// Checks whether the bitmap holds the flag of a key that went down.
    pub fn contains_down_flag(&self) -> (r: bool)
        ensures
            r == self.has(KeyFlag::Down),
    {
        self.0 & 8 != 0
    }

    /// Checks whether the bitmap holds the flag of a key that went up.
    pub fn contains_up_flag(&self) -> (r: bool)
        ensures
            r == self.has(KeyFlag::Up),
    {
        self.0 & 16 != 0
    }
}

impl From<i32> for KeyFlags {
    fn from(value: i32) -> (r: Self)
        ensures
            r@ == value,
    {
        KeyFlags(value)
    }
}

impl vstd::std_specs::convert::FromSpecImpl<i32> for KeyFlags {
    open spec fn obeys_from_spec() -> bool {
        true
    }

    closed spec fn from_spec(value: i32) -> Self {
        KeyFlags(value)
    }
}

} // verus!
