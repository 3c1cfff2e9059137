use vstd::prelude::*;

use super::error::DisplayError;

verus! {

/// What a mouse button did.
#[derive(Clone, Copy, Debug, PartialEq, Eq, Structural)]
pub enum MouseStatus {
    /// The button came up.
    Up,
    /// The button went down.
    Down,
    /// The mouse moved with the button down.
    Drag,
}

impl MouseStatus {
    /// The code by which the host names the status.
    pub open spec fn code(self) -> i32 {
        match self {
            MouseStatus::Down => 1,
            MouseStatus::Drag => 2,
            MouseStatus::Up => 3,
        }
    }
}

impl TryFrom<i32> for MouseStatus {
    type Error = DisplayError;

    /// The status that a code of the host names.
    fn try_from(value: i32) -> (r: Result<Self, DisplayError>)
        ensures
            r is Ok <==> 1 <= value <= 3,
            r matches Ok(status) ==> status.code() == value,
            r matches Err(e) ==> e == DisplayError::UnknownMouseStatuts(value),
    {
        match value {
            3 => Ok(MouseStatus::Up),
            1 => Ok(MouseStatus::Down),
            2 => Ok(MouseStatus::Drag),
            _ => Err(DisplayError::UnknownMouseStatuts(value)),
        }
    }
}

impl vstd::std_specs::convert::TryFromSpecImpl<i32> for MouseStatus {
    open spec fn obeys_try_from_spec() -> bool {
        true
    }

    open spec fn try_from_spec(value: i32) -> Result<Self, DisplayError> {
        if value == 3 {
            Ok(MouseStatus::Up)
        } else if value == 1 {
            Ok(MouseStatus::Down)
        } else if value == 2 {
            Ok(MouseStatus::Drag)
        } else {
            Err(DisplayError::UnknownMouseStatuts(value))
        }
    }
}

/// The axis of a mouse wheel.
#[derive(Clone, Copy, Debug, PartialEq, Eq, Structural)]
pub enum WheelAxis {
    /// The wheel that scrolls up and down.
    Vertical,
    /// The wheel that scrolls left and right.
    Horizontal,
}

impl WheelAxis {
    /// The code by which the host names the axis.
    pub open spec fn code(self) -> i32 {
        match self {
            WheelAxis::Vertical => 0,
            WheelAxis::Horizontal => 1,
        }
    }
}

impl TryFrom<i32> for WheelAxis {
    type Error = DisplayError;

    /// The axis that a code of the host names.
    fn try_from(value: i32) -> (r: Result<Self, DisplayError>)
        ensures
            r is Ok <==> 0 <= value <= 1,
            r matches Ok(axis) ==> axis.code() == value,
            r matches Err(e) ==> e == DisplayError::UnknownMouseWheelAxis(value),
    {
        match value {
            0 => Ok(WheelAxis::Vertical),
            1 => Ok(WheelAxis::Horizontal),
            _ => Err(DisplayError::UnknownMouseWheelAxis(value)),
        }
    }
}

impl vstd::std_specs::convert::TryFromSpecImpl<i32> for WheelAxis {
    open spec fn obeys_try_from_spec() -> bool {
        true
    }

    open spec fn try_from_spec(value: i32) -> Result<Self, DisplayError> {
        if value == 0 {
            Ok(WheelAxis::Vertical)
        } else if value == 1 {
            Ok(WheelAxis::Horizontal)
        } else {
            Err(DisplayError::UnknownMouseWheelAxis(value))
        }
    }
}

} // verus!
