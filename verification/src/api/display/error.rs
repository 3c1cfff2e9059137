use vstd::prelude::*;

use crate::ffi::NulError;

verus! {

/// What can go wrong in the display interface.
#[derive(Clone, Copy, Debug, PartialEq, Eq, Structural)]
pub enum DisplayError {
    /// The host answered with no window.
    InvalidWindowId,
    /// The name of a command holds a NUL byte.
    InvalidCommandName(NulError),
    /// The title of a window holds a NUL byte.
    InvalidWindowTitle(NulError),
    /// The host delivered a mouse status that is not known.
    UnknownMouseStatuts(i32),
    /// The host delivered a mouse wheel axis that is not known.
    UnknownMouseWheelAxis(i32),
}

} // verus!
