use vstd::prelude::*;

use crate::ffi::NulError;

verus! {

/// What can go wrong in the menus interface.
#[derive(Clone, Copy, Debug, PartialEq, Eq, Structural)]
pub enum MenusError {
    /// The host answered with no menu.
    InvalidId,
    /// The host answered with no menu item.
    InvalidMenuItemId,
    /// The name of a menu or of an item holds a NUL byte.
    InvalidMenuName(NulError),
    /// The host reported a state of an item that is not known.
    UnknownMenuItemState(i32),
}

} // verus!
