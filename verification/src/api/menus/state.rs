use vstd::prelude::*;

use super::error::MenusError;

verus! {

/// The mark next to a menu item.
#[derive(Clone, Copy, Debug, PartialEq, Eq, Structural)]
pub enum MenuItemState {
    /// The item has a mark, and it is lit.
    Checked,
    /// The item has a mark, and it is not lit.
    Unchecked,
    /// The item has no mark.
    NoCheck,
}

impl MenuItemState {
    /// The code by which the host names the state.
    pub open spec fn code(self) -> i32 {
        match self {
            MenuItemState::NoCheck => 0,
            MenuItemState::Unchecked => 1,
            MenuItemState::Checked => 2,
        }
    }
}

impl TryFrom<i32> for MenuItemState {
    type Error = MenusError;

    /// The state that a code of the host names.
    fn try_from(value: i32) -> (r: Result<Self, MenusError>)
        ensures
            r is Ok <==> 0 <= value <= 2,
            r matches Ok(state) ==> state.code() == value,
            r matches Err(e) ==> e == MenusError::UnknownMenuItemState(value),
    {
        match value {
            0 => Ok(MenuItemState::NoCheck),
            1 => Ok(MenuItemState::Unchecked),
            2 => Ok(MenuItemState::Checked),
            _ => Err(MenusError::UnknownMenuItemState(value)),
        }
    }
}

impl vstd::std_specs::convert::TryFromSpecImpl<i32> for MenuItemState {
    open spec fn obeys_try_from_spec() -> bool {
        true
    }

    open spec fn try_from_spec(value: i32) -> Result<Self, MenusError> {
        if value == 0 {
            Ok(MenuItemState::NoCheck)
        } else if value == 1 {
            Ok(MenuItemState::Unchecked)
        } else if value == 2 {
            Ok(MenuItemState::Checked)
        } else {
            Err(MenusError::UnknownMenuItemState(value))
        }
    }
}

} // verus!
