use vstd::prelude::*;

use super::error::MenusError;

verus! {

/// An opaque handle to a menu of the host.
#[derive(Clone, Copy, Debug, PartialEq, Eq, Structural)]
pub struct MenuId(usize);

impl View for MenuId {
    type V = usize;

    /// The handle as the host knows it.
    closed spec fn view(&self) -> usize {
        self.0
    }
}

impl TryFrom<usize> for MenuId {
    type Error = MenusError;

    /// Wraps what the host answered. The null handle stands for "no menu".
    fn try_from(value: usize) -> (r: Result<Self, MenusError>)
        ensures
            r is Err <==> value == 0,
            r matches Ok(id) ==> id@ == value,
            r matches Err(e) ==> e == MenusError::InvalidId,
    {
        if value == 0 {
            Err(MenusError::InvalidId)
        } else {
            Ok(MenuId(value))
        }
    }
}

impl vstd::std_specs::convert::TryFromSpecImpl<usize> for MenuId {
    open spec fn obeys_try_from_spec() -> bool {
        true
    }

    closed spec fn try_from_spec(value: usize) -> Result<Self, MenusError> {
        if value == 0 {
            Err(MenusError::InvalidId)
        } else {
            Ok(MenuId(value))
        }
    }
}

impl MenuId {
    #[verifier::type_invariant]
    spec fn valid(self) -> bool {
        self.0 != 0
    }

    /// The handle as the host knows it.
    pub fn native(&self) -> (raw: usize)
        ensures
            raw == self@,
            raw != 0,
    {
        proof {
            use_type_invariant(self);
        }
        self.0
    }

    /// Two handles of the same raw value are the same handle.
    pub proof fn lemma_identity(self, other: Self)
        ensures
            self@ == other@ <==> self == other,
    {
    }
}

/// The index of an item in its menu.
#[derive(Clone, Copy, Debug, PartialEq, Eq, Structural)]
pub struct MenuItemId(i32);

impl View for MenuItemId {
    type V = i32;

    /// The index as the host knows it.
    closed spec fn view(&self) -> i32 {
        self.0
    }
}

impl TryFrom<i32> for MenuItemId {
    type Error = MenusError;

    /// Wraps what the host answered. A negative index stands for "no item".
    fn try_from(value: i32) -> (r: Result<Self, MenusError>)
        ensures
            r is Err <==> value < 0,
            r matches Ok(id) ==> id@ == value,
            r matches Err(e) ==> e == MenusError::InvalidMenuItemId,
    {
        if value < 0 {
            Err(MenusError::InvalidMenuItemId)
        } else {
            Ok(MenuItemId(value))
        }
    }
}

impl vstd::std_specs::convert::TryFromSpecImpl<i32> for MenuItemId {
    open spec fn obeys_try_from_spec() -> bool {
        true
    }

    closed spec fn try_from_spec(value: i32) -> Result<Self, MenusError> {
        if value < 0 {
            Err(MenusError::InvalidMenuItemId)
        } else {
            Ok(MenuItemId(value))
        }
    }
}

impl MenuItemId {
    #[verifier::type_invariant]
    spec fn valid(self) -> bool {
        self.0 >= 0
    }

    /// The index as the host knows it.
    pub fn native(&self) -> (raw: i32)
        ensures
            raw == self@,
            raw >= 0,
    {
        proof {
            use_type_invariant(self);
        }
        self.0
    }

    /// Two indices of the same raw value are the same index.
    pub proof fn lemma_identity(self, other: Self)
        ensures
            self@ == other@ <==> self == other,
    {
    }
}

/// An item of a menu.
#[derive(Clone, Copy, Debug, PartialEq, Eq, Structural)]
pub struct MenuItem {
    parent: MenuId,
    id: MenuItemId,
}

impl MenuItem {
    /// The menu that holds the item.
    pub closed spec fn parent_menu(self) -> MenuId {
        self.parent
    }

    /// The index of the item.
    pub closed spec fn index(self) -> MenuItemId {
        self.id
    }

    /// The item at an index of a menu.
    pub fn new(parent: MenuId, id: MenuItemId) -> (r: Self)
        ensures
            r.parent_menu() == parent,
            r.index() == id,
    {
        Self { parent, id }
    }

    /// The menu that holds the item.
    pub fn parent(&self) -> (r: &MenuId)
        ensures
            *r == self.parent_menu(),
    {
        &self.parent
    }

    /// The index of the item.
    pub fn id(&self) -> (r: &MenuItemId)
        ensures
            *r == self.index(),
    {
        &self.id
    }
}

} // verus!
