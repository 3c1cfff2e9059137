use vstd::prelude::*;

use super::menu::MenuId;
use crate::api::registration::Token;

verus! {

/// What a plugin does when an item of its menu is chosen.
pub trait MenuHandler: 'static {
    /// The item that was appended with `index` was chosen.
    fn on_menu_selected(&mut self, index: usize);
}

impl MenuHandler for Box<dyn MenuHandler> {
    fn on_menu_selected(&mut self, index: usize) {
        (**self).on_menu_selected(index);
    }
}

/// A menu that the plugin created: what is needed to destroy it. The handler
/// itself stands in the registry, under the token.
#[derive(Debug)]
pub struct Menu {
    id: MenuId,
    token: Token,
}

impl Menu {
    /// The menu.
    pub closed spec fn id(self) -> MenuId {
        self.id
    }

    /// The token that the host was given.
    pub closed spec fn token(self) -> Token {
        self.token
    }

    /// Notes a menu and the token of its handler.
    pub fn new(id: MenuId, token: Token) -> (r: Self)
        ensures
            r.id() == id,
            r.token() == token,
    {
        Self { id, token }
    }

    /// The menu.
    pub fn id_of(&self) -> (r: MenuId)
        ensures
            r == self.id(),
    {
        self.id
    }

    /// The token that the host was given.
    pub fn token_of(&self) -> (r: Token)
        ensures
            r == self.token(),
    {
        self.token
    }
}

} // verus!
