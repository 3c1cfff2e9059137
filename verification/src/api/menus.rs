pub mod error;
pub mod handler;
pub mod menu;
pub mod state;

use vstd::prelude::*;
use vstd::string::StringSliceAdditionalSpecFns;

pub use self::error::MenusError;
pub use self::handler::{Menu, MenuHandler};
pub use self::menu::{MenuId, MenuItem, MenuItemId};
pub use self::state::MenuItemState;

use crate::api::registration::{
    at_rest, inserted, led, lemma_call_ends, registered, released, resting, Call, Registry,
    Teardown, Token,
};
use crate::api::utilities::Command;
use crate::ffi::{c_str_len, c_string, nul_free, NulError};

verus! {

/// What the functions of this interface give back.
pub type Result<T> = std::result::Result<T, MenusError>;

/// A call into the host's menus interface: which function, and what is
/// handed to it. Handles stand as the host knows them, and text as C strings.
#[derive(Clone, Debug, PartialEq, Eq)]
#[allow(inconsistent_fields)]
pub enum MenusCall {
    /// Asks for the menu of the plugins.
    FindPluginsMenu,
    /// Asks for the menu of the aircraft.
    FindAircraftMenu,
    /// Creates a menu under an item of another, with the menu trampoline and
    /// a token. A submenu takes its name from the item: it has none of its
    /// own.
    CreateMenu { name: Option<Vec<u8>>, parent: usize, parent_item: i32, token: usize },
    /// Destroys a menu.
    DestroyMenu { menu: usize },
    /// Takes all items out of a menu.
    ClearAllMenuItems { menu: usize },
    /// Appends an item; `item_ref` comes back when the item is chosen.
    AppendMenuItem { menu: usize, text: Vec<u8>, item_ref: usize },
    /// Appends an item that runs a command.
    AppendMenuItemWithCommand { menu: usize, text: Vec<u8>, command: usize },
    /// Appends a separator.
    AppendMenuSeparator { menu: usize },
    /// Renames an item.
    SetMenuItemName { menu: usize, item: i32, text: Vec<u8> },
    /// Sets the mark of an item.
    CheckMenuItem { menu: usize, item: i32, check: i32 },
    /// Asks for the mark of an item.
    CheckMenuItemState { menu: usize, item: i32 },
    /// Enables or disables an item.
    EnableMenuItem { menu: usize, item: i32, enabled: i32 },
    /// Takes an item out of its menu.
    RemoveMenuItem { menu: usize, item: i32 },
}

/// The call that asks for the menu of the plugins. [`MenuId::try_from`] reads
/// the answer.
pub fn find_plugins_menu() -> (call: MenusCall)
    ensures
        call == MenusCall::FindPluginsMenu,
{
    MenusCall::FindPluginsMenu
}

/// The call that asks for the menu of the aircraft. [`MenuId::try_from`]
/// reads the answer.
pub fn find_aircraft_menu() -> (call: MenusCall)
    ensures
        call == MenusCall::FindAircraftMenu,
{
    MenusCall::FindAircraftMenu
}

/// Registers the handler of a new menu, if its name can be handed to the
/// host, and gives its token together with the call that creates the menu
/// under an item of a parent. [`menu_created`] reads the answer.
pub fn create_menu<H: MenuHandler>(
    registry: &mut Registry<H>,
    name: &str,
    parent: &MenuId,
    parent_item: &MenuItemId,
    handler: H,
) -> (r: Result<(Token, MenusCall)>)
    ensures
        r is Ok <==> nul_free(name.spec_bytes()),
        r matches Ok(made) ==> {
            &&& final(registry)@ == inserted(old(registry)@, handler)
            &&& made.0@ == old(registry)@.len() + 1
            &&& made.1 matches MenusCall::CreateMenu {
                name: Some(c_name),
                parent: menu,
                parent_item: item,
                token,
            }
            &&& c_name@ == name.spec_bytes().push(0)
            &&& menu == parent@
            &&& item == parent_item@
            &&& token == made.0@
        },
        r matches Err(e) ==> e == MenusError::InvalidMenuName(
            NulError { position: c_str_len(name.spec_bytes()) as usize },
        ) && final(registry)@ == old(registry)@,
{
    let c_name = match c_string(name) {
        Ok(c_name) => c_name,
        Err(e) => {
            return Err(MenusError::InvalidMenuName(e));
        },
    };
    let token = registry.insert(handler);
    let call = MenusCall::CreateMenu {
        name: Some(c_name),
        parent: parent.native(),
        parent_item: parent_item.native(),
        token: token.native(),
    };
    Ok((token, call))
}

/// Registers the handler of a new submenu and gives its token together with
/// the call that creates the submenu under an item of a parent.
/// [`menu_created`] reads the answer.
pub fn create_sub_menu<H: MenuHandler>(
    registry: &mut Registry<H>,
    parent_menu: &MenuId,
    parent_item: &MenuItemId,
    handler: H,
) -> (r: (Token, MenusCall))
    ensures
        final(registry)@ == inserted(old(registry)@, handler),
        r.0@ == old(registry)@.len() + 1,
        r.1 == (MenusCall::CreateMenu {
            name: None,
            parent: parent_menu@,
            parent_item: parent_item@,
            token: r.0@,
        }),
{
    let token = registry.insert(handler);
    let call = MenusCall::CreateMenu {
        name: None,
        parent: parent_menu.native(),
        parent_item: parent_item.native(),
        token: token.native(),
    };
    (token, call)
}

/// Reads the host's answer to the creation of a menu. If the host made none,
/// the handler is taken out of the registry again.
pub fn menu_created<H: MenuHandler>(registry: &mut Registry<H>, token: Token, answer: usize) -> (r:
    Result<Menu>)
    ensures
        r is Ok <==> answer != 0,
        r matches Ok(menu) ==> menu.id()@ == answer && menu.token() == token
            && final(registry)@ == old(registry)@,
        r matches Err(e) ==> e == MenusError::InvalidId
            && final(registry)@ == released(old(registry)@, token@),
{
    match MenuId::try_from(answer) {
        Ok(id) => Ok(Menu::new(id, token)),
        Err(e) => {
            let _ = registry.release(token.native());
            Err(e)
        },
    }
}

/// Ends the registration of a menu's handler and gives what is owed for
/// that: the call that destroys the menu, and the handler to drop after
/// the call. Something is owed the first time only.
pub fn close_menu<H: MenuHandler>(
    registry: &mut Registry<H>,
    menu: &mut Menu,
) -> (r: Option<Teardown<MenusCall, H>>)
    ensures
        *final(menu) == *old(menu),
        final(registry)@ == released(old(registry)@, old(menu).token()@),
        r is Some <==> registered(old(registry)@, old(menu).token()@),
        r matches Some(owed) ==> owed.call == (MenusCall::DestroyMenu { menu: old(menu).id()@ }),
        r matches Some(owed) ==> owed.item == resting(old(registry)@, old(menu).token()@),
{
    let call = destroy_menu(&menu.id_of());
    registry.release(menu.token_of().native()).owing(call)
}

impl<H: MenuHandler> Call<H> {
    /// The menu trampoline between the two halves of the call: tells the
    /// handler that the call is led to which item was chosen. `item_ref` is
    /// what the item was appended with.
    pub fn menu_handler(&mut self, item_ref: usize) -> (led_to_handler: bool)
        ensures
            final(self).token() == old(self).token(),
            led_to_handler == old(self).item() is Some,
            old(self).item() is None ==> final(self).item() is None,
            old(self).item() matches Some(handler) ==> final(self).item() is Some && exists|
                m: &mut H,
            |
                mut_ref_current(m) == handler && mut_ref_future(m) == final(self).item()->Some_0
                    && #[trigger] call_ensures(H::on_menu_selected, (m, item_ref), ()),
    {
        match self.item_mut() {
            Some(handler) => {
                handler.on_menu_selected(item_ref);
                true
            },
            None => false,
        }
    }
}

/// The menu trampoline: finds the handler by the token that the host handed
/// back and tells it which item was chosen. `item_ref` is what the item was
/// appended with, whatever it is. The host's call is dropped, and nothing is
/// touched, when the token names no handler at rest.
///
/// That the handler was told, and of what, is stated through its own
/// method: the handler as it stood in the registry and as it stands there
/// now are the two ends of one call of it.
pub fn menu_handler<H: MenuHandler>(
    registry: &mut Registry<H>,
    token: usize,
    item_ref: usize,
) -> (led_to_handler: bool)
    ensures
        led_to_handler == at_rest(old(registry)@, token),
        led_to_handler ==> led(old(registry)@, final(registry)@, token),
        led_to_handler ==> exists|m: &mut H|
            mut_ref_current(m) == resting(old(registry)@, token)->Some_0 && mut_ref_future(m)
                == resting(final(registry)@, token)->Some_0 && #[trigger] call_ensures(
                H::on_menu_selected,
                (m, item_ref),
                (),
            ),
        !led_to_handler ==> final(registry)@ == old(registry)@,
{
    let mut call = registry.begin_call(token);
    let led_to_handler = call.menu_handler(item_ref);
    registry.end_call(call);
    proof {
        lemma_call_ends(old(registry)@, token, call);
    }
    led_to_handler
}

/// The call that destroys a menu.
pub fn destroy_menu(id: &MenuId) -> (call: MenusCall)
    ensures
        call == (MenusCall::DestroyMenu { menu: id@ }),
{
    MenusCall::DestroyMenu { menu: id.native() }
}

/// The call that takes all items out of a menu.
pub fn clear_all_menu_items(id: &MenuId) -> (call: MenusCall)
    ensures
        call == (MenusCall::ClearAllMenuItems { menu: id@ }),
{
    MenusCall::ClearAllMenuItems { menu: id.native() }
}

/// The call that appends an item to a menu. `index` is what the handler of
/// the menu is told when the item is chosen. [`appended_menu_item`] reads
/// the answer.
pub fn append_menu_item(parent: &MenuId, text: &str, index: usize) -> (r: Result<MenusCall>)
    ensures
        r is Ok <==> nul_free(text.spec_bytes()),
        r matches Ok(call) ==> call matches MenusCall::AppendMenuItem {
            menu,
            text: c_text,
            item_ref,
        } && menu == parent@ && c_text@ == text.spec_bytes().push(0) && item_ref == index,
        r matches Err(e) ==> e == MenusError::InvalidMenuName(
            NulError { position: c_str_len(text.spec_bytes()) as usize },
        ),
{
    match c_string(text) {
        Ok(c_text) => Ok(
            MenusCall::AppendMenuItem { menu: parent.native(), text: c_text, item_ref: index },
        ),
        Err(e) => Err(MenusError::InvalidMenuName(e)),
    }
}

/// Reads the host's answer to the appending of an item to a menu.
pub fn appended_menu_item(parent: &MenuId, answer: i32) -> (r: Result<MenuItem>)
    ensures
        r is Ok <==> answer >= 0,
        r matches Ok(item) ==> item.parent_menu() == *parent && item.index()@ == answer,
        r matches Err(e) ==> e == MenusError::InvalidMenuItemId,
{
    Ok(MenuItem::new(*parent, MenuItemId::try_from(answer)?))
}

/// The call that appends an item that runs a command.
/// [`MenuItemId::try_from`] reads the answer.
pub fn append_menu_item_with_command(parent: &MenuId, text: &str, command: &Command) -> (r: Result<
    MenusCall,
>)
    ensures
        r is Ok <==> nul_free(text.spec_bytes()),
        r matches Ok(call) ==> call matches MenusCall::AppendMenuItemWithCommand {
            menu,
            text: c_text,
            command: raw,
        } && menu == parent@ && c_text@ == text.spec_bytes().push(0) && raw == command@,
        r matches Err(e) ==> e == MenusError::InvalidMenuName(
            NulError { position: c_str_len(text.spec_bytes()) as usize },
        ),
{
    match c_string(text) {
        Ok(c_text) => Ok(
            MenusCall::AppendMenuItemWithCommand {
                menu: parent.native(),
                text: c_text,
                command: **command,
            },
        ),
        Err(e) => Err(MenusError::InvalidMenuName(e)),
    }
}

/// The call that appends a separator to a menu.
pub fn append_menu_separator(parent: &MenuId) -> (call: MenusCall)
    ensures
        call == (MenusCall::AppendMenuSeparator { menu: parent@ }),
{
    MenusCall::AppendMenuSeparator { menu: parent.native() }
}

/// The call that renames an item.
pub fn set_menu_item_name(item: &MenuItem, text: &str) -> (r: Result<MenusCall>)
    ensures
        r is Ok <==> nul_free(text.spec_bytes()),
        r matches Ok(call) ==> call matches MenusCall::SetMenuItemName {
            menu,
            item: index,
            text: c_text,
        } && menu == item.parent_menu()@ && index == item.index()@ && c_text@
            == text.spec_bytes().push(0),
        r matches Err(e) ==> e == MenusError::InvalidMenuName(
            NulError { position: c_str_len(text.spec_bytes()) as usize },
        ),
{
    match c_string(text) {
        Ok(c_text) => Ok(
            MenusCall::SetMenuItemName {
                menu: item.parent().native(),
                item: item.id().native(),
                text: c_text,
            },
        ),
        Err(e) => Err(MenusError::InvalidMenuName(e)),
    }
}

/// The call that lights the mark of an item.
pub fn check_menu_item(parent: &MenuId, item: &MenuItemId) -> (call: MenusCall)
    ensures
        call == (MenusCall::CheckMenuItem {
            menu: parent@,
            item: item@,
            check: MenuItemState::Checked.code(),
        }),
{
    MenusCall::CheckMenuItem { menu: parent.native(), item: item.native(), check: 2 }
}

/// The call that puts out the mark of an item.
pub fn uncheck_menu_item(parent: &MenuId, item: &MenuItemId) -> (call: MenusCall)
    ensures
        call == (MenusCall::CheckMenuItem {
            menu: parent@,
            item: item@,
            check: MenuItemState::Unchecked.code(),
        }),
{
    MenusCall::CheckMenuItem { menu: parent.native(), item: item.native(), check: 1 }
}

/// The call that asks for the mark of an item. [`MenuItemState::try_from`]
/// reads the answer.
pub fn check_menu_item_state(parent: &MenuId, item: &MenuItemId) -> (call: MenusCall)
    ensures
        call == (MenusCall::CheckMenuItemState { menu: parent@, item: item@ }),
{
    MenusCall::CheckMenuItemState { menu: parent.native(), item: item.native() }
}

/// The call that enables an item.
pub fn enable_menu_item(parent: &MenuId, item: &MenuItemId) -> (call: MenusCall)
    ensures
        call == (MenusCall::EnableMenuItem { menu: parent@, item: item@, enabled: 1 }),
{
    MenusCall::EnableMenuItem { menu: parent.native(), item: item.native(), enabled: 1 }
}

/// The call that disables an item.
pub fn disable_menu_item(parent: &MenuId, item: &MenuItemId) -> (call: MenusCall)
    ensures
        call == (MenusCall::EnableMenuItem { menu: parent@, item: item@, enabled: 0 }),
{
    MenusCall::EnableMenuItem { menu: parent.native(), item: item.native(), enabled: 0 }
}

/// The call that takes an item out of its menu.
pub fn remove_menu_item(parent: &MenuId, item: &MenuItemId) -> (call: MenusCall)
    ensures
        call == (MenusCall::RemoveMenuItem { menu: parent@, item: item@ }),
{
    MenusCall::RemoveMenuItem { menu: parent.native(), item: item.native() }
}

} // verus!
