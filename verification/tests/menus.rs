use xplm::api::menus::{
    append_menu_item, append_menu_item_with_command, append_menu_separator, appended_menu_item,
    check_menu_item, check_menu_item_state, clear_all_menu_items, close_menu, create_menu,
    create_sub_menu, destroy_menu, disable_menu_item, enable_menu_item, find_aircraft_menu,
    find_plugins_menu, menu_created, menu_handler, remove_menu_item, set_menu_item_name,
    uncheck_menu_item, MenuHandler, MenuId, MenuItem, MenuItemId, MenuItemState, MenusCall,
    MenusError,
};
use xplm::api::registration::Registry;
use xplm::api::utilities::Command;
use xplm::ffi::NulError;

#[derive(Default)]
struct Chosen(Vec<usize>);

impl MenuHandler for Chosen {
    fn on_menu_selected(&mut self, index: usize) {
        self.0.push(index);
    }
}

fn parent() -> (MenuId, MenuItemId) {
    (MenuId::try_from(0x50usize).unwrap(), MenuItemId::try_from(2).unwrap())
}

#[test]
fn menu_is_created_with_a_name_a_parent_and_a_token() {
    let mut registry = Registry::new();
    let (menu, item) = parent();
    let (token, call) =
        create_menu(&mut registry, "Tools", &menu, &item, Chosen::default()).unwrap();
    assert_eq!(
        call,
        MenusCall::CreateMenu {
            name: Some(b"Tools\0".to_vec()),
            parent: 0x50,
            parent_item: 2,
            token: 1
        }
    );
    let mut created = menu_created(&mut registry, token, 0x60).unwrap();
    assert_eq!(created.id_of().native(), 0x60);
    assert_eq!(created.token_of(), token);
    let owed = close_menu(&mut registry, &mut created).unwrap();
    assert_eq!(owed.call, MenusCall::DestroyMenu { menu: 0x60 });
    assert!(owed.item.is_some());
    assert!(close_menu(&mut registry, &mut created).is_none());
}

#[test]
fn menu_with_a_bad_name_is_not_registered() {
    let mut registry = Registry::new();
    let (menu, item) = parent();
    let r = create_menu(&mut registry, "To\0ols", &menu, &item, Chosen::default());
    assert!(matches!(r, Err(MenusError::InvalidMenuName(NulError { position: 2 }))));
    assert_eq!(registry.len(), 0);
}

#[test]
fn submenu_has_no_name_of_its_own() {
    let mut registry = Registry::new();
    let (menu, item) = parent();
    let (token, call) = create_sub_menu(&mut registry, &menu, &item, Chosen::default());
    assert_eq!(
        call,
        MenusCall::CreateMenu { name: None, parent: 0x50, parent_item: 2, token: 1 }
    );
    assert!(matches!(menu_created(&mut registry, token, 0), Err(MenusError::InvalidId)));
    assert!(!registry.is_registered(token.native()));
}

#[test]
fn chosen_items_reach_the_handler_of_their_menu() {
    let mut registry = Registry::new();
    let (menu, item) = parent();
    let (first, _) = create_sub_menu(&mut registry, &menu, &item, Chosen::default());
    let (second, _) = create_sub_menu(&mut registry, &menu, &item, Chosen::default());
    assert!(menu_handler(&mut registry, second.native(), 3));
    assert!(menu_handler(&mut registry, second.native(), 4));
    assert!(menu_handler(&mut registry, first.native(), 9));
    // An item that was appended with 0 is reported like any other.
    assert!(menu_handler(&mut registry, first.native(), 0));
    // Tokens that name nothing are dropped.
    assert!(!menu_handler(&mut registry, 0, 3));
    assert!(!menu_handler(&mut registry, 7, 3));

    let mut lease = registry.checkout(first.native()).unwrap();
    assert_eq!(lease.item_mut().0, vec![9, 0]);
    registry.checkin(lease);
    let mut lease = registry.checkout(second.native()).unwrap();
    assert_eq!(lease.item_mut().0, vec![3, 4]);
    registry.checkin(lease);
}

#[test]
fn menu_item_states_are_decoded() {
    assert_eq!(MenuItemState::try_from(0), Ok(MenuItemState::NoCheck));
    assert_eq!(MenuItemState::try_from(1), Ok(MenuItemState::Unchecked));
    assert_eq!(MenuItemState::try_from(2), Ok(MenuItemState::Checked));
    assert_eq!(MenuItemState::try_from(3), Err(MenusError::UnknownMenuItemState(3)));
    assert_eq!(MenuItemState::try_from(-1), Err(MenusError::UnknownMenuItemState(-1)));
}

#[test]
fn items_are_appended_and_read_back() {
    let (menu, _) = parent();
    assert_eq!(
        append_menu_item(&menu, "Open", 5),
        Ok(MenusCall::AppendMenuItem { menu: 0x50, text: b"Open\0".to_vec(), item_ref: 5 })
    );
    assert_eq!(
        append_menu_item(&menu, "\0", 5),
        Err(MenusError::InvalidMenuName(NulError { position: 0 }))
    );
    let item = appended_menu_item(&menu, 3).unwrap();
    assert_eq!(item, MenuItem::new(menu, MenuItemId::try_from(3).unwrap()));
    assert_eq!(item.parent().native(), 0x50);
    assert_eq!(item.id().native(), 3);
    assert_eq!(appended_menu_item(&menu, -1), Err(MenusError::InvalidMenuItemId));

    let command = Command::try_from(0xC0usize).unwrap();
    assert_eq!(
        append_menu_item_with_command(&menu, "Run", &command),
        Ok(MenusCall::AppendMenuItemWithCommand {
            menu: 0x50,
            text: b"Run\0".to_vec(),
            command: 0xC0
        })
    );
    assert_eq!(
        append_menu_item_with_command(&menu, "R\0un", &command),
        Err(MenusError::InvalidMenuName(NulError { position: 1 }))
    );
    assert_eq!(
        set_menu_item_name(&item, "Close"),
        Ok(MenusCall::SetMenuItemName { menu: 0x50, item: 3, text: b"Close\0".to_vec() })
    );
    assert_eq!(
        set_menu_item_name(&item, "Clo\0se"),
        Err(MenusError::InvalidMenuName(NulError { position: 3 }))
    );
}

#[test]
fn menu_calls_carry_the_hosts_switches() {
    let (menu, item) = parent();
    assert_eq!(find_plugins_menu(), MenusCall::FindPluginsMenu);
    assert_eq!(find_aircraft_menu(), MenusCall::FindAircraftMenu);
    assert_eq!(destroy_menu(&menu), MenusCall::DestroyMenu { menu: 0x50 });
    assert_eq!(clear_all_menu_items(&menu), MenusCall::ClearAllMenuItems { menu: 0x50 });
    assert_eq!(append_menu_separator(&menu), MenusCall::AppendMenuSeparator { menu: 0x50 });
    assert_eq!(
        check_menu_item(&menu, &item),
        MenusCall::CheckMenuItem { menu: 0x50, item: 2, check: 2 }
    );
    assert_eq!(
        uncheck_menu_item(&menu, &item),
        MenusCall::CheckMenuItem { menu: 0x50, item: 2, check: 1 }
    );
    assert_eq!(
        check_menu_item_state(&menu, &item),
        MenusCall::CheckMenuItemState { menu: 0x50, item: 2 }
    );
    assert_eq!(
        enable_menu_item(&menu, &item),
        MenusCall::EnableMenuItem { menu: 0x50, item: 2, enabled: 1 }
    );
    assert_eq!(
        disable_menu_item(&menu, &item),
        MenusCall::EnableMenuItem { menu: 0x50, item: 2, enabled: 0 }
    );
    assert_eq!(remove_menu_item(&menu, &item), MenusCall::RemoveMenuItem { menu: 0x50, item: 2 });
}

#[test]
fn menu_call_in_two_halves_leaves_the_registry_free() {
    let mut registry = Registry::new();
    let (menu, item) = parent();
    let (token, _) = create_sub_menu(&mut registry, &menu, &item, Chosen::default());
    let mut created = menu_created(&mut registry, token, 0x60).unwrap();

    let mut call = registry.begin_call(token.native());
    assert!(call.menu_handler(0));
    // While the handler runs, its menu is closed.
    let owed = close_menu(&mut registry, &mut created).unwrap();
    assert_eq!(owed.call, MenusCall::DestroyMenu { menu: 0x60 });
    assert!(owed.item.is_none());
    registry.end_call(call);
    assert!(!registry.is_registered(token.native()));
    assert!(!menu_handler(&mut registry, token.native(), 1));

    // A call that is led to nothing tells no one.
    let mut call = registry.begin_call(0);
    assert!(!call.menu_handler(5));
    registry.end_call(call);
}
