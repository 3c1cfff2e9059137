use xplm::api::data_access::{DataAccessError, DataRef};
use xplm::api::display::{DisplayError, WindowId};
use xplm::api::menus::{MenuId, MenuItemId, MenusError};
use xplm::api::plugin::{PluginError, PluginId};
use xplm::api::processing::{FlightLoopId, ProcessingError};
use xplm::api::utilities::{Command, UtilitiesError};

#[test]
fn null_data_ref_is_refused() {
    assert_eq!(DataRef::try_from(0usize), Err(DataAccessError::InvalidDataRefId));
}

#[test]
fn data_ref_keeps_its_raw_value() {
    let data_ref = DataRef::try_from(0x1000usize).unwrap();
    assert_eq!(*data_ref, 0x1000);
    assert_eq!(*DataRef::try_from(usize::MAX).unwrap(), usize::MAX);
    assert_eq!(*DataRef::try_from(1usize).unwrap(), 1);
}

#[test]
fn data_refs_of_one_raw_value_are_equal() {
    let a = DataRef::try_from(77usize).unwrap();
    let b = DataRef::try_from(77usize).unwrap();
    let c = DataRef::try_from(78usize).unwrap();
    assert_eq!(a, b);
    assert_ne!(a, c);
}

#[test]
fn null_window_is_refused() {
    assert_eq!(WindowId::try_from(0usize), Err(DisplayError::InvalidWindowId));
    let id = WindowId::try_from(9usize).unwrap();
    assert_eq!(id.native(), 9);
    assert_eq!(id, WindowId::try_from(9usize).unwrap());
}

#[test]
fn null_menu_is_refused() {
    assert_eq!(MenuId::try_from(0usize), Err(MenusError::InvalidId));
    let id = MenuId::try_from(12usize).unwrap();
    assert_eq!(id.native(), 12);
    assert_eq!(id, MenuId::try_from(12usize).unwrap());
}

#[test]
fn negative_menu_item_is_refused() {
    assert_eq!(MenuItemId::try_from(-1), Err(MenusError::InvalidMenuItemId));
    assert_eq!(MenuItemId::try_from(i32::MIN), Err(MenusError::InvalidMenuItemId));
    assert_eq!(MenuItemId::try_from(0).unwrap().native(), 0);
    assert_eq!(MenuItemId::try_from(41).unwrap().native(), 41);
}

#[test]
fn null_command_is_refused() {
    assert_eq!(Command::try_from(0usize), Err(UtilitiesError::InvalidCommand));
    let command = Command::try_from(3usize).unwrap();
    assert_eq!(*command, 3);
    assert_eq!(command, Command::try_from(3usize).unwrap());
}

#[test]
fn null_flight_loop_is_refused() {
    assert_eq!(FlightLoopId::try_from(0usize), Err(ProcessingError::InvalidFlightLoopId));
    let id = FlightLoopId::try_from(5usize).unwrap();
    assert_eq!(id.native(), 5);
    assert_eq!(id, FlightLoopId::try_from(5usize).unwrap());
}

#[test]
fn negative_plugin_id_is_refused() {
    assert_eq!(PluginId::try_from(-1), Err(PluginError::InvalidId(-1)));
    assert_eq!(PluginId::try_from(i32::MIN), Err(PluginError::InvalidId(i32::MIN)));
    assert_eq!(*PluginId::try_from(0).unwrap(), 0);
    assert_eq!(*PluginId::try_from(17).unwrap(), 17);
    assert_eq!(PluginId::try_from(17).unwrap(), PluginId::try_from(17).unwrap());
}
