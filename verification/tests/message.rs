use xplm::api::plugin::{
    count_plugins, disable_feature, disable_plugin, enable_feature, enable_plugin,
    find_plugin_by_path, find_plugin_by_signature, get_my_id, get_nth_plugin, get_plugin_info,
    has_feature, is_feature_enabled, is_plugin_enabled, plugin_info, reload_plugins,
    send_message_to_all_plugins, send_message_to_plugin, AsMessageParam, Feature, Message,
    NoMessageParam, PluginCall, PluginError, PluginId, NO_PLUGIN_ID,
};
use xplm::ffi::{NulError, Utf8Error};

#[test]
fn known_codes_decode_to_their_messages() {
    assert_eq!(Message::decode(0, 101, 9), Message::PlaneCrashed);
    assert_eq!(Message::decode(0, 102, 3), Message::PlaneLoaded(3));
    assert_eq!(Message::decode(0, 103, 9), Message::AirportLoaded);
    assert_eq!(Message::decode(0, 104, 9), Message::SceneryLoaded);
    assert_eq!(Message::decode(0, 105, 9), Message::AirplaneCountChanged);
    assert_eq!(Message::decode(0, 106, 4), Message::PlaneUnloaded(4));
    assert_eq!(Message::decode(0, 107, 9), Message::WillWritePrefs);
    assert_eq!(Message::decode(0, 108, 5), Message::LiveryLoaded(5));
    assert_eq!(Message::decode(0, 109, 9), Message::EnteredVr);
    assert_eq!(Message::decode(0, 110, 9), Message::ExitingVr);
    assert_eq!(Message::decode(7, 111, 9), Message::ReleasePlanes);
    assert_eq!(Message::decode(0, 112, 1), Message::FmodBankLoaded(1));
    assert_eq!(Message::decode(0, 113, 0), Message::FmodBankUnloading(0));
    assert_eq!(Message::decode(0, 114, 4000), Message::DataRefsAdded(4000));
}

#[test]
fn unknown_codes_keep_everything() {
    assert_eq!(Message::decode(3, 100, 0xDEAD), Message::Custom(3, 100, 0xDEAD));
    assert_eq!(Message::decode(3, 115, 0), Message::Custom(3, 115, 0));
    assert_eq!(
        Message::decode(12, 0x8000000, usize::MAX),
        Message::Custom(12, 0x8000000, usize::MAX)
    );
    assert_eq!(Message::decode(0, 0, 0), Message::Custom(0, 0, 0));
    assert_eq!(xplm::plugin::MIN_MESSAGE_ID, 0x8000000);
}

#[test]
fn negative_sender_and_code_are_widened_with_their_sign() {
    assert_eq!(Message::decode(-1, -2, 5), Message::Custom(usize::MAX, usize::MAX - 1, 5));
}

#[test]
fn no_message_param_is_null() {
    assert_eq!(NoMessageParam.as_message_param(), 0);
}

#[test]
fn messages_go_to_one_plugin_or_to_all() {
    let id = PluginId::try_from(4).unwrap();
    assert_eq!(
        send_message_to_plugin(&id, 0x8000001, NoMessageParam),
        PluginCall::SendMessageToPlugin { plugin: 4, message: 0x8000001, param: 0 }
    );
    assert_eq!(
        send_message_to_all_plugins(0x8000001, NoMessageParam),
        PluginCall::SendMessageToPlugin { plugin: -1, message: 0x8000001, param: 0 }
    );
    assert_eq!(NO_PLUGIN_ID, -1);
}

#[test]
fn feature_names_are_the_hosts() {
    assert_eq!(Feature::WantsReflections.name(), "XPLM_WANTS_REFLECTIONS");
    assert_eq!(Feature::UseNativePaths.name(), "XPLM_USE_NATIVE_PATHS");
    assert_eq!(Feature::UseNativeWidgetsWindows.name(), "XPLM_USE_NATIVE_WIDGET_WINDOWS");
    assert_eq!(Feature::WantsDatarefNotifications.name(), "XPLM_WANTS_DATAREF_NOTIFICATIONS");
}

#[test]
fn feature_calls_carry_the_name_and_the_switch() {
    assert_eq!(
        has_feature(Feature::UseNativePaths),
        PluginCall::HasFeature { feature: b"XPLM_USE_NATIVE_PATHS\0".to_vec() }
    );
    assert_eq!(
        is_feature_enabled(Feature::WantsReflections),
        PluginCall::IsFeatureEnabled { feature: b"XPLM_WANTS_REFLECTIONS\0".to_vec() }
    );
    assert_eq!(
        enable_feature(Feature::UseNativeWidgetsWindows),
        PluginCall::EnableFeature {
            feature: b"XPLM_USE_NATIVE_WIDGET_WINDOWS\0".to_vec(),
            enable: 1
        }
    );
    assert_eq!(
        disable_feature(Feature::WantsDatarefNotifications),
        PluginCall::EnableFeature {
            feature: b"XPLM_WANTS_DATAREF_NOTIFICATIONS\0".to_vec(),
            enable: 0
        }
    );
}

#[test]
fn plugin_calls_name_the_plugin() {
    let id = PluginId::try_from(4).unwrap();
    assert_eq!(get_my_id(), PluginCall::GetMyID);
    assert_eq!(count_plugins(), PluginCall::CountPlugins);
    assert_eq!(get_nth_plugin(3), PluginCall::GetNthPlugin { index: 3 });
    assert_eq!(get_plugin_info(&id), PluginCall::GetPluginInfo { plugin: 4 });
    assert_eq!(is_plugin_enabled(&id), PluginCall::IsPluginEnabled { plugin: 4 });
    assert_eq!(enable_plugin(&id), PluginCall::EnablePlugin { plugin: 4 });
    assert_eq!(disable_plugin(&id), PluginCall::DisablePlugin { plugin: 4 });
    assert_eq!(reload_plugins(), PluginCall::ReloadPlugins);
}

#[test]
fn plugin_lookups_take_c_strings() {
    assert_eq!(
        find_plugin_by_path("/a/b.xpl"),
        Ok(PluginCall::FindPluginByPath { path: b"/a/b.xpl\0".to_vec() })
    );
    assert_eq!(
        find_plugin_by_path("/a\0b"),
        Err(PluginError::InvalidPluginPath(NulError { position: 2 }))
    );
    assert_eq!(
        find_plugin_by_signature("org.me"),
        Ok(PluginCall::FindPluginBySignature { signature: b"org.me\0".to_vec() })
    );
    assert_eq!(
        find_plugin_by_signature("\0org"),
        Err(PluginError::InvalidPluginSignature(NulError { position: 0 }))
    );
}

#[test]
fn plugin_info_is_read_from_four_buffers() {
    let mut name = [0u8; 256];
    name[..4].copy_from_slice(b"Test");
    let info = plugin_info(&name, b"/x/y.xpl\0rest", b"org.test", b"\0").unwrap();
    assert_eq!(info.name, "Test");
    assert_eq!(info.file_path, "/x/y.xpl");
    assert_eq!(info.signature, "org.test");
    assert_eq!(info.description, "");
    // Text outside ASCII comes through.
    let info = plugin_info("Grüße\0".as_bytes(), b"\0", b"\0", b"\0").unwrap();
    assert_eq!(info.name, "Grüße");
}

#[test]
fn first_bad_plugin_string_decides_the_error() {
    let bad = [0xFFu8, 0];
    let good = b"ok\0";
    assert!(matches!(
        plugin_info(&bad, &bad, &bad, &bad),
        Err(PluginError::InvalidInfoName(Utf8Error))
    ));
    assert!(matches!(
        plugin_info(good, &bad, &bad, &bad),
        Err(PluginError::InvalidInfoFilePath(Utf8Error))
    ));
    assert!(matches!(
        plugin_info(good, good, &bad, &bad),
        Err(PluginError::InvalidInfoSignature(Utf8Error))
    ));
    assert!(matches!(
        plugin_info(good, good, good, &bad),
        Err(PluginError::InvalidInfoDescription(Utf8Error))
    ));
    // Bytes after the terminator are not looked at.
    assert!(plugin_info(b"ok\0\xFF", good, good, good).is_ok());
}
