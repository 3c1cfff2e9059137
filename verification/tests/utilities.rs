use xplm::api::utilities::{
    clear_replay, command_begin, command_end, command_once, create_command, data_file_loaded,
    data_file_saved, debug_string, directory_separator, error_callback, find_command,
    found_command, get_directory_separator, get_language, get_prefs_path, get_system_path,
    get_versions, get_virtual_key_description, load_data_file, prefs_path, reload_scenery,
    replay_cleared, save_data_file, set_error_callback, speak_string, system_path,
    virtual_key_description, Command, DataFileType, ErrorCallback, ErrorReport, HostApplicationId,
    Language, UtilitiesCall, UtilitiesError, Versions, VirtualKey,
};
use xplm::ffi::{NulError, Utf8Error};
use xplm::once::OnceSlot;

struct Collect(std::rc::Rc<std::cell::RefCell<Vec<String>>>, &'static str);

impl ErrorCallback for Collect {
    fn report(&self, message: &str) {
        self.0.borrow_mut().push(format!("{}: {}", self.1, message));
    }
}

#[test]
fn virtual_keys_are_decoded_by_their_codes() {
    assert_eq!(VirtualKey::try_from(0x08), Ok(VirtualKey::Back));
    assert_eq!(VirtualKey::try_from(0x0D), Ok(VirtualKey::Return));
    assert_eq!(VirtualKey::try_from(0x20), Ok(VirtualKey::Space));
    assert_eq!(VirtualKey::try_from(0x30), Ok(VirtualKey::Zero));
    assert_eq!(VirtualKey::try_from(0x39), Ok(VirtualKey::Nine));
    assert_eq!(VirtualKey::try_from(0x41), Ok(VirtualKey::A));
    assert_eq!(VirtualKey::try_from(0x5A), Ok(VirtualKey::Z));
    assert_eq!(VirtualKey::try_from(0x60), Ok(VirtualKey::Numpad0));
    assert_eq!(VirtualKey::try_from(0x6F), Ok(VirtualKey::Divide));
    assert_eq!(VirtualKey::try_from(0x70), Ok(VirtualKey::F1));
    assert_eq!(VirtualKey::try_from(0x7F), Ok(VirtualKey::F16));
}

#[test]
fn codes_between_the_keys_are_refused() {
    for code in [0x00i8, 0x07, 0x0A, 0x0E, 0x1A, 0x1C, 0x3A, 0x40, 0x5B, 0x5F] {
        assert_eq!(VirtualKey::try_from(code), Err(UtilitiesError::InvalidVirtualKey(code)));
    }
}

#[test]
fn every_code_is_decoded_to_the_key_of_that_code_or_refused() {
    let mut decoded = 0;
    for code in i8::MIN..=i8::MAX {
        match VirtualKey::try_from(code) {
            Ok(key) => {
                decoded += 1;
                assert_eq!(key.code_of(), code as u8);
                assert_eq!(key.native(), code);
            }
            Err(e) => assert_eq!(e, UtilitiesError::InvalidVirtualKey(code)),
        }
    }
    assert_eq!(decoded, 111);
}

#[test]
fn codes_above_127_arrive_negative_and_are_decoded() {
    // F17 has the code 0x80, which is -128 as a signed C character.
    assert_eq!(VirtualKey::F17.code_of(), 0x80);
    assert_eq!(VirtualKey::F17.native(), -128);
    assert_eq!(VirtualKey::try_from(-128), Ok(VirtualKey::F17));
    assert_eq!(VirtualKey::try_from(0x87u8 as i8), Ok(VirtualKey::F24));
    // The Equal key has the code 0xB0, which is -80.
    assert_eq!(VirtualKey::try_from(0xB0u8 as i8), Ok(VirtualKey::Equal));
    assert_eq!(VirtualKey::try_from(-80), Ok(VirtualKey::Equal));
    assert_eq!(VirtualKey::NumpadEq.code_of(), 0xBD);
    assert_eq!(VirtualKey::NumpadEq.native(), 0xBDu8 as i8);
    assert_eq!(VirtualKey::try_from(0xBDu8 as i8), Ok(VirtualKey::NumpadEq));
    // Bytes between and after the keys stand for none.
    assert_eq!(VirtualKey::try_from(0x88u8 as i8), Err(UtilitiesError::InvalidVirtualKey(-120)));
    assert_eq!(VirtualKey::try_from(0xAFu8 as i8), Err(UtilitiesError::InvalidVirtualKey(-81)));
    assert_eq!(VirtualKey::try_from(0xBEu8 as i8), Err(UtilitiesError::InvalidVirtualKey(-66)));
    assert_eq!(VirtualKey::try_from(-1), Err(UtilitiesError::InvalidVirtualKey(-1)));
}

#[test]
fn every_key_is_read_back_from_its_character() {
    let mut keys = Vec::new();
    for code in i8::MIN..=i8::MAX {
        if let Ok(key) = VirtualKey::try_from(code) {
            keys.push(key);
        }
    }
    for key in keys {
        assert_eq!(VirtualKey::try_from(key.native()), Ok(key));
        assert_eq!(xplm::ffi::byte(key.native()), key.code_of());
        assert_eq!(xplm::ffi::c_char(key.code_of()), key.native());
    }
    assert_eq!(xplm::ffi::byte(-1), 255);
    assert_eq!(xplm::ffi::byte(-128), 128);
    assert_eq!(xplm::ffi::byte(127), 127);
    assert_eq!(xplm::ffi::c_char(255), -1);
    assert_eq!(xplm::ffi::c_char(128), -128);
    assert_eq!(xplm::ffi::c_char(0), 0);
}

#[test]
fn languages_are_decoded() {
    let all = [
        Language::Unknown,
        Language::English,
        Language::French,
        Language::German,
        Language::Italian,
        Language::Spanish,
        Language::Korean,
        Language::Russian,
        Language::Greek,
        Language::Japanese,
        Language::Chinese,
    ];
    for (code, language) in all.into_iter().enumerate() {
        assert_eq!(Language::try_from(code as i32), Ok(language));
    }
    assert_eq!(Language::try_from(11), Err(UtilitiesError::UnknownLanguageCode(11)));
    assert_eq!(Language::try_from(-1), Err(UtilitiesError::UnknownLanguageCode(-1)));
}

#[test]
fn versions_are_read_with_the_host_application() {
    assert_eq!(HostApplicationId::try_from(0), Ok(HostApplicationId::Unknown));
    assert_eq!(HostApplicationId::try_from(1), Ok(HostApplicationId::XPlane));
    assert_eq!(
        HostApplicationId::try_from(2),
        Err(UtilitiesError::UnknownHostApplicationId(2))
    );
    assert_eq!(
        HostApplicationId::try_from(-1),
        Err(UtilitiesError::UnknownHostApplicationId(-1))
    );
    assert_eq!(
        Versions::new(12100, 410, 1),
        Ok(Versions { app_id: HostApplicationId::XPlane, xplane: 12100, xplm: 410 })
    );
    assert_eq!(Versions::new(1, 2, 7), Err(UtilitiesError::UnknownHostApplicationId(7)));
}

#[test]
fn paths_are_read_from_c_strings() {
    assert_eq!(get_system_path(), UtilitiesCall::GetSystemPath);
    assert_eq!(get_prefs_path(), UtilitiesCall::GetPrefsPath);
    let mut buffer = [0u8; 32];
    buffer[..7].copy_from_slice(b"/X-Sys/");
    assert_eq!(system_path(&buffer).unwrap(), "/X-Sys/");
    assert_eq!(prefs_path(&buffer).unwrap(), "/X-Sys/");
    assert_eq!(
        system_path(&[0x80, 0]),
        Err(UtilitiesError::InvalidSystemPath(Utf8Error))
    );
    assert_eq!(prefs_path(&[0x80, 0]), Err(UtilitiesError::InvalidPrefsPath(Utf8Error)));
}

#[test]
fn directory_separator_is_the_first_character() {
    assert_eq!(get_directory_separator(), UtilitiesCall::GetDirectorySeparator);
    assert_eq!(directory_separator(b"/\0"), Ok('/'));
    assert_eq!(directory_separator(b":abc\0"), Ok(':'));
    assert_eq!(directory_separator("é\0".as_bytes()), Ok('é'));
    assert_eq!(directory_separator(b"\0"), Err(UtilitiesError::EmptyDirectorySeparator));
    assert_eq!(directory_separator(b""), Err(UtilitiesError::EmptyDirectorySeparator));
    assert_eq!(
        directory_separator(&[0xFF, 0]),
        Err(UtilitiesError::InvalidDirectorySeparator(Utf8Error))
    );
}

#[test]
fn data_files_are_loaded_and_saved_by_path() {
    assert_eq!(
        load_data_file(DataFileType::Situation, "Output/a.sit"),
        Ok(UtilitiesCall::LoadDataFile { file_type: 1, path: Some(b"Output/a.sit\0".to_vec()) })
    );
    assert_eq!(
        load_data_file(DataFileType::ReplayMovie, "a\0"),
        Err(UtilitiesError::InvalidDataFilePath(NulError { position: 1 }))
    );
    assert_eq!(
        save_data_file(DataFileType::ReplayMovie, "Output/a.smo"),
        Ok(UtilitiesCall::SaveDataFile { file_type: 2, path: b"Output/a.smo\0".to_vec() })
    );
    assert_eq!(
        save_data_file(DataFileType::Situation, "\0"),
        Err(UtilitiesError::InvalidDataFilePath(NulError { position: 0 }))
    );
    assert_eq!(clear_replay(), UtilitiesCall::LoadDataFile { file_type: 2, path: None });
    assert_eq!(i32::from(DataFileType::Situation), 1);
    assert_eq!(i32::from(DataFileType::ReplayMovie), 2);
}

#[test]
fn only_one_means_that_the_host_succeeded() {
    assert_eq!(data_file_loaded(1), Ok(()));
    assert_eq!(data_file_loaded(0), Err(UtilitiesError::LoadDataFile));
    assert_eq!(data_file_loaded(2), Err(UtilitiesError::LoadDataFile));
    assert_eq!(replay_cleared(1), Ok(()));
    assert_eq!(replay_cleared(0), Err(UtilitiesError::ClearReplay));
    assert_eq!(data_file_saved(1), Ok(()));
    assert_eq!(data_file_saved(-1), Err(UtilitiesError::SaveDataFile));
    assert!(xplm::ffi::truth(1));
    assert!(!xplm::ffi::truth(0));
    assert!(!xplm::ffi::truth(2));
}

#[test]
fn plain_utility_calls() {
    assert_eq!(get_versions(), UtilitiesCall::GetVersions);
    assert_eq!(get_language(), UtilitiesCall::GetLanguage);
    assert_eq!(reload_scenery(), UtilitiesCall::ReloadScenery);
    assert_eq!(
        get_virtual_key_description(VirtualKey::A),
        UtilitiesCall::GetVirtualKeyDescription { key: 0x41 }
    );
    assert_eq!(
        get_virtual_key_description(VirtualKey::Enter),
        UtilitiesCall::GetVirtualKeyDescription { key: 0xBBu8 as i8 }
    );
}

#[test]
fn key_description_may_be_absent() {
    assert_eq!(virtual_key_description(None), Ok(None));
    assert_eq!(virtual_key_description(Some(b"Shift\0")), Ok(Some("Shift".to_string())));
    assert_eq!(
        virtual_key_description(Some(&[0xC0, 0])),
        Err(UtilitiesError::InvalidVirtualKeyDescription(Utf8Error))
    );
}

#[test]
fn log_lines_with_nul_are_dropped() {
    assert_eq!(
        debug_string("hello\n"),
        Some(UtilitiesCall::DebugString { message: b"hello\n\0".to_vec() })
    );
    assert_eq!(debug_string("he\0llo"), None);
    assert_eq!(
        speak_string("hello"),
        Some(UtilitiesCall::SpeakString { message: b"hello\0".to_vec() })
    );
    assert_eq!(speak_string("\0"), None);
}

#[test]
fn commands_are_found_created_and_run() {
    assert_eq!(
        find_command("sim/pause"),
        Ok(UtilitiesCall::FindCommand { name: b"sim/pause\0".to_vec() })
    );
    assert_eq!(Command::find("sim/pause"), find_command("sim/pause"));
    assert_eq!(
        find_command("sim\0"),
        Err(UtilitiesError::InvalidCommandName(NulError { position: 3 }))
    );
    assert!(found_command(0).is_none());
    assert_eq!(*found_command(8).unwrap(), 8);

    assert_eq!(
        create_command("a/b", "does b"),
        Ok(UtilitiesCall::CreateCommand {
            name: b"a/b\0".to_vec(),
            description: b"does b\0".to_vec()
        })
    );
    assert_eq!(
        create_command("a\0b", "does\0b"),
        Err(UtilitiesError::InvalidCommandName(NulError { position: 1 }))
    );
    assert_eq!(
        create_command("a/b", "does\0b"),
        Err(UtilitiesError::InvalidCommandDescription(NulError { position: 4 }))
    );

    let mut command = Command::try_from(8usize).unwrap();
    assert_eq!(command_begin(&command), UtilitiesCall::CommandBegin { command: 8 });
    assert_eq!(command_end(&command), UtilitiesCall::CommandEnd { command: 8 });
    assert_eq!(command_once(&command), UtilitiesCall::CommandOnce { command: 8 });
    assert_eq!(command.begin(), UtilitiesCall::CommandBegin { command: 8 });
    assert_eq!(command.end(), UtilitiesCall::CommandEnd { command: 8 });
    assert_eq!(command.once(), UtilitiesCall::CommandOnce { command: 8 });
}

#[test]
fn error_callback_is_installed_once() {
    let seen = std::rc::Rc::new(std::cell::RefCell::new(Vec::new()));
    let mut slot = OnceSlot::new();
    assert_eq!(error_callback(&slot, b"early\0"), ErrorReport::Unheard);
    assert_eq!(
        set_error_callback(&mut slot, Collect(seen.clone(), "first")),
        UtilitiesCall::SetErrorCallback
    );
    assert_eq!(
        set_error_callback(&mut slot, Collect(seen.clone(), "second")),
        UtilitiesCall::SetErrorCallback
    );
    assert_eq!(error_callback(&slot, b"bad parameter\0tail"), ErrorReport::Delivered);
    assert_eq!(error_callback(&slot, &[0xFF, 0]), ErrorReport::Invalid(Utf8Error));
    assert_eq!(*seen.borrow(), vec!["first: bad parameter".to_string()]);
}

#[test]
fn once_slot_keeps_its_first_value() {
    let mut slot = OnceSlot::new();
    assert_eq!(slot.get(), None);
    assert_eq!(slot.set(1), Ok(()));
    assert_eq!(slot.set(2), Err(2));
    assert_eq!(slot.get(), Some(&1));
    assert_eq!(*slot.get_or_init(3), 1);
    *slot.get_mut().unwrap() = 5;
    assert_eq!(slot.take(), Some(5));
    assert_eq!(slot.get(), None);
    assert_eq!(*slot.get_or_init(3), 3);
    assert_eq!(slot.take(), Some(3));
    assert_eq!(slot.take(), None);
    assert!(slot.get_mut().is_none());
}
