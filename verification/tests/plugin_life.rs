use xplm::api::plugin::Message;
use xplm::once::OnceSlot;
use xplm::plugin::{
    copy_to_c_buffer, disable, enable, receive_message, start, stop, XPlugin, XP_RESULT_ERR,
    XP_RESULT_OK,
};

#[derive(Debug, Default)]
struct Steady {
    enabled: bool,
    messages: Vec<Message>,
}

impl XPlugin for Steady {
    type Error = String;

    fn start() -> Result<Self, String> {
        Ok(Steady::default())
    }

    fn enable(&mut self) -> Result<(), String> {
        self.enabled = true;
        Ok(())
    }

    fn disable(&mut self) {
        self.enabled = false;
    }

    fn receive_message(&mut self, message: Message) {
        self.messages.push(message);
    }
}

#[derive(Debug)]
struct Broken;

impl XPlugin for Broken {
    type Error = String;

    fn start() -> Result<Self, String> {
        Err("no license".to_string())
    }
}

#[derive(Debug)]
struct Stubborn;

impl XPlugin for Stubborn {
    type Error = String;

    fn start() -> Result<Self, String> {
        Ok(Stubborn)
    }

    fn enable(&mut self) -> Result<(), String> {
        Err("not now".to_string())
    }
}

#[test]
fn plugin_is_started_once() {
    let mut slot: OnceSlot<Steady> = OnceSlot::new();
    let started = start(&mut slot);
    assert_eq!(started.outcome.result, XP_RESULT_OK);
    assert!(started.outcome.failure.is_none());
    assert!(started.describe);
    slot.get_mut().unwrap().enabled = true;

    let again = start(&mut slot);
    assert_eq!(again.outcome.result, XP_RESULT_OK);
    assert!(!again.describe);
    // The plugin that stood was left alone.
    assert!(slot.get().unwrap().enabled);
}

#[test]
fn plugin_that_fails_to_start_is_not_kept() {
    let mut slot: OnceSlot<Broken> = OnceSlot::new();
    let started = start(&mut slot);
    assert_eq!(started.outcome.result, XP_RESULT_ERR);
    assert_eq!(started.outcome.failure, Some("no license".to_string()));
    assert!(!started.describe);
    assert!(slot.get().is_none());
    let enabled = enable(&mut slot);
    assert_eq!(enabled.result, XP_RESULT_ERR);
    assert!(enabled.failure.is_none());
    assert!(!disable(&mut slot));
    assert!(!stop(&mut slot));
    assert_eq!(receive_message(&mut slot, 0, 101, 0), None);
}

#[test]
fn plugin_is_enabled_disabled_and_stopped() {
    let mut slot: OnceSlot<Steady> = OnceSlot::new();
    start(&mut slot);
    let enabled = enable(&mut slot);
    assert_eq!(enabled.result, XP_RESULT_OK);
    assert!(enabled.failure.is_none());
    assert!(slot.get().unwrap().enabled);
    assert!(disable(&mut slot));
    assert!(!slot.get().unwrap().enabled);
    assert!(stop(&mut slot));
    assert!(slot.get().is_none());
    assert!(!stop(&mut slot));
    assert_eq!(XP_RESULT_OK, 1);
    assert_eq!(XP_RESULT_ERR, 0);
}

#[test]
fn plugin_that_fails_to_enable_stays_disabled() {
    let mut slot: OnceSlot<Stubborn> = OnceSlot::new();
    assert_eq!(start(&mut slot).outcome.result, XP_RESULT_OK);
    let enabled = enable(&mut slot);
    assert_eq!(enabled.result, XP_RESULT_ERR);
    assert_eq!(enabled.failure, Some("not now".to_string()));
    assert!(slot.get().is_some());
}

#[test]
fn messages_are_decoded_for_the_plugin() {
    let mut slot: OnceSlot<Steady> = OnceSlot::new();
    start(&mut slot);
    assert_eq!(receive_message(&mut slot, 0, 102, 1), Some(Message::PlaneLoaded(1)));
    assert_eq!(receive_message(&mut slot, 5, 0x8000010, 77), Some(Message::Custom(5, 0x8000010, 77)));
    assert_eq!(
        slot.get().unwrap().messages,
        vec![Message::PlaneLoaded(1), Message::Custom(5, 0x8000010, 77)]
    );
}

#[test]
fn text_for_a_host_buffer_is_cut_and_terminated() {
    assert_eq!(copy_to_c_buffer("Map"), b"Map\0".to_vec());
    assert_eq!(copy_to_c_buffer(""), vec![0]);
    let long = "x".repeat(300);
    let copied = copy_to_c_buffer(&long);
    assert_eq!(copied.len(), 256);
    assert_eq!(copied[254], b'x');
    assert_eq!(copied[255], 0);
    let exact = "y".repeat(255);
    assert_eq!(copy_to_c_buffer(&exact).len(), 256);
}

#[test]
fn text_with_a_nul_is_replaced_in_a_host_buffer() {
    assert_eq!(copy_to_c_buffer("Ma\0p"), b"<invalid>\0".to_vec());
    assert_eq!(copy_to_c_buffer("\0"), b"<invalid>\0".to_vec());
    // A NUL byte beyond what is copied does no harm.
    let mut long = "x".repeat(255);
    long.push('\0');
    assert_eq!(copy_to_c_buffer(&long).len(), 256);
    let mut long = "x".repeat(254);
    long.push('\0');
    assert_eq!(copy_to_c_buffer(&long), b"<invalid>\0".to_vec());
}

#[derive(Debug, PartialEq)]
struct Bare(u8);

impl XPlugin for Bare {
    type Error = String;

    fn start() -> Result<Self, String> {
        Ok(Bare(3))
    }
}

#[test]
fn plugin_that_does_not_say_how_is_enabled_at_once() {
    let mut plugin = Bare::start().unwrap();
    assert_eq!(plugin.enable(), Ok(()));
    assert_eq!(plugin, Bare(3));
    let mut slot: OnceSlot<Bare> = OnceSlot::new();
    start(&mut slot);
    let enabled = enable(&mut slot);
    assert_eq!(enabled.result, XP_RESULT_OK);
    assert!(enabled.failure.is_none());
    assert_eq!(slot.get(), Some(&Bare(3)));
}
