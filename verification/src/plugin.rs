//! The life of a plugin: what the host's five entry points do with it.

use vstd::prelude::*;
use vstd::string::StringSliceAdditionalSpecFns;

use crate::api::plugin::Message;
use crate::ffi::nul_free;
use crate::once::OnceSlot;

verus! {

/// What every plugin is.
pub trait XPlugin: Sized {
    /// What can go wrong when the plugin starts or is enabled.
    type Error;

    /// The host loads the plugin.
    fn start() -> Result<Self, Self::Error>;

    /// The host unloads the plugin.
    fn stop(self) {
    }

    /// The plugin is enabled. If this fails, the plugin stays disabled.
    ///
    /// A plugin that does not say what enabling does is enabled at once,
    /// and stays as it is.
    fn enable(&mut self) -> (r: Result<(), Self::Error>)
        default_ensures
            r is Ok,
            *final(self) == *old(self),
    {
        Ok(())
    }

    /// The plugin is disabled.
    fn disable(&mut self) {
    }

    /// A message has come for the plugin.
    fn receive_message(&mut self, _message: Message) {
    }
}

/// Notifications that plugins define have this bit set; commands have it clear.
pub const MIN_MESSAGE_ID: i32 = 0x8000000;

/// What an entry point answers the host when all went well.
pub const XP_RESULT_OK: i32 = 1;

/// What an entry point answers the host when something failed.
pub const XP_RESULT_ERR: i32 = 0;

/// The longest text, in bytes, that is copied into a buffer of the host.
pub const C_BUFFER_TEXT_MAX: usize = 255;

/// What an entry point answers the host, and the failure that is to be
/// logged if there was one.
#[derive(Debug)]
pub struct Outcome<E> {
    /// What the host is told.
    pub result: i32,
    /// What went wrong in the plugin.
    pub failure: Option<E>,
}

/// The text that stands in for one that cannot be handed to the host: the
/// bytes of `<invalid>`.
pub open spec fn invalid_text() -> Seq<u8> {
    seq![60u8, 105u8, 110u8, 118u8, 97u8, 108u8, 105u8, 100u8, 62u8]
}

/// What is copied into a buffer of the host for a text: its first 255 bytes,
/// or `<invalid>` if there is a NUL byte among them, and the terminator.
pub open spec fn c_buffer_text(bytes: Seq<u8>) -> Seq<u8> {
    let head = bytes.take(
        if bytes.len() < C_BUFFER_TEXT_MAX {
            bytes.len() as int
        } else {
            C_BUFFER_TEXT_MAX as int
        },
    );
    if nul_free(head) {
        head.push(0)
    } else {
        invalid_text().push(0)
    }
}

/// The bytes to copy into a buffer of 256 bytes that the host provides for a
/// name, a signature or a description.
pub fn copy_to_c_buffer(src: &str) -> (out: Vec<u8>)
    ensures
        out@ == c_buffer_text(src.spec_bytes()),
        out@.len() <= C_BUFFER_TEXT_MAX + 1,
{
    let bytes = src.as_bytes();
    let src_len = if bytes.len() < C_BUFFER_TEXT_MAX {
        bytes.len()
    } else {
        C_BUFFER_TEXT_MAX
    };
    let mut out: Vec<u8> = Vec::new();
    let mut i: usize = 0;
    while i < src_len && bytes[i] != 0
        invariant
            i <= src_len <= bytes@.len(),
            out@ == bytes@.take(i as int),
            forall|j: int| 0 <= j < i ==> bytes@[j] != 0,
        decreases src_len - i,
    {
        out.push(bytes[i]);
        i += 1;
        assert(out@ == bytes@.take(i as int));
    }
    if i < src_len {
        assert(bytes@.take(src_len as int)[i as int] == 0);
        let mut invalid: Vec<u8> = Vec::new();
        invalid.push(60);
        invalid.push(105);
        invalid.push(110);
        invalid.push(118);
        invalid.push(97);
        invalid.push(108);
        invalid.push(105);
        invalid.push(100);
        invalid.push(62);
        assert(invalid@ == invalid_text());
        invalid.push(0);
        invalid
    } else {
        assert(nul_free(bytes@.take(src_len as int)));
        out.push(0);
        out
    }
}

/// What the start of a plugin came to.
#[derive(Debug)]
pub struct Started<E> {
    /// What the host is told, and what is to be logged.
    pub outcome: Outcome<E>,
    /// The plugin was started by this call, and the host's three buffers are
    /// to be filled with its name, its signature and its description.
    pub describe: bool,
}

/// The entry point that starts the plugin. A plugin that stands already is
/// left alone; else the plugin is started and, if that went well, kept: what
/// is kept, or what is reported as the failure, is what the plugin's own
/// `start` gave.
pub fn start<P: XPlugin>(slot: &mut OnceSlot<P>) -> (r: Started<P::Error>)
    ensures
        old(slot)@ is Some ==> {
            &&& final(slot)@ == old(slot)@
            &&& r.outcome.result == XP_RESULT_OK
            &&& r.outcome.failure is None
            &&& !r.describe
        },
        old(slot)@ is None ==> {
            &&& r.outcome.result == XP_RESULT_OK <==> final(slot)@ is Some
            &&& r.outcome.result == XP_RESULT_ERR <==> final(slot)@ is None
            &&& r.outcome.failure is Some <==> final(slot)@ is None
            &&& r.describe <==> final(slot)@ is Some
            &&& final(slot)@ matches Some(instance) ==> call_ensures(
                P::start,
                (),
                Ok::<P, P::Error>(instance),
            )
            &&& r.outcome.failure matches Some(err) ==> call_ensures(
                P::start,
                (),
                Err::<P, P::Error>(err),
            )
        },
{
    if slot.get().is_some() {
        return Started {
            outcome: Outcome { result: XP_RESULT_OK, failure: None },
            describe: false,
        };
    }
    match P::start() {
        Ok(instance) => {
            let set = slot.set(instance);
            assert(set is Ok);
            Started { outcome: Outcome { result: XP_RESULT_OK, failure: None }, describe: true }
        },
        Err(err) => Started {
            outcome: Outcome { result: XP_RESULT_ERR, failure: Some(err) },
            describe: false,
        },
    }
}

/// The entry point that stops the plugin: the plugin that stands is taken
/// away and told to stop.
pub fn stop<P: XPlugin>(slot: &mut OnceSlot<P>) -> (stopped: bool)
    ensures
        final(slot)@ is None,
        stopped == old(slot)@ is Some,
        old(slot)@ matches Some(instance) ==> call_ensures(P::stop, (instance,), ()),
{
    match slot.take() {
        Some(instance) => {
            instance.stop();
            true
        },
        None => false,
    }
}

/// The entry point that enables the plugin: the plugin that stands is told
/// to enable itself. Without a plugin, and when the plugin fails to enable
/// itself, the host is told that it stays disabled; the failure is the
/// plugin's own.
pub fn enable<P: XPlugin>(slot: &mut OnceSlot<P>) -> (r: Outcome<P::Error>)
    ensures
        final(slot)@ is Some <==> old(slot)@ is Some,
        old(slot)@ is None ==> r.result == XP_RESULT_ERR && r.failure is None,
        old(slot)@ is Some ==> (r.result == XP_RESULT_OK <==> r.failure is None) && (r.result
            == XP_RESULT_ERR <==> r.failure is Some),
        old(slot)@ matches Some(plugin) ==> exists|m: &mut P, enabled: Result<(), P::Error>|
            mut_ref_current(m) == plugin && mut_ref_future(m) == final(slot)@->Some_0
                && #[trigger] call_ensures(P::enable, (m,), enabled)
                && r.failure == (match enabled {
                Ok(_) => None,
                Err(err) => Some(err),
            }),
{
    match slot.get_mut() {
        None => Outcome { result: XP_RESULT_ERR, failure: None },
        Some(instance) => match instance.enable() {
            Ok(()) => Outcome { result: XP_RESULT_OK, failure: None },
            Err(err) => Outcome { result: XP_RESULT_ERR, failure: Some(err) },
        },
    }
}

/// The entry point that disables the plugin: the plugin that stands is told
/// to disable itself.
pub fn disable<P: XPlugin>(slot: &mut OnceSlot<P>) -> (disabled: bool)
    ensures
        final(slot)@ is Some <==> old(slot)@ is Some,
        disabled == old(slot)@ is Some,
        old(slot)@ matches Some(plugin) ==> exists|m: &mut P|
            mut_ref_current(m) == plugin && mut_ref_future(m) == final(slot)@->Some_0
                && #[trigger] call_ensures(P::disable, (m,), ()),
{
    match slot.get_mut() {
        None => false,
        Some(instance) => {
            instance.disable();
            true
        },
    }
}

/// The entry point that takes a message: it is decoded and handed to the
/// plugin, if there is one. `param` is the pointer-sized parameter as an
/// integer.
pub fn receive_message<P: XPlugin>(
    slot: &mut OnceSlot<P>,
    from: i32,
    message: i32,
    param: usize,
) -> (delivered: Option<Message>)
    ensures
        final(slot)@ is Some <==> old(slot)@ is Some,
        delivered == (if old(slot)@ is Some {
            Some(Message::decoded(from, message, param))
        } else {
            None
        }),
        old(slot)@ matches Some(plugin) ==> exists|m: &mut P|
            mut_ref_current(m) == plugin && mut_ref_future(m) == final(slot)@->Some_0
                && #[trigger] call_ensures(
                P::receive_message,
                (m, Message::decoded(from, message, param)),
                (),
            ),
{
    match slot.get_mut() {
        None => None,
        Some(instance) => {
            let msg = Message::decode(from, message, param);
            instance.receive_message(msg);
            Some(msg)
        },
    }
}

} // verus!
