pub mod app;
pub mod command;
pub mod error;
pub mod file;
pub mod lang;
pub mod virtual_key;

use vstd::prelude::*;
use vstd::string::StringSliceAdditionalSpecFns;
use vstd::utf8::{encode_utf8, valid_utf8};

pub use self::app::{HostApplicationId, Versions};
pub use self::command::{
    Command, CommandExecutionTime, CommandHandler, CommandHandlerRecord, CommandLink, CommandPhase,
    COMMAND_CONTINUES,
};
pub use self::error::UtilitiesError;
pub use self::file::DataFileType;
pub use self::lang::Language;
pub use self::virtual_key::VirtualKey;

use crate::api::registration::{
    at_rest, inserted, led, lemma_call_ends, registered, released, resting, Call, Registry,
    Teardown,
};
use crate::ffi::{
    c_str, c_str_len, c_string, nul_free, truth, FromCStringBytes, NulError, Utf8Error,
};
use crate::once::OnceSlot;

verus! {

/// What the functions of this interface give back.
pub type Result<T> = std::result::Result<T, UtilitiesError>;

/// A call into the host's utilities interface: which function, and what is
/// handed to it. Handles stand as the host knows them, and text as C strings.
#[derive(Clone, Debug, PartialEq, Eq)]
#[allow(inconsistent_fields)]
pub enum UtilitiesCall {
    /// Asks for the path of the system folder.
    GetSystemPath,
    /// Asks for the path of the preferences file.
    GetPrefsPath,
    /// Asks for the directory separator.
    GetDirectorySeparator,
    /// Loads a data file; without a path, clears what is loaded.
    LoadDataFile { file_type: i32, path: Option<Vec<u8>> },
    /// Saves a data file.
    SaveDataFile { file_type: i32, path: Vec<u8> },
    /// Asks for the versions of the host.
    GetVersions,
    /// Asks for the language of the host.
    GetLanguage,
    /// Installs the function that the host reports plugin errors to.
    SetErrorCallback,
    /// Writes a line to the host's log.
    DebugString { message: Vec<u8> },
    /// Shows and speaks a line.
    SpeakString { message: Vec<u8> },
    /// Asks for the description of a key.
    GetVirtualKeyDescription { key: i8 },
    /// Reloads the scenery.
    ReloadScenery,
    /// Looks a command up by name.
    FindCommand { name: Vec<u8> },
    /// Starts a command.
    CommandBegin { command: usize },
    /// Ends a command.
    CommandEnd { command: usize },
    /// Runs a command once.
    CommandOnce { command: usize },
    /// Creates a command.
    CreateCommand { name: Vec<u8>, description: Vec<u8> },
    /// Registers the command trampoline for a command, with a token.
    RegisterCommandHandler { command: usize, before: i32, token: usize },
    /// Takes back the registration that was made with the same three values.
    UnregisterCommandHandler { command: usize, before: i32, token: usize },
}

/// The call that asks for the path of the system folder. [`system_path`]
/// reads the answer.
pub fn get_system_path() -> (call: UtilitiesCall)
    ensures
        call == UtilitiesCall::GetSystemPath,
{
    UtilitiesCall::GetSystemPath
}

/// Reads the buffer that the host wrote the path of the system folder to.
pub fn system_path(buffer: &[u8]) -> (r: Result<String>)
    ensures
        r is Ok <==> valid_utf8(c_str(buffer@)),
        r matches Ok(path) ==> encode_utf8(path@) == c_str(buffer@),
        r matches Err(e) ==> e == UtilitiesError::InvalidSystemPath(Utf8Error),
{
    match String::from_cstring_buffer(buffer) {
        Ok(path) => Ok(path),
        Err(e) => Err(UtilitiesError::InvalidSystemPath(e)),
    }
}

/// The call that asks for the path of the preferences file. [`prefs_path`]
/// reads the answer.
pub fn get_prefs_path() -> (call: UtilitiesCall)
    ensures
        call == UtilitiesCall::GetPrefsPath,
{
    UtilitiesCall::GetPrefsPath
}

/// Reads the buffer that the host wrote the path of the preferences file to.
pub fn prefs_path(buffer: &[u8]) -> (r: Result<String>)
    ensures
        r is Ok <==> valid_utf8(c_str(buffer@)),
        r matches Ok(path) ==> encode_utf8(path@) == c_str(buffer@),
        r matches Err(e) ==> e == UtilitiesError::InvalidPrefsPath(Utf8Error),
{
    match String::from_cstring_buffer(buffer) {
        Ok(path) => Ok(path),
        Err(e) => Err(UtilitiesError::InvalidPrefsPath(e)),
    }
}

/// The call that asks for the directory separator. [`directory_separator`]
/// reads the answer.
pub fn get_directory_separator() -> (call: UtilitiesCall)
    ensures
        call == UtilitiesCall::GetDirectorySeparator,
{
    UtilitiesCall::GetDirectorySeparator
}

/// The directory separator in the C string that the host gave: its first
/// character.
pub open spec fn separator_of(text: Seq<u8>) -> Result<char> {
    if !valid_utf8(text) {
        Err(UtilitiesError::InvalidDirectorySeparator(Utf8Error))
    } else if vstd::utf8::decode_utf8(text).len() == 0 {
        Err(UtilitiesError::EmptyDirectorySeparator)
    } else {
        Ok(vstd::utf8::decode_utf8(text)[0])
    }
}

/// Reads the C string that the host gave as the directory separator.
pub fn directory_separator(buffer: &[u8]) -> (r: Result<char>)
    ensures
        r == separator_of(c_str(buffer@)),
{
    let text = match String::from_cstring_buffer(buffer) {
        Ok(text) => text,
        Err(e) => {
            return Err(UtilitiesError::InvalidDirectorySeparator(e));
        },
    };
    proof {
        vstd::utf8::encode_utf8_decode_utf8(text@);
    }
    if text.as_str().unicode_len() == 0 {
        Err(UtilitiesError::EmptyDirectorySeparator)
    } else {
        Ok(text.as_str().get_char(0))
    }
}

/// The call that loads a data file of a kind. `file_path` is relative to the
/// system folder. [`data_file_loaded`] reads the answer.
pub fn load_data_file(file_type: DataFileType, file_path: &str) -> (r: Result<UtilitiesCall>)
    ensures
        r is Ok <==> nul_free(file_path.spec_bytes()),
        r matches Ok(call) ==> call matches UtilitiesCall::LoadDataFile {
            file_type: code,
            path: Some(c_path),
        } && code == file_type.code() && c_path@ == file_path.spec_bytes().push(0),
        r matches Err(e) ==> e == UtilitiesError::InvalidDataFilePath(
            NulError { position: c_str_len(file_path.spec_bytes()) as usize },
        ),
{
    match c_string(file_path) {
        Ok(c_path) => Ok(
            UtilitiesCall::LoadDataFile { file_type: i32::from(file_type), path: Some(c_path) },
        ),
        Err(e) => Err(UtilitiesError::InvalidDataFilePath(e)),
    }
}

/// Reads the host's answer to a request to load a data file.
pub fn data_file_loaded(answer: i32) -> (r: Result<()>)
    ensures
        r is Ok <==> answer == 1,
        r matches Err(e) ==> e == UtilitiesError::LoadDataFile,
{
    if truth(answer) {
        Ok(())
    } else {
        Err(UtilitiesError::LoadDataFile)
    }
}

/// The call that clears the replay: a request to load a replay movie from no
/// path. [`replay_cleared`] reads the answer.
pub fn clear_replay() -> (call: UtilitiesCall)
    ensures
        call == (UtilitiesCall::LoadDataFile {
            file_type: DataFileType::ReplayMovie.code(),
            path: None,
        }),
{
    UtilitiesCall::LoadDataFile { file_type: i32::from(DataFileType::ReplayMovie), path: None }
}

/// Reads the host's answer to a request to clear the replay.
pub fn replay_cleared(answer: i32) -> (r: Result<()>)
    ensures
        r is Ok <==> answer == 1,
        r matches Err(e) ==> e == UtilitiesError::ClearReplay,
{
    if truth(answer) {
        Ok(())
    } else {
        Err(UtilitiesError::ClearReplay)
    }
}

/// The call that saves the situation or the replay. `file_path` is relative
/// to the system folder. [`data_file_saved`] reads the answer.
pub fn save_data_file(file_type: DataFileType, file_path: &str) -> (r: Result<UtilitiesCall>)
    ensures
        r is Ok <==> nul_free(file_path.spec_bytes()),
        r matches Ok(call) ==> call matches UtilitiesCall::SaveDataFile {
            file_type: code,
            path: c_path,
        } && code == file_type.code() && c_path@ == file_path.spec_bytes().push(0),
        r matches Err(e) ==> e == UtilitiesError::InvalidDataFilePath(
            NulError { position: c_str_len(file_path.spec_bytes()) as usize },
        ),
{
    match c_string(file_path) {
        Ok(c_path) => Ok(
            UtilitiesCall::SaveDataFile { file_type: i32::from(file_type), path: c_path },
        ),
        Err(e) => Err(UtilitiesError::InvalidDataFilePath(e)),
    }
}

/// Reads the host's answer to a request to save a data file.
pub fn data_file_saved(answer: i32) -> (r: Result<()>)
    ensures
        r is Ok <==> answer == 1,
        r matches Err(e) ==> e == UtilitiesError::SaveDataFile,
{
    if truth(answer) {
        Ok(())
    } else {
        Err(UtilitiesError::SaveDataFile)
    }
}

/// The call that asks for the versions of the host. [`Versions::new`] reads
/// the answer.
pub fn get_versions() -> (call: UtilitiesCall)
    ensures
        call == UtilitiesCall::GetVersions,
{
    UtilitiesCall::GetVersions
}

/// The call that asks for the language of the host. [`Language::try_from`]
/// reads the answer.
pub fn get_language() -> (call: UtilitiesCall)
    ensures
        call == UtilitiesCall::GetLanguage,
{
    UtilitiesCall::GetLanguage
}

/// What a plugin does with an error that the host reports.
pub trait ErrorCallback {
    /// Takes the host's message.
    fn report(&self, message: &str);
}

/// Installs the callback for errors that the host reports, and gives the call
/// that tells the host. The callback is installed once for the process: when
/// one stands already, it stays, and the host is told all the same.
pub fn set_error_callback<F: ErrorCallback>(slot: &mut OnceSlot<F>, callback: F) -> (call:
    UtilitiesCall)
    ensures
        call == UtilitiesCall::SetErrorCallback,
        final(slot)@ == (if old(slot)@ is Some {
            old(slot)@
        } else {
            Some(callback)
        }),
{
    let _ = slot.get_or_init(callback);
    UtilitiesCall::SetErrorCallback
}

/// What became of an error that the host reported.
#[derive(Clone, Copy, Debug, PartialEq, Eq, Structural)]
pub enum ErrorReport {
    /// The callback took the message.
    Delivered,
    /// No callback is installed.
    Unheard,
    /// The message is not UTF-8; this is to be logged.
    Invalid(Utf8Error),
}

/// What becomes of a message, given whether a callback is installed.
pub open spec fn report_of(installed: bool, message: Seq<u8>) -> ErrorReport {
    if !valid_utf8(c_str(message)) {
        ErrorReport::Invalid(Utf8Error)
    } else if installed {
        ErrorReport::Delivered
    } else {
        ErrorReport::Unheard
    }
}

/// Leads an error that the host reports to the callback that is installed:
/// the callback is handed the text of the message. `message` holds the C
/// string that the host pointed to.
pub fn error_callback<F: ErrorCallback>(slot: &OnceSlot<F>, message: &[u8]) -> (r: ErrorReport)
    ensures
        r == report_of(slot@ is Some, message@),
        r is Delivered ==> exists|text: &str|
            encode_utf8(text@) == c_str(message@) && #[trigger] call_ensures(
                F::report,
                (&slot@->Some_0, text),
                (),
            ),
{
    match String::from_cstring_buffer(message) {
        Ok(text) => {
            match slot.get() {
                Some(handler) => {
                    handler.report(text.as_str());
                    ErrorReport::Delivered
                },
                None => ErrorReport::Unheard,
            }
        },
        Err(e) => ErrorReport::Invalid(e),
    }
}

/// The call that writes a line to the host's log, or none if the line holds
/// a NUL byte.
pub fn debug_string(message: &str) -> (r: Option<UtilitiesCall>)
    ensures
        r is Some <==> nul_free(message.spec_bytes()),
        r matches Some(call) ==> call matches UtilitiesCall::DebugString { message: c_message }
            && c_message@ == message.spec_bytes().push(0),
{
    match c_string(message) {
        Ok(c_message) => Some(UtilitiesCall::DebugString { message: c_message }),
        Err(_) => None,
    }
}

/// The call that shows and speaks a line, or none if the line holds a NUL
/// byte.
pub fn speak_string(message: &str) -> (r: Option<UtilitiesCall>)
    ensures
        r is Some <==> nul_free(message.spec_bytes()),
        r matches Some(call) ==> call matches UtilitiesCall::SpeakString { message: c_message }
            && c_message@ == message.spec_bytes().push(0),
{
    match c_string(message) {
        Ok(c_message) => Some(UtilitiesCall::SpeakString { message: c_message }),
        Err(_) => None,
    }
}

/// The call that asks for the description of a key.
/// [`virtual_key_description`] reads the answer.
pub fn get_virtual_key_description(key: VirtualKey) -> (call: UtilitiesCall)
    ensures
        call == (UtilitiesCall::GetVirtualKeyDescription { key: key.raw() }),
{
    UtilitiesCall::GetVirtualKeyDescription { key: key.native() }
}

/// Reads the host's answer to the question for the description of a key:
/// the C string that it pointed to, or `None` for the null pointer.
pub fn virtual_key_description(answer: Option<&[u8]>) -> (r: Result<Option<String>>)
    ensures
        answer is None ==> r == Ok::<Option<String>, UtilitiesError>(None),
        answer matches Some(bytes) ==> {
            &&& r is Ok <==> valid_utf8(c_str(bytes@))
            &&& r matches Ok(text) ==> text matches Some(s) && encode_utf8(s@) == c_str(bytes@)
            &&& r matches Err(e) ==> e == UtilitiesError::InvalidVirtualKeyDescription(Utf8Error)
        },
{
    match answer {
        None => Ok(None),
        Some(bytes) => match String::from_cstring_buffer(bytes) {
            Ok(text) => Ok(Some(text)),
            Err(e) => Err(UtilitiesError::InvalidVirtualKeyDescription(e)),
        },
    }
}

/// The call that reloads the scenery.
pub fn reload_scenery() -> (call: UtilitiesCall)
    ensures
        call == UtilitiesCall::ReloadScenery,
{
    UtilitiesCall::ReloadScenery
}

/// The call that looks a command up by name. [`found_command`] reads the
/// answer.
pub fn find_command(name: &str) -> (r: Result<UtilitiesCall>)
    ensures
        r is Ok <==> nul_free(name.spec_bytes()),
        r matches Ok(call) ==> call matches UtilitiesCall::FindCommand { name: c_name } && c_name@
            == name.spec_bytes().push(0),
        r matches Err(e) ==> e == UtilitiesError::InvalidCommandName(
            NulError { position: c_str_len(name.spec_bytes()) as usize },
        ),
{
    match c_string(name) {
        Ok(c_name) => Ok(UtilitiesCall::FindCommand { name: c_name }),
        Err(e) => Err(UtilitiesError::InvalidCommandName(e)),
    }
}

/// Reads the host's answer to a lookup of a command: there is none behind
/// the null handle.
pub fn found_command(answer: usize) -> (r: Option<Command>)
    ensures
        r is Some <==> answer != 0,
        r matches Some(command) ==> command@ == answer,
{
    if answer == 0 {
        None
    } else {
        match Command::try_from(answer) {
            Ok(command) => Some(command),
            Err(_) => None,
        }
    }
}

/// The call that starts a command.
pub fn command_begin(command: &Command) -> (call: UtilitiesCall)
    ensures
        call == (UtilitiesCall::CommandBegin { command: command@ }),
{
    UtilitiesCall::CommandBegin { command: **command }
}

/// The call that ends a command that was started.
pub fn command_end(command: &Command) -> (call: UtilitiesCall)
    ensures
        call == (UtilitiesCall::CommandEnd { command: command@ }),
{
    UtilitiesCall::CommandEnd { command: **command }
}

/// The call that runs a command once: it begins and ends at once.
pub fn command_once(command: &Command) -> (call: UtilitiesCall)
    ensures
        call == (UtilitiesCall::CommandOnce { command: command@ }),
{
    UtilitiesCall::CommandOnce { command: **command }
}

/// The error that creating a command ends in: a bad name comes before a bad
/// description.
pub open spec fn create_command_error(name: Seq<u8>, description: Seq<u8>) -> Option<
    UtilitiesError,
> {
    if !nul_free(name) {
        Some(UtilitiesError::InvalidCommandName(NulError { position: c_str_len(name) as usize }))
    } else if !nul_free(description) {
        Some(
            UtilitiesError::InvalidCommandDescription(
                NulError { position: c_str_len(description) as usize },
            ),
        )
    } else {
        None
    }
}

/// The call that creates a command with a name and a description.
/// [`Command::try_from`] reads the answer.
pub fn create_command(name: &str, description: &str) -> (r: Result<UtilitiesCall>)
    ensures
        match r {
            Ok(call) => {
                &&& create_command_error(name.spec_bytes(), description.spec_bytes()) is None
                &&& call matches UtilitiesCall::CreateCommand {
                    name: c_name,
                    description: c_description,
                }
                &&& c_name@ == name.spec_bytes().push(0)
                &&& c_description@ == description.spec_bytes().push(0)
            },
            Err(e) => create_command_error(name.spec_bytes(), description.spec_bytes()) == Some(e),
        },
{
    let c_name = match c_string(name) {
        Ok(c_name) => c_name,
        Err(e) => {
            return Err(UtilitiesError::InvalidCommandName(e));
        },
    };
    let c_description = match c_string(description) {
        Ok(c_description) => c_description,
        Err(e) => {
            return Err(UtilitiesError::InvalidCommandDescription(e));
        },
    };
    Ok(UtilitiesCall::CreateCommand { name: c_name, description: c_description })
}

/// Registers a handler for a command and gives the record of the
/// registration together with the call that tells the host. The host is
/// handed the command, the time and the token; it hands the token back at
/// every call.
pub fn register_command_handler<H: CommandHandler>(
    registry: &mut Registry<CommandLink<H>>,
    command: &Command,
    execution_time: CommandExecutionTime,
    handler: H,
) -> (r: (CommandHandlerRecord, UtilitiesCall))
    ensures
        final(registry)@ == inserted(old(registry)@, CommandLink { command: command@, handler }),
        r.0.token()@ == old(registry)@.len() + 1,
        r.0.command() == command@,
        r.0.execution_time() == execution_time,
        r.1 == r.0.registration(),
{
    let link = CommandLink { command: **command, handler };
    let token = registry.insert(link);
    let call = UtilitiesCall::RegisterCommandHandler {
        command: **command,
        before: i32::from(execution_time),
        token: token.native(),
    };
    (CommandHandlerRecord::new(token, **command, execution_time), call)
}

impl<H: CommandHandler> Call<CommandLink<H>> {
    /// The command trampoline between the two halves of the call: leads the
    /// host's call to the link (see [`CommandLink::handle`]), and answers
    /// the host.
    pub fn command_handler(&mut self, command: usize, phase: i32) -> (r: i32)
        ensures
            r == COMMAND_CONTINUES,
            final(self).token() == old(self).token(),
            old(self).item() is None ==> final(self).item() is None,
            old(self).item() matches Some(link) ==> ({
                &&& final(self).item() is Some
                &&& final(self).item()->Some_0.command == link.command
                &&& match link.due(command, phase) {
                    Some(CommandPhase::Begin) => exists|m: &mut H|
                        mut_ref_current(m) == link.handler
                            && mut_ref_future(m) == final(self).item()->Some_0.handler
                            && #[trigger] call_ensures(H::command_begin, (m,), ()),
                    Some(CommandPhase::Continue) => exists|m: &mut H|
                        mut_ref_current(m) == link.handler
                            && mut_ref_future(m) == final(self).item()->Some_0.handler
                            && #[trigger] call_ensures(H::command_continue, (m,), ()),
                    Some(CommandPhase::End) => exists|m: &mut H|
                        mut_ref_current(m) == link.handler
                            && mut_ref_future(m) == final(self).item()->Some_0.handler
                            && #[trigger] call_ensures(H::command_end, (m,), ()),
                    None => final(self).item() == old(self).item(),
                }
            }),
    {
        match self.item_mut() {
            Some(link) => link.handle(command, phase),
            None => COMMAND_CONTINUES,
        }
    }
}

/// The command trampoline: finds the link by the token that the host handed
/// back, reports the phase to its handler (see [`CommandLink::handle`]) and
/// answers the host. Under a token that names no link at rest, nothing is
/// touched.
///
/// What the call made of the handler is stated through the handler's own
/// method: the handler as it stood in the registry and as it stands there
/// now are the two ends of one call of the method of the due phase.
pub fn command_handler<H: CommandHandler>(
    registry: &mut Registry<CommandLink<H>>,
    command: usize,
    phase: i32,
    token: usize,
) -> (r: i32)
    ensures
        r == COMMAND_CONTINUES,
        at_rest(old(registry)@, token) ==> led(old(registry)@, final(registry)@, token),
        resting(old(registry)@, token) matches Some(link) ==> ({
            &&& resting(final(registry)@, token)->Some_0.command == link.command
            &&& match link.due(command, phase) {
                Some(CommandPhase::Begin) => exists|m: &mut H|
                    mut_ref_current(m) == link.handler
                        && mut_ref_future(m) == resting(final(registry)@, token)->Some_0.handler
                        && #[trigger] call_ensures(H::command_begin, (m,), ()),
                Some(CommandPhase::Continue) => exists|m: &mut H|
                    mut_ref_current(m) == link.handler
                        && mut_ref_future(m) == resting(final(registry)@, token)->Some_0.handler
                        && #[trigger] call_ensures(H::command_continue, (m,), ()),
                Some(CommandPhase::End) => exists|m: &mut H|
                    mut_ref_current(m) == link.handler
                        && mut_ref_future(m) == resting(final(registry)@, token)->Some_0.handler
                        && #[trigger] call_ensures(H::command_end, (m,), ()),
                None => final(registry)@ == old(registry)@,
            }
        }),
        !at_rest(old(registry)@, token) ==> final(registry)@ == old(registry)@,
{
    let mut call = registry.begin_call(token);
    let answer = call.command_handler(command, phase);
    registry.end_call(call);
    proof {
        lemma_call_ends(old(registry)@, token, call);
    }
    answer
}

/// Ends the registration of a command handler and gives what is owed for
/// that: the call that tells the host, with the command, the time and the
/// token that it was registered with, and the link to drop after the call.
/// Something is owed the first time only: a registration that has ended owes
/// the host nothing more.
pub fn unregister_command_handler<H: CommandHandler>(
    registry: &mut Registry<CommandLink<H>>,
    record: &mut CommandHandlerRecord,
) -> (r: Option<Teardown<UtilitiesCall, CommandLink<H>>>)
    ensures
        *final(record) == *old(record),
        final(registry)@ == released(old(registry)@, old(record).token()@),
        r is Some <==> registered(old(registry)@, old(record).token()@),
        r matches Some(owed) ==> owed.call == old(record).teardown(),
        r matches Some(owed) ==> owed.item == resting(old(registry)@, old(record).token()@),
{
    let token = record.token_of().native();
    let call = UtilitiesCall::UnregisterCommandHandler {
        command: record.command_of(),
        before: i32::from(record.execution_time_of()),
        token,
    };
    registry.release(token).owing(call)
}

} // verus!
