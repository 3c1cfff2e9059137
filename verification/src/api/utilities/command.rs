use vstd::prelude::*;

use super::error::UtilitiesError;
use super::UtilitiesCall;
use crate::api::registration::Token;
use crate::ffi::{c_str_len, nul_free, NulError};
use vstd::string::StringSliceAdditionalSpecFns;

verus! {

/// An opaque handle to a command of the host.
#[derive(Clone, Copy, Debug, PartialEq, Eq, Structural)]
pub struct Command(usize);

impl View for Command {
    type V = usize;

    /// The handle as the host knows it.
    closed spec fn view(&self) -> usize {
        self.0
    }
}

impl TryFrom<usize> for Command {
    type Error = UtilitiesError;

    /// Wraps what the host answered. The null handle stands for "no such
    /// command".
    fn try_from(value: usize) -> (r: Result<Self, UtilitiesError>)
        ensures
            r is Err <==> value == 0,
            r matches Ok(command) ==> command@ == value,
            r matches Err(e) ==> e == UtilitiesError::InvalidCommand,
    {
        if value == 0 {
            Err(UtilitiesError::InvalidCommand)
        } else {
            Ok(Command(value))
        }
    }
}

impl vstd::std_specs::convert::TryFromSpecImpl<usize> for Command {
    open spec fn obeys_try_from_spec() -> bool {
        true
    }

    closed spec fn try_from_spec(value: usize) -> Result<Self, UtilitiesError> {
        if value == 0 {
            Err(UtilitiesError::InvalidCommand)
        } else {
            Ok(Command(value))
        }
    }
}

impl core::ops::Deref for Command {
    type Target = usize;

    fn deref(&self) -> (raw: &usize)
        ensures
            *raw == self@,
            *raw != 0,
    {
        proof {
            use_type_invariant(self);
        }
        &self.0
    }
}

impl Command {
    #[verifier::type_invariant]
    spec fn valid(self) -> bool {
        self.0 != 0
    }

    /// Two handles of the same raw value are the same handle.
    pub proof fn lemma_identity(self, other: Self)
        ensures
            self@ == other@ <==> self == other,
    {
    }

    /// The call that looks a command up by name; see [`super::find_command`].
    pub fn find(name: &str) -> (r: Result<UtilitiesCall, UtilitiesError>)
        ensures
            r is Ok <==> nul_free(name.spec_bytes()),
            r matches Ok(call) ==> call matches UtilitiesCall::FindCommand { name: c_name }
                && c_name@ == name.spec_bytes().push(0),
            r matches Err(e) ==> e == UtilitiesError::InvalidCommandName(
                NulError { position: c_str_len(name.spec_bytes()) as usize },
            ),
    {
        super::find_command(name)
    }

    /// The call that runs the command once; see [`super::command_once`].
    pub fn once(&mut self) -> (call: UtilitiesCall)
        ensures
            call == (UtilitiesCall::CommandOnce { command: old(self)@ }),
            *final(self) == *old(self),
    {
        super::command_once(self)
    }

    /// The call that starts the command; see [`super::command_begin`].
    pub fn begin(&mut self) -> (call: UtilitiesCall)
        ensures
            call == (UtilitiesCall::CommandBegin { command: old(self)@ }),
            *final(self) == *old(self),
    {
        super::command_begin(self)
    }

    /// The call that ends the command; see [`super::command_end`].
    pub fn end(&mut self) -> (call: UtilitiesCall)
        ensures
            call == (UtilitiesCall::CommandEnd { command: old(self)@ }),
            *final(self) == *old(self),
    {
        super::command_end(self)
    }
}

/// What a plugin does when a command runs.
pub trait CommandHandler: 'static {
    /// The command begins: a button went down.
    fn command_begin(&mut self);

    /// The command goes on: the button is held.
    fn command_continue(&mut self);

    /// The command ends: the button was let go.
    fn command_end(&mut self);
}

impl CommandHandler for Box<dyn CommandHandler> {
    fn command_begin(&mut self) {
        (**self).command_begin();
    }

    fn command_continue(&mut self) {
        (**self).command_continue();
    }

    fn command_end(&mut self) {
        (**self).command_end();
    }
}

/// A phase of a command, as the host reports it to a handler.
#[derive(Clone, Copy, Debug, PartialEq, Eq, Structural)]
pub enum CommandPhase {
    /// The command begins.
    Begin,
    /// The command goes on.
    Continue,
    /// The command ends.
    End,
}

impl CommandPhase {
    /// The phase that a code of the host names, if it names one.
    pub open spec fn decoded(phase: i32) -> Option<CommandPhase> {
        if phase == 0 {
            Some(CommandPhase::Begin)
        } else if phase == 1 {
            Some(CommandPhase::Continue)
        } else if phase == 2 {
            Some(CommandPhase::End)
        } else {
            None
        }
    }

    /// The phase that a code of the host names, if it names one.
    pub fn decode(phase: i32) -> (r: Option<CommandPhase>)
        ensures
            r == CommandPhase::decoded(phase),
    {
        match phase {
            0 => Some(CommandPhase::Begin),
            1 => Some(CommandPhase::Continue),
            2 => Some(CommandPhase::End),
            _ => None,
        }
    }
}

/// What the host's call of the command trampoline answers: the host and the
/// handlers after this one go on with the command.
pub const COMMAND_CONTINUES: i32 = 1;

/// A handler, bound to the command that it was registered for.
pub struct CommandLink<H: CommandHandler> {
    /// The command, as the host knows it.
    pub command: usize,
    /// The handler.
    pub handler: H,
}

impl<H: CommandHandler> CommandLink<H> {
    /// The link is that of the given command.
    pub open spec fn linked(self, command: usize) -> bool {
        self.command == command
    }

    /// Checks whether the link is that of the given command.
    pub fn links_with(&self, command: usize) -> (r: bool)
        ensures
            r == self.linked(command),
    {
        self.command == command
    }

    /// The phase to report to the handler when the host calls with a command
    /// and a phase code: none if the call is for another command, or if the
    /// code names no phase.
    pub open spec fn due(self, command: usize, phase: i32) -> Option<CommandPhase> {
        if self.linked(command) {
            CommandPhase::decoded(phase)
        } else {
            None
        }
    }

    /// The phase to report to the handler when the host calls with a command
    /// and a phase code.
    pub fn due_phase(&self, command: usize, phase: i32) -> (r: Option<CommandPhase>)
        ensures
            r == self.due(command, phase),
    {
        if self.links_with(command) {
            CommandPhase::decode(phase)
        } else {
            None
        }
    }
}

impl<H: CommandHandler> CommandLink<H> {
    /// Takes a call of the host for a command in a phase: reports to the
    /// handler the phase that [`Self::due_phase`] gives, if it gives one,
    /// and answers the host.
    ///
    /// What the call made of the handler is stated through the handler's own
    /// method: the handler as it was and as it is now are the two ends of
    /// one call of the method of the due phase.
    pub fn handle(&mut self, command: usize, phase: i32) -> (r: i32)
        ensures
            r == COMMAND_CONTINUES,
            final(self).command == old(self).command,
            (match old(self).due(command, phase) {
                Some(CommandPhase::Begin) => exists|m: &mut H|
                    mut_ref_current(m) == old(self).handler
                        && mut_ref_future(m) == final(self).handler
                        && #[trigger] call_ensures(H::command_begin, (m,), ()),
                Some(CommandPhase::Continue) => exists|m: &mut H|
                    mut_ref_current(m) == old(self).handler
                        && mut_ref_future(m) == final(self).handler
                        && #[trigger] call_ensures(H::command_continue, (m,), ()),
                Some(CommandPhase::End) => exists|m: &mut H|
                    mut_ref_current(m) == old(self).handler
                        && mut_ref_future(m) == final(self).handler
                        && #[trigger] call_ensures(H::command_end, (m,), ()),
                None => *final(self) == *old(self),
            }),
    {
        match self.due_phase(command, phase) {
            Some(CommandPhase::Begin) => self.handler.command_begin(),
            Some(CommandPhase::Continue) => self.handler.command_continue(),
            Some(CommandPhase::End) => self.handler.command_end(),
            None => {},
        }
        COMMAND_CONTINUES
    }
}

impl<H: CommandHandler> CommandHandler for CommandLink<H> {
    fn command_begin(&mut self)
        ensures
            final(self).command == old(self).command,
            exists|m: &mut H|
                mut_ref_current(m) == old(self).handler && mut_ref_future(m) == final(self).handler
                    && #[trigger] call_ensures(H::command_begin, (m,), ()),
    {
        self.handler.command_begin();
    }

    fn command_continue(&mut self)
        ensures
            final(self).command == old(self).command,
            exists|m: &mut H|
                mut_ref_current(m) == old(self).handler && mut_ref_future(m) == final(self).handler
                    && #[trigger] call_ensures(H::command_continue, (m,), ()),
    {
        self.handler.command_continue();
    }

    fn command_end(&mut self)
        ensures
            final(self).command == old(self).command,
            exists|m: &mut H|
                mut_ref_current(m) == old(self).handler && mut_ref_future(m) == final(self).handler
                    && #[trigger] call_ensures(H::command_end, (m,), ()),
    {
        self.handler.command_end();
    }
}

/// When a handler runs, relative to the host's own handling of the command.
#[derive(Clone, Copy, Debug, PartialEq, Eq, Structural)]
pub enum CommandExecutionTime {
    /// The handler runs before the host.
    BeforeXPlane,
    /// The handler runs after the host.
    AfterXPlane,
}

impl CommandExecutionTime {
    /// The flag by which the host is told the time.
    pub open spec fn code(self) -> i32 {
        match self {
            CommandExecutionTime::BeforeXPlane => 1,
            CommandExecutionTime::AfterXPlane => 0,
        }
    }
}

impl From<CommandExecutionTime> for i32 {
    fn from(value: CommandExecutionTime) -> (r: i32) {
        match value {
            CommandExecutionTime::BeforeXPlane => 1,
            CommandExecutionTime::AfterXPlane => 0,
        }
    }
}

impl vstd::std_specs::convert::FromSpecImpl<CommandExecutionTime> for i32 {
    open spec fn obeys_from_spec() -> bool {
        true
    }

    open spec fn from_spec(value: CommandExecutionTime) -> i32 {
        value.code()
    }
}

/// The registration of a command handler: what is needed to undo it. The
/// handler itself stands in the registry, under the token.
#[derive(Debug)]
pub struct CommandHandlerRecord {
    token: Token,
    command: usize,
    execution_time: CommandExecutionTime,
}

impl CommandHandlerRecord {
    /// The token that the host was given.
    pub closed spec fn token(self) -> Token {
        self.token
    }

    /// The command that the handler was registered for.
    pub closed spec fn command(self) -> usize {
        self.command
    }

    /// The time that the handler was registered for.
    pub closed spec fn execution_time(self) -> CommandExecutionTime {
        self.execution_time
    }

    /// The call that tells the host of the registration.
    pub open spec fn registration(self) -> UtilitiesCall {
        UtilitiesCall::RegisterCommandHandler {
            command: self.command(),
            before: self.execution_time().code(),
            token: self.token()@,
        }
    }

    /// The call that takes the registration back from the host.
    pub open spec fn teardown(self) -> UtilitiesCall {
        UtilitiesCall::UnregisterCommandHandler {
            command: self.command(),
            before: self.execution_time().code(),
            token: self.token()@,
        }
    }

    /// A registration is taken back with the command, the time and the token
    /// that it was made with. The function that the host calls is the same
    /// for every command handler, so these three are all that tells one
    /// registration from another.
    pub proof fn lemma_teardown_mirrors_registration(self)
        ensures
            self.registration() matches UtilitiesCall::RegisterCommandHandler {
                command,
                before,
                token,
            } && self.teardown() == (UtilitiesCall::UnregisterCommandHandler {
                command,
                before,
                token,
            }),
    {
    }

    /// Notes a registration.
    pub fn new(token: Token, command: usize, execution_time: CommandExecutionTime) -> (r: Self)
        ensures
            r.token() == token,
            r.command() == command,
            r.execution_time() == execution_time,
    {
        CommandHandlerRecord { token, command, execution_time }
    }

    /// The token that the host was given.
    pub fn token_of(&self) -> (r: Token)
        ensures
            r == self.token(),
    {
        self.token
    }

    /// The command that the handler was registered for.
    pub fn command_of(&self) -> (r: usize)
        ensures
            r == self.command(),
    {
        self.command
    }

    /// The time that the handler was registered for.
    pub fn execution_time_of(&self) -> (r: CommandExecutionTime)
        ensures
            r == self.execution_time(),
    {
        self.execution_time
    }
}

} // verus!
