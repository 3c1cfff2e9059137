pub mod error;
pub mod handler;
pub mod interval;
pub mod phase;

use vstd::prelude::*;

pub use self::error::ProcessingError;
pub use self::handler::{
    FlightLoop, FlightLoopHandler, FlightLoopId, FlightLoopLink, FlightLoopRecord,
};
pub use self::interval::FlightLoopInterval;
pub use self::phase::FlightLoopPhaseType;

use crate::api::registration::{
    at_rest, inserted, led, lemma_call_ends, registered, released, resting, Call, Registry,
    Teardown, Token,
};
use crate::ffi::Single;

verus! {

/// What the functions of this interface give back.
pub type Result<T> = std::result::Result<T, ProcessingError>;

/// A call into the host's processing interface: which function, and what is
/// handed to it. Handles stand as the host knows them.
#[derive(Clone, Copy, Debug, PartialEq, Eq, Structural)]
#[allow(inconsistent_fields)]
pub enum ProcessingCall {
    /// Asks for the time since the simulator started.
    GetElapsedTime,
    /// Asks for the number of the cycle.
    GetCycleNumber,
    /// Creates a flight loop with the flight loop trampoline and a token.
    CreateFlightLoop { phase: i32, token: usize },
    /// Destroys a flight loop.
    DestroyFlightLoop { flight_loop: usize },
    /// Says when a flight loop is to run next.
    ScheduleFlightLoop { flight_loop: usize, interval: Single, relative_to_now: i32 },
}

/// The bits of the answer that tells the host to call a flight loop no more:
/// the number zero.
pub const FLIGHT_LOOP_OFF: u32 = 0;

/// The call that asks for the time since the simulator started.
pub fn get_elapsed_time() -> (call: ProcessingCall)
    ensures
        call == ProcessingCall::GetElapsedTime,
{
    ProcessingCall::GetElapsedTime
}

/// The call that asks for the number of the cycle.
pub fn get_cycle_number() -> (call: ProcessingCall)
    ensures
        call == ProcessingCall::GetCycleNumber,
{
    ProcessingCall::GetCycleNumber
}

/// Registers the handler of a new flight loop and gives its token together
/// with the call that creates the flight loop. It is created unscheduled.
/// [`flight_loop_created`] reads the answer.
pub fn create_flight_loop<H: FlightLoopHandler>(
    registry: &mut Registry<FlightLoopLink<H>>,
    phase: FlightLoopPhaseType,
    handler: H,
) -> (r: (Token, ProcessingCall))
    ensures
        final(registry)@ == inserted(old(registry)@, FlightLoopLink(handler)),
        r.0@ == old(registry)@.len() + 1,
        r.1 == (ProcessingCall::CreateFlightLoop { phase: phase.code(), token: r.0@ }),
{
    let token = registry.insert(FlightLoopLink::new(handler));
    let call = ProcessingCall::CreateFlightLoop { phase: phase.native(), token: token.native() };
    (token, call)
}

/// Reads the host's answer to the creation of a flight loop. If the host
/// made none, the handler is taken out of the registry again.
pub fn flight_loop_created<H: FlightLoopHandler>(
    registry: &mut Registry<FlightLoopLink<H>>,
    token: Token,
    answer: usize,
) -> (r: Result<FlightLoop>)
    ensures
        r is Ok <==> answer != 0,
        r matches Ok(flight_loop) ==> flight_loop.id()@ == answer && flight_loop.token() == token
            && final(registry)@ == old(registry)@,
        r matches Err(e) ==> e == ProcessingError::InvalidFlightLoopId
            && final(registry)@ == released(old(registry)@, token@),
{
    match FlightLoopId::try_from(answer) {
        Ok(id) => Ok(FlightLoop::new(id, token)),
        Err(e) => {
            let _ = registry.release(token.native());
            Err(e)
        },
    }
}

/// Ends the registration of a flight loop's handler and gives what is owed for
/// that: the call that destroys the flight loop, and the handler to drop after
/// the call. Something is owed the first time only.
pub fn close_flight_loop<H: FlightLoopHandler>(
    registry: &mut Registry<FlightLoopLink<H>>,
    flight_loop: &mut FlightLoop,
) -> (r: Option<Teardown<ProcessingCall, FlightLoopLink<H>>>)
    ensures
        *final(flight_loop) == *old(flight_loop),
        final(registry)@ == released(old(registry)@, old(flight_loop).token()@),
        r is Some <==> registered(old(registry)@, old(flight_loop).token()@),
        r matches Some(owed) ==> owed.call == (ProcessingCall::DestroyFlightLoop {
            flight_loop: old(flight_loop).id()@,
        }),
        r matches Some(owed) ==> owed.item == resting(old(registry)@, old(flight_loop).token()@),
{
    let call = destroy_flight_loop(&flight_loop.id_of());
    registry.release(flight_loop.token_of().native()).owing(call)
}

impl<H: FlightLoopHandler> Call<FlightLoopLink<H>> {
    /// The flight loop trampoline between the two halves of the call: leads
    /// the host's call to the handler and answers what it answered, or, for
    /// a call that is led to nothing, tells the host to call no more.
    pub fn handle_flight_loop(
        &mut self,
        elapsed_since_last_call: Single,
        elapsed_since_last_flight_loop: Single,
        counter: i32,
    ) -> (r: Single)
        ensures
            final(self).token() == old(self).token(),
            old(self).item() is None ==> final(self).item() is None && r == Single(
                FLIGHT_LOOP_OFF,
            ),
            old(self).item() matches Some(link) ==> final(self).item() is Some && exists|
                m: &mut H,
            |
                mut_ref_current(m) == link.0 && mut_ref_future(m) == final(self).item()->Some_0.0
                    && #[trigger] call_ensures(
                    H::handle_flight_loop,
                    (m, elapsed_since_last_call, elapsed_since_last_flight_loop, counter),
                    r,
                ),
    {
        match self.item_mut() {
            Some(link) => link.handle_flight_loop(
                elapsed_since_last_call,
                elapsed_since_last_flight_loop,
                counter,
            ),
            None => Single(FLIGHT_LOOP_OFF),
        }
    }
}

/// The flight loop trampoline: finds the handler by the token that the host
/// handed back, leads the call to it and tells the host what it answered.
/// Under a token that names no handler at rest, the host is told to call no
/// more, and nothing is touched.
///
/// What the call made of the handler, and that the answer is the handler's,
/// is stated through the handler's own method: the handler as it stood in
/// the registry and as it stands there now are the two ends of one call of
/// it, with the same times and counter and with this answer.
pub fn handle_flight_loop<H: FlightLoopHandler>(
    registry: &mut Registry<FlightLoopLink<H>>,
    elapsed_since_last_call: Single,
    elapsed_since_last_flight_loop: Single,
    counter: i32,
    token: usize,
) -> (r: Single)
    ensures
        at_rest(old(registry)@, token) ==> led(old(registry)@, final(registry)@, token),
        resting(old(registry)@, token) matches Some(link) ==> exists|m: &mut H|
            mut_ref_current(m) == link.0 && mut_ref_future(m) == resting(
                final(registry)@,
                token,
            )->Some_0.0 && #[trigger] call_ensures(
                H::handle_flight_loop,
                (m, elapsed_since_last_call, elapsed_since_last_flight_loop, counter),
                r,
            ),
        !at_rest(old(registry)@, token) ==> r == Single(FLIGHT_LOOP_OFF) && final(registry)@
            == old(registry)@,
{
    let mut call = registry.begin_call(token);
    let next = call.handle_flight_loop(
        elapsed_since_last_call,
        elapsed_since_last_flight_loop,
        counter,
    );
    registry.end_call(call);
    proof {
        lemma_call_ends(old(registry)@, token, call);
    }
    next
}

/// The call that destroys a flight loop.
pub fn destroy_flight_loop(id: &FlightLoopId) -> (call: ProcessingCall)
    ensures
        call == (ProcessingCall::DestroyFlightLoop { flight_loop: id@ }),
{
    ProcessingCall::DestroyFlightLoop { flight_loop: id.native() }
}

/// The call that says when a flight loop is to run next.
pub fn schedule_flight_loop(id: &FlightLoopId, interval: FlightLoopInterval) -> (call:
    ProcessingCall)
    ensures
        call == (ProcessingCall::ScheduleFlightLoop {
            flight_loop: id@,
            interval: interval.value(),
            relative_to_now: interval.relation(),
        }),
{
    let (value, relation) = match interval {
        FlightLoopInterval::RelativeToCurrent(value) => (value, 1),
        FlightLoopInterval::RelativeToStart(value) => (value, 0),
    };
    ProcessingCall::ScheduleFlightLoop {
        flight_loop: id.native(),
        interval: value,
        relative_to_now: relation,
    }
}

} // verus!
