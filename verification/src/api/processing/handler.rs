use vstd::prelude::*;

use super::error::ProcessingError;
use crate::api::registration::Token;
use crate::ffi::Single;

verus! {

/// An opaque handle to a flight loop of the host.
#[derive(Clone, Copy, Debug, PartialEq, Eq, Structural)]
pub struct FlightLoopId(usize);

impl View for FlightLoopId {
    type V = usize;

    /// The handle as the host knows it.
    closed spec fn view(&self) -> usize {
        self.0
    }
}

impl TryFrom<usize> for FlightLoopId {
    type Error = ProcessingError;

    /// Wraps what the host answered. The null handle stands for "no flight
    /// loop".
    fn try_from(value: usize) -> (r: Result<Self, ProcessingError>)
        ensures
            r is Err <==> value == 0,
            r matches Ok(id) ==> id@ == value,
            r matches Err(e) ==> e == ProcessingError::InvalidFlightLoopId,
    {
        if value == 0 {
            Err(ProcessingError::InvalidFlightLoopId)
        } else {
            Ok(FlightLoopId(value))
        }
    }
}

impl vstd::std_specs::convert::TryFromSpecImpl<usize> for FlightLoopId {
    open spec fn obeys_try_from_spec() -> bool {
        true
    }

    closed spec fn try_from_spec(value: usize) -> Result<Self, ProcessingError> {
        if value == 0 {
            Err(ProcessingError::InvalidFlightLoopId)
        } else {
            Ok(FlightLoopId(value))
        }
    }
}

impl FlightLoopId {
    #[verifier::type_invariant]
    spec fn valid(self) -> bool {
        self.0 != 0
    }

    /// The handle as the host knows it.
    pub fn native(&self) -> (raw: usize)
        ensures
            raw == self@,
            raw != 0,
    {
        proof {
            use_type_invariant(self);
        }
        self.0
    }

    /// Two handles of the same raw value are the same handle.
    pub proof fn lemma_identity(self, other: Self)
        ensures
            self@ == other@ <==> self == other,
    {
    }
}

/// What a plugin does at a turn of the flight loop.
pub trait FlightLoopHandler: 'static {
    /// The flight loop has come round. The two times are in seconds, and the
    /// counter goes up by one at each turn.
    ///
    /// The answer says when to call next: zero for never, a positive number
    /// for that many seconds, a negative one for that many turns.
    fn handle_flight_loop(
        &mut self,
        elapsed_since_last_call: Single,
        elapsed_since_last_flight_loop: Single,
        counter: i32,
    ) -> Single;
}

impl FlightLoopHandler for Box<dyn FlightLoopHandler> {
    fn handle_flight_loop(
        &mut self,
        elapsed_since_last_call: Single,
        elapsed_since_last_flight_loop: Single,
        counter: i32,
    ) -> Single {
        (**self).handle_flight_loop(
            elapsed_since_last_call,
            elapsed_since_last_flight_loop,
            counter,
        )
    }
}

/// The handler of a flight loop, as it stands in the registry.
pub struct FlightLoopLink<H: FlightLoopHandler>(pub H);

impl<H: FlightLoopHandler> FlightLoopLink<H> {
    /// The link to a handler.
    pub fn new(value: H) -> (r: Self)
        ensures
            r == FlightLoopLink(value),
    {
        Self(value)
    }
}

impl<H: FlightLoopHandler> FlightLoopHandler for FlightLoopLink<H> {
    /// Leads the call to the handler and answers what it answered: the
    /// handler as it was and as it is now are the two ends of one call of
    /// its method, with the same times and counter and with this answer.
    fn handle_flight_loop(
        &mut self,
        elapsed_since_last_call: Single,
        elapsed_since_last_flight_loop: Single,
        counter: i32,
    ) -> (next: Single)
        ensures
            exists|m: &mut H|
                mut_ref_current(m) == old(self).0 && mut_ref_future(m) == final(self).0
                    && #[trigger] call_ensures(
                    H::handle_flight_loop,
                    (m, elapsed_since_last_call, elapsed_since_last_flight_loop, counter),
                    next,
                ),
    {
        self.0.handle_flight_loop(elapsed_since_last_call, elapsed_since_last_flight_loop, counter)
    }
}

/// A flight loop that the plugin created: what is needed to destroy it. The
/// handler itself stands in the registry, under the token.
#[derive(Debug)]
pub struct FlightLoop {
    id: FlightLoopId,
    token: Token,
}

impl FlightLoop {
    /// The flight loop.
    pub closed spec fn id(self) -> FlightLoopId {
        self.id
    }

    /// The token that the host was given.
    pub closed spec fn token(self) -> Token {
        self.token
    }

    /// Notes a flight loop and the token of its handler.
    pub fn new(id: FlightLoopId, token: Token) -> (r: Self)
        ensures
            r.id() == id,
            r.token() == token,
    {
        Self { id, token }
    }

    /// The flight loop.
    pub fn id_of(&self) -> (r: FlightLoopId)
        ensures
            r == self.id(),
    {
        self.id
    }

    /// The token that the host was given.
    pub fn token_of(&self) -> (r: Token)
        ensures
            r == self.token(),
    {
        self.token
    }
}

/// A flight loop that the plugin created.
pub type FlightLoopRecord = FlightLoop;

} // verus!
