use vstd::prelude::*;

verus! {

/// What a handler tells the host to do with an event.
#[derive(Clone, Copy, Debug, PartialEq, Eq, Structural)]
pub enum EventState {
    /// The event is used up.
    Consume,
    /// The event goes on to the others that may want it.
    Propagate,
}

impl EventState {
    /// The answer as the host takes it.
    pub open spec fn code(self) -> i32 {
        match self {
            EventState::Consume => 1,
            EventState::Propagate => 0,
        }
    }
}

impl From<EventState> for i32 {
    fn from(value: EventState) -> (r: i32) {
        match value {
            EventState::Consume => 1,
            EventState::Propagate => 0,
        }
    }
}

impl vstd::std_specs::convert::FromSpecImpl<EventState> for i32 {
    open spec fn obeys_from_spec() -> bool {
        true
    }

    open spec fn from_spec(value: EventState) -> i32 {
        value.code()
    }
}

} // verus!
