use vstd::prelude::*;

verus! {

/// The phase of the flight loop.
#[derive(Clone, Copy, Debug, PartialEq, Eq, Structural)]
pub enum FlightLoopPhaseType {
    /// The callback runs before the flight model is integrated.
    BeforeFlightModel,
    /// The callback runs after the flight model is integrated.
    AfterFlightModel,
}

impl FlightLoopPhaseType {
    /// The code by which the host names the phase.
    pub open spec fn code(self) -> i32 {
        match self {
            FlightLoopPhaseType::BeforeFlightModel => 0,
            FlightLoopPhaseType::AfterFlightModel => 1,
        }
    }

    /// The phase as the host takes it.
    pub fn native(self) -> (r: i32)
        ensures
            r == self.code(),
    {
        match self {
            FlightLoopPhaseType::BeforeFlightModel => 0,
            FlightLoopPhaseType::AfterFlightModel => 1,
        }
    }
}

} // verus!
