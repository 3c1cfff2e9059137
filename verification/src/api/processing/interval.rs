use vstd::prelude::*;

use crate::ffi::Single;

verus! {

/// When a flight loop is to run next. A positive interval counts seconds, a
/// negative one counts frames.
#[derive(Clone, Copy, Debug, PartialEq, Eq, Structural)]
pub enum FlightLoopInterval {
    /// The interval runs from now.
    RelativeToCurrent(Single),
    /// The interval runs from the start of the simulator.
    RelativeToStart(Single),
}

impl FlightLoopInterval {
    /// The interval itself.
    pub open spec fn value(self) -> Single {
        match self {
            FlightLoopInterval::RelativeToCurrent(value) => value,
            FlightLoopInterval::RelativeToStart(value) => value,
        }
    }

    /// The flag by which the host is told where the interval runs from: 1
    /// for now, 0 for the start.
    pub open spec fn relation(self) -> i32 {
        match self {
            FlightLoopInterval::RelativeToCurrent(_) => 1,
            FlightLoopInterval::RelativeToStart(_) => 0,
        }
    }
}

} // verus!
