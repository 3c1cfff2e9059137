use vstd::prelude::*;

verus! {

/// What can go wrong in the processing interface.
#[derive(Clone, Copy, Debug, PartialEq, Eq, Structural)]
pub enum ProcessingError {
    /// The host answered with no flight loop.
    InvalidFlightLoopId,
}

} // verus!
