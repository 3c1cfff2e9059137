use vstd::prelude::*;

verus! {

/// A kind of data file that the host can load or save.
#[derive(Clone, Copy, Debug, PartialEq, Eq, Structural)]
pub enum DataFileType {
    /// A situation file, which starts a flight in a given configuration.
    Situation,
    /// A replay movie, which replays a past flight.
    ReplayMovie,
}

impl DataFileType {
    /// The code by which the host names the kind.
    pub open spec fn code(self) -> i32 {
        match self {
            DataFileType::Situation => 1,
            DataFileType::ReplayMovie => 2,
        }
    }
}

impl From<DataFileType> for i32 {
    fn from(value: DataFileType) -> (r: i32) {
        match value {
            DataFileType::Situation => 1,
            DataFileType::ReplayMovie => 2,
        }
    }
}

impl vstd::std_specs::convert::FromSpecImpl<DataFileType> for i32 {
    open spec fn obeys_from_spec() -> bool {
        true
    }

    open spec fn from_spec(value: DataFileType) -> i32 {
        value.code()
    }
}

} // verus!
