use vstd::prelude::*;

use crate::api::plugin::PluginError;
use crate::ffi::{NulError, Utf8Error};

verus! {

/// What can go wrong in the data access interface.
#[derive(Clone, Copy, Debug, PartialEq, Eq, Structural)]
pub enum DataAccessError {
    /// The host answered a lookup with no data ref.
    InvalidDataRefId,
    /// The data ref was valid once and is orphaned now.
    OrphanedDataRef,
    /// The data ref does not hold the type asked for.
    InvalidType,
    /// The host does not take writes to the data ref.
    ReadOnlyDataRef,
    /// An offset lies outside the window that the caller declared, or the
    /// host filled less than the window.
    OutOfBounds,
    /// The host answered an enumeration with no list.
    InvalidDataRefsIterator,
    /// The host reported a type code that names no single type.
    UnknownDataTypeId(i32),
    /// The name the host gave for a data ref is not UTF-8.
    InvalidInfoName(Utf8Error),
    /// A data ref name holds a NUL byte.
    InvalidDataRefName(NulError),
    /// The bytes of a text data ref are not UTF-8.
    InvalidValueString,
    /// An error of the plugin interface.
    Plugin(PluginError),
}

impl From<PluginError> for DataAccessError {
    fn from(value: PluginError) -> (r: Self) {
        DataAccessError::Plugin(value)
    }
}

impl vstd::std_specs::convert::FromSpecImpl<PluginError> for DataAccessError {
    open spec fn obeys_from_spec() -> bool {
        true
    }

    open spec fn from_spec(value: PluginError) -> Self {
        DataAccessError::Plugin(value)
    }
}

} // verus!
