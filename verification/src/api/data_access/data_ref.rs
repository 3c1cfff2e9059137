pub mod array;
pub mod string;
pub mod value;

use vstd::prelude::*;

use super::data_type::{DataType, DataTypeId};
use super::error::DataAccessError;
use super::DataCall;
use crate::ffi::{Double, Single};

pub use array::{element_at, element_of, DataRefArray, ElementWrite};
pub use string::DataRefString;
pub use value::DataRefValue;

verus! {

/// An opaque handle to data that the host or another plugin provides.
#[derive(Clone, Copy, Debug, PartialEq, Eq, Structural)]
pub struct DataRef(usize);

impl View for DataRef {
    type V = usize;

    /// The handle as the host knows it.
    closed spec fn view(&self) -> usize {
        self.0
    }
}

impl TryFrom<usize> for DataRef {
    type Error = DataAccessError;

    /// Wraps what the host answered to a lookup. The null handle stands for
    /// "no such data ref"; every other value is taken as it is.
    fn try_from(value: usize) -> (r: Result<Self, DataAccessError>)
        ensures
            r is Err <==> value == 0,
            r matches Ok(data_ref) ==> data_ref@ == value,
            r matches Err(e) ==> e == DataAccessError::InvalidDataRefId,
    {
        if value == 0 {
            Err(DataAccessError::InvalidDataRefId)
        } else {
            Ok(DataRef(value))
        }
    }
}

impl vstd::std_specs::convert::TryFromSpecImpl<usize> for DataRef {
    open spec fn obeys_try_from_spec() -> bool {
        true
    }

    closed spec fn try_from_spec(value: usize) -> Result<Self, DataAccessError> {
        if value == 0 {
            Err(DataAccessError::InvalidDataRefId)
        } else {
            Ok(DataRef(value))
        }
    }
}

impl core::ops::Deref for DataRef {
    type Target = usize;

    fn deref(&self) -> (raw: &usize)
        ensures
            *raw == self@,
            *raw != 0,
    {
        proof {
            use_type_invariant(self);
        }
        &self.0
    }
}

impl DataRef {
    #[verifier::type_invariant]
    spec fn valid(self) -> bool {
        self.0 != 0
    }

    /// Two handles of the same raw value are the same handle.
    pub proof fn lemma_identity(self, other: Self)
        ensures
            self@ == other@ <==> self == other,
    {
    }

    /// Reads the host's answer to the question whether the data ref is still
    /// good. A data ref that was valid when it was looked up may since have
    /// been orphaned.
    pub fn live(self, good: bool) -> (r: Result<LiveDataRef, DataAccessError>)
        ensures
            r is Ok <==> good,
            r matches Ok(live) ==> live@ == self,
            r matches Err(e) ==> e == DataAccessError::OrphanedDataRef,
    {
        if !good {
            return Err(DataAccessError::OrphanedDataRef);
        }
        Ok(LiveDataRef(self))
    }
}

/// A data ref that the host has reported good. Typed access starts from one.
#[derive(Clone, Copy, Debug, PartialEq, Eq, Structural)]
pub struct LiveDataRef(DataRef);

impl View for LiveDataRef {
    type V = DataRef;

    /// The data ref.
    closed spec fn view(&self) -> DataRef {
        self.0
    }
}

impl LiveDataRef {
    /// The data ref.
    pub fn data_ref(&self) -> (r: DataRef)
        ensures
            r == self@,
    {
        self.0
    }
}

/// An access mode: what a typed data ref lets its holder do.
pub trait AccessMode {
    /// The mode allows writes.
    spec fn writes() -> bool;
}

/// The mode that allows reads only.
#[derive(Clone, Copy, Debug, PartialEq, Eq, Structural)]
pub struct ReadOnly;

/// The mode that allows reads and writes.
#[derive(Clone, Copy, Debug, PartialEq, Eq, Structural)]
pub struct ReadWrite;

impl AccessMode for ReadOnly {
    open spec fn writes() -> bool {
        false
    }
}

impl AccessMode for ReadWrite {
    open spec fn writes() -> bool {
        true
    }
}

/// What the host reported of a data ref when typed access to it was granted.
pub struct Admission {
    /// The types that the data ref could be read as.
    pub types: DataTypeId,
    /// The host took writes to the data ref.
    pub writable: bool,
}

/// A single value that can be read from a data ref.
pub trait DataRead<T> {
    /// The host call that reads the value.
    fn read(&self) -> DataCall;
}

/// A single value that can be written to a data ref.
pub trait DataWrite<T> {
    /// The host call that writes `value`.
    fn write(&mut self, value: T) -> DataCall;
}

/// An array that can be read from a data ref.
pub trait ArrayRead<T> {
    /// The host call that fills `dest` from the start of the array. The host
    /// answers with the number of elements that it copied.
    fn read(&self, dest: &[T]) -> DataCall;

    /// The host call that reads the element at `offset`, for a caller that
    /// declares the array to hold `SIZE` elements: it asks for all of them.
    /// [`element_at`] reads the answer.
    fn read_at<const SIZE: usize>(&self, offset: usize) -> Result<DataCall, DataAccessError>;
}

/// An array that can be written to a data ref.
pub trait ArrayWrite<T> {
    /// The host call that writes `array` to the start of the array.
    fn write(&mut self, array: &[T]) -> DataCall;

    /// The host call that writes `value` at `offset`, for a caller that
    /// declares the array to hold `SIZE` elements.
    fn write_at<const SIZE: usize>(&mut self, offset: usize, value: T) -> Result<
        ElementWrite<T>,
        DataAccessError,
    >;
}

/// A type of plugin values that stands for a type of data.
pub trait IntoDataType {
    /// The type of data that values of this type are read from.
    spec fn tag() -> DataType;

    /// The type of data that values of this type are read from.
    fn data_type() -> (r: DataType)
        ensures
            r == Self::tag(),
    ;
}

impl IntoDataType for i32 {
    open spec fn tag() -> DataType {
        DataType::Int
    }

    fn data_type() -> (r: DataType) {
        DataType::Int
    }
}

impl IntoDataType for Single {
    open spec fn tag() -> DataType {
        DataType::Float
    }

    fn data_type() -> (r: DataType) {
        DataType::Float
    }
}

impl IntoDataType for Double {
    open spec fn tag() -> DataType {
        DataType::Double
    }

    fn data_type() -> (r: DataType) {
        DataType::Double
    }
}

impl IntoDataType for u8 {
    open spec fn tag() -> DataType {
        DataType::Data
    }

    fn data_type() -> (r: DataType) {
        DataType::Data
    }
}

} // verus!
