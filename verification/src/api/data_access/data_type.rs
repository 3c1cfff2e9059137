use vstd::prelude::*;

use super::error::DataAccessError;

verus! {

/// The type of the data behind a data ref.
#[derive(Clone, Copy, Debug, PartialEq, Eq, Structural)]
pub enum DataType {
    /// A type that this version of the host interface does not know.
    Unknown,
    /// A single 4-byte integer.
    Int,
    /// A single 4-byte float.
    Float,
    /// A single 8-byte double.
    Double,
    /// An array of 4-byte floats.
    FloatArray,
    /// An array of 4-byte integers.
    IntArray,
    /// A block of bytes.
    Data,
}

impl DataType {
    /// The bit that stands for the type in a type bitmap; `Unknown` has none.
    pub open spec fn flag(self) -> i32 {
        match self {
            DataType::Unknown => 0,
            DataType::Int => 1,
            DataType::Float => 2,
            DataType::Double => 4,
            DataType::FloatArray => 8,
            DataType::IntArray => 16,
            DataType::Data => 32,
        }
    }
}

impl TryFrom<i32> for DataType {
    type Error = DataAccessError;

    /// The one type that a code names. A code with several bits set, or with
    /// a bit that stands for no type, names none.
    fn try_from(value: i32) -> (r: Result<Self, DataAccessError>)
        ensures
            r matches Ok(t) ==> t.flag() == value,
            r matches Err(e) ==> e == DataAccessError::UnknownDataTypeId(value) && forall|
                t: DataType,
            | t.flag() != value,
    {
        match value {
            0 => Ok(DataType::Unknown),
            1 => Ok(DataType::Int),
            2 => Ok(DataType::Float),
            4 => Ok(DataType::Double),
            8 => Ok(DataType::FloatArray),
            16 => Ok(DataType::IntArray),
            32 => Ok(DataType::Data),
            _ => Err(DataAccessError::UnknownDataTypeId(value)),
        }
    }
}

impl vstd::std_specs::convert::TryFromSpecImpl<i32> for DataType {
    open spec fn obeys_try_from_spec() -> bool {
        true
    }

    open spec fn try_from_spec(value: i32) -> Result<Self, DataAccessError> {
        if value == 0 {
            Ok(DataType::Unknown)
        } else if value == 1 {
            Ok(DataType::Int)
        } else if value == 2 {
            Ok(DataType::Float)
        } else if value == 4 {
            Ok(DataType::Double)
        } else if value == 8 {
            Ok(DataType::FloatArray)
        } else if value == 16 {
            Ok(DataType::IntArray)
        } else if value == 32 {
            Ok(DataType::Data)
        } else {
            Err(DataAccessError::UnknownDataTypeId(value))
        }
    }
}

impl From<DataType> for i32 {
    fn from(value: DataType) -> (r: i32) {
        match value {
            DataType::Unknown => 0,
            DataType::Int => 1,
            DataType::Float => 2,
            DataType::Double => 4,
            DataType::FloatArray => 8,
            DataType::IntArray => 16,
            DataType::Data => 32,
        }
    }
}

impl vstd::std_specs::convert::FromSpecImpl<DataType> for i32 {
    open spec fn obeys_from_spec() -> bool {
        true
    }

    open spec fn from_spec(value: DataType) -> i32 {
        value.flag()
    }
}

/// The bitmap of the types that a data ref can be read as.
#[derive(Clone, Copy, Debug, PartialEq, Eq, Structural)]
pub struct DataTypeId(i32);

impl View for DataTypeId {
    type V = i32;

    /// The bitmap as the host reports it.
    closed spec fn view(&self) -> i32 {
        self.0
    }
}

impl DataTypeId {
    /// The bitmap holds the type: its bit is set. It holds `Unknown` when no
    /// bit at all is set.
    pub open spec fn has(self, data_type: DataType) -> bool {
        match data_type {
            DataType::Unknown => self@ == 0,
            DataType::Int => self@ & 1 != 0,
            DataType::Float => self@ & 2 != 0,
            DataType::Double => self@ & 4 != 0,
            DataType::FloatArray => self@ & 8 != 0,
            DataType::IntArray => self@ & 16 != 0,
            DataType::Data => self@ & 32 != 0,
        }
    }

    /// Checks whether the bitmap holds a type.
    pub fn contains(&self, data_type: DataType) -> (r: bool)
        ensures
            r == self.has(data_type),
    {
        match data_type {
            DataType::Unknown => self.is_unknown_type(),
            DataType::Int => self.is_int_type(),
            DataType::Float => self.is_float_type(),
            DataType::Double => self.is_double_type(),
            DataType::FloatArray => self.is_float_array_type(),
            DataType::IntArray => self.is_int_array_type(),
            DataType::Data => self.is_data_type(),
        }
    }

    /// Checks whether the bitmap is empty.
    pub fn is_unknown_type(&self) -> (r: bool)
        ensures
            r == self.has(DataType::Unknown),
    {
        self.0 == 0
    }

    /// Checks whether the bitmap holds the integer type.
    pub fn is_int_type(&self) -> (r: bool)
        ensures
            r == self.has(DataType::Int),
    {
        self.0 & 1 != 0
    }

    /// Checks whether the bitmap holds the float type.
    pub fn is_float_type(&self) -> (r: bool)
        ensures
            r == self.has(DataType::Float),
    {
        self.0 & 2 != 0
    }

    /// Checks whether the bitmap holds the double type.
    pub fn is_double_type(&self) -> (r: bool)
        ensures
            r == self.has(DataType::Double),
    {
        self.0 & 4 != 0
    }

    /// Checks whether the bitmap holds the float array type.
    pub fn is_float_array_type(&self) -> (r: bool)
        ensures
            r == self.has(DataType::FloatArray),
    {
        self.0 & 8 != 0
    }

    /// Checks whether the bitmap holds the integer array type.
    pub fn is_int_array_type(&self) -> (r: bool)
        ensures
            r == self.has(DataType::IntArray),
    {
        self.0 & 16 != 0
    }

    /// Checks whether the bitmap holds the byte block type.
    pub fn is_data_type(&self) -> (r: bool)
        ensures
            r == self.has(DataType::Data),
    {
        self.0 & 32 != 0
    }
}

impl From<i32> for DataTypeId {
    fn from(value: i32) -> (r: Self)
        ensures
            r@ == value,
    {
        DataTypeId(value)
    }
}

impl vstd::std_specs::convert::FromSpecImpl<i32> for DataTypeId {
    open spec fn obeys_from_spec() -> bool {
        true
    }

    closed spec fn from_spec(value: i32) -> Self {
        DataTypeId(value)
    }
}

} // verus!
