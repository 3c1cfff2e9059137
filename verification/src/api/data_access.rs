pub mod data_info;
pub mod data_ref;
pub mod data_refs;
pub mod data_type;
pub mod error;
pub mod host_array;

use vstd::prelude::*;

pub use self::data_ref::{
    element_at, element_of, AccessMode, Admission, ArrayRead, ArrayWrite, DataRead, DataRef, DataRefArray,
    DataRefString, DataRefValue, DataWrite, ElementWrite, IntoDataType, LiveDataRef, ReadOnly,
    ReadWrite,
};
pub use self::data_info::{DataRefInfo, Info, RawInfo};
pub use self::data_refs::DataRefsIter;
pub use self::data_type::{DataType, DataTypeId};
pub use self::error::DataAccessError;

use crate::ffi::{c_str_len, c_string, nul_free, Double, NulError, Single};
use vstd::string::StringSliceAdditionalSpecFns;

verus! {

/// What the functions of this interface give back.
pub type Result<T> = std::result::Result<T, DataAccessError>;

/// A call into the host's data access interface: which function, and what is
/// handed to it. Handles stand as the host knows them.
#[derive(Clone, Debug, PartialEq, Eq)]
#[allow(inconsistent_fields)]
pub enum DataCall {
    /// Counts the data refs that are registered.
    CountDataRefs,
    /// Asks for `count` data refs, starting with the one at `offset`.
    GetDataRefsByIndex { offset: i32, count: i32 },
    /// Asks for what is known of a data ref.
    GetDataRefInfo { data_ref: usize },
    /// Looks a data ref up by its name, a C string.
    FindDataRef { name: Vec<u8> },
    /// Asks whether a data ref takes writes.
    CanWriteDataRef { data_ref: usize },
    /// Asks whether a data ref is still good.
    IsDataRefGood { data_ref: usize },
    /// Asks for the types that a data ref can be read as.
    GetDataRefTypes { data_ref: usize },
    /// Reads an integer.
    GetDatai { data_ref: usize },
    /// Writes an integer.
    SetDatai { data_ref: usize, value: i32 },
    /// Reads a float.
    GetDataf { data_ref: usize },
    /// Writes a float.
    SetDataf { data_ref: usize, value: Single },
    /// Reads a double.
    GetDatad { data_ref: usize },
    /// Writes a double.
    SetDatad { data_ref: usize, value: Double },
    /// Reads integers into the caller's buffer, from `offset` on, up to `max`.
    GetDatavi { data_ref: usize, offset: i32, max: i32 },
    /// Writes `count` integers of the caller's buffer, from `offset` on.
    SetDatavi { data_ref: usize, offset: i32, count: i32 },
    /// Reads floats into the caller's buffer, from `offset` on, up to `max`.
    GetDatavf { data_ref: usize, offset: i32, max: i32 },
    /// Writes `count` floats of the caller's buffer, from `offset` on.
    SetDatavf { data_ref: usize, offset: i32, count: i32 },
    /// Reads bytes into the caller's buffer, from `offset` on, up to `max`.
    GetDatab { data_ref: usize, offset: i32, max: i32 },
    /// Writes `count` bytes of the caller's buffer, from `offset` on.
    SetDatab { data_ref: usize, offset: i32, count: i32 },
}

/// The call that counts the data refs.
pub fn count_data_refs() -> (call: DataCall)
    ensures
        call == DataCall::CountDataRefs,
{
    DataCall::CountDataRefs
}

/// The first index of the range that `from` and `count` ask for, held to the
/// `total` number of data refs.
pub open spec fn range_start(total: int, from: int) -> int {
    if from < total {
        from
    } else {
        total
    }
}

/// The length of the range that `from` and `count` ask for, held to the
/// `total` number of data refs.
pub open spec fn range_len(total: int, from: int, count: int) -> int {
    if range_start(total, from) + count > total {
        total - range_start(total, from)
    } else {
        count
    }
}

/// The call that lists the data refs in a range, given the `total` number of
/// data refs that the host counted. A range that reaches past the last data
/// ref is cut there.
pub fn get_data_refs_by_index(total: usize, from: usize, count: usize) -> (call: DataCall)
    ensures
        call == (DataCall::GetDataRefsByIndex {
            offset: range_start(total as int, from as int) as i32,
            count: range_len(total as int, from as int, count as int) as i32,
        }),
        0 <= range_start(total as int, from as int) <= total,
        0 <= range_len(total as int, from as int, count as int),
        range_start(total as int, from as int) + range_len(total as int, from as int, count as int)
            <= total,
{
    let from = if from < total {
        from
    } else {
        total
    };
    let count = if count > total - from {
        total - from
    } else {
        count
    };
    DataCall::GetDataRefsByIndex {
        offset: #[verifier::truncate]
        (from as i32),
        count: #[verifier::truncate]
        (count as i32),
    }
}

/// The call that asks for what is known of a data ref.
/// [`DataRefInfo::try_from`] reads the answer.
pub fn get_data_ref_info(data_ref: &DataRef) -> (call: DataCall)
    ensures
        call == (DataCall::GetDataRefInfo { data_ref: data_ref@ }),
{
    DataCall::GetDataRefInfo { data_ref: **data_ref }
}

/// The call that looks a data ref up by its name. [`DataRef::try_from`] reads
/// the answer.
pub fn find_data_ref(name: &str) -> (r: Result<DataCall>)
    ensures
        r is Ok <==> nul_free(name.spec_bytes()),
        r matches Ok(call) ==> call matches DataCall::FindDataRef { name: c_name } && c_name@
            == name.spec_bytes().push(0),
        r matches Err(e) ==> e == DataAccessError::InvalidDataRefName(
            NulError { position: c_str_len(name.spec_bytes()) as usize },
        ),
{
    match c_string(name) {
        Ok(c_name) => Ok(DataCall::FindDataRef { name: c_name }),
        Err(e) => Err(DataAccessError::InvalidDataRefName(e)),
    }
}

/// The call that asks whether a data ref takes writes.
pub fn can_write_data_ref(data_ref: &DataRef) -> (call: DataCall)
    ensures
        call == (DataCall::CanWriteDataRef { data_ref: data_ref@ }),
{
    DataCall::CanWriteDataRef { data_ref: **data_ref }
}

/// The call that asks whether a data ref is still good.
pub fn is_data_ref_good(data_ref: &DataRef) -> (call: DataCall)
    ensures
        call == (DataCall::IsDataRefGood { data_ref: data_ref@ }),
{
    DataCall::IsDataRefGood { data_ref: **data_ref }
}

/// The call that asks for the types of a data ref. [`DataTypeId::from`] reads
/// the answer.
pub fn get_data_ref_types(data_ref: &DataRef) -> (call: DataCall)
    ensures
        call == (DataCall::GetDataRefTypes { data_ref: data_ref@ }),
{
    DataCall::GetDataRefTypes { data_ref: **data_ref }
}

/// The call that reads an integer data ref.
pub fn get_data_i(data_ref: &DataRef) -> (call: DataCall)
    ensures
        call == (DataCall::GetDatai { data_ref: data_ref@ }),
{
    DataCall::GetDatai { data_ref: **data_ref }
}

/// The call that writes an integer data ref.
pub fn set_data_i(data_ref: &DataRef, value: i32) -> (call: DataCall)
    ensures
        call == (DataCall::SetDatai { data_ref: data_ref@, value }),
{
    DataCall::SetDatai { data_ref: **data_ref, value }
}

/// The call that reads a float data ref.
pub fn get_data_f(data_ref: &DataRef) -> (call: DataCall)
    ensures
        call == (DataCall::GetDataf { data_ref: data_ref@ }),
{
    DataCall::GetDataf { data_ref: **data_ref }
}

/// The call that writes a float data ref.
pub fn set_data_f(data_ref: &DataRef, value: Single) -> (call: DataCall)
    ensures
        call == (DataCall::SetDataf { data_ref: data_ref@, value }),
{
    DataCall::SetDataf { data_ref: **data_ref, value }
}

/// The call that reads a double data ref.
pub fn get_data_d(data_ref: &DataRef) -> (call: DataCall)
    ensures
        call == (DataCall::GetDatad { data_ref: data_ref@ }),
{
    DataCall::GetDatad { data_ref: **data_ref }
}

/// The call that writes a double data ref.
pub fn set_data_d(data_ref: &DataRef, value: Double) -> (call: DataCall)
    ensures
        call == (DataCall::SetDatad { data_ref: data_ref@, value }),
{
    DataCall::SetDatad { data_ref: **data_ref, value }
}

/// The call that reads part of an integer array into `array`, from `offset`
/// on. The limit that is handed to the host is the index at which the read
/// ends: `offset` plus the length of `array`.
pub fn get_data_vi(data_ref: &DataRef, offset: usize, array: &[i32]) -> (call: DataCall)
    requires
        offset + array@.len() <= usize::MAX,
    ensures
        call == (DataCall::GetDatavi {
            data_ref: data_ref@,
            offset: offset as i32,
            max: (offset + array@.len()) as i32,
        }),
{
    let count = offset + array.len();
    DataCall::GetDatavi {
        data_ref: **data_ref,
        offset: #[verifier::truncate]
        (offset as i32),
        max: #[verifier::truncate]
        (count as i32),
    }
}

/// The call that writes `array` into an integer array, from `offset` on.
pub fn set_data_vi(data_ref: &DataRef, offset: usize, array: &[i32]) -> (call: DataCall)
    ensures
        call == (DataCall::SetDatavi {
            data_ref: data_ref@,
            offset: offset as i32,
            count: array@.len() as i32,
        }),
{
    DataCall::SetDatavi {
        data_ref: **data_ref,
        offset: #[verifier::truncate]
        (offset as i32),
        count: #[verifier::truncate]
        (array.len() as i32),
    }
}

/// The call that reads part of a float array into `array`, from `offset` on.
/// The limit that is handed to the host is the index at which the read ends:
/// `offset` plus the length of `array`.
pub fn get_data_vf(data_ref: &DataRef, offset: usize, array: &[Single]) -> (call: DataCall)
    requires
        offset + array@.len() <= usize::MAX,
    ensures
        call == (DataCall::GetDatavf {
            data_ref: data_ref@,
            offset: offset as i32,
            max: (offset + array@.len()) as i32,
        }),
{
    let count = offset + array.len();
    DataCall::GetDatavf {
        data_ref: **data_ref,
        offset: #[verifier::truncate]
        (offset as i32),
        max: #[verifier::truncate]
        (count as i32),
    }
}

/// The call that writes `array` into a float array, from `offset` on.
pub fn set_data_vf(data_ref: &DataRef, offset: usize, array: &[Single]) -> (call: DataCall)
    ensures
        call == (DataCall::SetDatavf {
            data_ref: data_ref@,
            offset: offset as i32,
            count: array@.len() as i32,
        }),
{
    DataCall::SetDatavf {
        data_ref: **data_ref,
        offset: #[verifier::truncate]
        (offset as i32),
        count: #[verifier::truncate]
        (array.len() as i32),
    }
}

/// The call that reads part of a byte block into `array`, from `offset` on.
/// The limit that is handed to the host is the index at which the read ends:
/// `offset` plus the length of `array`.
pub fn get_data_b(data_ref: &DataRef, offset: usize, array: &[u8]) -> (call: DataCall)
    requires
        offset + array@.len() <= usize::MAX,
    ensures
        call == (DataCall::GetDatab {
            data_ref: data_ref@,
            offset: offset as i32,
            max: (offset + array@.len()) as i32,
        }),
{
    let count = offset + array.len();
    DataCall::GetDatab {
        data_ref: **data_ref,
        offset: #[verifier::truncate]
        (offset as i32),
        max: #[verifier::truncate]
        (count as i32),
    }
}

/// The call that writes `array` into a byte block, from `offset` on.
pub fn set_data_b(data_ref: &DataRef, offset: usize, array: &[u8]) -> (call: DataCall)
    ensures
        call == (DataCall::SetDatab {
            data_ref: data_ref@,
            offset: offset as i32,
            count: array@.len() as i32,
        }),
{
    DataCall::SetDatab {
        data_ref: **data_ref,
        offset: #[verifier::truncate]
        (offset as i32),
        count: #[verifier::truncate]
        (array.len() as i32),
    }
}

} // verus!
