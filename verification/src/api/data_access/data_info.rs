use vstd::prelude::*;
use vstd::utf8::{encode_utf8, valid_utf8};

use super::data_type::DataTypeId;
use super::error::DataAccessError;
use crate::api::plugin::{PluginError, PluginId};
use crate::ffi::{c_str, truth, FromCStringBytes, Utf8Error};

verus! {

/// What the host filled in for a data ref, as plain values.
#[derive(Clone, Debug)]
pub struct RawInfo {
    /// The bytes at the name that the host pointed to: a C string.
    pub name: Vec<u8>,
    /// The bitmap of the types of the data ref.
    pub data_type: i32,
    /// 1 if the data ref takes writes.
    pub writable: i32,
    /// The id of the plugin that owns the data ref.
    pub owner: i32,
}

/// What is known of a data ref.
#[derive(Clone, Debug)]
pub struct Info {
    /// The name of the data ref.
    pub name: String,
    /// The types that the data ref can be read as.
    pub data_type: DataTypeId,
    /// The plugin that owns the data ref.
    pub owner: PluginId,
}

/// The error that reading a data ref's information ends in: a name that is
/// not UTF-8 comes before an owner that is no plugin.
pub open spec fn info_error(raw: RawInfo) -> Option<DataAccessError> {
    if !valid_utf8(c_str(raw.name@)) {
        Some(DataAccessError::InvalidInfoName(Utf8Error))
    } else if raw.owner < 0 {
        Some(DataAccessError::Plugin(PluginError::InvalidId(raw.owner)))
    } else {
        None
    }
}

impl Info {
    /// Reads what the host filled in.
    pub fn try_from(value: &RawInfo) -> (r: Result<Self, DataAccessError>)
        ensures
            match r {
                Ok(info) => {
                    &&& info_error(*value) is None
                    &&& encode_utf8(info.name@) == c_str(value.name@)
                    &&& info.data_type@ == value.data_type
                    &&& info.owner@ == value.owner
                },
                Err(e) => info_error(*value) == Some(e),
            },
    {
        let name = match String::from_cstring_buffer(value.name.as_slice()) {
            Ok(text) => text,
            Err(e) => {
                return Err(DataAccessError::InvalidInfoName(e));
            },
        };
        let owner = match PluginId::try_from(value.owner) {
            Ok(id) => id,
            Err(e) => {
                return Err(DataAccessError::Plugin(e));
            },
        };
        Ok(Info { name, data_type: DataTypeId::from(value.data_type), owner })
    }
}

/// What is known of a data ref, by what may be done with it.
#[derive(Clone, Debug)]
pub enum DataRefInfo {
    /// The data ref can only be read.
    ReadOnly(Info),
    /// The data ref can be read and written.
    ReadWrite(Info),
}

impl DataRefInfo {
    /// The information, whatever the access.
    pub open spec fn info(self) -> Info {
        match self {
            DataRefInfo::ReadOnly(info) => info,
            DataRefInfo::ReadWrite(info) => info,
        }
    }

    /// Reads what the host filled in. The data ref is writable if the host
    /// set the flag to 1.
    pub fn try_from(value: &RawInfo) -> (r: Result<Self, DataAccessError>)
        ensures
            match r {
                Ok(data_ref_info) => {
                    &&& info_error(*value) is None
                    &&& data_ref_info is ReadWrite <==> value.writable == 1
                    &&& encode_utf8(data_ref_info.info().name@) == c_str(value.name@)
                    &&& data_ref_info.info().data_type@ == value.data_type
                    &&& data_ref_info.info().owner@ == value.owner
                },
                Err(e) => info_error(*value) == Some(e),
            },
    {
        let info = Info::try_from(value)?;
        if truth(value.writable) {
            Ok(DataRefInfo::ReadWrite(info))
        } else {
            Ok(DataRefInfo::ReadOnly(info))
        }
    }
}

} // verus!
