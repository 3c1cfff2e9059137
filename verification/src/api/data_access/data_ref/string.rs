use core::marker::PhantomData;

use vstd::prelude::*;
use vstd::utf8::{encode_utf8, valid_utf8};

use super::{AccessMode, DataRead, DataRefArray, LiveDataRef, ReadOnly};
use crate::api::data_access::{DataAccessError, DataCall, DataTypeId};
use crate::ffi::{c_str, FromCStringBytes};

verus! {

/// A data ref that holds text: a C string in a block of at most `SIZE` bytes.
pub struct DataRefString<const SIZE: usize, Mode: AccessMode> {
    inner: DataRefArray<u8, Mode>,
    mode_type: PhantomData<Mode>,
}

impl<const SIZE: usize, Mode: AccessMode> DataRefString<SIZE, Mode> {
    /// The byte array behind the text.
    pub closed spec fn bytes(self) -> DataRefArray<u8, Mode> {
        self.inner
    }
}

impl<const SIZE: usize> DataRefString<SIZE, ReadOnly> {
    /// Grants read access to a live data ref as text, given the types that
    /// the host reports for it.
    pub fn try_from(inner: LiveDataRef, types: DataTypeId) -> (r: Result<Self, DataAccessError>)
        ensures
            r is Ok <==> types.has(crate::api::data_access::DataType::Data),
            r matches Ok(v) ==> v.bytes().data_ref() == inner@,
            r matches Err(e) ==> e == DataAccessError::InvalidType,
    {
        let inner = DataRefArray::try_from(inner, types)?;
        Ok(Self { inner, mode_type: PhantomData })
    }

    /// The host call that reads the text: it asks for all `SIZE` bytes.
    /// [`Self::try_text`] reads the answer.
    pub fn try_read(&self) -> (call: DataCall)
        ensures
            call == (DataCall::GetDatab {
                data_ref: self.bytes().data_ref()@,
                offset: 0,
                max: SIZE as i32,
            }),
    {
        DataCall::GetDatab {
            data_ref: **self.inner.inner(),
            offset: 0,
            max: #[verifier::truncate]
            (SIZE as i32),
        }
    }

    /// The text in the buffer that the host filled.
    pub fn try_text(bytes: &[u8]) -> (r: Result<String, DataAccessError>)
        ensures
            r is Ok <==> valid_utf8(c_str(bytes@)),
            r matches Ok(s) ==> encode_utf8(s@) == c_str(bytes@),
            r matches Err(e) ==> e == DataAccessError::InvalidValueString,
    {
        match String::from_cstring_buffer(bytes) {
            Ok(text) => Ok(text),
            Err(_) => Err(DataAccessError::InvalidValueString),
        }
    }

    /// The text in the buffer that the host filled, or the empty text if the
    /// buffer holds none.
    pub fn text(bytes: &[u8]) -> (r: String)
        ensures
            valid_utf8(c_str(bytes@)) ==> encode_utf8(r@) == c_str(bytes@),
            !valid_utf8(c_str(bytes@)) ==> r@ == Seq::<char>::empty(),
    {
        match Self::try_text(bytes) {
            Ok(text) => text,
            Err(_) => String::new(),
        }
    }
}

impl<const SIZE: usize> DataRead<String> for DataRefString<SIZE, ReadOnly> {
    fn read(&self) -> (call: DataCall)
        ensures
            call == (DataCall::GetDatab {
                data_ref: self.bytes().data_ref()@,
                offset: 0,
                max: SIZE as i32,
            }),
    {
        self.try_read()
    }
}

} // verus!
