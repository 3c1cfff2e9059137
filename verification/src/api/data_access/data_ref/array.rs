use core::marker::PhantomData;

use vstd::prelude::*;

use super::{
    AccessMode, Admission, ArrayRead, ArrayWrite, DataRef, IntoDataType, LiveDataRef, ReadOnly,
    ReadWrite,
};
use crate::api::data_access::{
    get_data_b, get_data_vf, set_data_b, set_data_vf, DataAccessError, DataCall, DataType,
    DataTypeId,
};
use crate::ffi::Single;

verus! {

/// The type of data that an array of elements of a type is read from, if
/// there is one.
pub open spec fn array_type(element: DataType) -> Option<DataType> {
    match element {
        DataType::Int => Some(DataType::IntArray),
        DataType::Float => Some(DataType::FloatArray),
        DataType::Data => Some(DataType::Data),
        _ => None,
    }
}

/// The bitmap allows reading an array of elements of the type.
pub open spec fn holds_array_of(types: DataTypeId, element: DataType) -> bool {
    array_type(element) matches Some(t) && types.has(t)
}

/// A data ref that holds an array of elements of type `T`, with what `Mode`
/// allows.
///
/// One exists only if the host reported the array type of `T` among the types
/// of the data ref when it was made, and a writable one only if the host took
/// writes when it was upgraded. How many elements the array holds is not
/// known to the layer: the caller declares a window at each call.
pub struct DataRefArray<T: IntoDataType, Mode: AccessMode> {
    inner: DataRef,
    admission: Ghost<Admission>,
    data_type: PhantomData<T>,
    mode_type: PhantomData<Mode>,
}

impl<T: IntoDataType, Mode: AccessMode> DataRefArray<T, Mode> {
    #[verifier::type_invariant]
    spec fn admitted(self) -> bool {
        &&& holds_array_of(self.admission@.types, T::tag())
        &&& Mode::writes() ==> self.admission@.writable
    }

    /// The data ref behind the array.
    pub closed spec fn data_ref(self) -> DataRef {
        self.inner
    }

    /// What the host reported when access was granted.
    pub closed spec fn admission(self) -> Admission {
        self.admission@
    }

    /// The data ref behind the array. The array type of `T` was among the
    /// types that the host reported, and the data ref was writable if the
    /// mode writes.
    pub fn inner(&self) -> (r: &DataRef)
        ensures
            *r == self.data_ref(),
            holds_array_of(self.admission().types, T::tag()),
            Mode::writes() ==> self.admission().writable,
    {
        proof {
            use_type_invariant(self);
        }
        &self.inner
    }
}

impl<T: IntoDataType> DataRefArray<T, ReadOnly> {
    /// Grants read access to a live data ref as an array of `T`, given the
    /// types that the host reports for it.
    pub fn try_from(inner: LiveDataRef, types: DataTypeId) -> (r: Result<Self, DataAccessError>)
        ensures
            r is Ok <==> holds_array_of(types, T::tag()),
            r matches Ok(v) ==> v.data_ref() == inner@ && v.admission() == (Admission {
                types,
                writable: false,
            }),
            r matches Err(e) ==> e == DataAccessError::InvalidType,
    {
        let data_type_matches = match T::data_type() {
            DataType::Int => types.contains(DataType::IntArray),
            DataType::Float => types.contains(DataType::FloatArray),
            DataType::Data => types.contains(DataType::Data),
            _ => false,
        };
        if !data_type_matches {
            return Err(DataAccessError::InvalidType);
        }
        Ok(
            DataRefArray {
                inner: inner.data_ref(),
                admission: Ghost(Admission { types, writable: false }),
                data_type: PhantomData,
                mode_type: PhantomData,
            },
        )
    }

    /// Upgrades to write access, given the host's answer, at this moment, to
    /// the question whether the data ref takes writes.
    pub fn writeable(self, can_write: bool) -> (r: Result<
        DataRefArray<T, ReadWrite>,
        DataAccessError,
    >)
        ensures
            r is Ok <==> can_write,
            r matches Ok(v) ==> v.data_ref() == self.data_ref() && v.admission() == (Admission {
                types: self.admission().types,
                writable: true,
            }),
            r matches Err(e) ==> e == DataAccessError::ReadOnlyDataRef,
    {
        if !can_write {
            return Err(DataAccessError::ReadOnlyDataRef);
        }
        proof {
            use_type_invariant(&self);
        }
        Ok(
            DataRefArray {
                inner: self.inner,
                admission: Ghost(Admission { types: self.admission@.types, writable: true }),
                data_type: PhantomData,
                mode_type: PhantomData,
            },
        )
    }
}

/// A write of one element: the host call, and the element that it writes.
pub struct ElementWrite<T> {
    /// The host call; it writes one element.
    pub call: DataCall,
    /// The element.
    pub value: T,
}

/// The element at `offset` of a window of `size` elements of which the host
/// filled `copied`: there is one if the offset lies inside the window and
/// the host filled the window whole.
pub open spec fn element_of<T>(window: Seq<T>, copied: int, size: int, offset: int) -> Result<
    T,
    DataAccessError,
> {
    if 0 <= offset < size && copied == size {
        Ok(window[offset])
    } else {
        Err(DataAccessError::OutOfBounds)
    }
}

/// Reads the host's answer to the call of `read_at`: `window` is the buffer
/// of `SIZE` elements that was handed to the host, and `copied` the number of
/// elements that it reported.
pub fn element_at<T: Copy, const SIZE: usize>(
    window: &[T; SIZE],
    copied: usize,
    offset: usize,
) -> (r: Result<T, DataAccessError>)
    ensures
        r == element_of(window@, copied as int, SIZE as int, offset as int),
{
    if offset >= SIZE {
        return Err(DataAccessError::OutOfBounds);
    }
    if copied != window.len() {
        return Err(DataAccessError::OutOfBounds);
    }
    Ok(window[offset])
}

impl<Mode: AccessMode> ArrayRead<Single> for DataRefArray<Single, Mode> {
    fn read(&self, dest: &[Single]) -> (call: DataCall)
        ensures
            call == (DataCall::GetDatavf {
                data_ref: self.data_ref()@,
                offset: 0,
                max: dest@.len() as i32,
            }),
    {
        let len = dest.len();
        assert(0 + len <= usize::MAX);
        get_data_vf(&self.inner, 0, dest)
    }

    fn read_at<const SIZE: usize>(&self, offset: usize) -> (r: Result<DataCall, DataAccessError>)
        ensures
            r is Ok <==> offset < SIZE,
            r matches Ok(call) ==> call == (DataCall::GetDatavf {
                data_ref: self.data_ref()@,
                offset: 0,
                max: SIZE as i32,
            }),
            r matches Err(e) ==> e == DataAccessError::OutOfBounds,
    {
        if offset >= SIZE {
            return Err(DataAccessError::OutOfBounds);
        }
        Ok(
            DataCall::GetDatavf {
                data_ref: *self.inner,
                offset: 0,
                max: #[verifier::truncate]
                (SIZE as i32),
            },
        )
    }
}

impl ArrayWrite<Single> for DataRefArray<Single, ReadWrite> {
    fn write(&mut self, array: &[Single]) -> (call: DataCall)
        ensures
            call == (DataCall::SetDatavf {
                data_ref: old(self).data_ref()@,
                offset: 0,
                count: array@.len() as i32,
            }),
            final(self).data_ref() == old(self).data_ref(),
            final(self).admission() == old(self).admission(),
    {
        set_data_vf(&self.inner, 0, array)
    }

    fn write_at<const SIZE: usize>(&mut self, offset: usize, value: Single) -> (r: Result<
        ElementWrite<Single>,
        DataAccessError,
    >)
        ensures
            r is Ok <==> offset < SIZE,
            r matches Ok(w) ==> w.value == value && w.call == (DataCall::SetDatavf {
                data_ref: old(self).data_ref()@,
                offset: offset as i32,
                count: 1,
            }),
            r matches Err(e) ==> e == DataAccessError::OutOfBounds,
            final(self).data_ref() == old(self).data_ref(),
            final(self).admission() == old(self).admission(),
    {
        if offset >= SIZE {
            return Err(DataAccessError::OutOfBounds);
        }
        let call = DataCall::SetDatavf {
            data_ref: *self.inner,
            offset: #[verifier::truncate]
            (offset as i32),
            count: 1,
        };
        Ok(ElementWrite { call, value })
    }
}

impl<Mode: AccessMode> ArrayRead<u8> for DataRefArray<u8, Mode> {
    fn read(&self, dest: &[u8]) -> (call: DataCall)
        ensures
            call == (DataCall::GetDatab {
                data_ref: self.data_ref()@,
                offset: 0,
                max: dest@.len() as i32,
            }),
    {
        let len = dest.len();
        assert(0 + len <= usize::MAX);
        get_data_b(&self.inner, 0, dest)
    }

    fn read_at<const SIZE: usize>(&self, offset: usize) -> (r: Result<DataCall, DataAccessError>)
        ensures
            r is Ok <==> offset < SIZE,
            r matches Ok(call) ==> call == (DataCall::GetDatab {
                data_ref: self.data_ref()@,
                offset: 0,
                max: SIZE as i32,
            }),
            r matches Err(e) ==> e == DataAccessError::OutOfBounds,
    {
        if offset >= SIZE {
            return Err(DataAccessError::OutOfBounds);
        }
        Ok(
            DataCall::GetDatab {
                data_ref: *self.inner,
                offset: 0,
                max: #[verifier::truncate]
                (SIZE as i32),
            },
        )
    }
}

impl ArrayWrite<u8> for DataRefArray<u8, ReadWrite> {
    fn write(&mut self, array: &[u8]) -> (call: DataCall)
        ensures
            call == (DataCall::SetDatab {
                data_ref: old(self).data_ref()@,
                offset: 0,
                count: array@.len() as i32,
            }),
            final(self).data_ref() == old(self).data_ref(),
            final(self).admission() == old(self).admission(),
    {
        set_data_b(&self.inner, 0, array)
    }

    fn write_at<const SIZE: usize>(&mut self, offset: usize, value: u8) -> (r: Result<
        ElementWrite<u8>,
        DataAccessError,
    >)
        ensures
            r is Ok <==> offset < SIZE,
            r matches Ok(w) ==> w.value == value && w.call == (DataCall::SetDatab {
                data_ref: old(self).data_ref()@,
                offset: offset as i32,
                count: 1,
            }),
            r matches Err(e) ==> e == DataAccessError::OutOfBounds,
            final(self).data_ref() == old(self).data_ref(),
            final(self).admission() == old(self).admission(),
    {
        if offset >= SIZE {
            return Err(DataAccessError::OutOfBounds);
        }
        let call = DataCall::SetDatab {
            data_ref: *self.inner,
            offset: #[verifier::truncate]
            (offset as i32),
            count: 1,
        };
        Ok(ElementWrite { call, value })
    }
}

} // verus!
