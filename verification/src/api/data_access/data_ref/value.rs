use core::marker::PhantomData;

use vstd::prelude::*;

use super::{
    AccessMode, Admission, DataRead, DataRef, DataWrite, IntoDataType, LiveDataRef, ReadOnly,
    ReadWrite,
};
use crate::api::data_access::{DataAccessError, DataCall, DataTypeId};
use crate::ffi::{Double, Single};

verus! {

/// A data ref that holds a single value of type `T`, with what `Mode` allows.
///
/// One exists only if the host reported `T` among the types of the data ref
/// when it was made, and a writable one only if the host took writes when it
/// was upgraded. Neither is asked again on a read or a write.
pub struct DataRefValue<T: IntoDataType, Mode: AccessMode> {
    inner: DataRef,
    admission: Ghost<Admission>,
    data_type: PhantomData<T>,
    mode_type: PhantomData<Mode>,
}

impl<T: IntoDataType, Mode: AccessMode> DataRefValue<T, Mode> {
    #[verifier::type_invariant]
    spec fn admitted(self) -> bool {
        &&& self.admission@.types.has(T::tag())
        &&& Mode::writes() ==> self.admission@.writable
    }

    /// The data ref behind the value.
    pub closed spec fn data_ref(self) -> DataRef {
        self.inner
    }

    /// What the host reported when access was granted.
    pub closed spec fn admission(self) -> Admission {
        self.admission@
    }

    /// The data ref behind the value. Its type was among those that the host
    /// reported, and it was writable if the mode writes.
    pub fn inner(&self) -> (r: &DataRef)
        ensures
            *r == self.data_ref(),
            self.admission().types.has(T::tag()),
            Mode::writes() ==> self.admission().writable,
    {
        proof {
            use_type_invariant(self);
        }
        &self.inner
    }
}

impl<T: IntoDataType> DataRefValue<T, ReadOnly> {
    /// Grants read access to a live data ref as a value of type `T`, given the
    /// types that the host reports for it.
    pub fn try_from(inner: LiveDataRef, types: DataTypeId) -> (r: Result<Self, DataAccessError>)
        ensures
            r is Ok <==> types.has(T::tag()),
            r matches Ok(v) ==> v.data_ref() == inner@ && v.admission() == (Admission {
                types,
                writable: false,
            }),
            r matches Err(e) ==> e == DataAccessError::InvalidType,
    {
        let data_type_matches = types.contains(T::data_type());
        if !data_type_matches {
            return Err(DataAccessError::InvalidType);
        }
        Ok(
            DataRefValue {
                inner: inner.data_ref(),
                admission: Ghost(Admission { types, writable: false }),
                data_type: PhantomData,
                mode_type: PhantomData,
            },
        )
    }

    /// Upgrades to write access, given the host's answer, at this moment, to
    /// the question whether the data ref takes writes.
    pub fn writeable(self, can_write: bool) -> (r: Result<
        DataRefValue<T, ReadWrite>,
        DataAccessError,
    >)
        ensures
            r is Ok <==> can_write,
            r matches Ok(v) ==> v.data_ref() == self.data_ref() && v.admission() == (Admission {
                types: self.admission().types,
                writable: true,
            }),
            r matches Err(e) ==> e == DataAccessError::ReadOnlyDataRef,
    {
        if !can_write {
            return Err(DataAccessError::ReadOnlyDataRef);
        }
        proof {
            use_type_invariant(&self);
        }
        Ok(
            DataRefValue {
                inner: self.inner,
                admission: Ghost(Admission { types: self.admission@.types, writable: true }),
                data_type: PhantomData,
                mode_type: PhantomData,
            },
        )
    }
}

impl<Mode: AccessMode> DataRead<i32> for DataRefValue<i32, Mode> {
    fn read(&self) -> (call: DataCall)
        ensures
            call == (DataCall::GetDatai { data_ref: self.data_ref()@ }),
    {
        DataCall::GetDatai { data_ref: *self.inner }
    }
}

impl DataWrite<i32> for DataRefValue<i32, ReadWrite> {
    fn write(&mut self, value: i32) -> (call: DataCall)
        ensures
            call == (DataCall::SetDatai { data_ref: old(self).data_ref()@, value }),
            final(self).data_ref() == old(self).data_ref(),
            final(self).admission() == old(self).admission(),
    {
        DataCall::SetDatai { data_ref: *self.inner, value }
    }
}

impl<Mode: AccessMode> DataRead<Single> for DataRefValue<Single, Mode> {
    fn read(&self) -> (call: DataCall)
        ensures
            call == (DataCall::GetDataf { data_ref: self.data_ref()@ }),
    {
        DataCall::GetDataf { data_ref: *self.inner }
    }
}

impl DataWrite<Single> for DataRefValue<Single, ReadWrite> {
    fn write(&mut self, value: Single) -> (call: DataCall)
        ensures
            call == (DataCall::SetDataf { data_ref: old(self).data_ref()@, value }),
            final(self).data_ref() == old(self).data_ref(),
            final(self).admission() == old(self).admission(),
    {
        DataCall::SetDataf { data_ref: *self.inner, value }
    }
}

impl<Mode: AccessMode> DataRead<Double> for DataRefValue<Double, Mode> {
    fn read(&self) -> (call: DataCall)
        ensures
            call == (DataCall::GetDatad { data_ref: self.data_ref()@ }),
    {
        DataCall::GetDatad { data_ref: *self.inner }
    }
}

impl DataWrite<Double> for DataRefValue<Double, ReadWrite> {
    fn write(&mut self, value: Double) -> (call: DataCall)
        ensures
            call == (DataCall::SetDatad { data_ref: old(self).data_ref()@, value }),
            final(self).data_ref() == old(self).data_ref(),
            final(self).admission() == old(self).admission(),
    {
        DataCall::SetDatad { data_ref: *self.inner, value }
    }
}

} // verus!
