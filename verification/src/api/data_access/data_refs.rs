use vstd::prelude::*;

use super::data_ref::DataRef;
use super::error::DataAccessError;

verus! {

/// The data refs that the host listed, handed out one by one.
#[derive(Debug)]
pub struct DataRefsIter {
    refs: Vec<usize>,
    next: usize,
}

impl DataRefsIter {
    #[verifier::type_invariant]
    spec fn valid(self) -> bool {
        self.next <= self.refs.len()
    }

    /// The handles that are still to come, as the host listed them.
    pub closed spec fn remaining(self) -> Seq<usize> {
        self.refs@.skip(self.next as int)
    }

    /// Takes the list that the host filled; `None` stands for the null list.
    pub fn try_from(value: Option<Vec<usize>>) -> (r: Result<Self, DataAccessError>)
        ensures
            r is Ok <==> value is Some,
            r matches Ok(iter) ==> iter.remaining() == value->Some_0@,
            r matches Err(e) ==> e == DataAccessError::InvalidDataRefsIterator,
    {
        match value {
            None => Err(DataAccessError::InvalidDataRefsIterator),
            Some(refs) => {
                let iter = DataRefsIter { refs, next: 0 };
                assert(iter.refs@.skip(0) == iter.refs@);
                Ok(iter)
            },
        }
    }

    /// The next data ref. There is none when the list is used up, and none
    /// in the place of a null handle in the list.
    pub fn next(&mut self) -> (r: Option<DataRef>)
        ensures
            old(self).remaining().len() == 0 ==> r is None && final(self).remaining()
                == old(self).remaining(),
            old(self).remaining().len() > 0 ==> {
                &&& final(self).remaining() == old(self).remaining().drop_first()
                &&& r is Some <==> old(self).remaining()[0] != 0
                &&& r matches Some(data_ref) ==> data_ref@ == old(self).remaining()[0]
            },
    {
        proof {
            use_type_invariant(&*self);
        }
        if self.next >= self.refs.len() {
            return None;
        }
        let raw = self.refs[self.next];
        self.next = self.next + 1;
        assert(self.refs@.skip(self.next as int) == old(self).refs@.skip(
            old(self).next as int,
        ).drop_first());
        match DataRef::try_from(raw) {
            Ok(data_ref) => Some(data_ref),
            Err(_) => None,
        }
    }
}

} // verus!
