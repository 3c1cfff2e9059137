//! State that the whole process shares and that is set once.

use vstd::prelude::*;

verus! {

/// A place for one value that is set once and read from then on.
#[derive(Debug)]
pub struct OnceSlot<T> {
    value: Option<T>,
}

impl<T> View for OnceSlot<T> {
    type V = Option<T>;

    /// What the slot holds.
    closed spec fn view(&self) -> Option<T> {
        self.value
    }
}

impl<T> OnceSlot<T> {
    /// An empty slot.
    pub fn new() -> (slot: Self)
        ensures
            slot@ is None,
    {
        OnceSlot { value: None }
    }

    /// What the slot holds.
    pub fn get(&self) -> (r: Option<&T>)
        ensures
            r is Some <==> self@ is Some,
            r matches Some(value) ==> *value == self@->Some_0,
    {
        self.value.as_ref()
    }

    /// What the slot holds, to change it in its place.
    pub fn get_mut(&mut self) -> (r: Option<&mut T>)
        ensures
            match old(self)@ {
                None => final(self)@ is None && r is None,
                Some(held) => {
                    &&& final(self)@ is Some
                    &&& r is Some
                    &&& *r->Some_0 == held
                    &&& *final(r->Some_0) == final(self)@->Some_0
                },
            },
    {
        self.value.as_mut()
    }

    /// Fills the slot if it is empty. A slot that holds a value keeps it, and
    /// the value that was offered comes back.
    pub fn set(&mut self, value: T) -> (r: Result<(), T>)
        ensures
            old(self)@ is None ==> r is Ok && final(self)@ == Some(value),
            old(self)@ is Some ==> r == Err::<(), T>(value) && final(self)@ == old(self)@,
    {
        if self.value.is_some() {
            return Err(value);
        }
        self.value = Some(value);
        Ok(())
    }

    /// Fills the slot with `value` if it is empty, and gives what it holds
    /// then.
    pub fn get_or_init(&mut self, value: T) -> (r: &T)
        ensures
            final(self)@ == (if old(self)@ is Some {
                old(self)@
            } else {
                Some(value)
            }),
            *r == final(self)@->Some_0,
    {
        if self.value.is_none() {
            self.value = Some(value);
        }
        self.value.as_ref().unwrap()
    }

    /// Empties the slot and gives what it held.
    pub fn take(&mut self) -> (r: Option<T>)
        ensures
            r == old(self)@,
            final(self)@ is None,
    {
        self.value.take()
    }
}

} // verus!
