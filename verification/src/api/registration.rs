//! Registrations of handlers, and the tokens by which the host names them.
//!
//! The host takes a plain function and a pointer-sized token for each
//! callback, and hands the token back at every call. A [`Registry`] owns the
//! handlers and gives each a token; the function that the host calls finds
//! the handler by the token alone, leads the call to it, and gives it back.
//! A handler is out of the registry while a call runs in it, so that it may
//! use the registry itself, even to end its own registration.

use vstd::prelude::*;

verus! {

/// The token of one registration: what the host is given to hand back. It is
/// never zero and never given twice by one registry.
#[derive(Clone, Copy, Debug, PartialEq, Eq, Structural)]
pub struct Token(usize);

impl View for Token {
    type V = usize;

    /// The token as the host holds it.
    closed spec fn view(&self) -> usize {
        self.0
    }
}

impl Token {
    #[verifier::type_invariant]
    spec fn valid(self) -> bool {
        self.0 != 0
    }

    /// The token as the host holds it.
    pub fn native(&self) -> (raw: usize)
        ensures
            raw == self@,
            raw != 0,
    {
        proof {
            use_type_invariant(self);
        }
        self.0
    }
}

/// The place of one registration in a registry.
#[derive(Debug)]
pub enum Slot<T> {
    /// The registration has ended.
    Vacant,
    /// The registration stands, and no call runs in it.
    Idle(T),
    /// The registration stands, and a call runs in it.
    Busy,
    /// The registration was ended while a call ran in it, and the call has
    /// not come back yet.
    Retired,
}

/// What was registered, out of the registry for the time of one call.
#[derive(Debug)]
pub struct Lease<T> {
    token: usize,
    item: T,
}

impl<T> Lease<T> {
    /// The token under which the item is registered.
    pub closed spec fn token(self) -> usize {
        self.token
    }

    /// What was registered.
    pub closed spec fn item(self) -> T {
        self.item
    }

    /// What was registered, to lead the call to.
    pub fn item_mut(&mut self) -> (item: &mut T)
        ensures
            *item == old(self).item(),
            final(self).item() == *final(item),
            final(self).token() == old(self).token(),
    {
        &mut self.item
    }
}

/// What a call of the host is led to: what is registered under the token
/// that the host handed back, out of the registry for the time of the call,
/// or nothing, if the token names nothing at rest.
#[derive(Debug)]
pub struct Call<T> {
    lease: Option<Lease<T>>,
}

impl<T> Call<T> {
    /// What is out of the registry for the call.
    pub closed spec fn lease(self) -> Option<Lease<T>> {
        self.lease
    }

    /// What the call is led to.
    pub open spec fn item(self) -> Option<T> {
        match self.lease() {
            Some(lease) => Some(lease.item()),
            None => None,
        }
    }

    /// The token that the host handed back, if it led to anything.
    pub open spec fn token(self) -> Option<usize> {
        match self.lease() {
            Some(lease) => Some(lease.token()),
            None => None,
        }
    }

    /// What the call is led to, to lead it there.
    pub fn item_mut(&mut self) -> (r: Option<&mut T>)
        ensures
            final(self).token() == old(self).token(),
            match old(self).item() {
                None => r is None && final(self).item() is None,
                Some(item) => {
                    &&& r is Some
                    &&& *r->Some_0 == item
                    &&& final(self).item() == Some(*final(r->Some_0))
                },
            },
    {
        match &mut self.lease {
            Some(lease) => Some(lease.item_mut()),
            None => None,
        }
    }
}

/// How a registration ended.
#[derive(Debug)]
pub enum Released<T> {
    /// It ended now: here is what was registered.
    Now(T),
    /// It ended now, while a call runs in it: what was registered is dropped
    /// when the call comes back.
    AfterCall,
    /// There was no such registration, or it had ended before.
    Not,
}

/// What is owed when a registration has ended: the host is to be told, and
/// what was registered is to be dropped after that.
#[derive(Debug)]
pub struct Teardown<C, T> {
    /// The call that tells the host.
    pub call: C,
    /// What was registered, to be dropped once the call is made. There is
    /// none while a call runs in the registration: then it is dropped when
    /// that call comes back.
    pub item: Option<T>,
}

impl<T> Released<T> {
    /// What was registered, if the registration ended at rest.
    pub open spec fn item(self) -> Option<T> {
        match self {
            Released::Now(item) => Some(item),
            _ => None,
        }
    }

    /// What is owed for the end of the registration, if it ended now.
    pub fn owing<C>(self, call: C) -> (r: Option<Teardown<C, T>>)
        ensures
            r is Some <==> self !is Not,
            r matches Some(teardown) ==> teardown.call == call && teardown.item == self.item(),
    {
        match self {
            Released::Now(item) => Some(Teardown { call, item: Some(item) }),
            Released::AfterCall => Some(Teardown { call, item: None }),
            Released::Not => None,
        }
    }
}

/// What was registered under a token, if the registration is at rest.
pub open spec fn resting<T>(slots: Seq<Slot<T>>, token: usize) -> Option<T> {
    if at_rest(slots, token) {
        Some(slots[token - 1]->Idle_0)
    } else {
        None
    }
}

/// The slot that a token names, if it names one.
pub open spec fn names<T>(slots: Seq<Slot<T>>, token: usize) -> bool {
    0 < token <= slots.len()
}

/// The registration under the token stands.
pub open spec fn registered<T>(slots: Seq<Slot<T>>, token: usize) -> bool {
    names(slots, token) && (slots[token - 1] is Idle || slots[token - 1] is Busy)
}

/// The registration under the token stands, and no call runs in it: a call
/// can be led to it.
pub open spec fn at_rest<T>(slots: Seq<Slot<T>>, token: usize) -> bool {
    names(slots, token) && slots[token - 1] is Idle
}

/// A call was led to the registration under the token and has come back:
/// the registration stands at rest, with whatever the call made of it, and
/// every other slot is as it was.
pub open spec fn led<T>(before: Seq<Slot<T>>, after: Seq<Slot<T>>, token: usize) -> bool {
    &&& after.len() == before.len()
    &&& at_rest(after, token)
    &&& forall|other: usize|
        names(before, other) && other != token ==> after[other - 1] == before[other - 1]
}

/// The slots after something was registered: it stands in a new slot.
pub open spec fn inserted<T>(slots: Seq<Slot<T>>, item: T) -> Seq<Slot<T>> {
    slots.push(Slot::Idle(item))
}

/// The slots after the registration under a token was ended.
pub open spec fn released<T>(slots: Seq<Slot<T>>, token: usize) -> Seq<Slot<T>> {
    if !names(slots, token) {
        slots
    } else {
        match slots[token - 1] {
            Slot::Idle(_) => slots.update(token - 1, Slot::Vacant),
            Slot::Busy => slots.update(token - 1, Slot::Retired),
            _ => slots,
        }
    }
}

/// The slots after a call was led to the registration under a token.
pub open spec fn checked_out<T>(slots: Seq<Slot<T>>, token: usize) -> Seq<Slot<T>> {
    if at_rest(slots, token) {
        slots.update(token - 1, Slot::Busy)
    } else {
        slots
    }
}

/// The slots after a call came back with what it was led to.
pub open spec fn checked_in<T>(slots: Seq<Slot<T>>, token: usize, item: T) -> Seq<Slot<T>> {
    if !names(slots, token) {
        slots
    } else {
        match slots[token - 1] {
            Slot::Busy => slots.update(token - 1, Slot::Idle(item)),
            Slot::Retired => slots.update(token - 1, Slot::Vacant),
            _ => slots,
        }
    }
}

/// The registrations of one kind of handler.
///
/// A slot is never used twice, so a token that the host still holds after its
/// registration has ended names nothing, now and later.
#[derive(Debug)]
pub struct Registry<T> {
    slots: Vec<Slot<T>>,
}

impl<T> View for Registry<T> {
    type V = Seq<Slot<T>>;

    /// The slots; the token of a slot is its index plus one.
    closed spec fn view(&self) -> Seq<Slot<T>> {
        self.slots@
    }
}

impl<T> Registry<T> {
    /// A registry without registrations.
    pub fn new() -> (r: Self)
        ensures
            r@.len() == 0,
    {
        Registry { slots: Vec::new() }
    }

    /// The number of registrations that were ever made.
    pub fn len(&self) -> (n: usize)
        ensures
            n == self@.len(),
    {
        self.slots.len()
    }

    /// Checks whether the registration under a token stands.
    pub fn is_registered(&self, token: usize) -> (r: bool)
        ensures
            r == registered(self@, token),
    {
        if token == 0 || token > self.slots.len() {
            return false;
        }
        match &self.slots[token - 1] {
            Slot::Idle(_) => true,
            Slot::Busy => true,
            _ => false,
        }
    }

    /// Registers an item and gives the token to hand to the host.
    pub fn insert(&mut self, item: T) -> (token: Token)
        ensures
            final(self)@ == inserted(old(self)@, item),
            token@ == old(self)@.len() + 1,
    {
        self.slots.push(Slot::Idle(item));
        Token(self.slots.len())
    }

    /// Ends the registration under a token. This succeeds once: the caller
    /// then owes the host the call that undoes the registration.
    pub fn release(&mut self, token: usize) -> (r: Released<T>)
        ensures
            final(self)@ == released(old(self)@, token),
            r is Not <==> !registered(old(self)@, token),
            r matches Released::Now(item) ==> old(self)@[token - 1] == Slot::Idle(item),
            r is AfterCall ==> old(self)@[token - 1] is Busy,
            r.item() == resting(old(self)@, token),
    {
        if token == 0 || token > self.slots.len() {
            return Released::Not;
        }
        let mut slot = Slot::Vacant;
        core::mem::swap(&mut self.slots[token - 1], &mut slot);
        match slot {
            Slot::Idle(item) => Released::Now(item),
            Slot::Busy => {
                self.slots[token - 1] = Slot::Retired;
                Released::AfterCall
            },
            Slot::Retired => {
                self.slots[token - 1] = Slot::Retired;
                assert(self.slots@ == old(self).slots@);
                Released::Not
            },
            Slot::Vacant => {
                assert(self.slots@ == old(self).slots@);
                Released::Not
            },
        }
    }

    /// Takes what is registered under the token that the host handed back,
    /// for the time of one call. There is nothing to take under the zero
    /// token, under a token that this registry never gave, after the
    /// registration has ended, and while a call runs in it.
    pub fn checkout(&mut self, token: usize) -> (r: Option<Lease<T>>)
        ensures
            final(self)@ == checked_out(old(self)@, token),
            r is Some <==> at_rest(old(self)@, token),
            r matches Some(lease) ==> lease.token() == token && old(self)@[token - 1]
                == Slot::Idle(lease.item()),
    {
        if token == 0 || token > self.slots.len() {
            return None;
        }
        let mut slot = Slot::Busy;
        core::mem::swap(&mut self.slots[token - 1], &mut slot);
        match slot {
            Slot::Idle(item) => Some(Lease { token, item }),
            other => {
                self.slots[token - 1] = other;
                assert(self.slots@ == old(self).slots@);
                None
            },
        }
    }

    /// Gives back what a call was led to. If the registration was ended
    /// during the call, it is not put back: it is dropped here, and the token
    /// names nothing from now on.
    pub fn checkin(&mut self, lease: Lease<T>)
        ensures
            final(self)@ == checked_in(old(self)@, lease.token(), lease.item()),
    {
        let Lease { token, item } = lease;
        if token == 0 || token > self.slots.len() {
            return ;
        }
        let mut slot = Slot::Vacant;
        core::mem::swap(&mut self.slots[token - 1], &mut slot);
        match slot {
            Slot::Busy => {
                self.slots[token - 1] = Slot::Idle(item);
            },
            Slot::Retired => {},
            other => {
                self.slots[token - 1] = other;
                assert(self.slots@ == old(self).slots@);
            },
        }
    }

    /// The first half of a call of the host: takes what is registered under
    /// the token that the host handed back out of the registry, so that the
    /// registry is free while the call runs. The call is led to nothing
    /// under the zero token, under a token that this registry never gave,
    /// after the registration has ended, and while a call runs in it.
    pub fn begin_call(&mut self, token: usize) -> (call: Call<T>)
        ensures
            final(self)@ == checked_out(old(self)@, token),
            call.item() == resting(old(self)@, token),
            call.token() == (if at_rest(old(self)@, token) {
                Some(token)
            } else {
                None
            }),
    {
        Call { lease: self.checkout(token) }
    }

    /// The second half of a call of the host: gives back what the call was
    /// led to. If the registration was ended during the call, it is not put
    /// back: it is dropped here.
    pub fn end_call(&mut self, call: Call<T>)
        ensures
            final(self)@ == (match call.lease() {
                Some(lease) => checked_in(old(self)@, lease.token(), lease.item()),
                None => old(self)@,
            }),
    {
        match call.lease {
            Some(lease) => self.checkin(lease),
            None => {},
        }
    }
}

/// A call that is led to a registration at rest, and in which the
/// registration is not ended, puts back what it made of the item: the slot
/// holds it, and every other slot is as it was. A call that is led to
/// nothing leaves the registry as it was.
pub proof fn lemma_call_ends<T>(slots: Seq<Slot<T>>, token: usize, call: Call<T>)
    requires
        call.token() == (if at_rest(slots, token) {
            Some(token)
        } else {
            None
        }),
    ensures
        ({
            let after = match call.lease() {
                Some(lease) => checked_in(checked_out(slots, token), lease.token(), lease.item()),
                None => checked_out(slots, token),
            };
            &&& at_rest(slots, token) ==> led(slots, after, token) && resting(after, token)
                == call.item()
            &&& !at_rest(slots, token) ==> after == slots
            &&& at_rest(slots, token) && call.item() == resting(slots, token) ==> after == slots
        }),
{
    if at_rest(slots, token) {
        let lease = call.lease()->Some_0;
        assert(checked_in(checked_out(slots, token), token, lease.item()) == slots.update(
            token - 1,
            Slot::Idle(lease.item()),
        ));
        if call.item() == resting(slots, token) {
            assert(slots.update(token - 1, Slot::Idle(lease.item())) == slots);
        }
    }
}

/// A new registration stands, under a token that named nothing before, and
/// every other slot is as it was.
pub proof fn lemma_insert_is_fresh<T>(slots: Seq<Slot<T>>, item: T, token: usize)
    requires
        token == slots.len() + 1,
    ensures
        !names(slots, token),
        registered(inserted(slots, item), token),
        forall|t: usize| names(slots, t) ==> inserted(slots, item)[t - 1] == slots[t - 1],
{
}

/// A registration is ended once: after it has been ended, ending it again
/// changes nothing and is reported as not done.
pub proof fn lemma_release_once<T>(slots: Seq<Slot<T>>, token: usize)
    ensures
        !registered(released(slots, token), token),
        released(released(slots, token), token) == released(slots, token),
{
}

/// Ending a registration that was made, with no call running in it, leaves
/// its slot vacant: made, ended, and nothing stands.
pub proof fn lemma_insert_then_release<T>(slots: Seq<Slot<T>>, item: T, token: usize)
    requires
        token == slots.len() + 1,
    ensures
        registered(inserted(slots, item), token),
        !registered(released(inserted(slots, item), token), token),
        released(inserted(slots, item), token)[token - 1] is Vacant,
{
}

/// A registration that is ended during a call in it is gone when the call
/// comes back: what the call was led to is not put back, and no later call
/// finds anything under the token.
pub proof fn lemma_release_during_call<T>(slots: Seq<Slot<T>>, token: usize, item: T)
    requires
        names(slots, token),
        slots[token - 1] is Idle,
    ensures
        ({
            let during = checked_out(slots, token);
            let ended = released(during, token);
            let after = checked_in(ended, token, item);
            &&& during[token - 1] is Busy
            &&& registered(during, token)
            &&& ended[token - 1] is Retired
            &&& !registered(ended, token)
            &&& after[token - 1] is Vacant
            &&& checked_out(after, token) == after
            &&& released(after, token) == after
        }),
{
}

/// Only the token decides which registration is meant: what is done under
/// one token leaves the slot of every other token as it was.
pub proof fn lemma_other_tokens_untouched<T>(
    slots: Seq<Slot<T>>,
    token: usize,
    other: usize,
    item: T,
)
    requires
        names(slots, other),
        other != token,
    ensures
        released(slots, token)[other - 1] == slots[other - 1],
        checked_out(slots, token)[other - 1] == slots[other - 1],
        checked_in(slots, token, item)[other - 1] == slots[other - 1],
{
}

} // verus!
