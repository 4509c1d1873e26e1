//! The lock and its guard.
//!
//! A [`SpinLock`] is a flag and a slot. An attempt to acquire is one atomic
//! operation on the flag; if that wins, the payload is taken out of the slot
//! and handed to the caller inside a [`Guard`]. The guard is the only way to
//! the payload. When it goes out of scope, on whatever path, the payload
//! returns to the slot and the flag is stored free, in that order and once.
//!
//! Every call returns: an acquisition makes as many attempts as the caller
//! allows and no more, and says whether one of them was granted. To wait
//! without bound, call again.
use crate::flag::won_by_compare_and_swap;
use crate::flag::won_by_exchange;
use crate::flag::Flag;
use crate::model::LockState;
use crate::slot::Slot;
use vstd::prelude::*;

verus! {

/// A value behind a flag.
///
/// The lock can be shared between threads exactly when its payload can be
/// sent from one thread to another: the flag and the guard make access
/// exclusive, they do not make a payload that is bound to one thread safe
/// to reach from another.
#[verifier::reject_recursive_types(T)]
pub struct SpinLock<T> {
    flag: Flag,
    slot: Slot<T>,
}

/// The payload on its way out of the lock and back. Dropping the loan is
/// what releases the lock.
#[verifier::reject_recursive_types(T)]
struct Loan<'a, T> {
    home: &'a SpinLock<T>,
    payload: Option<T>,
}

impl<'a, T> Loan<'a, T> {
    /// The payload of a loan that has one, for writing.
    fn payload_mut(&mut self) -> (payload: &mut T)
        requires
            old(self).payload is Some,
        ensures
            *payload == old(self).payload->0,
            final(self).payload == Some(*final(payload)),
            final(self).home == old(self).home,
        opens_invariants none
        no_unwind
    {
        match &mut self.payload {
            Some(payload) => payload,
            None => vstd::pervasive::unreached(),
        }
    }
}

impl<'a, T> Drop for Loan<'a, T> {
    /// Puts the payload back into the slot, then stores the flag free.
    fn drop(&mut self)
        opens_invariants none
        no_unwind
    {
        self.home.slot.trade(&mut self.payload);
        self.home.flag.release();
    }
}

/// Exclusive access to the payload of one lock, for as long as the guard
/// lives.
///
/// A guard comes from [`SpinLock::lock_with_swap`] or
/// [`SpinLock::lock_with_cas`] and from nowhere else, and it cannot outlive
/// its lock. It dereferences to the payload. Its view is the payload as it
/// stands.
#[verifier::reject_recursive_types(T)]
pub struct Guard<'a, T> {
    loan: Loan<'a, T>,
}

impl<'a, T> Guard<'a, T> {
    #[verifier::type_invariant]
    spec fn carries_payload(&self) -> bool {
        self.loan.payload is Some
    }

    /// The payload as the guard shows it.
    pub closed spec fn view(&self) -> T {
        self.loan.payload->0
    }

    /// The lock that the guard came from and releases when it is dropped.
    pub closed spec fn home(&self) -> SpinLock<T> {
        *self.loan.home
    }

    /// What the lock `home` grants on what its slot gave up: a guard around
    /// the payload if there was one, and nothing if the slot was empty.
    fn carrying(home: &'a SpinLock<T>, payload: Option<T>) -> (granted: Option<Guard<'a, T>>)
        ensures
            granted is Some <==> payload is Some,
            granted matches Some(guard) ==> guard@ == payload->0 && guard.home() == *home,
    {
        match payload {
            Some(payload) => Some(Guard { loan: Loan { home, payload: Some(payload) } }),
            None => None,
        }
    }
}

impl<'a, T> std::ops::Deref for Guard<'a, T> {
    type Target = T;

    /// The payload, for reading.
    fn deref(&self) -> (payload: &T)
        ensures
            *payload == self@,
    {
        proof {
            use_type_invariant(self);
        }
        self.loan.payload.as_ref().unwrap()
    }
}

impl<'a, T> std::ops::DerefMut for Guard<'a, T> {
    /// The payload, for writing: what the caller leaves there is what the
    /// guard shows from then on.
    fn deref_mut(&mut self) -> (payload: &mut T)
        ensures
            *payload == old(self)@,
            final(self)@ == *final(payload),
            final(self).home() == old(self).home(),
    {
        proof {
            use_type_invariant(&*self);
        }
        self.loan.payload_mut()
    }
}

impl<T> SpinLock<T> {
    /// The state in which the lock began: the flag and the slot as they were
    /// made, and no handle.
    pub closed spec fn start(&self) -> LockState<T> {
        LockState { flag: self.flag.first(), slot: self.slot.first(), handles: Map::empty() }
    }

    /// A lock around `value`: the flag is free and the payload rests.
    pub fn new(value: T) -> (lock: Self)
        ensures
            lock.start() == LockState::init(value),
    {
        SpinLock { flag: Flag::new(), slot: Slot::new(value) }
    }

    /// What an attempt comes to once the flag operation has or has not won.
    /// A win takes from the slot what is there. The slot of a lock whose flag
    /// was free is empty only if the flag was freed by [`SpinLock::unlock`]
    /// while a guard was live; the attempt then counts as lost.
    fn grant(&self, won: bool) -> (granted: Option<Guard<'_, T>>)
        ensures
            !won ==> granted is None,
            granted matches Some(guard) ==> guard.home() == *self,
    {
        if won {
            let mut payload: Option<T> = None;
            self.slot.trade(&mut payload);
            Guard::carrying(self, payload)
        } else {
            None
        }
    }

    /// Acquires by exchange, trying at most `attempts` times.
    ///
    /// An attempt writes held into the flag and looks at what was there. If
    /// the flag was free, the attempt has won and the guard is returned at
    /// once, without spinning. If it was held, the processor is told that the
    /// thread is spinning, and the next attempt follows while any are left.
    /// The winning exchange is an acquire: what the last holder wrote before
    /// its release is visible behind the guard.
    ///
    /// No attempt is granted while another guard of this lock is live,
    /// whoever holds it: a thread that asks again while it holds the guard
    /// gets nothing, however often it lets the call try.
    pub fn lock_with_swap(&self, attempts: u64) -> (granted: Option<Guard<'_, T>>)
        ensures
            attempts == 0 ==> granted is None,
            granted matches Some(guard) ==> guard.home() == *self,
    {
        let mut left: u64 = attempts;
        while left > 0
            invariant
                left <= attempts,
            decreases left,
        {
            left = left - 1;
            let granted = self.grant(won_by_exchange(self.flag.swap()));
            if granted.is_some() {
                return granted;
            }
            self.flag.relax();
        }
        None
    }

    /// Acquires by weak compare-and-swap, trying at most `attempts` times.
    ///
    /// An attempt replaces a free flag by held and leaves a held one alone.
    /// It may fail though the flag was free; such a failure costs one
    /// attempt and nothing else. A failed attempt is followed by the same
    /// hint to the processor as in [`SpinLock::lock_with_swap`], and a
    /// successful one is an acquire in the same way.
    pub fn lock_with_cas(&self, attempts: u64) -> (granted: Option<Guard<'_, T>>)
        ensures
            attempts == 0 ==> granted is None,
            granted matches Some(guard) ==> guard.home() == *self,
    {
        let mut left: u64 = attempts;
        while left > 0
            invariant
                left <= attempts,
            decreases left,
        {
            left = left - 1;
            let granted = self.grant(won_by_compare_and_swap(self.flag.compare_and_swap()));
            if granted.is_some() {
                return granted;
            }
            self.flag.relax();
        }
        None
    }

    /// Stores the flag free, with release ordering, past any guard.
    ///
    /// The flag is all that this touches, and it is the caller's to see that
    /// no guard of this lock is live when it is called. Called while one is,
    /// it breaks the tie between the flag and the payload: the flag reads
    /// free while the payload is away, the exchange of a waiting thread
    /// wins, and on a lock that granted access on the flag alone two threads
    /// would then write the payload at once. This lock does not: the waiting
    /// thread finds the slot empty and goes on waiting until the guard is
    /// dropped. What is lost is the promise that a free flag can be taken at
    /// once. A guard that was forgotten and never dropped keeps the payload:
    /// this call frees the flag of its lock, and nothing brings the payload
    /// back.
    pub fn unlock(&self) {
        self.flag.release();
    }
}

} // verus!
