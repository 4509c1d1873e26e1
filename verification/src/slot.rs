//! The place where the payload rests while no guard carries it.
//!
//! A slot is full or empty. Its one operation trades what it holds for what
//! the caller brings, in one step that no other thread can cut in on. The
//! lock takes the payload out by trading it for nothing, and the guard puts
//! it back by trading nothing for it.
//!
//! The slot is a mutex of the standard library, because a place that
//! several threads write needs one in code that is free of `unsafe`. The flag
//! keeps the trades apart: a thread trades after it has won the flag and
//! before it frees it, so the mutex is found open and nobody sleeps on it.
//! Only a flag freed by the bypass while a guard is live can bring two trades
//! together, and then one of them waits for the other to finish its swap.
use std::sync::Mutex;
use std::sync::MutexGuard;
use vstd::prelude::*;

verus! {

/// `std::sync::Mutex`, with nothing known of what it holds.
#[verifier::external_type_specification]
#[verifier::external_body]
#[verifier::reject_recursive_types(T)]
pub struct ExMutex<T: ?Sized>(Mutex<T>);

/// `std::sync::MutexGuard`, with nothing known of what it gives access to.
#[verifier::external_type_specification]
#[verifier::external_body]
#[verifier::reject_recursive_types(T)]
pub struct ExMutexGuard<'a, T: ?Sized + 'a>(MutexGuard<'a, T>);

/// `Mutex::new` makes a mutex around `t`. Nothing is claimed of the result.
pub assume_specification<T>[ Mutex::<T>::new ](t: T) -> Mutex<T>;

/// `Mutex::lock`, with a poisoned mutex opened like a sound one. The claim
/// is only that the call returns without unwinding. `lock` may panic when
/// the calling thread already holds the mutex; the one caller,
/// [`Slot::trade`], lets go of the mutex before it returns, so no thread
/// calls this while it holds it.
#[verifier::external_body]
fn open<'a, T>(cell: &'a Mutex<Option<T>>) -> (door: MutexGuard<'a, Option<T>>)
    opens_invariants none
    no_unwind
{
    match cell.lock() {
        Ok(door) => door,
        Err(poisoned) => poisoned.into_inner(),
    }
}

/// `DerefMut::deref_mut` of a `MutexGuard`: the place that the mutex
/// protects. Nothing is claimed of what is found there, nor of what the
/// mutex holds once the borrow ends.
#[verifier::external_body]
fn place<'a, 'b, T>(door: &'b mut MutexGuard<'a, Option<T>>) -> (content: &'b mut Option<T>)
    opens_invariants none
    no_unwind
{
    std::ops::DerefMut::deref_mut(door)
}

/// A place for one payload, shared between threads. What a slot does know
/// of itself is what it was made with.
#[verifier::reject_recursive_types(T)]
pub(crate) struct Slot<T> {
    cell: Mutex<Option<T>>,
    first: Ghost<Option<T>>,
}

impl<T> Slot<T> {
    /// What the slot held when it was made.
    pub(crate) closed spec fn first(&self) -> Option<T> {
        self.first@
    }

    /// A slot that holds `payload`.
    pub(crate) fn new(payload: T) -> (slot: Slot<T>)
        ensures
            slot.first() == Some(payload),
    {
        let ghost first = Some(payload);
        Slot { cell: Mutex::new(Some(payload)), first: Ghost(first) }
    }

    /// Trades what the slot holds for `*content`. Other threads may have
    /// traded since the caller last looked, so nothing is promised of what
    /// comes out.
    pub(crate) fn trade(&self, content: &mut Option<T>)
        opens_invariants none
        no_unwind
    {
        let mut door = open(&self.cell);
        std::mem::swap(place(&mut door), content);
    }
}

} // verus!
