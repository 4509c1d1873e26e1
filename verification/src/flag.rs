//! The lock flag.
//!
//! The flag is the only state besides the payload. It has two values and
//! three atomic operations: an exchange that writes `Held` and reports what
//! was there, a weak compare-and-swap from `Free` to `Held` that may fail for
//! no reason, and a store of `Free`. Each is given here as a pure function
//! from the flag before to the flag after and the reply, and the decision
//! taken on a reply is a function of the reply alone. [`Flag`] is the atomic
//! cell on which the lock performs them.
use std::sync::atomic::AtomicBool;
use vstd::prelude::*;

verus! {

/// The two values of the flag.
#[derive(Clone, Copy, PartialEq, Eq, Debug, Structural)]
pub enum LockFlag {
    /// Nobody holds the lock.
    Free,
    /// Somebody holds the lock.
    Held,
}

/// The flag after an atomic exchange, and what the exchange reports.
pub struct Exchanged {
    /// The flag once the exchange is done: always `Held`.
    pub after: LockFlag,
    /// The flag as the exchange found it.
    pub previous: LockFlag,
}

/// The flag after a weak compare-and-swap, and what it reports.
pub struct Compared {
    /// The flag once the operation is done.
    pub after: LockFlag,
    /// `Ok` with the flag found if the swap took place, `Err` with it if not.
    pub reply: Result<LockFlag, LockFlag>,
}

/// An atomic exchange writes `Held` whatever the flag was and reports the
/// flag it replaced.
pub open spec fn exchange(flag: LockFlag) -> Exchanged {
    Exchanged { after: LockFlag::Held, previous: flag }
}

/// A weak compare-and-swap replaces `Free` by `Held`, unless it fails
/// spuriously; on any other flag, and on a spurious failure, it changes
/// nothing and reports the flag it found as an error.
pub open spec fn weak_compare_and_swap(flag: LockFlag, spurious: bool) -> Compared {
    if flag is Free && !spurious {
        Compared { after: LockFlag::Held, reply: Ok(flag) }
    } else {
        Compared { after: flag, reply: Err(flag) }
    }
}

/// A release stores `Free` whatever the flag was.
pub open spec fn release(flag: LockFlag) -> LockFlag {
    LockFlag::Free
}

/// An exchange has won the lock exactly when it replaced `Free`.
pub open spec fn exchange_won(previous: LockFlag) -> bool {
    previous is Free
}

/// A compare-and-swap has won the lock exactly when the swap took place.
pub open spec fn compare_and_swap_won(reply: Result<LockFlag, LockFlag>) -> bool {
    reply is Ok
}

impl LockFlag {
    /// The flag that the boolean `held` stands for.
    pub open spec fn of(held: bool) -> LockFlag {
        if held {
            LockFlag::Held
        } else {
            LockFlag::Free
        }
    }

    /// The boolean that stands for this flag in the atomic cell.
    pub open spec fn held(self) -> bool {
        self is Held
    }

    /// Reads a boolean of the atomic cell as a flag.
    pub fn from_held(held: bool) -> (flag: LockFlag)
        ensures
            flag == LockFlag::of(held),
            flag.held() == held,
    {
        if held {
            LockFlag::Held
        } else {
            LockFlag::Free
        }
    }

    /// Whether the flag is `Held`.
    pub fn is_held(self) -> (held: bool)
        ensures
            held == self.held(),
            LockFlag::of(held) == self,
    {
        match self {
            LockFlag::Held => true,
            LockFlag::Free => false,
        }
    }

    /// The reply of a compare-and-swap on the atomic cell, with its boolean
    /// read as a flag: success stays success, failure stays failure.
    pub open spec fn of_reply(reply: Result<bool, bool>) -> Result<LockFlag, LockFlag> {
        match reply {
            Ok(held) => Ok(LockFlag::of(held)),
            Err(held) => Err(LockFlag::of(held)),
        }
    }

    /// Reads the reply of a compare-and-swap on the atomic cell as a reply
    /// in flags.
    pub fn from_reply(reply: Result<bool, bool>) -> (read: Result<LockFlag, LockFlag>)
        ensures
            read == LockFlag::of_reply(reply),
            compare_and_swap_won(read) == reply is Ok,
    {
        match reply {
            Ok(held) => Ok(LockFlag::from_held(held)),
            Err(held) => Err(LockFlag::from_held(held)),
        }
    }
}

/// Decides on the reply of an exchange: the lock is won exactly when the
/// exchange replaced `Free`.
pub fn won_by_exchange(previous: LockFlag) -> (won: bool)
    ensures
        won == exchange_won(previous),
{
    !previous.is_held()
}

/// Decides on the reply of a compare-and-swap: the lock is won exactly when
/// the swap took place.
pub fn won_by_compare_and_swap(reply: Result<LockFlag, LockFlag>) -> (won: bool)
    ensures
        won == compare_and_swap_won(reply),
{
    reply.is_ok()
}

/// `std::hint::spin_loop` tells the processor that the caller is busy-waiting.
/// It returns nothing and nothing is claimed of it.
pub assume_specification[ std::hint::spin_loop ]();

/// `AtomicBool::store` with `false` and release ordering. The claim is only
/// that the call returns without unwinding: `store` panics for an acquiring
/// ordering and for no other.
#[verifier::external_body]
fn store_free(bit: &AtomicBool)
    opens_invariants none
    no_unwind
{
    bit.store(false, std::sync::atomic::Ordering::Release)
}

/// The atomic cell that holds the flag of one lock.
///
/// Other threads may change the cell between any two calls, so no call
/// promises anything of the flag it leaves or finds: what the lock does with
/// a reply is decided by [`won_by_exchange`] and
/// [`won_by_compare_and_swap`]. What a cell does know of itself is the flag
/// that it was made with.
pub(crate) struct Flag {
    bit: AtomicBool,
    first: Ghost<LockFlag>,
}

impl Flag {
    /// The flag that the cell was made with.
    pub(crate) closed spec fn first(&self) -> LockFlag {
        self.first@
    }

    /// A cell whose flag is `Free`.
    pub(crate) fn new() -> (flag: Flag)
        ensures
            flag.first() == LockFlag::Free,
    {
        Flag { bit: AtomicBool::new(LockFlag::Free.is_held()), first: Ghost(LockFlag::Free) }
    }

    /// One atomic exchange, as [`exchange`] describes it: writes `Held` and
    /// returns the flag it replaced, read by [`LockFlag::from_held`]. A reply
    /// of `Free` is an acquire.
    pub(crate) fn swap(&self) -> (previous: LockFlag) {
        LockFlag::from_held(self.bit.swap(true, std::sync::atomic::Ordering::Acquire))
    }

    /// One weak compare-and-swap from `Free` to `Held`, as
    /// [`weak_compare_and_swap`] describes it, with the reply read by
    /// [`LockFlag::from_reply`]. Success is an acquire; a failure orders
    /// nothing.
    pub(crate) fn compare_and_swap(&self) -> (reply: Result<LockFlag, LockFlag>) {
        LockFlag::from_reply(
            self.bit.compare_exchange_weak(
                false,
                true,
                std::sync::atomic::Ordering::Acquire,
                std::sync::atomic::Ordering::Relaxed,
            ),
        )
    }

    /// Stores `Free`, as [`release`] describes it, with release ordering.
    pub(crate) fn release(&self)
        opens_invariants none
        no_unwind
    {
        store_free(&self.bit)
    }

    /// Tells the processor that this thread is spinning.
    pub(crate) fn relax(&self) {
        std::hint::spin_loop()
    }
}

} // verus!
