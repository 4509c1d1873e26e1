//! The lock as a state machine, and the laws of its runs.
//!
//! A state says what the flag is, whether the payload rests in the lock's
//! slot, and which parties carry it in a live handle. A step is one atomic
//! action of one party: an attempt to acquire by exchange or by weak
//! compare-and-swap, a write through a handle, the drop of a handle, or the
//! bypass release. A party is a thread, or whoever a handle was passed to.
//!
//! An attempt that wins the flag is granted a handle if the payload is in the
//! slot, and takes it along; dropping a handle brings the payload back and
//! frees the flag. Each of the two counts as one step, though the lock does
//! it in two: it takes the payload after it has won the flag and puts it
//! back before it frees the flag, and in between the flag is held, so that
//! no second party can come to the slot.
//!
//! The laws are proved of every run of these steps, whoever takes them and
//! in whatever order. Those that rest on the flag alone leave out the runs
//! with a bypass release in them, and [`bypass_while_held`] says what such a
//! release undoes.
use crate::flag::compare_and_swap_won;
use crate::flag::exchange;
use crate::flag::exchange_won;
use crate::flag::release;
use crate::flag::weak_compare_and_swap;
use crate::flag::LockFlag;
use vstd::prelude::*;

verus! {

/// One lock at one instant.
pub struct LockState<V> {
    /// The flag.
    pub flag: LockFlag,
    /// The payload while it rests in the lock.
    pub slot: Option<V>,
    /// The payload as each live handle shows it, by the party that owns the
    /// handle.
    pub handles: Map<nat, V>,
}

/// One atomic action on a lock.
pub enum Step<V> {
    /// One attempt to acquire by exchange.
    Exchange { by: nat },
    /// One attempt to acquire by weak compare-and-swap, which fails for no
    /// reason where `spurious` is set.
    CompareAndSwap { by: nat, spurious: bool },
    /// A write of `value` through the handle of `by`.
    Write { by: nat, value: V },
    /// The drop of the handle of `by`.
    Release { by: nat },
    /// The release that goes past the handle.
    Bypass,
}

impl<V> Step<V> {
    /// The party that writes, where the step is a write.
    pub open spec fn writer(self) -> Option<nat> {
        match self {
            Step::Write { by, value } => Some(by),
            _ => None,
        }
    }
}

impl<V> LockState<V> {
    /// A new lock around `payload`: the flag is free, the payload rests, and
    /// no handle is live.
    pub open spec fn init(payload: V) -> Self {
        LockState { flag: LockFlag::Free, slot: Some(payload), handles: Map::empty() }
    }

    /// What an attempt of `by` leaves once the flag operation is done: where
    /// it has won and the payload rests in the slot, the payload leaves the
    /// slot in a handle of `by`; otherwise nothing moves.
    pub open spec fn grant(self, by: nat, won: bool) -> Self {
        if won && self.slot is Some {
            LockState { slot: None, handles: self.handles.insert(by, self.slot->0), ..self }
        } else {
            self
        }
    }

    /// Whether `step` can be taken in this state. Attempts and the bypass can
    /// always be taken; a write or a drop takes a live handle.
    pub open spec fn enabled(self, step: Step<V>) -> bool {
        match step {
            Step::Write { by, value } => self.handles.contains_key(by),
            Step::Release { by } => self.handles.contains_key(by),
            _ => true,
        }
    }

    /// The state after `step`.
    pub open spec fn next(self, step: Step<V>) -> Self {
        match step {
            Step::Exchange { by } => {
                let done = exchange(self.flag);
                LockState { flag: done.after, ..self }.grant(by, exchange_won(done.previous))
            },
            Step::CompareAndSwap { by, spurious } => {
                let done = weak_compare_and_swap(self.flag, spurious);
                LockState { flag: done.after, ..self }.grant(by, compare_and_swap_won(done.reply))
            },
            Step::Write { by, value } => LockState {
                handles: self.handles.insert(by, value),
                ..self
            },
            Step::Release { by } => LockState {
                flag: release(self.flag),
                slot: Some(self.handles[by]),
                handles: self.handles.remove(by),
            },
            Step::Bypass => LockState { flag: release(self.flag), ..self },
        }
    }

    /// The state after `steps`, taken in order.
    pub open spec fn run(self, steps: Seq<Step<V>>) -> Self
        decreases steps.len(),
    {
        if steps.len() == 0 {
            self
        } else {
            self.run(steps.drop_last()).next(steps.last())
        }
    }

    /// Whether each of `steps` can be taken where the run comes to it.
    pub open spec fn admits(self, steps: Seq<Step<V>>) -> bool
        decreases steps.len(),
    {
        steps.len() == 0 || (self.admits(steps.drop_last()) && self.run(
            steps.drop_last(),
        ).enabled(steps.last()))
    }

    /// The payload is in exactly one place: in the slot with no handle live,
    /// or in one handle with the slot empty.
    pub open spec fn exclusive(self) -> bool {
        &&& self.slot is Some ==> self.idle()
        &&& self.slot is None ==> !self.idle()
        &&& self.at_most_one_handle()
    }

    /// No handle is live.
    pub open spec fn idle(self) -> bool {
        forall|party: nat| !self.handles.contains_key(party)
    }

    /// No two parties have a live handle at once.
    pub open spec fn at_most_one_handle(self) -> bool {
        forall|a: nat, b: nat|
            self.handles.contains_key(a) && self.handles.contains_key(b) ==> a == b
    }

    /// The flag tells where the payload is: free exactly when the payload
    /// rests in the slot.
    pub open spec fn coherent(self) -> bool {
        self.flag is Free <==> self.slot is Some
    }

    /// The party that owns the live handle, where there is one.
    pub open spec fn holder(self) -> nat {
        choose|party: nat| self.handles.contains_key(party)
    }

    /// The payload, wherever it is.
    pub open spec fn payload(self) -> V {
        match self.slot {
            Some(payload) => payload,
            None => self.handles[self.holder()],
        }
    }
}

/// Whether none of `steps` is the bypass release.
pub open spec fn without_bypass<V>(steps: Seq<Step<V>>) -> bool {
    forall|i: int| 0 <= i < steps.len() ==> !(#[trigger] steps[i] is Bypass)
}

/// A new lock has its payload in one place, and its flag says where.
pub proof fn init_is_sound<V>(payload: V)
    ensures
        LockState::init(payload).exclusive(),
        LockState::init(payload).coherent(),
        LockState::init(payload).payload() == payload,
{
}

/// No step, the bypass included, puts the payload in two places or in none.
pub proof fn step_keeps_exclusive<V>(state: LockState<V>, step: Step<V>)
    requires
        state.exclusive(),
        state.enabled(step),
    ensures
        state.next(step).exclusive(),
{
    let after = state.next(step);
    if after.slot is None {
        match step {
            Step::Exchange { by } => {
                if state.slot is Some {
                    assert(after.handles.contains_key(by));
                } else {
                    assert(after.handles.contains_key(state.holder()));
                }
            },
            Step::CompareAndSwap { by, spurious } => {
                if state.slot is Some {
                    assert(after.handles.contains_key(by));
                } else {
                    assert(after.handles.contains_key(state.holder()));
                }
            },
            Step::Write { by, value } => {
                assert(after.handles.contains_key(by));
            },
            Step::Release { by } => {},
            Step::Bypass => {
                assert(after.handles.contains_key(state.holder()));
            },
        }
    }
}

/// No step but the bypass parts the flag from the place of the payload.
pub proof fn step_keeps_coherent<V>(state: LockState<V>, step: Step<V>)
    requires
        state.exclusive(),
        state.coherent(),
        state.enabled(step),
        !(step is Bypass),
    ensures
        state.next(step).coherent(),
{
}

/// In no step does the payload change but by a write, and a write leaves
/// exactly its value.
pub proof fn step_moves_payload<V>(state: LockState<V>, step: Step<V>)
    requires
        state.exclusive(),
        state.enabled(step),
    ensures
        state.next(step).payload() == match step {
            Step::Write { by, value } => value,
            _ => state.payload(),
        },
{
    let after = state.next(step);
    step_keeps_exclusive(state, step);
    match step {
        Step::Exchange { by } => {
            if after.slot is None && state.slot is Some {
                assert(after.handles.contains_key(by));
            }
        },
        Step::CompareAndSwap { by, spurious } => {
            if after.slot is None && state.slot is Some {
                assert(after.handles.contains_key(by));
            }
        },
        Step::Write { by, value } => {
            assert(after.handles.contains_key(by));
        },
        Step::Release { by } => {},
        Step::Bypass => {},
    }
}

/// While a handle is live, it shows the payload, every write and every drop
/// is its owner's, and no step of anyone else moves the payload or makes a
/// second handle.
pub proof fn holder_is_undisturbed<V>(state: LockState<V>, holder: nat, step: Step<V>)
    requires
        state.exclusive(),
        state.handles.contains_key(holder),
        state.enabled(step),
    ensures
        state.handles[holder] == state.payload(),
        match step {
            Step::Write { by, value } => by == holder,
            Step::Release { by } => by == holder,
            _ => state.next(step).handles == state.handles && state.next(step).slot is None,
        },
{
}

/// Whether each of `steps` is an attempt to acquire.
pub open spec fn attempts_only<V>(steps: Seq<Step<V>>) -> bool {
    forall|i: int|
        0 <= i < steps.len() ==> (#[trigger] steps[i] is Exchange) || steps[i] is CompareAndSwap
}

/// While a handle is live nothing is granted: attempts, however many, by
/// whatever parties, by the owner of the handle too, leave the handle as it
/// is and make no other.
pub proof fn no_grant_while_held<V>(state: LockState<V>, steps: Seq<Step<V>>)
    requires
        state.exclusive(),
        !state.idle(),
        attempts_only(steps),
    ensures
        state.admits(steps),
        state.run(steps).handles == state.handles,
        state.run(steps).slot == state.slot,
    decreases steps.len(),
{
    if steps.len() > 0 {
        let before = steps.drop_last();
        assert forall|i: int| 0 <= i < before.len() implies (#[trigger] before[i] is Exchange)
            || before[i] is CompareAndSwap by {
            assert(before[i] == steps[i]);
        }
        no_grant_while_held(state, before);
        assert(steps[steps.len() - 1] is Exchange || steps[steps.len() - 1] is CompareAndSwap);
    }
}

/// The value of the last write among `steps`, or `payload` if none of them
/// is a write.
pub open spec fn last_written<V>(payload: V, steps: Seq<Step<V>>) -> V
    decreases steps.len(),
{
    if steps.len() == 0 {
        payload
    } else {
        match steps.last() {
            Step::Write { by, value } => value,
            _ => last_written(payload, steps.drop_last()),
        }
    }
}

/// The payload follows the writes. After any run from a new lock the payload
/// is what the last write left, whole, or the first payload if nothing was
/// written: the writes take effect one after another in the order of the
/// run, and nothing else touches the payload.
pub proof fn payload_follows_writes<V>(payload: V, steps: Seq<Step<V>>)
    requires
        LockState::init(payload).admits(steps),
    ensures
        LockState::init(payload).run(steps).payload() == last_written(payload, steps),
    decreases steps.len(),
{
    if steps.len() > 0 {
        payload_follows_writes(payload, steps.drop_last());
        run_keeps_exclusive(LockState::init(payload), steps.drop_last());
        step_moves_payload(LockState::init(payload).run(steps.drop_last()), steps.last());
    }
}

/// Mutual exclusion. In every state that a run reaches from a new lock, by
/// whatever steps of whatever parties in whatever order, the payload is in
/// one place, so at most one handle is live.
pub proof fn mutual_exclusion<V>(payload: V, steps: Seq<Step<V>>)
    requires
        LockState::init(payload).admits(steps),
    ensures
        LockState::init(payload).run(steps).exclusive(),
        LockState::init(payload).run(steps).at_most_one_handle(),
{
    run_keeps_exclusive(LockState::init(payload), steps);
}

/// A run from a state with the payload in one place ends in such a state.
pub proof fn run_keeps_exclusive<V>(state: LockState<V>, steps: Seq<Step<V>>)
    requires
        state.exclusive(),
        state.admits(steps),
    ensures
        state.run(steps).exclusive(),
    decreases steps.len(),
{
    if steps.len() > 0 {
        run_keeps_exclusive(state, steps.drop_last());
        step_keeps_exclusive(state.run(steps.drop_last()), steps.last());
    }
}

/// The flag keeps the handles apart. In every state that a run without the
/// bypass reaches from a new lock, the flag is free exactly when no handle is
/// live, and held exactly when one is: an attempt can win the flag only
/// while nobody has a handle, and whoever wins it finds the payload at rest.
pub proof fn flag_tells_of_the_handle<V>(payload: V, steps: Seq<Step<V>>)
    requires
        LockState::init(payload).admits(steps),
        without_bypass(steps),
    ensures
        LockState::init(payload).run(steps).coherent(),
        LockState::init(payload).run(steps).flag is Free <==> LockState::init(payload).run(
            steps,
        ).idle(),
        LockState::init(payload).run(steps).at_most_one_handle(),
{
    run_keeps_exclusive(LockState::init(payload), steps);
    run_keeps_coherent(LockState::init(payload), steps);
}

/// A run without the bypass, from a state whose flag tells where the payload
/// is, ends in such a state.
pub proof fn run_keeps_coherent<V>(state: LockState<V>, steps: Seq<Step<V>>)
    requires
        state.exclusive(),
        state.coherent(),
        state.admits(steps),
        without_bypass(steps),
    ensures
        state.run(steps).coherent(),
    decreases steps.len(),
{
    if steps.len() > 0 {
        let before = steps.drop_last();
        assert forall|i: int| 0 <= i < before.len() implies !(#[trigger] before[i] is Bypass) by {
            assert(before[i] == steps[i]);
        }
        run_keeps_coherent(state, before);
        run_keeps_exclusive(state, before);
        step_keeps_coherent(state.run(before), steps.last());
    }
}

/// Whether `step`, taken in `state`, is no write or a write that pushes one
/// item onto the sequence that the writer's handle shows.
pub open spec fn appends<A>(state: LockState<Seq<A>>, step: Step<Seq<A>>) -> bool {
    match step {
        Step::Write { by, value } => exists|item: A| value == state.handles[by].push(item),
        _ => true,
    }
}

/// Whether every write among `steps`, run from `state`, pushes one item onto
/// the sequence that the writer's handle shows.
pub open spec fn only_appends<A>(state: LockState<Seq<A>>, steps: Seq<Step<Seq<A>>>) -> bool
    decreases steps.len(),
{
    steps.len() == 0 || (only_appends(state, steps.drop_last()) && appends(
        state.run(steps.drop_last()),
        steps.last(),
    ))
}

/// How many of `steps` are writes of the party `by`.
pub open spec fn writes_by<V>(steps: Seq<Step<V>>, by: nat) -> nat
    decreases steps.len(),
{
    if steps.len() == 0 {
        0
    } else if steps.last().writer() == Some(by) {
        writes_by(steps.drop_last(), by) + 1
    } else {
        writes_by(steps.drop_last(), by)
    }
}

/// How many of `steps` are writes of the parties `0` to `parties - 1`: the
/// sum of what each of them wrote.
pub open spec fn writes_of_all<V>(steps: Seq<Step<V>>, parties: nat) -> nat
    decreases parties,
{
    if parties == 0 {
        0
    } else {
        writes_of_all(steps, (parties - 1) as nat) + writes_by(steps, (parties - 1) as nat)
    }
}

/// Whether every write among `steps` is by one of the parties `0` to
/// `parties - 1`.
pub open spec fn written_by_first<V>(steps: Seq<Step<V>>, parties: nat) -> bool {
    forall|i: int|
        0 <= i < steps.len() ==> match (#[trigger] steps[i]).writer() {
            Some(by) => by < parties,
            None => true,
        }
}

/// One more step adds one to the sum of writes if it is a write of one of
/// the parties counted, and nothing otherwise.
proof fn one_more_step<V>(steps: Seq<Step<V>>, parties: nat)
    requires
        steps.len() > 0,
    ensures
        writes_of_all(steps, parties) == writes_of_all(steps.drop_last(), parties) + match steps.last().writer() {
            Some(by) => if by < parties {
                1nat
            } else {
                0nat
            },
            None => 0nat,
        },
    decreases parties,
{
    if parties > 0 {
        one_more_step(steps, (parties - 1) as nat);
    }
}

/// No lost updates. Where `parties` parties do nothing to the payload of a
/// new lock around the empty sequence but push items onto it, each through
/// its handle, the payload is as long as the numbers of items that each of
/// them pushed, added up: whatever the order of their steps, and whatever
/// else happens to the flag.
pub proof fn no_lost_updates<A>(steps: Seq<Step<Seq<A>>>, parties: nat)
    requires
        LockState::init(Seq::<A>::empty()).admits(steps),
        only_appends(LockState::init(Seq::<A>::empty()), steps),
        written_by_first(steps, parties),
    ensures
        LockState::init(Seq::<A>::empty()).run(steps).payload().len() == writes_of_all(
            steps,
            parties,
        ),
{
    appends_add_up(LockState::init(Seq::<A>::empty()), steps, parties);
}

/// No steps hold no writes.
proof fn nothing_written<V>(steps: Seq<Step<V>>, parties: nat)
    requires
        steps.len() == 0,
    ensures
        writes_of_all(steps, parties) == 0,
    decreases parties,
{
    if parties > 0 {
        nothing_written(steps, (parties - 1) as nat);
    }
}

/// From any state with the payload in one place, a run of appends makes the
/// payload longer by the number of writes in it.
pub proof fn appends_add_up<A>(state: LockState<Seq<A>>, steps: Seq<Step<Seq<A>>>, parties: nat)
    requires
        state.exclusive(),
        state.admits(steps),
        only_appends(state, steps),
        written_by_first(steps, parties),
    ensures
        state.run(steps).payload().len() == state.payload().len() + writes_of_all(steps, parties),
    decreases steps.len(),
{
    if steps.len() == 0 {
        nothing_written(steps, parties);
    } else {
        let before = steps.drop_last();
        let step = steps.last();
        assert forall|i: int| 0 <= i < before.len() implies match (#[trigger] before[i]).writer() {
            Some(by) => by < parties,
            None => true,
        } by {
            assert(before[i] == steps[i]);
        }
        appends_add_up(state, before, parties);
        run_keeps_exclusive(state, before);
        step_moves_payload(state.run(before), step);
        one_more_step(steps, parties);
        assert(steps[steps.len() - 1] == step);
        match step {
            Step::Write { by, value } => {
                let reached = state.run(before);
                assert(reached.handles.contains_key(reached.holder()));
                assert(reached.holder() == by);
            },
            _ => {},
        }
    }
}

/// The writes of the values `values`, in order, through the handle of `by`.
pub open spec fn section<V>(by: nat, values: Seq<V>) -> Seq<Step<V>> {
    Seq::new(values.len(), |i: int| Step::Write { by, value: values[i] })
}

/// What the handle of `by` shows after the writes of `values`.
pub proof fn section_leaves_last_write<V>(state: LockState<V>, by: nat, values: Seq<V>)
    requires
        state.handles.contains_key(by),
    ensures
        state.admits(section(by, values)),
        state.run(section(by, values)).flag == state.flag,
        state.run(section(by, values)).slot == state.slot,
        state.run(section(by, values)).handles.dom() == state.handles.dom(),
        state.run(section(by, values)).handles[by] == if values.len() == 0 {
            state.handles[by]
        } else {
            values.last()
        },
    decreases values.len(),
{
    if values.len() > 0 {
        section_leaves_last_write(state, by, values.drop_last());
        assert(section(by, values).drop_last() == section(by, values.drop_last()));
        let reached = state.run(section(by, values.drop_last()));
        assert(reached.handles.contains_key(by));
        assert(reached.next(section(by, values).last()).handles.dom() == reached.handles.dom());
    }
}

/// Release visibility. Let a party hold the handle, write `values` through
/// it in turn and drop it. Then the flag is free and the payload rests as
/// last written; the next attempt, by exchange, or by compare-and-swap
/// unless that fails spuriously, is granted a handle at once; and that handle
/// shows the payload as last written.
pub proof fn release_visibility<V>(state: LockState<V>, by: nat, values: Seq<V>, then: nat)
    requires
        state.exclusive(),
        state.handles.contains_key(by),
    ensures
        ({
            let written = if values.len() == 0 {
                state.handles[by]
            } else {
                values.last()
            };
            let rested = state.run(section(by, values)).next(Step::Release { by });
            let exchanged = rested.next(Step::Exchange { by: then });
            let swapped = rested.next(Step::CompareAndSwap { by: then, spurious: false });
            &&& rested.flag is Free
            &&& rested.slot == Some(written)
            &&& rested.exclusive()
            &&& rested.coherent()
            &&& exchanged.handles.contains_key(then)
            &&& exchanged.handles[then] == written
            &&& exchanged.flag is Held
            &&& swapped == exchanged
        }),
{
    section_leaves_last_write(state, by, values);
    run_keeps_exclusive(state, section(by, values));
    step_keeps_exclusive(state.run(section(by, values)), Step::Release { by });
}

/// The weak compare-and-swap attempts of `by` that fail spuriously, `count`
/// in a row.
pub open spec fn spurious_failures<V>(by: nat, count: nat) -> Seq<Step<V>> {
    Seq::new(count, |i: int| Step::CompareAndSwap { by, spurious: true })
}

/// No contention, no wait. Where the flag is free and tells the truth, one
/// exchange is granted the handle; so is one compare-and-swap that does not
/// fail spuriously; and spurious failures, however many, change nothing, so
/// the attempt after them is granted it.
pub proof fn free_lock_is_won_at_once<V>(state: LockState<V>, by: nat, failures: nat)
    requires
        state.coherent(),
        state.flag is Free,
    ensures
        state.next(Step::Exchange { by }).handles.contains_key(by),
        state.next(Step::Exchange { by }).handles[by] == state.slot->0,
        state.next(Step::CompareAndSwap { by, spurious: false }) == state.next(
            Step::Exchange { by },
        ),
        state.admits(spurious_failures(by, failures)),
        state.run(spurious_failures(by, failures)) == state,
    decreases failures,
{
    if failures > 0 {
        free_lock_is_won_at_once(state, by, (failures - 1) as nat);
        assert(spurious_failures::<V>(by, failures).drop_last() == spurious_failures::<V>(
            by,
            (failures - 1) as nat,
        ));
    }
}

/// What the bypass release does while a handle is live. The flag reads free
/// though the payload is away, and the exchange of a second party reports a
/// win. Were a handle granted on that reply alone, two would be live at once
/// and both would write the payload. Here the win finds the slot empty: no
/// handle is granted, the flag is held again, and the first handle is
/// undisturbed.
pub proof fn bypass_while_held<V>(state: LockState<V>, holder: nat, second: nat)
    requires
        state.exclusive(),
        state.coherent(),
        state.handles.contains_key(holder),
    ensures
        ({
            let bypassed = state.next(Step::Bypass);
            let attempted = bypassed.next(Step::Exchange { by: second });
            &&& bypassed.flag is Free
            &&& !bypassed.coherent()
            &&& exchange_won(exchange(bypassed.flag).previous)
            &&& attempted.handles == state.handles
            &&& attempted.exclusive()
            &&& attempted == state
        }),
{
}

} // verus!
