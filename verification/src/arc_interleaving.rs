//! The reference-counting protocol of [`crate::arc_strong_and_weak`] under
//! interleaving.
//!
//! An operation on a handle is a short run of atomic steps on the control
//! block. Here the steps of many parties are put in one line, in any order
//! that leaves each party its own order, and the block is followed through
//! it. Beside the block stands what no counter records: how many handles
//! exist, and which party is in the middle of which cleanup.
//!
//! A step is admitted when somebody is entitled to take it: a step through a
//! handle needs such a handle to exist, a cleanup step needs the party that
//! earned it. Nothing else is asked of the order of steps.

use crate::arc_strong_and_weak::{BlockState, LOCKED, MAX_REFCOUNT};
use vstd::prelude::*;

verus! {

/// How far the cleanup after the last `Arc` has come.
pub enum Teardown {
    /// There are `Arc`s.
    Pending,
    /// The last `Arc` has been given back; its party is about to destroy the
    /// payload.
    Destroying,
    /// The payload is destroyed; the party is about to give back the unit of
    /// `alloc` that the `Arc`s held together.
    Releasing,
    /// That unit has been given back.
    Done,
}

/// How far a `get_mut` has come.
pub enum Exclusive {
    /// Nobody is inside `get_mut` or writes through its result.
    Idle,
    /// `alloc` is locked; `strong` has yet to be read.
    Locked,
    /// `strong` has been read and found to be one, or not; `alloc` has yet
    /// to be unlocked.
    Checked(bool),
    /// The payload has been handed out for writing.
    Granted,
}

/// One atomic step of one party.
pub enum Step<T> {
    /// `Arc::clone`: raise `strong`.
    CloneArc,
    /// `Arc::drop`: lower `strong`. Who lowers it to zero goes on to
    /// `DestroyPayload`.
    ReleaseArc,
    /// `Arc::drop` of the last `Arc`: destroy the payload.
    DestroyPayload,
    /// `Arc::drop` of the last `Arc`: lower `alloc` by the unit that the
    /// `Arc`s held together. Who lowers it to zero goes on to `FreeBlock`.
    ReleaseShared,
    /// `Weak::clone`: raise `alloc`.
    CloneWeak,
    /// `Weak::drop`: lower `alloc`. Who lowers it to zero goes on to
    /// `FreeBlock`.
    ReleaseWeak,
    /// Give the block back.
    FreeBlock,
    /// One round of `Weak::upgrade`: raise `strong` if it holds `seen`.
    Upgrade { seen: usize },
    /// One round of `Arc::downgrade`: raise `alloc` if it holds `seen`.
    Downgrade { seen: usize },
    /// Read the payload through an `Arc`.
    Read,
    /// `Arc::get_mut`: lock `alloc` if it holds one.
    LockAlloc,
    /// `Arc::get_mut`: read `strong` under the lock.
    CheckStrong,
    /// `Arc::get_mut`: unlock `alloc`.
    UnlockAlloc,
    /// Write the payload through the result of `Arc::get_mut`.
    Write { value: T },
    /// Let go of the result of `Arc::get_mut`.
    EndWrite,
}

/// A control block and the parties around it.
pub struct Sharing<T> {
    /// The block.
    pub block: BlockState<T>,
    /// The number of `Arc`s in existence.
    pub arcs: nat,
    /// The number of `Weak`s in existence.
    pub weaks: nat,
    /// The cleanup after the last `Arc`.
    pub teardown: Teardown,
    /// Whether a party has lowered `alloc` to zero and not yet freed the
    /// block.
    pub freeing: bool,
    /// The `get_mut` under way, if there is one. Its `Arc` is lent to it and
    /// at nobody else's hand meanwhile.
    pub exclusive: Exclusive,
    /// How often the payload has been destroyed.
    pub destructions: nat,
    /// How often the block has been freed.
    pub frees: nat,
}

impl<T> Sharing<T> {
    /// A block as [`crate::arc_strong_and_weak::Arc::new`] makes it, with
    /// its one `Arc`.
    pub open spec fn fresh(value: T) -> Self {
        Sharing {
            block: BlockState::fresh(value),
            arcs: 1,
            weaks: 0,
            teardown: Teardown::Pending,
            freeing: false,
            exclusive: Exclusive::Idle,
            destructions: 0,
            frees: 0,
        }
    }

    /// The number of `Arc`s not lent to a `get_mut`.
    pub open spec fn arcs_at_hand(self) -> int {
        if self.exclusive is Idle {
            self.arcs as int
        } else {
            self.arcs - 1
        }
    }

    /// The units of `alloc` that are out: one for each `Weak`, and one for
    /// the `Arc`s together until it is given back.
    pub open spec fn units(self) -> int {
        if self.teardown is Done {
            self.weaks as int
        } else {
            self.weaks as int + 1
        }
    }

    /// Whether somebody is entitled to take `step`. A count that is too
    /// high to be raised aborts the process, so nothing follows it.
    pub open spec fn enabled(self, step: Step<T>) -> bool {
        match step {
            Step::CloneArc => self.arcs_at_hand() >= 1 && self.block.strong <= MAX_REFCOUNT,
            Step::ReleaseArc => self.arcs_at_hand() >= 1,
            Step::DestroyPayload => self.teardown is Destroying,
            Step::ReleaseShared => self.teardown is Releasing,
            Step::CloneWeak => self.weaks >= 1 && self.block.alloc <= MAX_REFCOUNT,
            Step::ReleaseWeak => self.weaks >= 1,
            Step::FreeBlock => self.freeing,
            Step::Upgrade { seen } => self.weaks >= 1 && 1 <= seen <= MAX_REFCOUNT,
            Step::Downgrade { seen } => self.arcs_at_hand() >= 1 && seen <= MAX_REFCOUNT,
            Step::Read => self.arcs_at_hand() >= 1,
            Step::LockAlloc => self.arcs_at_hand() >= 1,
            Step::CheckStrong => self.exclusive is Locked,
            Step::UnlockAlloc => self.exclusive is Checked,
            Step::Write { value } => self.exclusive is Granted,
            Step::EndWrite => self.exclusive is Granted,
        }
    }

    /// The state after `step`.
    pub open spec fn apply(self, step: Step<T>) -> Self {
        match step {
            Step::CloneArc => Sharing {
                block: self.block.acquire_strong(),
                arcs: self.arcs + 1,
                ..self
            },
            Step::ReleaseArc => Sharing {
                block: self.block.decrement_strong(),
                arcs: (self.arcs - 1) as nat,
                teardown: if self.block.strong == 1 {
                    Teardown::Destroying
                } else {
                    self.teardown
                },
                ..self
            },
            Step::DestroyPayload => Sharing {
                block: self.block.destroy(),
                teardown: Teardown::Releasing,
                destructions: self.destructions + 1,
                ..self
            },
            Step::ReleaseShared => Sharing {
                block: self.block.decrement_alloc(),
                teardown: Teardown::Done,
                freeing: self.freeing || self.block.alloc == 1,
                ..self
            },
            Step::CloneWeak => Sharing {
                block: self.block.acquire_weak(),
                weaks: self.weaks + 1,
                ..self
            },
            Step::ReleaseWeak => Sharing {
                block: self.block.decrement_alloc(),
                weaks: (self.weaks - 1) as nat,
                freeing: self.freeing || self.block.alloc == 1,
                ..self
            },
            Step::FreeBlock => Sharing {
                block: self.block.free(),
                freeing: false,
                frees: self.frees + 1,
                ..self
            },
            Step::Upgrade { seen } => if self.block.strong == seen {
                Sharing { block: self.block.acquire_strong(), arcs: self.arcs + 1, ..self }
            } else {
                self
            },
            Step::Downgrade { seen } => if self.block.alloc == seen {
                Sharing { block: self.block.acquire_weak(), weaks: self.weaks + 1, ..self }
            } else {
                self
            },
            Step::Read => self,
            Step::LockAlloc => if self.block.alloc == 1 {
                Sharing { block: self.block.lock(), exclusive: Exclusive::Locked, ..self }
            } else {
                self
            },
            Step::CheckStrong => Sharing {
                exclusive: Exclusive::Checked(self.block.strong == 1),
                ..self
            },
            Step::UnlockAlloc => Sharing {
                block: self.block.unlock(),
                exclusive: if self.exclusive == Exclusive::Checked(true) {
                    Exclusive::Granted
                } else {
                    Exclusive::Idle
                },
                ..self
            },
            Step::Write { value } => Sharing { block: self.block.with_payload(value), ..self },
            Step::EndWrite => Sharing { exclusive: Exclusive::Idle, ..self },
        }
    }

    /// Whether each of `steps` is enabled where it is taken.
    pub open spec fn admits(self, steps: Seq<Step<T>>) -> bool
        decreases steps.len(),
    {
        if steps.len() == 0 {
            true
        } else {
            self.admits(steps.drop_last()) && self.after(steps.drop_last()).enabled(steps.last())
        }
    }

    /// The state after `steps`, taken one after the other.
    pub open spec fn after(self, steps: Seq<Step<T>>) -> Self
        decreases steps.len(),
    {
        if steps.len() == 0 {
            self
        } else {
            self.after(steps.drop_last()).apply(steps.last())
        }
    }

    /// Whether no party is in the middle of an operation.
    pub open spec fn quiescent(self) -> bool {
        &&& self.teardown is Pending || self.teardown is Done
        &&& !self.freeing
        &&& self.exclusive is Idle || self.exclusive is Granted
    }

    /// What the counters mean, at every point of every interleaving.
    pub open spec fn inv(self) -> bool {
        // `strong` counts the `Arc`s
        &&& self.block.strong == self.arcs
        &&& self.arcs <= MAX_REFCOUNT + 1
        &&& self.arcs >= 1 <==> self.teardown is Pending
        // `alloc` counts the units that are out, unless it is locked
        &&& self.units() <= MAX_REFCOUNT + 1
        &&& if self.exclusive is Locked || self.exclusive is Checked {
            self.block.alloc == LOCKED && self.units() == 1
        } else {
            self.block.alloc == self.units()
        }
        // the payload lives until the party that took the last `Arc` away
        // destroys it
        &&& self.block.payload is Some <==> self.teardown is Pending
            || self.teardown is Destroying
        &&& self.destructions == (if self.teardown is Releasing || self.teardown is Done {
            1nat
        } else {
            0nat
        })
        // the block lives until the party that took the last unit away frees
        // it
        &&& self.units() == 0 <==> self.freeing || self.block.freed
        &&& !(self.freeing && self.block.freed)
        &&& self.frees == (if self.block.freed {
            1nat
        } else {
            0nat
        })
        // a `get_mut` holds an `Arc`, and has its way only as the sole handle
        &&& !(self.exclusive is Idle) ==> self.arcs >= 1
        &&& self.exclusive is Granted || self.exclusive == Exclusive::Checked(true) ==> self.arcs
            == 1 && self.weaks == 0
    }

    /// Every step that somebody is entitled to keeps the invariant.
    pub proof fn lemma_step_keeps_invariant(self, step: Step<T>)
        requires
            self.inv(),
            self.enabled(step),
        ensures
            self.apply(step).inv(),
    {
    }

    /// The invariant holds all along every interleaving.
    pub proof fn lemma_interleaving_keeps_invariant(value: T, steps: Seq<Step<T>>)
        requires
            Self::fresh(value).admits(steps),
        ensures
            Self::fresh(value).after(steps).inv(),
        decreases steps.len(),
    {
        if steps.len() > 0 {
            Self::lemma_interleaving_keeps_invariant(value, steps.drop_last());
            Self::fresh(value).after(steps.drop_last()).lemma_step_keeps_invariant(steps.last());
        }
    }

    /// Between operations, a block is well formed.
    pub proof fn law_quiescent_is_well_formed(self)
        requires
            self.inv(),
            self.quiescent(),
        ensures
            self.block.wf(),
            self.block.weak_handles() == self.weaks,
    {
    }
}

/// No step touches a block that has been freed: wherever an interleaving
/// stands, whatever step somebody is entitled to finds the block allocated.
/// In particular a block is freed once.
pub proof fn law_no_use_after_free<T>(value: T, steps: Seq<Step<T>>, next: Step<T>)
    requires
        Sharing::fresh(value).admits(steps),
        Sharing::fresh(value).after(steps).enabled(next),
    ensures
        !Sharing::fresh(value).after(steps).block.freed,
        Sharing::fresh(value).after(steps).apply(next).frees <= 1,
{
    Sharing::lemma_interleaving_keeps_invariant(value, steps);
    Sharing::fresh(value).after(steps).lemma_step_keeps_invariant(next);
}

/// Under every interleaving the payload is destroyed at most once, and not
/// while an `Arc` exists. Once the last `Arc` is gone and the party that gave
/// it back has done its cleanup, the payload has been destroyed exactly once.
pub proof fn law_payload_destroyed_once<T>(value: T, steps: Seq<Step<T>>)
    requires
        Sharing::fresh(value).admits(steps),
    ensures
        ({
            let now = Sharing::fresh(value).after(steps);
            &&& now.destructions <= 1
            &&& now.arcs >= 1 ==> now.destructions == 0 && now.block.payload is Some
            &&& now.arcs == 0 && now.quiescent() ==> now.destructions == 1
                && now.block.payload is None
        }),
{
    Sharing::lemma_interleaving_keeps_invariant(value, steps);
}

/// Under every interleaving, a round of `upgrade` makes no `Arc` once the
/// last `Arc` is gone, whatever count the round has seen. While an `Arc`
/// exists, the round that has seen the present count makes one and raises
/// `strong` by one.
pub proof fn law_upgrade_follows_strong<T>(value: T, steps: Seq<Step<T>>, seen: usize)
    requires
        Sharing::fresh(value).admits(steps),
        Sharing::fresh(value).after(steps).enabled(Step::Upgrade { seen }),
    ensures
        ({
            let now = Sharing::fresh(value).after(steps);
            let then = now.apply(Step::Upgrade { seen });
            &&& now.arcs == 0 ==> now.block.strong == 0 && then == now
            &&& now.arcs >= 1 && seen == now.block.strong ==> then.arcs == now.arcs + 1
                && then.block.strong == now.block.strong + 1
        }),
{
    Sharing::lemma_interleaving_keeps_invariant(value, steps);
}

/// Under every interleaving, while the payload is handed out for writing
/// there is the one `Arc` that `get_mut` was given and no `Weak`, and that
/// `Arc` is at nobody's hand: nothing but the writer can reach the payload,
/// and no step can make another handle.
pub proof fn law_exclusive_is_sole<T>(value: T, steps: Seq<Step<T>>)
    requires
        Sharing::fresh(value).admits(steps),
        Sharing::fresh(value).after(steps).exclusive is Granted,
    ensures
        ({
            let now = Sharing::fresh(value).after(steps);
            &&& now.arcs == 1
            &&& now.weaks == 0
            &&& now.block.payload is Some
            &&& forall|step: Step<T>| #[trigger]
                now.enabled(step) ==> (step is Write || step is EndWrite)
        }),
{
    Sharing::lemma_interleaving_keeps_invariant(value, steps);
}

/// Under every interleaving, a `get_mut` on the sole handle of a block
/// succeeds: where one `Arc` and no `Weak` exist and nobody is in the middle
/// of an operation, its three steps can be taken and hand out the payload.
pub proof fn law_sole_is_granted<T>(value: T, steps: Seq<Step<T>>)
    requires
        Sharing::fresh(value).admits(steps),
        Sharing::fresh(value).after(steps).arcs == 1,
        Sharing::fresh(value).after(steps).weaks == 0,
        Sharing::fresh(value).after(steps).exclusive is Idle,
    ensures
        ({
            let now = Sharing::fresh(value).after(steps);
            let locked = now.apply(Step::LockAlloc);
            let checked = locked.apply(Step::CheckStrong);
            let unlocked = checked.apply(Step::UnlockAlloc);
            &&& now.enabled(Step::LockAlloc)
            &&& locked.enabled(Step::CheckStrong)
            &&& checked.enabled(Step::UnlockAlloc)
            &&& unlocked.exclusive is Granted
            &&& unlocked.block == now.block
        }),
{
    Sharing::lemma_interleaving_keeps_invariant(value, steps);
}

/// Under every interleaving, while an `Arc` exists and `alloc` is not locked
/// by a `get_mut`, `alloc` holds the number of `Weak`s plus one.
pub proof fn law_alloc_is_weaks_plus_one<T>(value: T, steps: Seq<Step<T>>)
    requires
        Sharing::fresh(value).admits(steps),
        Sharing::fresh(value).after(steps).arcs >= 1,
        Sharing::fresh(value).after(steps).block.alloc != LOCKED,
    ensures
        Sharing::fresh(value).after(steps).block.alloc == Sharing::fresh(value).after(steps).weaks
            + 1,
{
    Sharing::lemma_interleaving_keeps_invariant(value, steps);
}

/// Under every interleaving, a read through an `Arc` finds the payload:
/// nothing destroys it while an `Arc` is at somebody's hand, and nobody
/// writes it meanwhile.
pub proof fn law_reads_find_the_payload<T>(value: T, steps: Seq<Step<T>>)
    requires
        Sharing::fresh(value).admits(steps),
        Sharing::fresh(value).after(steps).enabled(Step::Read),
    ensures
        Sharing::fresh(value).after(steps).block.payload is Some,
        !(Sharing::fresh(value).after(steps).exclusive is Granted),
        !Sharing::fresh(value).after(steps).enabled(Step::DestroyPayload),
{
    Sharing::lemma_interleaving_keeps_invariant(value, steps);
}

/// An undisturbed `Arc::get_mut` changes no counter, and hands out the
/// payload exactly on a block that is unique: its steps, taken one after
/// the other between operations, do what the contract of
/// [`crate::arc_strong_and_weak::Arc::get_mut`] says.
pub proof fn law_get_mut_is_its_steps<T>(now: Sharing<T>)
    requires
        now.inv(),
        now.quiescent(),
        now.exclusive is Idle,
        now.arcs >= 1,
    ensures
        ({
            let locked = now.apply(Step::LockAlloc);
            let checked = locked.apply(Step::CheckStrong);
            let unlocked = checked.apply(Step::UnlockAlloc);
            &&& now.enabled(Step::LockAlloc)
            &&& now.block.alloc != 1 ==> locked == now && !now.block.unique()
            &&& now.block.alloc == 1 ==> locked.enabled(Step::CheckStrong) && checked.enabled(
                Step::UnlockAlloc,
            ) && unlocked.block == now.block && (unlocked.exclusive is Granted
                <==> now.block.unique()) && (unlocked.exclusive is Idle <==> !now.block.unique())
        }),
{
}

/// A round of `upgrade` or of `downgrade` is one step: it leaves the block
/// as the contracts of [`crate::arc_strong_and_weak::Weak::try_upgrade`] and
/// [`crate::arc_strong_and_weak::Arc::try_downgrade`] say of a round that
/// goes to the counter.
pub proof fn law_rounds_are_steps<T>(now: Sharing<T>, seen: usize)
    ensures
        now.apply(Step::Upgrade { seen }).block == (if seen == now.block.strong {
            now.block.acquire_strong()
        } else {
            now.block
        }),
        now.apply(Step::Downgrade { seen }).block == (if seen == now.block.alloc {
            now.block.acquire_weak()
        } else {
            now.block
        }),
        now.apply(Step::CloneArc).block == now.block.acquire_strong(),
        now.apply(Step::CloneWeak).block == now.block.acquire_weak(),
{
}

/// An undisturbed `Arc::drop` is `release_strong`: its steps, taken one
/// after the other between operations, leave the block as the contract of
/// [`crate::arc_strong_and_weak::Arc::drop`] says.
pub proof fn law_drop_arc_is_its_steps<T>(now: Sharing<T>)
    requires
        now.inv(),
        now.quiescent(),
        now.exclusive is Idle,
        now.arcs >= 1,
    ensures
        ({
            let lowered = now.apply(Step::ReleaseArc);
            let destroyed = lowered.apply(Step::DestroyPayload);
            let released = destroyed.apply(Step::ReleaseShared);
            let freed = released.apply(Step::FreeBlock);
            &&& now.enabled(Step::ReleaseArc)
            &&& now.arcs >= 2 ==> lowered.quiescent() && lowered.block
                == now.block.release_strong()
            &&& now.arcs == 1 ==> lowered.enabled(Step::DestroyPayload) && destroyed.enabled(
                Step::ReleaseShared,
            )
            &&& now.arcs == 1 && now.weaks >= 1 ==> released.quiescent() && released.block
                == now.block.release_strong()
            &&& now.arcs == 1 && now.weaks == 0 ==> released.enabled(Step::FreeBlock)
                && freed.quiescent() && freed.block == now.block.release_strong()
        }),
{
}

/// An undisturbed `Weak::drop` is `release_weak`.
pub proof fn law_drop_weak_is_its_steps<T>(now: Sharing<T>)
    requires
        now.inv(),
        now.quiescent(),
        now.weaks >= 1,
    ensures
        ({
            let released = now.apply(Step::ReleaseWeak);
            let freed = released.apply(Step::FreeBlock);
            &&& now.enabled(Step::ReleaseWeak)
            &&& now.units() >= 2 ==> released.quiescent() && released.block
                == now.block.release_weak()
            &&& now.units() == 1 ==> released.enabled(Step::FreeBlock) && freed.quiescent()
                && freed.block == now.block.release_weak()
        }),
{
}

} // verus!
