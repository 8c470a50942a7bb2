//! Atomic cells.
//!
//! A cell holds one machine word or one flag. Every operation on it is a
//! single indivisible step, so the cells here are a sequentially consistent
//! model of hardware atomics: exclusive access stands for the atomicity of
//! the step. The memory order given to an operation is validated as the
//! hardware primitives validate it and otherwise records the discipline the
//! caller follows.

use vstd::prelude::*;

verus! {

/// The ordering constraint attached to an atomic operation.
#[derive(Clone, Copy, Debug, PartialEq, Eq, Structural)]
pub enum MemoryOrder {
    /// No ordering with respect to other memory.
    Relaxed,
    /// Earlier writes are visible to whoever acquires this store.
    Release,
    /// Later reads see what was released by the store observed.
    Acquire,
    /// Both of the above, for read-modify-write operations.
    AcqRel,
    /// A single total order over all such operations.
    SeqCst,
}

impl MemoryOrder {
    /// Orders a plain load may carry.
    pub open spec fn loads(self) -> bool {
        self != MemoryOrder::Release && self != MemoryOrder::AcqRel
    }

    /// Orders a plain store may carry.
    pub open spec fn stores(self) -> bool {
        self != MemoryOrder::Acquire && self != MemoryOrder::AcqRel
    }

    /// Orders a fence may carry.
    pub open spec fn fences(self) -> bool {
        self != MemoryOrder::Relaxed
    }
}

/// The sum of `a` and `b` reduced to the range of `usize`.
pub open spec fn wrapped_sum(a: usize, b: usize) -> usize {
    if a + b > usize::MAX {
        (a + b - usize::MAX - 1) as usize
    } else {
        (a + b) as usize
    }
}

/// The difference of `a` and `b` reduced to the range of `usize`.
pub open spec fn wrapped_difference(a: usize, b: usize) -> usize {
    if a < b {
        (a - b + usize::MAX + 1) as usize
    } else {
        (a - b) as usize
    }
}

/// An atomic unsigned counter.
pub struct AtomicCounter {
    value: usize,
}

impl View for AtomicCounter {
    type V = usize;

    closed spec fn view(&self) -> usize {
        self.value
    }
}

impl AtomicCounter {
    /// A counter holding `value`.
    pub fn new(value: usize) -> (cell: Self)
        ensures
            cell@ == value,
    {
        AtomicCounter { value }
    }

    /// Reads the counter.
    pub fn load(&self, order: MemoryOrder) -> (value: usize)
        requires
            order.loads(),
        ensures
            value == self@,
    {
        self.value
    }

    /// Overwrites the counter.
    pub fn store(&mut self, value: usize, order: MemoryOrder)
        requires
            order.stores(),
        ensures
            final(self)@ == value,
    {
        self.value = value;
    }

    /// Overwrites the counter and returns what it held.
    pub fn swap(&mut self, value: usize, order: MemoryOrder) -> (previous: usize)
        ensures
            previous == old(self)@,
            final(self)@ == value,
    {
        let previous: usize = self.value;
        self.value = value;
        previous
    }

    /// Adds `delta`, wrapping around on overflow, and returns what the
    /// counter held before.
    pub fn fetch_add(&mut self, delta: usize, order: MemoryOrder) -> (previous: usize)
        ensures
            previous == old(self)@,
            final(self)@ == wrapped_sum(old(self)@, delta),
    {
        let previous: usize = self.value;
        self.value = if previous > usize::MAX - delta {
            previous - (usize::MAX - delta) - 1
        } else {
            previous + delta
        };
        previous
    }

    /// Subtracts `delta`, wrapping around on underflow, and returns what the
    /// counter held before.
    pub fn fetch_sub(&mut self, delta: usize, order: MemoryOrder) -> (previous: usize)
        ensures
            previous == old(self)@,
            final(self)@ == wrapped_difference(old(self)@, delta),
    {
        let previous: usize = self.value;
        self.value = if previous < delta {
            usize::MAX - (delta - previous) + 1
        } else {
            previous - delta
        };
        previous
    }

    /// Stores `new` if the counter holds `current`. Returns the value held
    /// before, as `Ok` when the store happened and as `Err` when it did not.
    pub fn compare_exchange(
        &mut self,
        current: usize,
        new: usize,
        success: MemoryOrder,
        failure: MemoryOrder,
    ) -> (outcome: Result<usize, usize>)
        requires
            failure.loads(),
        ensures
            outcome == (if old(self)@ == current {
                Ok::<usize, usize>(current)
            } else {
                Err::<usize, usize>(old(self)@)
            }),
            final(self)@ == (if old(self)@ == current {
                new
            } else {
                old(self)@
            }),
    {
        let previous: usize = self.value;
        if previous == current {
            self.value = new;
            Ok(previous)
        } else {
            Err(previous)
        }
    }

    /// As [`AtomicCounter::compare_exchange`]. Hardware may let this form
    /// fail although the counter holds `current`; a cell of this model never
    /// does, so a loop around it runs as the contended one would in its last
    /// round.
    pub fn compare_exchange_weak(
        &mut self,
        current: usize,
        new: usize,
        success: MemoryOrder,
        failure: MemoryOrder,
    ) -> (outcome: Result<usize, usize>)
        requires
            failure.loads(),
        ensures
            outcome == (if old(self)@ == current {
                Ok::<usize, usize>(current)
            } else {
                Err::<usize, usize>(old(self)@)
            }),
            final(self)@ == (if old(self)@ == current {
                new
            } else {
                old(self)@
            }),
    {
        self.compare_exchange(current, new, success, failure)
    }
}

/// An atomic flag.
pub struct AtomicFlag {
    value: bool,
}

impl View for AtomicFlag {
    type V = bool;

    closed spec fn view(&self) -> bool {
        self.value
    }
}

impl AtomicFlag {
    /// A flag holding `value`.
    pub fn new(value: bool) -> (cell: Self)
        ensures
            cell@ == value,
    {
        AtomicFlag { value }
    }

    /// Reads the flag.
    pub fn load(&self, order: MemoryOrder) -> (value: bool)
        requires
            order.loads(),
        ensures
            value == self@,
    {
        self.value
    }

    /// Overwrites the flag.
    pub fn store(&mut self, value: bool, order: MemoryOrder)
        requires
            order.stores(),
        ensures
            final(self)@ == value,
    {
        self.value = value;
    }

    /// Overwrites the flag and returns what it held.
    pub fn swap(&mut self, value: bool, order: MemoryOrder) -> (previous: bool)
        ensures
            previous == old(self)@,
            final(self)@ == value,
    {
        let previous = self.value;
        self.value = value;
        previous
    }
}

/// Orders the memory accesses around it. The model is sequentially
/// consistent, so a fence changes nothing; it marks where the protocol
/// depends on one.
pub fn fence(order: MemoryOrder)
    requires
        order.fences(),
{
}

} // verus!
