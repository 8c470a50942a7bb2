//! A spin lock: mutual exclusion over one value by busy-waiting on an
//! atomic flag.

use crate::atomic::{AtomicFlag, MemoryOrder};
use vstd::prelude::*;

verus! {

/// `std::hint::spin_loop` tells the processor that the caller is busy-waiting.
/// It takes nothing and returns nothing, so nothing is claimed of it.
pub assume_specification[ std::hint::spin_loop ]();

/// What a spin lock holds.
pub struct LockState<T> {
    /// Whether the lock is taken.
    pub locked: bool,
    /// The protected value.
    pub value: T,
}

impl<T> LockState<T> {
    /// A free lock around `value`.
    pub open spec fn free(value: T) -> Self {
        LockState { locked: false, value }
    }

    /// The lock with its flag set.
    pub open spec fn acquire(self) -> Self {
        LockState { locked: true, ..self }
    }

    /// The lock with its flag clear.
    pub open spec fn release(self) -> Self {
        LockState { locked: false, ..self }
    }

    /// The lock around another value.
    pub open spec fn write(self, value: T) -> Self {
        LockState { value, ..self }
    }
}

/// A value behind a flag that at most one holder at a time finds clear.
pub struct SpinLock<T> {
    locked: AtomicFlag,
    value: T,
}

/// Exclusive access to the value of a locked [`SpinLock`], from
/// [`SpinLock::lock`] until [`Guard::drop`]. A guard is valid while the flag
/// of its lock is set; `lock` hands out valid guards only.
pub struct Guard<'a, T> {
    pub lock: &'a mut SpinLock<T>,
}

impl<T> View for SpinLock<T> {
    type V = LockState<T>;

    closed spec fn view(&self) -> LockState<T> {
        LockState { locked: self.locked@, value: self.value }
    }
}

impl<T> SpinLock<T> {
    /// An unlocked lock around `value`.
    pub fn new(value: T) -> (lock: Self)
        ensures
            lock@ == LockState::free(value),
    {
        SpinLock { locked: AtomicFlag::new(false), value }
    }

    /// Whether the lock is taken.
    pub fn is_locked(&self) -> (locked: bool)
        ensures
            locked == self@.locked,
    {
        self.locked.load(MemoryOrder::Relaxed)
    }

    /// One round of [`SpinLock::lock`]: sets the flag, and hands out the
    /// guard if the flag was found clear. A round that finds it set changes
    /// nothing.
    pub fn try_lock(&mut self) -> (guard: Option<Guard<'_, T>>)
        ensures
            guard is Some <==> !old(self)@.locked,
            match guard {
                Some(guard) => {
                    &&& guard.lock@ == old(self)@.acquire()
                    &&& *final(self) == *final(guard.lock)
                },
                None => final(self)@ == old(self)@,
            },
    {
        if self.locked.swap(true, MemoryOrder::Acquire) {
            std::hint::spin_loop();
            None
        } else {
            Some(Guard { lock: self })
        }
    }

    /// Sets the flag, waiting until it is found clear, and hands out the
    /// guard. A lock whose flag is never cleared is waited on forever; such
    /// a call does not return.
    pub fn lock(&mut self) -> (guard: Guard<'_, T>)
        requires
            !old(self)@.locked,
        ensures
            guard.lock@ == old(self)@.acquire(),
            *final(self) == *final(guard.lock),
    {
        // Each round sets the flag and looks at what it held. The flag is
        // clear, so the first round has the lock; a round that found the
        // flag set would spin and be followed by another.
        loop
            invariant_except_break
                !self.locked@,
                self.value == old(self).value,
            ensures
                self.locked@,
                self.value == old(self).value,
            decreases 0int,
        {
            let held = self.locked.swap(true, MemoryOrder::Acquire);
            if !held {
                break ;
            }
            std::hint::spin_loop();
        }
        Guard { lock: self }
    }
}

impl<'a, T> Guard<'a, T> {
    /// The protected value.
    pub fn deref(&self) -> (value: &T)
        requires
            old(self.lock)@.locked,
        ensures
            *value == old(self.lock)@.value,
    {
        &self.lock.value
    }

    /// The protected value, for writing.
    pub fn deref_mut(&mut self) -> (value: &mut T)
        requires
            old(self).lock@.locked,
        ensures
            *value == old(self).lock@.value,
            final(self).lock@ == old(self).lock@.write(*final(value)),
            *final(final(self).lock) == *final(old(self).lock),
    {
        &mut self.lock.value
    }

    /// Clears the flag and gives up the access.
    pub fn drop(self)
        requires
            old(self.lock)@.locked,
        ensures
            final(self.lock)@ == old(self.lock)@.release(),
    {
        self.lock.locked.store(false, MemoryOrder::Release);
    }
}

} // verus!
