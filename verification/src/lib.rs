//! Concurrency primitives built on atomic cells: reference-counted shared
//! ownership with weak references, a spin lock and a one-shot channel.
//!
//! Every primitive is a value that is changed through an exclusive
//! reference, and every atomic operation on it is one indivisible step.
//! What several parties do to one primitive is therefore a sequence of
//! steps, and the crate proves what holds of every such sequence:
//!
//! - [`atomic`]: the cells, a counter and a flag;
//! - [`arc_basic`], [`arc_weak_pointers`], [`arc_strong_and_weak`]: three
//!   forms of the shared pointer, from one counter to two counters with a
//!   lock against a racing downgrade;
//! - [`spin_lock`] and [`channel`]: the lock and the channel;
//! - [`arc_interleaving`], [`spin_lock_interleaving`],
//!   [`channel_interleaving`]: the protocols under every interleaving of the
//!   steps of their parties.

pub mod arc_basic;
pub mod arc_interleaving;
pub mod arc_strong_and_weak;
pub mod arc_weak_pointers;
pub mod atomic;
pub mod channel;
pub mod channel_interleaving;
pub mod spin_lock;
pub mod spin_lock_interleaving;
