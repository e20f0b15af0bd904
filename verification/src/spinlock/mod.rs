//! Basic mutual-exclusion locks: the spin lock, the ticket lock, and the
//! dual-channel ownership lock.

pub mod mcslock;

pub mod spin;

pub mod ticket;

use vstd::prelude::*;

verus! {

/// The exclusive lock flavour the crate exports as its plain mutex.
pub type Mutex<T, N> = crate::spinlock::spin::SpinMutex<T, N>;

/// The guard token of [`Mutex`].
pub type MutexGuard = crate::spinlock::spin::SpinMutexGuard;

} // verus!
