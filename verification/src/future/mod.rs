//! The tiered semaphore engines and the guarded locks layered on them.

pub mod future_mcslock;

pub mod future_mutex;

pub mod future_rwdlock;

pub mod future_rwlock;

pub mod lslock;

pub mod rw_semaphore;

pub mod rwd_semaphore;

pub mod waiter;
