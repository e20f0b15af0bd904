//! Kernel-style synchronization primitives with verified state machines.
//!
//! The heart of the crate is a pair of priority-tiered semaphore engines: a
//! two-tier reader/writer engine and a three-tier reader/writer/disk engine.
//! Each encodes its whole occupancy state in a single permit word, keeps a
//! FIFO queue of parked waiters, and exposes try-acquire, release and
//! upgrade/downgrade transitions whose effect on the permit word, the queue
//! and the interrupt-nesting state is stated exactly in the contracts.
//!
//! Shared state that a concurrent embedding would hide behind atomics and an
//! internal spin lock is held here as plain values, and every transition takes
//! the state by `&mut`: the contracts describe each atomic step of the
//! protocol, and a driver (an executor, a test harness) interleaves steps and
//! performs the wake actions that release operations hand back.

pub mod binary_semaphore;
pub mod future;
pub mod nest;
pub mod spinlock;
