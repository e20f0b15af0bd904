//! The two-tier semaphore engine: reader/writer occupancy encoded in one
//! permit word.
//!
//! Permit-word layout: bit 0 is writer-held; the reader count is held in the
//! bits from bit 2 up, stepped by [`READER`]. A successful acquire masks
//! interrupts through the nest strategy for as long as the permit is held; a
//! failed attempt restores the interrupt state exactly.
//!
//! Release operations return the wake handles of the waiters they woke; the
//! driver (an executor, a test harness) resumes those requests, which then
//! re-validate against the live permit word — being woken never hands over
//! the permit itself.

use vstd::prelude::*;

use crate::nest::{IrqState, NestStrategy};
use core::marker::PhantomData;

pub use crate::future::waiter::{AcquireType, Waiter};
use crate::future::waiter::{queue_wf, wake_next, wake_next_rest, wake_next_woken};

verus! {

/// One reader's step in the permit word.
pub const READER: usize = 4;

/// The writer-held bit.
pub const WRITER: usize = 1;

/// A two-tier acquire can proceed when `t` does not collide with the holders
/// recorded in the permit word `w`.
pub open spec fn rw_can_acquire(w: usize, t: AcquireType) -> bool {
    match t {
        AcquireType::Read => w as int % 2 == 0,
        _ => w == 0,
    }
}

/// The permit word after a successful two-tier acquire of `t`.
pub open spec fn rw_acquired(w: usize, t: AcquireType) -> int {
    match t {
        AcquireType::Read => w + READER,
        _ => WRITER as int,
    }
}

/// The two-tier semaphore: the permit word and the FIFO queue of parked
/// waiters, with the nest strategy chosen by the embedding environment.
pub struct RwSemaphore<N: NestStrategy> {
    /// The permit word, sole source of truth for tier occupancy.
    pub permit: usize,
    /// Parked waiters, in arrival order.
    pub waiters: Vec<Waiter>,
    /// The interrupt-masking strategy.
    pub nest: PhantomData<N>,
}

impl<N: NestStrategy> RwSemaphore<N> {
    /// Readers recorded in the permit word.
    pub open spec fn spec_readers(&self) -> int {
        self.permit as int / READER as int
    }

    /// Whether the permit word records a writer.
    pub open spec fn spec_writer(&self) -> bool {
        self.permit as int % 2 == 1
    }

    /// Well-formed: the permit word is either the writer bit alone or a pure
    /// reader count (a writer excludes readers and the other way round), and
    /// every parked waiter carries a wake handle.
    pub open spec fn wf(&self) -> bool {
        &&& self.permit == WRITER || self.permit as int % READER as int == 0
        &&& queue_wf(self.waiters@)
    }

    /// A fresh semaphore: all-clear permit, empty queue.
    pub fn new() -> (s: Self)
        ensures
            s.permit == 0,
            s.waiters@.len() == 0,
            s.wf(),
    {
        RwSemaphore { permit: 0, waiters: Vec::new(), nest: PhantomData }
    }

    /// Start one read acquisition attempt: a resumable computation that polls
    /// this semaphore on every resume.
    pub fn acquire_read(&self) -> (f: AcquireFuture)
        ensures
            f.node == (Waiter { req: AcquireType::Read, waker: None, queued: false }),
    {
        AcquireFuture { node: Waiter::new(AcquireType::Read) }
    }

    /// Start one write acquisition attempt.
    pub fn acquire_write(&self) -> (f: AcquireFuture)
        ensures
            f.node == (Waiter { req: AcquireType::Write, waker: None, queued: false }),
    {
        AcquireFuture { node: Waiter::new(AcquireType::Write) }
    }

    /// Try to take one reader step: add the step, and undo it (restoring the
    /// interrupt state) if a writer held the permit. Succeeds exactly when no
    /// writer is recorded; never blocks.
    pub fn try_acquire_read(&mut self, irq: &mut IrqState) -> (r: Result<(), ()>)
        requires
            old(self).wf(),
            old(self).permit <= usize::MAX - READER,
            N::push_ok(*old(irq)),
        ensures
            final(self).wf(),
            final(self).waiters == old(self).waiters,
            r is Ok <==> rw_can_acquire(old(self).permit, AcquireType::Read),
            r is Ok ==> final(self).permit == old(self).permit + READER && *final(irq) == N::push_spec(
                *old(irq),
            ),
            r is Err ==> final(self).permit == old(self).permit && *final(irq) == *old(irq),
    {
        let ghost irq0 = *irq;
        N::push_off(irq);
        let value = self.permit;
        self.permit = self.permit + READER;
        if value % 2 == 1 {
            self.permit = self.permit - READER;
            proof {
                N::push_pop_inverse(irq0);
            }
            N::pop_off(irq);
            Err(())
        } else {
            Ok(())
        }
    }

    /// Try to take the writer bit: succeeds exactly when the permit word is
    /// all-clear; never blocks. On failure the interrupt state is restored.
    pub fn try_acquire_write(&mut self, irq: &mut IrqState) -> (r: Result<(), ()>)
        requires
            old(self).wf(),
            N::push_ok(*old(irq)),
        ensures
            final(self).wf(),
            final(self).waiters == old(self).waiters,
            r is Ok <==> rw_can_acquire(old(self).permit, AcquireType::Write),
            r is Ok ==> final(self).permit == WRITER && *final(irq) == N::push_spec(*old(irq)),
            r is Err ==> final(self).permit == old(self).permit && *final(irq) == *old(irq),
    {
        let ghost irq0 = *irq;
        N::push_off(irq);
        if self.permit == 0 {
            self.permit = WRITER;
            Ok(())
        } else {
            proof {
                N::push_pop_inverse(irq0);
            }
            N::pop_off(irq);
            Err(())
        }
    }

    /// One resume step of a parked or fresh request: retry the raw acquire
    /// once and, if it still fails, park the waiter (at most once — the
    /// enqueued flag makes repeated polls idempotent).
    pub fn poll_acquire(&mut self, irq: &mut IrqState, node: &mut Waiter) -> (r: Result<(), ()>)
        requires
            old(self).wf(),
            old(node).req is Read ==> old(self).permit <= usize::MAX - READER,
            old(node).waker is Some,
            N::push_ok(*old(irq)),
        ensures
            final(self).wf(),
            final(node).req == old(node).req,
            final(node).waker == old(node).waker,
            r is Ok <==> rw_can_acquire(old(self).permit, old(node).req),
            r is Ok ==> final(self).permit == rw_acquired(old(self).permit, old(node).req)
                && final(self).waiters == old(self).waiters && *final(node) == *old(node) && *final(irq)
                == N::push_spec(*old(irq)),
            r is Err ==> final(self).permit == old(self).permit && *final(irq) == *old(irq)
                && final(node).queued,
            r is Err && !old(node).queued ==> final(self).waiters@ == old(self).waiters@.push(
                *final(node),
            ),
            r is Err && old(node).queued ==> final(self).waiters == old(self).waiters && *final(node)
                == *old(node),
    {
        let res = if matches!(node.req, AcquireType::Read) {
            self.try_acquire_read(irq)
        } else {
            self.try_acquire_write(irq)
        };
        if res.is_err() {
            if !node.queued {
                node.queued = true;
                self.waiters.push(*node);
            }
        }
        res
    }

    /// Release one reader step. If this reader was the last holder, run the
    /// wake policy and hand back the woken handles.
    pub fn release_read(&mut self, irq: &mut IrqState) -> (woken: Vec<u64>)
        requires
            old(self).wf(),
            old(self).permit >= READER,
            N::pop_ok(*old(irq)),
        ensures
            final(self).wf(),
            final(self).permit == old(self).permit - READER,
            *final(irq) == N::pop_spec(*old(irq)),
            old(self).permit == READER ==> woken@ == wake_next_woken(old(self).waiters@)
                && final(self).waiters@ == wake_next_rest(old(self).waiters@),
            old(self).permit != READER ==> woken@.len() == 0 && final(self).waiters == old(self).waiters,
    {
        let old_permit = self.permit;
        self.permit = self.permit - READER;
        let woken = if old_permit == READER {
            wake_next(&mut self.waiters)
        } else {
            Vec::new()
        };
        N::pop_off(irq);
        woken
    }

    /// Release the writer bit, run the wake policy, and hand back the woken
    /// handles.
    pub fn release_write(&mut self, irq: &mut IrqState) -> (woken: Vec<u64>)
        requires
            old(self).wf(),
            old(self).spec_writer(),
            N::pop_ok(*old(irq)),
        ensures
            final(self).wf(),
            final(self).permit == 0,
            *final(irq) == N::pop_spec(*old(irq)),
            woken@ == wake_next_woken(old(self).waiters@),
            final(self).waiters@ == wake_next_rest(old(self).waiters@),
    {
        self.permit = self.permit - WRITER;
        let woken = wake_next(&mut self.waiters);
        N::pop_off(irq);
        woken
    }

    /// The number of readers the permit word records.
    pub fn reader_count(&self) -> (n: usize)
        ensures
            n == self.spec_readers(),
    {
        self.permit / READER
    }

    /// One if a writer holds the permit, zero otherwise.
    pub fn writer_count(&self) -> (n: usize)
        ensures
            n == if self.spec_writer() {
                1int
            } else {
                0int
            },
    {
        (self.permit % 2) / WRITER
    }

    /// The raw permit word, for diagnostics.
    pub fn get_permit(&self) -> (w: usize)
        ensures
            w == self.permit,
    {
        self.permit
    }
}

/// Mutual exclusion, two-tier: a well-formed permit word never shows the
/// writer together with any reader. Every operation of the engine ensures
/// well-formedness, so every reachable state satisfies this.
pub proof fn lemma_write_excludes_readers<N: NestStrategy>(s: RwSemaphore<N>)
    requires
        s.wf(),
    ensures
        s.spec_writer() ==> s.spec_readers() == 0,
        s.spec_readers() > 0 ==> !s.spec_writer(),
{
}

/// One acquisition attempt as a resumable computation: each resume registers
/// the wake handle (first resume only) and polls the semaphore once.
pub struct AcquireFuture {
    /// The waiter this attempt may park in the semaphore's queue.
    pub node: Waiter,
}

impl AcquireFuture {
    /// One resume with wake handle `waker`: capture the handle on the first
    /// resume (append-only — resuming the same attempt with a different
    /// handle is a driver bug, ruled out by the precondition), then poll the
    /// semaphore. Returns true when the permit was acquired.
    pub fn poll<N: NestStrategy>(
        &mut self,
        sem: &mut RwSemaphore<N>,
        irq: &mut IrqState,
        waker: u64,
    ) -> (ready: bool)
        requires
            old(sem).wf(),
            old(self).node.req is Read ==> old(sem).permit <= usize::MAX - READER,
            N::push_ok(*old(irq)),
            old(self).node.waker is Some ==> old(self).node.waker == Some(waker),
        ensures
            final(sem).wf(),
            final(self).node.req == old(self).node.req,
            final(self).node.waker == Some(waker),
            ready <==> rw_can_acquire(old(sem).permit, old(self).node.req),
            ready ==> final(sem).permit == rw_acquired(old(sem).permit, old(self).node.req)
                && final(sem).waiters == old(sem).waiters && *final(irq) == N::push_spec(*old(irq)),
            !ready ==> final(sem).permit == old(sem).permit && *final(irq) == *old(irq)
                && final(self).node.queued,
            !ready && !old(self).node.queued ==> final(sem).waiters@ == old(sem).waiters@.push(
                final(self).node,
            ),
            !ready && old(self).node.queued ==> final(sem).waiters == old(sem).waiters,
    {
        if self.node.waker.is_none() {
            self.node.waker = Some(waker);
        }
        match sem.poll_acquire(irq, &mut self.node) {
            Ok(_) => true,
            Err(_) => false,
        }
    }
}

} // verus!
