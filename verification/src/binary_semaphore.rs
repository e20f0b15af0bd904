//! A binary semaphore: one permit, a FIFO queue of parked waiters, and a
//! wake-one release policy. The simplest of the engines; the tiered engines
//! under `future` generalize it.

use vstd::prelude::*;

pub use crate::future::waiter::Waiter;
use crate::future::waiter::{queue_wf, AcquireType};

verus! {

/// The binary semaphore: `permit` is true while the permit is free.
pub struct Semaphore {
    /// Whether the single permit is available.
    pub permit: bool,
    /// Parked waiters, in arrival order.
    pub waiters: Vec<Waiter>,
}

impl Semaphore {
    /// Every parked waiter carries a wake handle.
    pub open spec fn wf(&self) -> bool {
        queue_wf(self.waiters@)
    }

    /// A fresh semaphore with its permit available.
    pub fn new() -> (s: Self)
        ensures
            s.permit,
            s.waiters@.len() == 0,
            s.wf(),
    {
        Semaphore { permit: true, waiters: Vec::new() }
    }

    /// Start one acquisition attempt: a resumable computation that polls this
    /// semaphore on every resume.
    pub fn acquire(&self) -> (f: AcquireFuture)
        ensures
            f.node == (Waiter { req: AcquireType::Write, waker: None, queued: false }),
    {
        AcquireFuture { node: Waiter::new(AcquireType::Write) }
    }

    /// Try to take the permit: succeeds exactly when it is available; never
    /// blocks.
    pub fn try_acquire(&mut self) -> (r: Result<(), ()>)
        requires
            old(self).wf(),
        ensures
            final(self).wf(),
            final(self).waiters == old(self).waiters,
            r is Ok <==> old(self).permit,
            !final(self).permit,
            r is Err ==> *final(self) == *old(self),
    {
        if self.permit {
            self.permit = false;
            Ok(())
        } else {
            Err(())
        }
    }

    /// One resume step of a parked or fresh request: retry the raw acquire
    /// once and, if it still fails, park the waiter (at most once — the
    /// enqueued flag makes repeated polls idempotent).
    pub fn poll_acquire(&mut self, node: &mut Waiter) -> (r: Result<(), ()>)
        requires
            old(self).wf(),
            old(node).waker is Some,
        ensures
            final(self).wf(),
            final(node).req == old(node).req,
            final(node).waker == old(node).waker,
            r is Ok <==> old(self).permit,
            !final(self).permit,
            r is Ok ==> final(self).waiters == old(self).waiters && *final(node) == *old(node),
            r is Err ==> final(node).queued,
            r is Err && !old(node).queued ==> final(self).waiters@ == old(self).waiters@.push(
                *final(node),
            ),
            r is Err && old(node).queued ==> final(self).waiters == old(self).waiters
                && *final(node) == *old(node),
    {
        let res = self.try_acquire();
        if res.is_err() {
            if !node.queued {
                node.queued = true;
                self.waiters.push(*node);
            }
        }
        res
    }

    /// Put the permit back and wake the waiter at the head of the queue, if
    /// any; its handle is returned so the driver can resume it.
    pub fn release(&mut self) -> (woken: Option<u64>)
        requires
            old(self).wf(),
        ensures
            final(self).wf(),
            final(self).permit,
            old(self).waiters@.len() == 0 ==> woken is None && final(self).waiters == old(
                self,
            ).waiters,
            old(self).waiters@.len() > 0 ==> woken == Some(old(self).waiters@[0].waker->0)
                && final(self).waiters@ == old(self).waiters@.drop_first(),
    {
        self.permit = true;
        if self.waiters.len() > 0 {
            let w = self.waiters.remove(0);
            Some(w.wake())
        } else {
            None
        }
    }

    /// Whether the permit is currently available, for diagnostics.
    pub fn get_permit(&self) -> (p: bool)
        ensures
            p == self.permit,
    {
        self.permit
    }
}

/// One acquisition attempt as a resumable computation: each resume registers
/// the wake handle (first resume only) and polls the semaphore once.
pub struct AcquireFuture {
    /// The waiter this attempt may park in the semaphore's queue.
    pub node: Waiter,
}

impl AcquireFuture {
    /// One resume with wake handle `waker`: capture the handle on the first
    /// resume (append-only — resuming the same attempt with a different
    /// handle is a driver bug, ruled out by the precondition), then poll the
    /// semaphore. Returns true when the permit was acquired.
    pub fn poll(&mut self, sem: &mut Semaphore, waker: u64) -> (ready: bool)
        requires
            old(sem).wf(),
            old(self).node.waker is Some ==> old(self).node.waker == Some(waker),
        ensures
            final(sem).wf(),
            final(self).node.waker == Some(waker),
            ready <==> old(sem).permit,
            !final(sem).permit,
            ready ==> final(sem).waiters == old(sem).waiters,
            !ready ==> final(self).node.queued,
            !ready && !old(self).node.queued ==> final(sem).waiters@ == old(sem).waiters@.push(
                final(self).node,
            ),
            !ready && old(self).node.queued ==> final(sem).waiters == old(sem).waiters,
    {
        if self.node.waker.is_none() {
            self.node.waker = Some(waker);
        }
        match sem.poll_acquire(&mut self.node) {
            Ok(_) => true,
            Err(_) => false,
        }
    }
}

} // verus!
