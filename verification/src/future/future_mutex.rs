//! A mutex over the two-tier engine: the writer permit of an
//! [`RwSemaphore`] guards a payload.
//!
//! Three acquisition paths share the one engine: `lock` hands out a resumable
//! acquisition attempt for a suspend/resume driver, `try_lock` polls once,
//! and `spin_lock` is the blocking path. The guard is an explicit token,
//! returned to [`FutureMutex::unlock`] exactly once; the unlock hands back
//! the wake handles of the waiters it woke.

use vstd::prelude::*;

use crate::future::rw_semaphore::{AcquireFuture, RwSemaphore, WRITER};
use crate::future::waiter::{wake_next_rest, wake_next_woken, AcquireType, Waiter};
use crate::nest::{IrqState, NestStrategy};

verus! {

/// A mutex protecting a payload of type `T`.
pub struct FutureMutex<T, N: NestStrategy> {
    /// The engine whose writer permit is the mutex.
    pub locked: RwSemaphore<N>,
    /// The protected payload.
    pub data: T,
}

/// The token held while the mutex is owned; returned to
/// [`FutureMutex::unlock`] exactly once.
pub struct FutureMutexGuard;

impl<T, N: NestStrategy> FutureMutex<T, N> {
    /// Whether the mutex is held.
    pub open spec fn spec_is_locked(&self) -> bool {
        self.locked.permit != 0
    }

    /// Well-formed: the engine is.
    pub open spec fn wf(&self) -> bool {
        self.locked.wf()
    }

    /// A fresh, unlocked mutex owning `data`.
    pub fn new(data: T) -> (m: Self)
        ensures
            m.wf(),
            !m.spec_is_locked(),
            m.locked.waiters@.len() == 0,
            m.data == data,
    {
        FutureMutex { locked: RwSemaphore::new(), data }
    }

    /// Consume the mutex and hand the payload back. No locking is needed:
    /// ownership proves no other reference exists.
    pub fn into_inner(self) -> (data: T)
        ensures
            data == self.data,
    {
        self.data
    }

    /// Start one acquisition attempt: a resumable computation that polls the
    /// writer permit on every resume.
    pub fn lock(&self) -> (f: AcquireFuture)
        ensures
            f.node == (Waiter { req: AcquireType::Write, waker: None, queued: false }),
    {
        self.locked.acquire_write()
    }

    /// One resume of an acquisition attempt started by [`FutureMutex::lock`]:
    /// registers the wake handle (first resume only), polls the writer
    /// permit, and hands out the guard when it was taken. While the mutex is
    /// held the attempt parks (once) and `None` comes back.
    pub fn poll_lock(
        &mut self,
        attempt: &mut AcquireFuture,
        irq: &mut IrqState,
        waker: u64,
    ) -> (g: Option<FutureMutexGuard>)
        requires
            old(self).wf(),
            old(attempt).node.req is Write,
            old(attempt).node.waker is Some ==> old(attempt).node.waker == Some(waker),
            N::push_ok(*old(irq)),
        ensures
            final(self).wf(),
            final(self).data == old(self).data,
            final(attempt).node.req is Write,
            final(attempt).node.waker == Some(waker),
            g is Some <==> !old(self).spec_is_locked(),
            g is Some ==> final(self).locked.permit == WRITER && final(self).locked.waiters == old(
                self,
            ).locked.waiters && *final(irq) == N::push_spec(*old(irq)),
            g is None ==> final(self).locked.permit == old(self).locked.permit && *final(irq)
                == *old(irq) && final(attempt).node.queued,
            g is None && !old(attempt).node.queued ==> final(self).locked.waiters@ == old(
                self,
            ).locked.waiters@.push(final(attempt).node),
            g is None && old(attempt).node.queued ==> final(self).locked.waiters == old(
                self,
            ).locked.waiters,
    {
        if attempt.poll(&mut self.locked, irq, waker) {
            Some(FutureMutexGuard)
        } else {
            None
        }
    }

    /// Try to take the mutex: succeeds exactly when it is free; never blocks.
    /// On failure nothing changes, the interrupt state included.
    pub fn try_lock(&mut self, irq: &mut IrqState) -> (g: Option<FutureMutexGuard>)
        requires
            old(self).wf(),
            N::push_ok(*old(irq)),
        ensures
            final(self).wf(),
            final(self).data == old(self).data,
            final(self).locked.waiters == old(self).locked.waiters,
            g is Some <==> !old(self).spec_is_locked(),
            g is Some ==> final(self).locked.permit == WRITER && *final(irq) == N::push_spec(
                *old(irq),
            ),
            g is None ==> *final(self) == *old(self) && *final(irq) == *old(irq),
    {
        match self.locked.try_acquire_write(irq) {
            Ok(_) => Some(FutureMutexGuard),
            Err(_) => None,
        }
    }

    /// The blocking path: spin until the mutex is taken. A free mutex is
    /// required — the same logical owner spinning on its own permit would
    /// never terminate (the mutex is not reentrant).
    pub fn spin_lock(&mut self, irq: &mut IrqState) -> (g: FutureMutexGuard)
        requires
            old(self).wf(),
            !old(self).spec_is_locked(),
            N::push_ok(*old(irq)),
        ensures
            final(self).wf(),
            final(self).data == old(self).data,
            final(self).locked.waiters == old(self).locked.waiters,
            final(self).locked.permit == WRITER,
            *final(irq) == N::push_spec(*old(irq)),
    {
        loop
            invariant
                self.wf(),
                !self.spec_is_locked(),
                self.data == old(self).data,
                self.locked.waiters == old(self).locked.waiters,
                N::push_ok(*irq),
                *irq == *old(irq),
            decreases 1int,
        {
            match self.try_lock(irq) {
                Some(guard) => {
                    return guard;
                },
                None => (),
            }
        }
    }

    /// Release the mutex, consuming the guard: clear the writer permit, wake
    /// per the engine's policy, and hand back the woken handles.
    pub fn unlock(&mut self, g: FutureMutexGuard, irq: &mut IrqState) -> (woken: Vec<u64>)
        requires
            old(self).wf(),
            old(self).locked.spec_writer(),
            N::pop_ok(*old(irq)),
        ensures
            final(self).wf(),
            final(self).data == old(self).data,
            !final(self).spec_is_locked(),
            *final(irq) == N::pop_spec(*old(irq)),
            woken@ == wake_next_woken(old(self).locked.waiters@),
            final(self).locked.waiters@ == wake_next_rest(old(self).locked.waiters@),
    {
        self.locked.release_write(irq)
    }

    /// Borrow the payload mutably. No locking is needed: `&mut self` proves
    /// no other reference exists.
    pub fn get_mut(&mut self) -> (data: &mut T)
        ensures
            *data == old(self).data,
            final(self).locked == old(self).locked,
            final(self).data == *final(data),
    {
        &mut self.data
    }

    /// Whether the mutex is currently held.
    pub fn is_locked(&self) -> (r: bool)
        ensures
            r == self.spec_is_locked(),
    {
        self.locked.get_permit() != 0
    }
}

} // verus!
