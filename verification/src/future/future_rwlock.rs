//! A reader/writer lock over the two-tier engine: shared read access or
//! exclusive write access to a payload, with suspend/resume, try and spin
//! acquisition paths.
//!
//! Guards are explicit tokens; each is returned to its release method exactly
//! once, and releases hand back the wake handles of the waiters they woke.

use vstd::prelude::*;

use crate::future::rw_semaphore::{AcquireFuture, RwSemaphore, READER, WRITER};
use crate::future::waiter::{wake_next_rest, wake_next_woken, AcquireType, Waiter};
use crate::nest::{IrqState, NestStrategy};

verus! {

/// A reader/writer lock protecting a payload of type `T`.
pub struct FutureRwLock<T, N: NestStrategy> {
    /// The two-tier engine.
    pub lock: RwSemaphore<N>,
    /// The protected payload.
    pub data: T,
}

/// The token held for shared access; returned to
/// [`FutureRwLockReadGuard::release`] exactly once.
pub struct FutureRwLockReadGuard;

/// The token held for exclusive access; returned to
/// [`FutureRwLockWriteGuard::release`] exactly once.
pub struct FutureRwLockWriteGuard;

impl<T, N: NestStrategy> FutureRwLock<T, N> {
    /// Well-formed: the engine is.
    pub open spec fn wf(&self) -> bool {
        self.lock.wf()
    }

    /// A fresh, unheld lock owning `data`.
    pub fn new(data: T) -> (l: Self)
        ensures
            l.wf(),
            l.lock.permit == 0,
            l.lock.waiters@.len() == 0,
            l.data == data,
    {
        FutureRwLock { lock: RwSemaphore::new(), data }
    }

    /// Consume the lock and hand the payload back. No locking is needed:
    /// ownership proves no other reference exists.
    pub fn into_inner(self) -> (data: T)
        ensures
            data == self.data,
    {
        self.data
    }

    /// Start one read acquisition attempt: a resumable computation that polls
    /// the engine on every resume.
    pub fn read(&self) -> (f: AcquireFuture)
        ensures
            f.node == (Waiter { req: AcquireType::Read, waker: None, queued: false }),
    {
        self.lock.acquire_read()
    }

    /// Start one write acquisition attempt.
    pub fn write(&self) -> (f: AcquireFuture)
        ensures
            f.node == (Waiter { req: AcquireType::Write, waker: None, queued: false }),
    {
        self.lock.acquire_write()
    }

    /// One resume of a read attempt started by [`FutureRwLock::read`]:
    /// registers the wake handle (first resume only), polls the engine, and
    /// hands out the read guard when the permit was taken. While a writer
    /// holds the lock the attempt parks (once) and `None` comes back.
    pub fn poll_read(&mut self, attempt: &mut AcquireFuture, irq: &mut IrqState, waker: u64) -> (g:
        Option<FutureRwLockReadGuard>)
        requires
            old(self).wf(),
            old(self).lock.permit <= usize::MAX - READER,
            old(attempt).node.req is Read,
            old(attempt).node.waker is Some ==> old(attempt).node.waker == Some(waker),
            N::push_ok(*old(irq)),
        ensures
            final(self).wf(),
            final(self).data == old(self).data,
            final(attempt).node.req is Read,
            final(attempt).node.waker == Some(waker),
            g is Some <==> !old(self).lock.spec_writer(),
            g is Some ==> final(self).lock.spec_readers() == old(self).lock.spec_readers() + 1
                && !final(self).lock.spec_writer() && final(self).lock.waiters == old(
                self,
            ).lock.waiters && *final(irq) == N::push_spec(*old(irq)),
            g is None ==> final(self).lock.permit == old(self).lock.permit && *final(irq) == *old(
                irq,
            ) && final(attempt).node.queued,
            g is None && !old(attempt).node.queued ==> final(self).lock.waiters@ == old(
                self,
            ).lock.waiters@.push(final(attempt).node),
            g is None && old(attempt).node.queued ==> final(self).lock.waiters == old(
                self,
            ).lock.waiters,
    {
        if attempt.poll(&mut self.lock, irq, waker) {
            Some(FutureRwLockReadGuard)
        } else {
            None
        }
    }

    /// One resume of a write attempt started by [`FutureRwLock::write`]: as
    /// [`FutureRwLock::poll_read`], for the write permit.
    pub fn poll_write(
        &mut self,
        attempt: &mut AcquireFuture,
        irq: &mut IrqState,
        waker: u64,
    ) -> (g: Option<FutureRwLockWriteGuard>)
        requires
            old(self).wf(),
            old(attempt).node.req is Write,
            old(attempt).node.waker is Some ==> old(attempt).node.waker == Some(waker),
            N::push_ok(*old(irq)),
        ensures
            final(self).wf(),
            final(self).data == old(self).data,
            final(attempt).node.req is Write,
            final(attempt).node.waker == Some(waker),
            g is Some <==> old(self).lock.permit == 0,
            g is Some ==> final(self).lock.permit == WRITER && final(self).lock.waiters == old(
                self,
            ).lock.waiters && *final(irq) == N::push_spec(*old(irq)),
            g is None ==> final(self).lock.permit == old(self).lock.permit && *final(irq) == *old(
                irq,
            ) && final(attempt).node.queued,
            g is None && !old(attempt).node.queued ==> final(self).lock.waiters@ == old(
                self,
            ).lock.waiters@.push(final(attempt).node),
            g is None && old(attempt).node.queued ==> final(self).lock.waiters == old(
                self,
            ).lock.waiters,
    {
        if attempt.poll(&mut self.lock, irq, waker) {
            Some(FutureRwLockWriteGuard)
        } else {
            None
        }
    }

    /// Try to take a read permit: succeeds exactly when no writer holds the
    /// lock; never blocks. On failure nothing changes, the interrupt state
    /// included. On success the reader count has grown by one — one per
    /// outstanding, unreleased read guard.
    pub fn try_read(&mut self, irq: &mut IrqState) -> (g: Option<FutureRwLockReadGuard>)
        requires
            old(self).wf(),
            old(self).lock.permit <= usize::MAX - READER,
            N::push_ok(*old(irq)),
        ensures
            final(self).wf(),
            final(self).data == old(self).data,
            final(self).lock.waiters == old(self).lock.waiters,
            g is Some <==> !old(self).lock.spec_writer(),
            g is Some ==> final(self).lock.spec_readers() == old(self).lock.spec_readers() + 1
                && !final(self).lock.spec_writer() && *final(irq) == N::push_spec(*old(irq)),
            g is None ==> *final(self) == *old(self) && *final(irq) == *old(irq),
    {
        match self.lock.try_acquire_read(irq) {
            Ok(_) => Some(FutureRwLockReadGuard),
            Err(_) => None,
        }
    }

    /// The blocking read path: spin until a read permit is taken. A lock not
    /// held by a writer is required — spinning behind one's own writer would
    /// never terminate.
    pub fn spin_read(&mut self, irq: &mut IrqState) -> (g: FutureRwLockReadGuard)
        requires
            old(self).wf(),
            old(self).lock.permit <= usize::MAX - READER,
            !old(self).lock.spec_writer(),
            N::push_ok(*old(irq)),
        ensures
            final(self).wf(),
            final(self).data == old(self).data,
            final(self).lock.waiters == old(self).lock.waiters,
            final(self).lock.spec_readers() == old(self).lock.spec_readers() + 1,
            !final(self).lock.spec_writer(),
            *final(irq) == N::push_spec(*old(irq)),
    {
        loop
            invariant
                self.wf(),
                self.lock.permit <= usize::MAX - READER,
                !self.lock.spec_writer(),
                self.data == old(self).data,
                self.lock == old(self).lock,
                N::push_ok(*irq),
                *irq == *old(irq),
            decreases 1int,
        {
            match self.try_read(irq) {
                Some(guard) => {
                    return guard;
                },
                None => (),
            }
        }
    }

    /// Try to take the write permit: succeeds exactly when the lock is
    /// entirely free; never blocks.
    fn try_write(&mut self, irq: &mut IrqState) -> (g: Option<FutureRwLockWriteGuard>)
        requires
            old(self).wf(),
            N::push_ok(*old(irq)),
        ensures
            final(self).wf(),
            final(self).data == old(self).data,
            final(self).lock.waiters == old(self).lock.waiters,
            g is Some <==> old(self).lock.permit == 0,
            g is Some ==> final(self).lock.permit == WRITER && *final(irq) == N::push_spec(
                *old(irq),
            ),
            g is None ==> *final(self) == *old(self) && *final(irq) == *old(irq),
    {
        match self.lock.try_acquire_write(irq) {
            Ok(_) => Some(FutureRwLockWriteGuard),
            Err(_) => None,
        }
    }

    /// The blocking write path: spin until the write permit is taken. A free
    /// lock is required — spinning behind one's own permit would never
    /// terminate.
    pub fn spin_write(&mut self, irq: &mut IrqState) -> (g: FutureRwLockWriteGuard)
        requires
            old(self).wf(),
            old(self).lock.permit == 0,
            N::push_ok(*old(irq)),
        ensures
            final(self).wf(),
            final(self).data == old(self).data,
            final(self).lock.waiters == old(self).lock.waiters,
            final(self).lock.permit == WRITER,
            *final(irq) == N::push_spec(*old(irq)),
    {
        loop
            invariant
                self.wf(),
                self.lock.permit == 0,
                self.data == old(self).data,
                self.lock == old(self).lock,
                N::push_ok(*irq),
                *irq == *old(irq),
            decreases 1int,
        {
            match self.try_write(irq) {
                Some(guard) => {
                    return guard;
                },
                None => (),
            }
        }
    }

    /// The number of outstanding read permits.
    pub fn reader_count(&self) -> (n: usize)
        ensures
            n == self.lock.spec_readers(),
    {
        self.lock.reader_count()
    }

    /// One if the write permit is held, zero otherwise.
    pub fn writer_count(&self) -> (n: usize)
        ensures
            n == if self.lock.spec_writer() {
                1int
            } else {
                0int
            },
    {
        self.lock.writer_count()
    }

    /// Borrow the payload mutably. No locking is needed: `&mut self` proves
    /// no other reference exists.
    pub fn get_mut(&mut self) -> (data: &mut T)
        ensures
            *data == old(self).data,
            final(self).lock == old(self).lock,
            final(self).data == *final(data),
    {
        &mut self.data
    }
}

impl FutureRwLockReadGuard {
    /// Release one read permit, consuming the guard. If this reader was the
    /// last holder, the engine's wake policy runs; the woken handles are
    /// handed back.
    pub fn release<T, N: NestStrategy>(
        self,
        lock: &mut FutureRwLock<T, N>,
        irq: &mut IrqState,
    ) -> (woken: Vec<u64>)
        requires
            old(lock).wf(),
            old(lock).lock.spec_readers() >= 1,
            !old(lock).lock.spec_writer(),
            N::pop_ok(*old(irq)),
        ensures
            final(lock).wf(),
            final(lock).data == old(lock).data,
            final(lock).lock.spec_readers() == old(lock).lock.spec_readers() - 1,
            !final(lock).lock.spec_writer(),
            *final(irq) == N::pop_spec(*old(irq)),
            old(lock).lock.spec_readers() == 1 ==> woken@ == wake_next_woken(
                old(lock).lock.waiters@,
            ) && final(lock).lock.waiters@ == wake_next_rest(old(lock).lock.waiters@),
            old(lock).lock.spec_readers() != 1 ==> woken@.len() == 0 && final(lock).lock.waiters
                == old(lock).lock.waiters,
    {
        lock.lock.release_read(irq)
    }
}

impl FutureRwLockWriteGuard {
    /// Release the write permit, consuming the guard; the engine's wake
    /// policy runs and the woken handles are handed back.
    pub fn release<T, N: NestStrategy>(
        self,
        lock: &mut FutureRwLock<T, N>,
        irq: &mut IrqState,
    ) -> (woken: Vec<u64>)
        requires
            old(lock).wf(),
            old(lock).lock.spec_writer(),
            N::pop_ok(*old(irq)),
        ensures
            final(lock).wf(),
            final(lock).data == old(lock).data,
            final(lock).lock.permit == 0,
            *final(irq) == N::pop_spec(*old(irq)),
            woken@ == wake_next_woken(old(lock).lock.waiters@),
            final(lock).lock.waiters@ == wake_next_rest(old(lock).lock.waiters@),
    {
        lock.lock.release_write(irq)
    }
}

} // verus!
