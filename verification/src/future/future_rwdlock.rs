//! A reader/writer/disk lock over the three-tier engine: shared read access,
//! exclusive write access, or disk-exclusive access to a payload, with
//! suspend/resume, try and spin acquisition paths and the full
//! upgrade/downgrade protocol between the tiers.
//!
//! Guards are explicit tokens; each is consumed exactly once, by its release
//! or by a transition to another tier. A failed upgrade hands the read guard
//! back unchanged — ownership is not consumed. Releases and the downgrades
//! that open the path to read-sharing hand back the wake handles of the
//! waiters they woke.

use vstd::prelude::*;

use crate::future::rwd_semaphore::{AcquireFuture, RwdSemaphore, DISK, READER, WRITER};
use crate::future::waiter::{
    non_readers, reader_handles, wake_next_rest, wake_next_woken, AcquireType, Waiter,
};
use crate::nest::{IrqState, NestStrategy};

verus! {

/// A reader/writer/disk lock protecting a payload of type `T`.
pub struct FutureRwdLock<T, N: NestStrategy> {
    /// The three-tier engine.
    pub lock: RwdSemaphore<N>,
    /// The protected payload.
    pub data: T,
}

/// The token held for shared access; consumed by its release or by an
/// upgrade.
pub struct FutureRwdLockReadGuard;

/// The token held for exclusive write access; consumed by its release, a
/// downgrade to read, or an upgrade to disk.
pub struct FutureRwdLockWriteGuard;

/// The token held for disk-exclusive access; consumed by its release or a
/// downgrade to write or read.
pub struct FutureRwdLockDiskGuard;

impl<T, N: NestStrategy> FutureRwdLock<T, N> {
    /// Well-formed: the engine is.
    pub open spec fn wf(&self) -> bool {
        self.lock.wf()
    }

    /// A fresh, unheld lock owning `data`.
    pub fn new(data: T) -> (l: Self)
        ensures
            l.wf(),
            l.lock.permit == 0,
            l.lock.waiters@.len() == 0,
            l.data == data,
    {
        FutureRwdLock { lock: RwdSemaphore::new(), data }
    }

    /// Consume the lock and hand the payload back. No locking is needed:
    /// ownership proves no other reference exists.
    pub fn into_inner(self) -> (data: T)
        ensures
            data == self.data,
    {
        self.data
    }

    /// Start one read acquisition attempt: a resumable computation that polls
    /// the engine on every resume.
    pub fn read(&self) -> (f: AcquireFuture)
        ensures
            f.node == (Waiter { req: AcquireType::Read, waker: None, queued: false }),
    {
        self.lock.acquire_read()
    }

    /// Start one write acquisition attempt.
    pub fn write(&self) -> (f: AcquireFuture)
        ensures
            f.node == (Waiter { req: AcquireType::Write, waker: None, queued: false }),
    {
        self.lock.acquire_write()
    }

    /// Start one disk acquisition attempt.
    pub fn disk(&self) -> (f: AcquireFuture)
        ensures
            f.node == (Waiter { req: AcquireType::Disk, waker: None, queued: false }),
    {
        self.lock.acquire_disk()
    }

    /// One resume of a read attempt started by [`FutureRwdLock::read`]:
    /// registers the wake handle (first resume only), polls the engine, and
    /// hands out the read guard when the permit was taken. While an exclusive
    /// tier holds the lock the attempt parks (once) and `None` comes back.
    pub fn poll_read(&mut self, attempt: &mut AcquireFuture, irq: &mut IrqState, waker: u64) -> (g:
        Option<FutureRwdLockReadGuard>)
        requires
            old(self).wf(),
            old(self).lock.permit <= usize::MAX - READER,
            old(attempt).node.req is Read,
            old(attempt).node.waker is Some ==> old(attempt).node.waker == Some(waker),
            N::push_ok(*old(irq)),
        ensures
            final(self).wf(),
            final(self).data == old(self).data,
            final(attempt).node.req is Read,
            final(attempt).node.waker == Some(waker),
            g is Some <==> !old(self).lock.spec_writer() && !old(self).lock.spec_disk(),
            g is Some ==> final(self).lock.spec_readers() == old(self).lock.spec_readers() + 1
                && !final(self).lock.spec_writer() && !final(self).lock.spec_disk()
                && final(self).lock.waiters == old(self).lock.waiters && *final(irq)
                == N::push_spec(*old(irq)),
            g is None ==> final(self).lock.permit == old(self).lock.permit && *final(irq) == *old(
                irq,
            ) && final(attempt).node.queued,
            g is None && !old(attempt).node.queued ==> final(self).lock.waiters@ == old(
                self,
            ).lock.waiters@.push(final(attempt).node),
            g is None && old(attempt).node.queued ==> final(self).lock.waiters == old(
                self,
            ).lock.waiters,
    {
        if attempt.poll(&mut self.lock, irq, waker) {
            Some(FutureRwdLockReadGuard)
        } else {
            None
        }
    }

    /// One resume of a write attempt started by [`FutureRwdLock::write`]: as
    /// [`FutureRwdLock::poll_read`], for the write permit.
    pub fn poll_write(
        &mut self,
        attempt: &mut AcquireFuture,
        irq: &mut IrqState,
        waker: u64,
    ) -> (g: Option<FutureRwdLockWriteGuard>)
        requires
            old(self).wf(),
            old(attempt).node.req is Write,
            old(attempt).node.waker is Some ==> old(attempt).node.waker == Some(waker),
            N::push_ok(*old(irq)),
        ensures
            final(self).wf(),
            final(self).data == old(self).data,
            final(attempt).node.req is Write,
            final(attempt).node.waker == Some(waker),
            g is Some <==> old(self).lock.permit == 0,
            g is Some ==> final(self).lock.permit == WRITER && final(self).lock.waiters == old(
                self,
            ).lock.waiters && *final(irq) == N::push_spec(*old(irq)),
            g is None ==> final(self).lock.permit == old(self).lock.permit && *final(irq) == *old(
                irq,
            ) && final(attempt).node.queued,
            g is None && !old(attempt).node.queued ==> final(self).lock.waiters@ == old(
                self,
            ).lock.waiters@.push(final(attempt).node),
            g is None && old(attempt).node.queued ==> final(self).lock.waiters == old(
                self,
            ).lock.waiters,
    {
        if attempt.poll(&mut self.lock, irq, waker) {
            Some(FutureRwdLockWriteGuard)
        } else {
            None
        }
    }

    /// One resume of a disk attempt started by [`FutureRwdLock::disk`]: as
    /// [`FutureRwdLock::poll_read`], for the disk permit.
    pub fn poll_disk(&mut self, attempt: &mut AcquireFuture, irq: &mut IrqState, waker: u64) -> (g:
        Option<FutureRwdLockDiskGuard>)
        requires
            old(self).wf(),
            old(attempt).node.req is Disk,
            old(attempt).node.waker is Some ==> old(attempt).node.waker == Some(waker),
            N::push_ok(*old(irq)),
        ensures
            final(self).wf(),
            final(self).data == old(self).data,
            final(attempt).node.req is Disk,
            final(attempt).node.waker == Some(waker),
            g is Some <==> old(self).lock.permit == 0,
            g is Some ==> final(self).lock.permit == DISK && final(self).lock.waiters == old(
                self,
            ).lock.waiters && *final(irq) == N::push_spec(*old(irq)),
            g is None ==> final(self).lock.permit == old(self).lock.permit && *final(irq) == *old(
                irq,
            ) && final(attempt).node.queued,
            g is None && !old(attempt).node.queued ==> final(self).lock.waiters@ == old(
                self,
            ).lock.waiters@.push(final(attempt).node),
            g is None && old(attempt).node.queued ==> final(self).lock.waiters == old(
                self,
            ).lock.waiters,
    {
        if attempt.poll(&mut self.lock, irq, waker) {
            Some(FutureRwdLockDiskGuard)
        } else {
            None
        }
    }

    /// Try to take a read permit: succeeds exactly when neither exclusive
    /// tier holds the lock; never blocks. On failure nothing changes, the
    /// interrupt state included. On success the reader count has grown by
    /// one — one per outstanding, unreleased read guard.
    pub fn try_read(&mut self, irq: &mut IrqState) -> (g: Option<FutureRwdLockReadGuard>)
        requires
            old(self).wf(),
            old(self).lock.permit <= usize::MAX - READER,
            N::push_ok(*old(irq)),
        ensures
            final(self).wf(),
            final(self).data == old(self).data,
            final(self).lock.waiters == old(self).lock.waiters,
            g is Some <==> !old(self).lock.spec_writer() && !old(self).lock.spec_disk(),
            g is Some ==> final(self).lock.spec_readers() == old(self).lock.spec_readers() + 1
                && !final(self).lock.spec_writer() && !final(self).lock.spec_disk() && *final(irq)
                == N::push_spec(*old(irq)),
            g is None ==> *final(self) == *old(self) && *final(irq) == *old(irq),
    {
        match self.lock.try_acquire_read(irq) {
            Ok(_) => Some(FutureRwdLockReadGuard),
            Err(_) => None,
        }
    }

    /// The blocking read path: spin until a read permit is taken. A lock not
    /// held by a writer or disk holder is required — spinning behind one's
    /// own exclusive permit would never terminate.
    pub fn spin_read(&mut self, irq: &mut IrqState) -> (g: FutureRwdLockReadGuard)
        requires
            old(self).wf(),
            old(self).lock.permit <= usize::MAX - READER,
            !old(self).lock.spec_writer(),
            !old(self).lock.spec_disk(),
            N::push_ok(*old(irq)),
        ensures
            final(self).wf(),
            final(self).data == old(self).data,
            final(self).lock.waiters == old(self).lock.waiters,
            final(self).lock.spec_readers() == old(self).lock.spec_readers() + 1,
            !final(self).lock.spec_writer(),
            !final(self).lock.spec_disk(),
            *final(irq) == N::push_spec(*old(irq)),
    {
        loop
            invariant
                self.wf(),
                self.lock.permit <= usize::MAX - READER,
                !self.lock.spec_writer(),
                !self.lock.spec_disk(),
                self.data == old(self).data,
                self.lock == old(self).lock,
                N::push_ok(*irq),
                *irq == *old(irq),
            decreases 1int,
        {
            match self.try_read(irq) {
                Some(guard) => {
                    return guard;
                },
                None => (),
            }
        }
    }

    /// Try to take the write permit: succeeds exactly when the lock is
    /// entirely free; never blocks.
    pub fn try_write(&mut self, irq: &mut IrqState) -> (g: Option<FutureRwdLockWriteGuard>)
        requires
            old(self).wf(),
            N::push_ok(*old(irq)),
        ensures
            final(self).wf(),
            final(self).data == old(self).data,
            final(self).lock.waiters == old(self).lock.waiters,
            g is Some <==> old(self).lock.permit == 0,
            g is Some ==> final(self).lock.permit == WRITER && *final(irq) == N::push_spec(
                *old(irq),
            ),
            g is None ==> *final(self) == *old(self) && *final(irq) == *old(irq),
    {
        match self.lock.try_acquire_write(irq) {
            Ok(_) => Some(FutureRwdLockWriteGuard),
            Err(_) => None,
        }
    }

    /// The blocking write path: spin until the write permit is taken. A free
    /// lock is required — spinning behind one's own permit would never
    /// terminate.
    pub fn spin_write(&mut self, irq: &mut IrqState) -> (g: FutureRwdLockWriteGuard)
        requires
            old(self).wf(),
            old(self).lock.permit == 0,
            N::push_ok(*old(irq)),
        ensures
            final(self).wf(),
            final(self).data == old(self).data,
            final(self).lock.waiters == old(self).lock.waiters,
            final(self).lock.permit == WRITER,
            *final(irq) == N::push_spec(*old(irq)),
    {
        loop
            invariant
                self.wf(),
                self.lock.permit == 0,
                self.data == old(self).data,
                self.lock == old(self).lock,
                N::push_ok(*irq),
                *irq == *old(irq),
            decreases 1int,
        {
            match self.try_write(irq) {
                Some(guard) => {
                    return guard;
                },
                None => (),
            }
        }
    }

    /// Try to take the disk permit: succeeds exactly when the lock is
    /// entirely free; never blocks.
    pub fn try_disk(&mut self, irq: &mut IrqState) -> (g: Option<FutureRwdLockDiskGuard>)
        requires
            old(self).wf(),
            N::push_ok(*old(irq)),
        ensures
            final(self).wf(),
            final(self).data == old(self).data,
            final(self).lock.waiters == old(self).lock.waiters,
            g is Some <==> old(self).lock.permit == 0,
            g is Some ==> final(self).lock.permit == DISK && *final(irq) == N::push_spec(
                *old(irq),
            ),
            g is None ==> *final(self) == *old(self) && *final(irq) == *old(irq),
    {
        match self.lock.try_acquire_disk(irq) {
            Ok(_) => Some(FutureRwdLockDiskGuard),
            Err(_) => None,
        }
    }

    /// The blocking disk path: spin until the disk permit is taken. A free
    /// lock is required — spinning behind one's own permit would never
    /// terminate.
    pub fn spin_disk(&mut self, irq: &mut IrqState) -> (g: FutureRwdLockDiskGuard)
        requires
            old(self).wf(),
            old(self).lock.permit == 0,
            N::push_ok(*old(irq)),
        ensures
            final(self).wf(),
            final(self).data == old(self).data,
            final(self).lock.waiters == old(self).lock.waiters,
            final(self).lock.permit == DISK,
            *final(irq) == N::push_spec(*old(irq)),
    {
        loop
            invariant
                self.wf(),
                self.lock.permit == 0,
                self.data == old(self).data,
                self.lock == old(self).lock,
                N::push_ok(*irq),
                *irq == *old(irq),
            decreases 1int,
        {
            match self.try_disk(irq) {
                Some(guard) => {
                    return guard;
                },
                None => (),
            }
        }
    }

    /// The number of outstanding read permits.
    pub fn reader_count(&self) -> (n: usize)
        ensures
            n == self.lock.spec_readers(),
    {
        self.lock.reader_count()
    }

    /// One if the write permit is held, zero otherwise.
    pub fn writer_count(&self) -> (n: usize)
        ensures
            n == if self.lock.spec_writer() {
                1int
            } else {
                0int
            },
    {
        self.lock.writer_count()
    }

    /// One if the disk permit is held, zero otherwise.
    pub fn disk_count(&self) -> (n: usize)
        ensures
            n == if self.lock.spec_disk() {
                1int
            } else {
                0int
            },
    {
        self.lock.disk_count()
    }

    /// Borrow the payload mutably. No locking is needed: `&mut self` proves
    /// no other reference exists.
    pub fn get_mut(&mut self) -> (data: &mut T)
        ensures
            *data == old(self).data,
            final(self).lock == old(self).lock,
            final(self).data == *final(data),
    {
        &mut self.data
    }
}

impl FutureRwdLockDiskGuard {
    /// Trade the held disk permit for one read permit, without passing
    /// through all-clear: no other contender can slip in between. The path to
    /// read-sharing just opened, so every queued reader is woken; the handles
    /// come back with the read guard.
    pub fn downgrade_read<T, N: NestStrategy>(self, lock: &mut FutureRwdLock<T, N>) -> (r: (
        FutureRwdLockReadGuard,
        Vec<u64>,
    ))
        requires
            old(lock).wf(),
            old(lock).lock.spec_disk(),
        ensures
            final(lock).wf(),
            final(lock).data == old(lock).data,
            final(lock).lock.permit == READER,
            r.1@ == reader_handles(old(lock).lock.waiters@),
            final(lock).lock.waiters@ == non_readers(old(lock).lock.waiters@),
    {
        let woken = match lock.lock.try_downgrade_read(DISK) {
            Ok(w) => w,
            Err(_) => unreached(),
        };
        (FutureRwdLockReadGuard, woken)
    }

    /// Trade the held disk permit for the write permit, without passing
    /// through all-clear.
    pub fn downgrade_write<T, N: NestStrategy>(self, lock: &mut FutureRwdLock<T, N>) -> (g:
        FutureRwdLockWriteGuard)
        requires
            old(lock).wf(),
            old(lock).lock.spec_disk(),
        ensures
            final(lock).wf(),
            final(lock).data == old(lock).data,
            final(lock).lock.permit == WRITER,
            final(lock).lock.waiters == old(lock).lock.waiters,
    {
        match lock.lock.try_downgrade_write(DISK) {
            Ok(_) => (),
            Err(_) => unreached(),
        }
        FutureRwdLockWriteGuard
    }

    /// Release the disk permit, consuming the guard; the engine's wake policy
    /// runs and the woken handles are handed back.
    pub fn release<T, N: NestStrategy>(
        self,
        lock: &mut FutureRwdLock<T, N>,
        irq: &mut IrqState,
    ) -> (woken: Vec<u64>)
        requires
            old(lock).wf(),
            old(lock).lock.spec_disk(),
            N::pop_ok(*old(irq)),
        ensures
            final(lock).wf(),
            final(lock).data == old(lock).data,
            final(lock).lock.permit == 0,
            *final(irq) == N::pop_spec(*old(irq)),
            woken@ == wake_next_woken(old(lock).lock.waiters@),
            final(lock).lock.waiters@ == wake_next_rest(old(lock).lock.waiters@),
    {
        lock.lock.release_disk(irq)
    }
}

impl FutureRwdLockWriteGuard {
    /// Trade the held write permit for one read permit, without passing
    /// through all-clear: no other contender can slip in between. The path to
    /// read-sharing just opened, so every queued reader is woken; the handles
    /// come back with the read guard.
    pub fn downgrade_read<T, N: NestStrategy>(self, lock: &mut FutureRwdLock<T, N>) -> (r: (
        FutureRwdLockReadGuard,
        Vec<u64>,
    ))
        requires
            old(lock).wf(),
            old(lock).lock.spec_writer(),
        ensures
            final(lock).wf(),
            final(lock).data == old(lock).data,
            final(lock).lock.permit == READER,
            r.1@ == reader_handles(old(lock).lock.waiters@),
            final(lock).lock.waiters@ == non_readers(old(lock).lock.waiters@),
    {
        let woken = match lock.lock.try_downgrade_read(WRITER) {
            Ok(w) => w,
            Err(_) => unreached(),
        };
        (FutureRwdLockReadGuard, woken)
    }

    /// Trade the held write permit for the disk permit, without passing
    /// through all-clear.
    pub fn upgrade_disk<T, N: NestStrategy>(self, lock: &mut FutureRwdLock<T, N>) -> (g:
        FutureRwdLockDiskGuard)
        requires
            old(lock).wf(),
            old(lock).lock.spec_writer(),
        ensures
            final(lock).wf(),
            final(lock).data == old(lock).data,
            final(lock).lock.permit == DISK,
            final(lock).lock.waiters == old(lock).lock.waiters,
    {
        match lock.lock.try_upgrade_disk(WRITER) {
            Ok(_) => (),
            Err(_) => unreached(),
        }
        FutureRwdLockDiskGuard
    }

    /// Release the write permit, consuming the guard; the engine's wake
    /// policy runs and the woken handles are handed back.
    pub fn release<T, N: NestStrategy>(
        self,
        lock: &mut FutureRwdLock<T, N>,
        irq: &mut IrqState,
    ) -> (woken: Vec<u64>)
        requires
            old(lock).wf(),
            old(lock).lock.spec_writer(),
            N::pop_ok(*old(irq)),
        ensures
            final(lock).wf(),
            final(lock).data == old(lock).data,
            final(lock).lock.permit == 0,
            *final(irq) == N::pop_spec(*old(irq)),
            woken@ == wake_next_woken(old(lock).lock.waiters@),
            final(lock).lock.waiters@ == wake_next_rest(old(lock).lock.waiters@),
    {
        lock.lock.release_write(irq)
    }
}

impl FutureRwdLockReadGuard {
    /// Try to trade the held read permit for the disk permit: succeeds
    /// exactly when this reader is the only holder. While another reader is
    /// outstanding the attempt fails and the read guard comes back unchanged
    /// — retry once the other readers release.
    pub fn try_upgrade_disk<T, N: NestStrategy>(self, lock: &mut FutureRwdLock<T, N>) -> (r:
        Result<FutureRwdLockDiskGuard, FutureRwdLockReadGuard>)
        requires
            old(lock).wf(),
            old(lock).lock.spec_readers() >= 1,
            !old(lock).lock.spec_writer(),
            !old(lock).lock.spec_disk(),
        ensures
            final(lock).wf(),
            final(lock).data == old(lock).data,
            final(lock).lock.waiters == old(lock).lock.waiters,
            r is Ok <==> old(lock).lock.spec_readers() == 1,
            r is Ok ==> final(lock).lock.permit == DISK,
            r is Err ==> *final(lock) == *old(lock),
    {
        match lock.lock.read_upgrade_disk(READER) {
            Ok(_) => Ok(FutureRwdLockDiskGuard),
            Err(_) => Err(self),
        }
    }

    /// Try to trade the held read permit for the write permit: succeeds
    /// exactly when this reader is the only holder. While another reader is
    /// outstanding the attempt fails and the read guard comes back unchanged
    /// — retry once the other readers release.
    pub fn try_upgrade_write<T, N: NestStrategy>(self, lock: &mut FutureRwdLock<T, N>) -> (r:
        Result<FutureRwdLockWriteGuard, FutureRwdLockReadGuard>)
        requires
            old(lock).wf(),
            old(lock).lock.spec_readers() >= 1,
            !old(lock).lock.spec_writer(),
            !old(lock).lock.spec_disk(),
        ensures
            final(lock).wf(),
            final(lock).data == old(lock).data,
            final(lock).lock.waiters == old(lock).lock.waiters,
            r is Ok <==> old(lock).lock.spec_readers() == 1,
            r is Ok ==> final(lock).lock.permit == WRITER,
            r is Err ==> *final(lock) == *old(lock),
    {
        match lock.lock.read_upgrade_write(READER) {
            Ok(_) => Ok(FutureRwdLockWriteGuard),
            Err(_) => Err(self),
        }
    }

    /// Release one read permit, consuming the guard. If this reader was the
    /// last holder, the engine's wake policy runs; the woken handles are
    /// handed back.
    pub fn release<T, N: NestStrategy>(
        self,
        lock: &mut FutureRwdLock<T, N>,
        irq: &mut IrqState,
    ) -> (woken: Vec<u64>)
        requires
            old(lock).wf(),
            old(lock).lock.spec_readers() >= 1,
            !old(lock).lock.spec_writer(),
            !old(lock).lock.spec_disk(),
            N::pop_ok(*old(irq)),
        ensures
            final(lock).wf(),
            final(lock).data == old(lock).data,
            final(lock).lock.spec_readers() == old(lock).lock.spec_readers() - 1,
            !final(lock).lock.spec_writer(),
            !final(lock).lock.spec_disk(),
            *final(irq) == N::pop_spec(*old(irq)),
            old(lock).lock.spec_readers() == 1 ==> woken@ == wake_next_woken(
                old(lock).lock.waiters@,
            ) && final(lock).lock.waiters@ == wake_next_rest(old(lock).lock.waiters@),
            old(lock).lock.spec_readers() != 1 ==> woken@.len() == 0 && final(lock).lock.waiters
                == old(lock).lock.waiters,
    {
        lock.lock.release_read(irq)
    }
}

} // verus!
