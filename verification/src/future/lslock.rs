//! The two-phase "long + short" composite lock.
//!
//! A long-running exclusive phase (the disk path) holds an outer mutex for
//! its whole duration while taking the inner reader/writer lock for the data;
//! ordinary readers and writers take the outer mutex only briefly, to order
//! themselves behind any long phase, and release it as soon as they hold the
//! inner lock. The long holder therefore excludes new readers and writers at
//! the outer mutex without keeping the inner lock's reader path closed to
//! concurrent readers already admitted.

use vstd::prelude::*;

use crate::future::future_mutex::{FutureMutex, FutureMutexGuard};
use crate::future::future_rwlock::{
    FutureRwLock, FutureRwLockReadGuard, FutureRwLockWriteGuard,
};
use crate::future::rw_semaphore::{READER, WRITER};
use crate::future::waiter::{wake_next_rest, wake_next_woken};
use crate::nest::{IrqState, NestStrategy};

verus! {

/// The composite lock protecting a payload of type `T`.
pub struct LsLock<T, N: NestStrategy> {
    /// The outer mutex a long phase holds for its whole duration.
    pub llock: FutureMutex<(), N>,
    /// The inner reader/writer lock on the payload.
    pub slock: FutureRwLock<T, N>,
}

/// The token of a long exclusive phase: the outer mutex and the inner write
/// permit, both held until released together.
pub struct LsLockLongGuard {
    lguard: FutureMutexGuard,
    sguard: FutureRwLockWriteGuard,
}

/// The token of a shared read phase: one inner read permit (the outer mutex
/// was already let go).
pub struct LsLockReadGuard {
    sguard: FutureRwLockReadGuard,
}

/// The token of a short exclusive phase: the inner write permit (the outer
/// mutex was already let go).
pub struct LsLockWriteGuard {
    sguard: FutureRwLockWriteGuard,
}

impl<T, N: NestStrategy> LsLock<T, N> {
    /// Well-formed: both parts are.
    pub open spec fn wf(&self) -> bool {
        self.llock.wf() && self.slock.wf()
    }

    /// A fresh, unheld lock owning `data`.
    pub fn new(data: T) -> (l: Self)
        ensures
            l.wf(),
            !l.llock.spec_is_locked(),
            l.llock.locked.waiters@.len() == 0,
            l.slock.lock.permit == 0,
            l.slock.lock.waiters@.len() == 0,
            l.slock.data == data,
    {
        LsLock { llock: FutureMutex::new(()), slock: FutureRwLock::new(data) }
    }

    /// Consume the lock and hand the payload back. No locking is needed:
    /// ownership proves no other reference exists.
    pub fn into_inner(self) -> (data: T)
        ensures
            data == self.slock.data,
    {
        let LsLock { llock: _, slock } = self;
        slock.into_inner()
    }

    /// Begin a long exclusive phase: take the outer mutex, then the inner
    /// write permit, and keep both. Requires the lock entirely free; a
    /// suspending driver instead polls the outer mutex's own acquisition
    /// future until it is ready before calling this.
    pub fn disk(&mut self, irq: &mut IrqState) -> (g: LsLockLongGuard)
        requires
            old(self).wf(),
            !old(self).llock.spec_is_locked(),
            old(self).slock.lock.permit == 0,
            N::push_ok(*old(irq)),
            N::push_ok(N::push_spec(*old(irq))),
        ensures
            final(self).wf(),
            final(self).llock.spec_is_locked(),
            final(self).slock.lock.permit == WRITER,
            final(self).slock.data == old(self).slock.data,
            final(self).llock.locked.waiters == old(self).llock.locked.waiters,
            final(self).slock.lock.waiters == old(self).slock.lock.waiters,
            *final(irq) == N::push_spec(N::push_spec(*old(irq))),
    {
        let lguard = self.llock.spin_lock(irq);
        let sguard = self.slock.spin_write(irq);
        LsLockLongGuard { lguard, sguard }
    }

    /// Try to begin a read phase: take the outer mutex, take an inner read
    /// permit, let the outer mutex go. Fails — changing nothing — while the
    /// outer mutex is held; fails letting the outer mutex go when a writer
    /// holds the inner lock. The handles its release woke come back with the
    /// result.
    pub fn try_read(&mut self, irq: &mut IrqState) -> (r: (Option<LsLockReadGuard>, Vec<u64>))
        requires
            old(self).wf(),
            old(self).slock.lock.permit <= usize::MAX - READER,
            N::push_ok(*old(irq)),
            N::push_ok(N::push_spec(*old(irq))),
        ensures
            final(self).wf(),
            final(self).slock.data == old(self).slock.data,
            final(self).slock.lock.waiters == old(self).slock.lock.waiters,
            r.0 is Some <==> !old(self).llock.spec_is_locked()
                && !old(self).slock.lock.spec_writer(),
            old(self).llock.spec_is_locked() ==> *final(self) == *old(self) && *final(irq) == *old(
                irq,
            ) && r.1@.len() == 0,
            !old(self).llock.spec_is_locked() ==> !final(self).llock.spec_is_locked()
                && r.1@ == wake_next_woken(old(self).llock.locked.waiters@)
                && final(self).llock.locked.waiters@ == wake_next_rest(
                old(self).llock.locked.waiters@,
            ),
            r.0 is Some ==> final(self).slock.lock.spec_readers() == old(
                self,
            ).slock.lock.spec_readers() + 1 && !final(self).slock.lock.spec_writer() && *final(irq)
                == N::push_spec(*old(irq)),
            r.0 is None && !old(self).llock.spec_is_locked() ==> final(self).slock.lock == old(
                self,
            ).slock.lock && *final(irq) == *old(irq),
    {
        let ghost irq0 = *irq;
        match self.llock.try_lock(irq) {
            None => (None, Vec::new()),
            Some(lguard) => {
                let got = self.slock.try_read(irq);
                proof {
                    N::push_pop_inverse(N::push_spec(irq0));
                    N::push_pop_inverse(irq0);
                }
                let woken = self.llock.unlock(lguard, irq);
                match got {
                    Some(sguard) => (Some(LsLockReadGuard { sguard }), woken),
                    None => (None, woken),
                }
            },
        }
    }

    /// The blocking read path: wait at the outer mutex, take an inner read
    /// permit, let it go. Requires both steps free of exclusive
    /// holders — spinning behind one's own permit would never terminate.
    pub fn spin_read(&mut self, irq: &mut IrqState) -> (r: (LsLockReadGuard, Vec<u64>))
        requires
            old(self).wf(),
            old(self).slock.lock.permit <= usize::MAX - READER,
            !old(self).llock.spec_is_locked(),
            !old(self).slock.lock.spec_writer(),
            N::push_ok(*old(irq)),
            N::push_ok(N::push_spec(*old(irq))),
        ensures
            final(self).wf(),
            final(self).slock.data == old(self).slock.data,
            final(self).slock.lock.waiters == old(self).slock.lock.waiters,
            !final(self).llock.spec_is_locked(),
            final(self).slock.lock.spec_readers() == old(self).slock.lock.spec_readers() + 1,
            !final(self).slock.lock.spec_writer(),
            r.1@ == wake_next_woken(old(self).llock.locked.waiters@),
            final(self).llock.locked.waiters@ == wake_next_rest(old(self).llock.locked.waiters@),
            *final(irq) == N::push_spec(*old(irq)),
    {
        let ghost irq0 = *irq;
        let lguard = self.llock.spin_lock(irq);
        let sguard = self.slock.spin_read(irq);
        proof {
            N::push_pop_inverse(N::push_spec(irq0));
            N::push_pop_inverse(irq0);
        }
        let woken = self.llock.unlock(lguard, irq);
        (LsLockReadGuard { sguard }, woken)
    }

    /// The blocking write path: wait at the outer mutex, take the inner write
    /// permit, let it go. Requires both steps free — spinning behind
    /// one's own permit would never terminate.
    pub fn spin_write(&mut self, irq: &mut IrqState) -> (r: (LsLockWriteGuard, Vec<u64>))
        requires
            old(self).wf(),
            !old(self).llock.spec_is_locked(),
            old(self).slock.lock.permit == 0,
            N::push_ok(*old(irq)),
            N::push_ok(N::push_spec(*old(irq))),
        ensures
            final(self).wf(),
            final(self).slock.data == old(self).slock.data,
            final(self).slock.lock.waiters == old(self).slock.lock.waiters,
            !final(self).llock.spec_is_locked(),
            final(self).slock.lock.permit == WRITER,
            r.1@ == wake_next_woken(old(self).llock.locked.waiters@),
            final(self).llock.locked.waiters@ == wake_next_rest(old(self).llock.locked.waiters@),
            *final(irq) == N::push_spec(*old(irq)),
    {
        let ghost irq0 = *irq;
        let lguard = self.llock.spin_lock(irq);
        let sguard = self.slock.spin_write(irq);
        proof {
            N::push_pop_inverse(N::push_spec(irq0));
            N::push_pop_inverse(irq0);
        }
        let woken = self.llock.unlock(lguard, irq);
        (LsLockWriteGuard { sguard }, woken)
    }

    /// The number of outstanding inner read permits.
    pub fn reader_count(&self) -> (n: usize)
        ensures
            n == self.slock.lock.spec_readers(),
    {
        self.slock.reader_count()
    }

    /// One if the inner write permit is held, zero otherwise.
    pub fn writer_count(&self) -> (n: usize)
        ensures
            n == if self.slock.lock.spec_writer() {
                1int
            } else {
                0int
            },
    {
        self.slock.writer_count()
    }

    /// Borrow the payload mutably. No locking is needed: `&mut self` proves
    /// no other reference exists.
    pub fn get_mut(&mut self) -> (data: &mut T)
        ensures
            *data == old(self).slock.data,
            final(self).llock == old(self).llock,
            final(self).slock.lock == old(self).slock.lock,
            final(self).slock.data == *final(data),
    {
        self.slock.get_mut()
    }
}

impl LsLockReadGuard {
    /// Release the inner read permit, consuming the guard; the handles woken
    /// by the inner lock's policy come back.
    pub fn release<T, N: NestStrategy>(
        self,
        lock: &mut LsLock<T, N>,
        irq: &mut IrqState,
    ) -> (woken: Vec<u64>)
        requires
            old(lock).wf(),
            old(lock).slock.lock.spec_readers() >= 1,
            !old(lock).slock.lock.spec_writer(),
            N::pop_ok(*old(irq)),
        ensures
            final(lock).wf(),
            final(lock).llock == old(lock).llock,
            final(lock).slock.data == old(lock).slock.data,
            final(lock).slock.lock.spec_readers() == old(lock).slock.lock.spec_readers() - 1,
            !final(lock).slock.lock.spec_writer(),
            *final(irq) == N::pop_spec(*old(irq)),
            old(lock).slock.lock.spec_readers() == 1 ==> woken@ == wake_next_woken(
                old(lock).slock.lock.waiters@,
            ) && final(lock).slock.lock.waiters@ == wake_next_rest(old(lock).slock.lock.waiters@),
            old(lock).slock.lock.spec_readers() != 1 ==> woken@.len() == 0
                && final(lock).slock.lock.waiters == old(lock).slock.lock.waiters,
    {
        self.sguard.release(&mut lock.slock, irq)
    }
}

impl LsLockWriteGuard {
    /// Release the inner write permit, consuming the guard; the handles woken
    /// by the inner lock's policy come back.
    pub fn release<T, N: NestStrategy>(
        self,
        lock: &mut LsLock<T, N>,
        irq: &mut IrqState,
    ) -> (woken: Vec<u64>)
        requires
            old(lock).wf(),
            old(lock).slock.lock.spec_writer(),
            N::pop_ok(*old(irq)),
        ensures
            final(lock).wf(),
            final(lock).llock == old(lock).llock,
            final(lock).slock.data == old(lock).slock.data,
            final(lock).slock.lock.permit == 0,
            *final(irq) == N::pop_spec(*old(irq)),
            woken@ == wake_next_woken(old(lock).slock.lock.waiters@),
            final(lock).slock.lock.waiters@ == wake_next_rest(old(lock).slock.lock.waiters@),
    {
        self.sguard.release(&mut lock.slock, irq)
    }
}

impl LsLockLongGuard {
    /// End the long phase: let the outer mutex go, then release the inner
    /// write permit, consuming the guard. The handles woken at the outer
    /// mutex come first, then those woken at the inner lock.
    pub fn release<T, N: NestStrategy>(
        self,
        lock: &mut LsLock<T, N>,
        irq: &mut IrqState,
    ) -> (woken: Vec<u64>)
        requires
            old(lock).wf(),
            old(lock).llock.locked.spec_writer(),
            old(lock).slock.lock.spec_writer(),
            N::pop_ok(*old(irq)),
            N::pop_ok(N::pop_spec(*old(irq))),
        ensures
            final(lock).wf(),
            final(lock).slock.data == old(lock).slock.data,
            !final(lock).llock.spec_is_locked(),
            final(lock).slock.lock.permit == 0,
            *final(irq) == N::pop_spec(N::pop_spec(*old(irq))),
            woken@ == wake_next_woken(old(lock).llock.locked.waiters@) + wake_next_woken(
                old(lock).slock.lock.waiters@,
            ),
            final(lock).llock.locked.waiters@ == wake_next_rest(old(lock).llock.locked.waiters@),
            final(lock).slock.lock.waiters@ == wake_next_rest(old(lock).slock.lock.waiters@),
    {
        let LsLockLongGuard { lguard, sguard } = self;
        let mut woken = lock.llock.unlock(lguard, irq);
        let mut more = sguard.release(&mut lock.slock, irq);
        woken.append(&mut more);
        woken
    }
}

} // verus!
