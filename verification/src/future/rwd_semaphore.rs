//! The three-tier semaphore engine: reader/writer/disk occupancy encoded in
//! one permit word, with the upgrade/downgrade protocol between tiers.
//!
//! Permit-word layout: bit 0 is disk-exclusive-held, bit 1 is writer-held;
//! the reader count is held in the bits from bit 2 up, stepped by [`READER`].
//! Writer-held and disk-held exclude each other and any reader.
//!
//! A successful acquire masks interrupts through the nest strategy for as
//! long as the permit is held; a failed attempt restores the interrupt state
//! exactly. Upgrades and downgrades trade one held tier for another, so they
//! leave the interrupt state alone.
//!
//! Release and downgrade operations return the wake handles of the waiters
//! they woke; the driver resumes those requests, which re-validate against
//! the live permit word — being woken never hands over the permit itself.

use vstd::prelude::*;

use crate::nest::{IrqState, NestStrategy};
use core::marker::PhantomData;

pub use crate::future::waiter::{AcquireType, Waiter};
use crate::future::waiter::{
    drain_readers, non_readers, queue_wf, reader_handles, wake_next, wake_next_rest,
    wake_next_woken,
};

verus! {

/// One reader's step in the permit word.
pub const READER: usize = 4;

/// The writer-held bit.
pub const WRITER: usize = 2;

/// The disk-exclusive-held bit.
pub const DISK: usize = 1;

/// Result of a tier transition: `Ok` on success, `Err` carrying the
/// conflicting permit word the attempt observed.
pub type AcquireResult = Result<(), usize>;

/// A three-tier acquire can proceed when `t` does not collide with the
/// holders recorded in the permit word `w`: a reader needs the writer and
/// disk bits clear, a writer or disk holder needs the word all-clear.
pub open spec fn rwd_can_acquire(w: usize, t: AcquireType) -> bool {
    match t {
        AcquireType::Read => w as int % READER as int == 0,
        AcquireType::Write => w == 0,
        AcquireType::Disk => w == 0,
    }
}

/// The permit word after a successful three-tier acquire of `t`.
pub open spec fn rwd_acquired(w: usize, t: AcquireType) -> int {
    match t {
        AcquireType::Read => w + READER,
        AcquireType::Write => WRITER as int,
        AcquireType::Disk => DISK as int,
    }
}

/// The three-tier semaphore: the permit word and the FIFO queue of parked
/// waiters, with the nest strategy chosen by the embedding environment.
pub struct RwdSemaphore<N: NestStrategy> {
    /// The permit word, sole source of truth for tier occupancy.
    pub permit: usize,
    /// Parked waiters, in arrival order.
    pub waiters: Vec<Waiter>,
    /// The interrupt-masking strategy.
    pub nest: PhantomData<N>,
}

impl<N: NestStrategy> RwdSemaphore<N> {
    /// Readers recorded in the permit word.
    pub open spec fn spec_readers(&self) -> int {
        self.permit as int / READER as int
    }

    /// Whether the permit word records a writer.
    pub open spec fn spec_writer(&self) -> bool {
        (self.permit as int / 2) % 2 == 1
    }

    /// Whether the permit word records a disk-exclusive holder.
    pub open spec fn spec_disk(&self) -> bool {
        self.permit as int % 2 == 1
    }

    /// Well-formed: the permit word is the writer bit alone, the disk bit
    /// alone, or a pure reader count — the tiers exclude one another — and
    /// every parked waiter carries a wake handle.
    pub open spec fn wf(&self) -> bool {
        &&& self.permit == WRITER || self.permit == DISK || self.permit as int % READER as int == 0
        &&& queue_wf(self.waiters@)
    }

    /// A fresh semaphore: all-clear permit, empty queue.
    pub fn new() -> (s: Self)
        ensures
            s.permit == 0,
            s.waiters@.len() == 0,
            s.wf(),
    {
        RwdSemaphore { permit: 0, waiters: Vec::new(), nest: PhantomData }
    }

    /// Start one read acquisition attempt: a resumable computation that polls
    /// this semaphore on every resume.
    pub fn acquire_read(&self) -> (f: AcquireFuture)
        ensures
            f.node == (Waiter { req: AcquireType::Read, waker: None, queued: false }),
    {
        AcquireFuture { node: Waiter::new(AcquireType::Read) }
    }

    /// Start one write acquisition attempt.
    pub fn acquire_write(&self) -> (f: AcquireFuture)
        ensures
            f.node == (Waiter { req: AcquireType::Write, waker: None, queued: false }),
    {
        AcquireFuture { node: Waiter::new(AcquireType::Write) }
    }

    /// Start one disk acquisition attempt.
    pub fn acquire_disk(&self) -> (f: AcquireFuture)
        ensures
            f.node == (Waiter { req: AcquireType::Disk, waker: None, queued: false }),
    {
        AcquireFuture { node: Waiter::new(AcquireType::Disk) }
    }

    /// Try to take one reader step: add the step, and undo it (restoring the
    /// interrupt state) if a writer or disk holder held the permit. Succeeds
    /// exactly when both exclusive bits are clear; never blocks. On failure
    /// the conflicting pre-increment word is returned.
    pub fn try_acquire_read(&mut self, irq: &mut IrqState) -> (r: AcquireResult)
        requires
            old(self).wf(),
            old(self).permit <= usize::MAX - READER,
            N::push_ok(*old(irq)),
        ensures
            final(self).wf(),
            final(self).waiters == old(self).waiters,
            r is Ok <==> rwd_can_acquire(old(self).permit, AcquireType::Read),
            r is Ok ==> final(self).permit == old(self).permit + READER && *final(irq)
                == N::push_spec(*old(irq)),
            r is Err ==> final(self).permit == old(self).permit && *final(irq) == *old(irq) && r
                == Err::<(), usize>(old(self).permit),
    {
        let ghost irq0 = *irq;
        N::push_off(irq);
        let value = self.permit;
        self.permit = self.permit + READER;
        if value % READER != 0 {
            self.permit = self.permit - READER;
            proof {
                N::push_pop_inverse(irq0);
            }
            N::pop_off(irq);
            Err(value)
        } else {
            Ok(())
        }
    }

    /// Try to take the writer bit: succeeds exactly when the permit word is
    /// all-clear; never blocks. On failure the interrupt state is restored
    /// and the conflicting word is returned.
    pub fn try_acquire_write(&mut self, irq: &mut IrqState) -> (r: AcquireResult)
        requires
            old(self).wf(),
            N::push_ok(*old(irq)),
        ensures
            final(self).wf(),
            final(self).waiters == old(self).waiters,
            r is Ok <==> rwd_can_acquire(old(self).permit, AcquireType::Write),
            r is Ok ==> final(self).permit == WRITER && *final(irq) == N::push_spec(*old(irq)),
            r is Err ==> final(self).permit == old(self).permit && *final(irq) == *old(irq) && r
                == Err::<(), usize>(old(self).permit),
    {
        let ghost irq0 = *irq;
        N::push_off(irq);
        if self.permit == 0 {
            self.permit = WRITER;
            Ok(())
        } else {
            proof {
                N::push_pop_inverse(irq0);
            }
            N::pop_off(irq);
            Err(self.permit)
        }
    }

    /// Try to take the disk bit: succeeds exactly when the permit word is
    /// all-clear; never blocks. On failure the interrupt state is restored
    /// and the conflicting word is returned.
    pub fn try_acquire_disk(&mut self, irq: &mut IrqState) -> (r: AcquireResult)
        requires
            old(self).wf(),
            N::push_ok(*old(irq)),
        ensures
            final(self).wf(),
            final(self).waiters == old(self).waiters,
            r is Ok <==> rwd_can_acquire(old(self).permit, AcquireType::Disk),
            r is Ok ==> final(self).permit == DISK && *final(irq) == N::push_spec(*old(irq)),
            r is Err ==> final(self).permit == old(self).permit && *final(irq) == *old(irq) && r
                == Err::<(), usize>(old(self).permit),
    {
        let ghost irq0 = *irq;
        N::push_off(irq);
        if self.permit == 0 {
            self.permit = DISK;
            Ok(())
        } else {
            proof {
                N::push_pop_inverse(irq0);
            }
            N::pop_off(irq);
            Err(self.permit)
        }
    }

    /// Downgrade the held exclusive tier (`old`, the writer or disk bit) to a
    /// single reader step. On success the path to read-sharing just opened,
    /// so every queued reader is woken; the handles are returned with the
    /// result. Fails with the conflicting word if the permit is not exactly
    /// `old`.
    pub fn try_downgrade_read(&mut self, old_word: usize) -> (r: Result<Vec<u64>, usize>)
        requires
            old(self).wf(),
            old_word == WRITER || old_word == DISK,
        ensures
            final(self).wf(),
            r is Ok <==> old(self).permit == old_word,
            r is Ok ==> final(self).permit == READER && (r->Ok_0)@ == reader_handles(
                old(self).waiters@,
            ) && final(self).waiters@ == non_readers(old(self).waiters@),
            r is Err ==> *final(self) == *old(self) && r == Err::<Vec<u64>, usize>(
                old(self).permit,
            ),
    {
        if self.permit == old_word {
            self.permit = READER;
            let woken = drain_readers(&mut self.waiters);
            Ok(woken)
        } else {
            Err(self.permit)
        }
    }

    /// Downgrade the held disk bit (`old`) to the writer bit. Fails with the
    /// conflicting word if the permit is not exactly `old`.
    pub fn try_downgrade_write(&mut self, old_word: usize) -> (r: AcquireResult)
        requires
            old(self).wf(),
            old_word == DISK,
        ensures
            final(self).wf(),
            final(self).waiters == old(self).waiters,
            r is Ok <==> old(self).permit == old_word,
            r is Ok ==> final(self).permit == WRITER,
            r is Err ==> final(self).permit == old(self).permit && r == Err::<(), usize>(
                old(self).permit,
            ),
    {
        if self.permit == old_word {
            self.permit = WRITER;
            Ok(())
        } else {
            Err(self.permit)
        }
    }

    /// Upgrade the held tier (`old`, the writer bit or a single reader step)
    /// to the disk bit. Fails with the conflicting word if the permit is not
    /// exactly `old` — in particular while any other reader is outstanding.
    pub fn try_upgrade_disk(&mut self, old_word: usize) -> (r: AcquireResult)
        requires
            old(self).wf(),
            old_word == WRITER || old_word == READER,
        ensures
            final(self).wf(),
            final(self).waiters == old(self).waiters,
            r is Ok <==> old(self).permit == old_word,
            r is Ok ==> final(self).permit == DISK,
            r is Err ==> final(self).permit == old(self).permit && r == Err::<(), usize>(
                old(self).permit,
            ),
    {
        if self.permit == old_word {
            self.permit = DISK;
            Ok(())
        } else {
            Err(self.permit)
        }
    }

    /// Upgrade a single held reader step (`old`) to the writer bit. Fails
    /// with the conflicting word if the permit is not exactly `old` — in
    /// particular while any other reader is outstanding.
    pub fn try_upgrade_write(&mut self, old_word: usize) -> (r: AcquireResult)
        requires
            old(self).wf(),
            old_word == READER,
        ensures
            final(self).wf(),
            final(self).waiters == old(self).waiters,
            r is Ok <==> old(self).permit == old_word,
            r is Ok ==> final(self).permit == WRITER,
            r is Err ==> final(self).permit == old(self).permit && r == Err::<(), usize>(
                old(self).permit,
            ),
    {
        if self.permit == old_word {
            self.permit = WRITER;
            Ok(())
        } else {
            Err(self.permit)
        }
    }

    /// Upgrade a held reader step to the exclusive tier `new`: succeeds only
    /// when the caller's own step is the last one left and no writer or disk
    /// holder is recorded; otherwise the caller keeps its read permit and the
    /// observed word comes back. Another outstanding reader therefore fails
    /// the upgrade — the caller retries once that reader releases.
    fn read_upgrade(&mut self, new: usize) -> (r: AcquireResult)
        requires
            old(self).wf(),
            old(self).spec_readers() >= 1,
            new == WRITER || new == DISK,
        ensures
            final(self).wf(),
            final(self).waiters == old(self).waiters,
            r is Ok <==> old(self).permit == READER,
            r is Ok ==> final(self).permit == new,
            r is Err ==> final(self).permit == old(self).permit && r == Err::<(), usize>(
                old(self).permit,
            ),
    {
        if self.permit == READER {
            self.permit = new;
            Ok(())
        } else {
            Err(self.permit)
        }
    }

    /// Upgrade one held reader step (`old`) to the writer bit, waiting out no
    /// one: with other readers outstanding the attempt fails and the caller
    /// keeps its read permit.
    pub fn read_upgrade_write(&mut self, old_word: usize) -> (r: AcquireResult)
        requires
            old(self).wf(),
            old(self).spec_readers() >= 1,
            old_word == READER,
        ensures
            final(self).wf(),
            final(self).waiters == old(self).waiters,
            r is Ok <==> old(self).permit == READER,
            r is Ok ==> final(self).permit == WRITER,
            r is Err ==> final(self).permit == old(self).permit && r == Err::<(), usize>(
                old(self).permit,
            ),
    {
        self.read_upgrade(WRITER)
    }

    /// Upgrade one held reader step (`old`) to the disk bit; fails while any
    /// other reader is outstanding.
    pub fn read_upgrade_disk(&mut self, old_word: usize) -> (r: AcquireResult)
        requires
            old(self).wf(),
            old(self).spec_readers() >= 1,
            old_word == READER,
        ensures
            final(self).wf(),
            final(self).waiters == old(self).waiters,
            r is Ok <==> old(self).permit == READER,
            r is Ok ==> final(self).permit == DISK,
            r is Err ==> final(self).permit == old(self).permit && r == Err::<(), usize>(
                old(self).permit,
            ),
    {
        self.read_upgrade(DISK)
    }

    /// One resume step of a parked or fresh request: retry the raw acquire
    /// once and, if it still fails, park the waiter (at most once — the
    /// enqueued flag makes repeated polls idempotent).
    pub fn poll_acquire(&mut self, irq: &mut IrqState, node: &mut Waiter) -> (r: AcquireResult)
        requires
            old(self).wf(),
            old(node).req is Read ==> old(self).permit <= usize::MAX - READER,
            old(node).waker is Some,
            N::push_ok(*old(irq)),
        ensures
            final(self).wf(),
            final(node).req == old(node).req,
            final(node).waker == old(node).waker,
            r is Ok <==> rwd_can_acquire(old(self).permit, old(node).req),
            r is Ok ==> final(self).permit == rwd_acquired(old(self).permit, old(node).req)
                && final(self).waiters == old(self).waiters && *final(node) == *old(node)
                && *final(irq) == N::push_spec(*old(irq)),
            r is Err ==> final(self).permit == old(self).permit && *final(irq) == *old(irq)
                && final(node).queued && r == Err::<(), usize>(old(self).permit),
            r is Err && !old(node).queued ==> final(self).waiters@ == old(self).waiters@.push(
                *final(node),
            ),
            r is Err && old(node).queued ==> final(self).waiters == old(self).waiters
                && *final(node) == *old(node),
    {
        let res = match node.req {
            AcquireType::Read => self.try_acquire_read(irq),
            AcquireType::Write => self.try_acquire_write(irq),
            AcquireType::Disk => self.try_acquire_disk(irq),
        };
        if res.is_err() {
            if !node.queued {
                node.queued = true;
                self.waiters.push(*node);
            }
        }
        res
    }

    /// Release one reader step. If this reader was the last holder, run the
    /// wake policy and hand back the woken handles.
    pub fn release_read(&mut self, irq: &mut IrqState) -> (woken: Vec<u64>)
        requires
            old(self).wf(),
            old(self).permit >= READER,
            N::pop_ok(*old(irq)),
        ensures
            final(self).wf(),
            final(self).permit == old(self).permit - READER,
            *final(irq) == N::pop_spec(*old(irq)),
            old(self).permit == READER ==> woken@ == wake_next_woken(old(self).waiters@)
                && final(self).waiters@ == wake_next_rest(old(self).waiters@),
            old(self).permit != READER ==> woken@.len() == 0 && final(self).waiters == old(
                self,
            ).waiters,
    {
        let old_permit = self.permit;
        self.permit = self.permit - READER;
        let woken = if old_permit == READER {
            wake_next(&mut self.waiters)
        } else {
            Vec::new()
        };
        N::pop_off(irq);
        woken
    }

    /// Release the writer bit, run the wake policy, and hand back the woken
    /// handles.
    pub fn release_write(&mut self, irq: &mut IrqState) -> (woken: Vec<u64>)
        requires
            old(self).wf(),
            old(self).spec_writer(),
            N::pop_ok(*old(irq)),
        ensures
            final(self).wf(),
            final(self).permit == 0,
            *final(irq) == N::pop_spec(*old(irq)),
            woken@ == wake_next_woken(old(self).waiters@),
            final(self).waiters@ == wake_next_rest(old(self).waiters@),
    {
        self.permit = self.permit - WRITER;
        let woken = wake_next(&mut self.waiters);
        N::pop_off(irq);
        woken
    }

    /// Release the disk bit, run the wake policy, and hand back the woken
    /// handles.
    pub fn release_disk(&mut self, irq: &mut IrqState) -> (woken: Vec<u64>)
        requires
            old(self).wf(),
            old(self).spec_disk(),
            N::pop_ok(*old(irq)),
        ensures
            final(self).wf(),
            final(self).permit == 0,
            *final(irq) == N::pop_spec(*old(irq)),
            woken@ == wake_next_woken(old(self).waiters@),
            final(self).waiters@ == wake_next_rest(old(self).waiters@),
    {
        self.permit = self.permit - DISK;
        let woken = wake_next(&mut self.waiters);
        N::pop_off(irq);
        woken
    }

    /// The number of readers the permit word records.
    pub fn reader_count(&self) -> (n: usize)
        ensures
            n == self.spec_readers(),
    {
        self.permit / READER
    }

    /// One if a writer holds the permit, zero otherwise.
    pub fn writer_count(&self) -> (n: usize)
        ensures
            n == if self.spec_writer() {
                1int
            } else {
                0int
            },
    {
        (self.permit % READER) / WRITER
    }

    /// One if a disk-exclusive holder holds the permit, zero otherwise.
    pub fn disk_count(&self) -> (n: usize)
        ensures
            n == if self.spec_disk() {
                1int
            } else {
                0int
            },
    {
        (self.permit % 2) / DISK
    }

    /// The raw permit word, for diagnostics.
    pub fn get_permit(&self) -> (w: usize)
        ensures
            w == self.permit,
    {
        self.permit
    }
}

impl<N: NestStrategy> Default for RwdSemaphore<N> {
    /// A fresh semaphore, as [`RwdSemaphore::new`] builds it.
    fn default() -> (s: Self)
        ensures
            s.permit == 0,
            s.waiters@.len() == 0,
            s.wf(),
    {
        Self::new()
    }
}

/// The permit word after releasing a held `t`, the inverse of
/// [`rwd_acquired`]: a release clears exactly what its acquire set.
pub open spec fn rwd_released(w: int, t: AcquireType) -> int {
    match t {
        AcquireType::Read => w - READER,
        AcquireType::Write => w - WRITER,
        AcquireType::Disk => w - DISK,
    }
}

/// One acquire-then-release unit: a successful acquire of `t` followed by its
/// matching release; an acquire that cannot proceed changes nothing.
pub open spec fn rwd_pair_step(w: usize, t: AcquireType) -> usize {
    if rwd_can_acquire(w, t) && w <= usize::MAX - READER {
        rwd_released(rwd_acquired(w, t), t) as usize
    } else {
        w
    }
}

/// A whole sequence of acquire-then-release units, applied in order.
pub open spec fn rwd_run_pairs(w: usize, ts: Seq<AcquireType>) -> usize
    decreases ts.len(),
{
    if ts.len() == 0 {
        w
    } else {
        rwd_run_pairs(rwd_pair_step(w, ts[0]), ts.drop_first())
    }
}

/// No leaked bit: one acquire of any tier followed by its matching release
/// returns the permit word exactly to its starting value, and therefore any
/// sequence of acquire-then-release units does too — started all-clear, the
/// word ends all-clear.
pub proof fn lemma_no_leaked_bit(w: usize, ts: Seq<AcquireType>)
    ensures
        forall|t: AcquireType| #[trigger] rwd_pair_step(w, t) == w,
        rwd_run_pairs(w, ts) == w,
    decreases ts.len(),
{
    if ts.len() > 0 {
        lemma_no_leaked_bit(rwd_pair_step(w, ts[0]), ts.drop_first());
    }
}

/// Mutual exclusion: a well-formed permit word never shows a writer together
/// with any reader or disk holder, nor a disk holder together with any reader
/// or writer. Every operation of the engine ensures well-formedness, so every
/// reachable state satisfies this.
pub proof fn lemma_mutual_exclusion<N: NestStrategy>(s: RwdSemaphore<N>)
    requires
        s.wf(),
    ensures
        s.spec_writer() ==> s.spec_readers() == 0 && !s.spec_disk(),
        s.spec_disk() ==> s.spec_readers() == 0 && !s.spec_writer(),
{
}

/// A read-to-exclusive upgrade is enabled exactly when the upgrading reader
/// is the sole holder: with a second reader still outstanding the permit word
/// cannot equal one reader step, so `read_upgrade_write` and
/// `read_upgrade_disk` fail and the caller keeps its read permit; once every
/// other reader has released, the word is exactly one step and the upgrade
/// succeeds.
pub proof fn lemma_upgrade_needs_sole_reader<N: NestStrategy>(s: RwdSemaphore<N>)
    requires
        s.wf(),
    ensures
        s.permit == READER <==> s.spec_readers() == 1 && !s.spec_writer() && !s.spec_disk(),
        s.spec_readers() >= 2 ==> s.permit != READER,
{
}

/// Downgrading a held exclusive tier to read never passes through all-clear:
/// the word goes straight to one reader step, which is not all-clear, and at
/// that word a second reader's acquire is already enabled — read-sharing
/// opens without any other contender slipping in between.
pub proof fn lemma_downgrade_opens_sharing()
    ensures
        READER != 0,
        rwd_can_acquire(READER, AcquireType::Read),
        rwd_acquired(READER, AcquireType::Read) == 2 * READER,
{
}

/// One acquisition attempt as a resumable computation: each resume registers
/// the wake handle (first resume only) and polls the semaphore once.
pub struct AcquireFuture {
    /// The waiter this attempt may park in the semaphore's queue.
    pub node: Waiter,
}

impl AcquireFuture {
    /// One resume with wake handle `waker`: capture the handle on the first
    /// resume (append-only — resuming the same attempt with a different
    /// handle is a driver bug, ruled out by the precondition), then poll the
    /// semaphore. Returns true when the permit was acquired.
    pub fn poll<N: NestStrategy>(
        &mut self,
        sem: &mut RwdSemaphore<N>,
        irq: &mut IrqState,
        waker: u64,
    ) -> (ready: bool)
        requires
            old(sem).wf(),
            old(self).node.req is Read ==> old(sem).permit <= usize::MAX - READER,
            N::push_ok(*old(irq)),
            old(self).node.waker is Some ==> old(self).node.waker == Some(waker),
        ensures
            final(sem).wf(),
            final(self).node.req == old(self).node.req,
            final(self).node.waker == Some(waker),
            ready <==> rwd_can_acquire(old(sem).permit, old(self).node.req),
            ready ==> final(sem).permit == rwd_acquired(old(sem).permit, old(self).node.req)
                && final(sem).waiters == old(sem).waiters && *final(irq) == N::push_spec(
                *old(irq),
            ),
            !ready ==> final(sem).permit == old(sem).permit && *final(irq) == *old(irq)
                && final(self).node.queued,
            !ready && !old(self).node.queued ==> final(sem).waiters@ == old(sem).waiters@.push(
                final(self).node,
            ),
            !ready && old(self).node.queued ==> final(sem).waiters == old(sem).waiters,
    {
        if self.node.waker.is_none() {
            self.node.waker = Some(waker);
        }
        match sem.poll_acquire(irq, &mut self.node) {
            Ok(_) => true,
            Err(_) => false,
        }
    }
}

} // verus!
