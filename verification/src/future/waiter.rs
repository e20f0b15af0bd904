//! Parked acquisition requests and the wake policy shared by the tiered
//! semaphore engines.
//!
//! A [`Waiter`] records the tier a parked request asked for, the wake handle
//! registered on its first suspension, and a single-use "already enqueued"
//! flag. The queue is FIFO across all tiers; the wake policy pops the head
//! and, when the head is a reader, additionally wakes and removes every other
//! queued reader wherever it stands in the queue (writer and disk waiters keep
//! their places and are woken one at a time). Waking every queued reader, even
//! one parked behind a writer, is the engine's deliberate reader-coalescing
//! policy; it can favour readers over an earlier-queued writer.

use vstd::prelude::*;

verus! {

/// The tier an acquisition request asks for.
#[derive(Clone, Copy, PartialEq, Eq, Structural, Debug)]
pub enum AcquireType {
    Read,
    Write,
    Disk,
}

/// A parked request: the tier it wants, the wake handle registered on first
/// suspension (absent until then, never replaced afterwards), and whether the
/// request already sits in the queue.
#[derive(Clone, Copy, PartialEq, Eq, Structural, Debug)]
pub struct Waiter {
    /// The requested tier.
    pub req: AcquireType,
    /// The wake handle, by identity; `None` until the first suspension.
    pub waker: Option<u64>,
    /// Set once, when the request is first enqueued.
    pub queued: bool,
}

impl Waiter {
    /// A fresh request for `req`: no wake handle yet, not enqueued.
    pub fn new(req: AcquireType) -> (w: Waiter)
        ensures
            w == (Waiter { req, waker: None, queued: false }),
    {
        Waiter { req, waker: None, queued: false }
    }

    /// Hand out this waiter's wake handle. A waiter that reached the queue
    /// with no registered handle is a fatal caller error, ruled out here by
    /// the precondition (the queue invariant supplies it).
    pub fn wake(&self) -> (h: u64)
        requires
            self.waker is Some,
        ensures
            h == self.waker->0,
    {
        match self.waker {
            Some(h) => h,
            None => unreached(),
        }
    }
}

/// Every parked waiter has a wake handle and carries its enqueued mark.
pub open spec fn queue_wf(q: Seq<Waiter>) -> bool {
    forall|i: int| 0 <= i < q.len() ==> (#[trigger] q[i]).waker is Some && q[i].queued
}

/// The wake handles of the reader waiters of `q`, in queue order.
pub open spec fn reader_handles(q: Seq<Waiter>) -> Seq<u64>
    decreases q.len(),
{
    if q.len() == 0 {
        Seq::empty()
    } else {
        reader_handles(q.drop_last()) + if q.last().req is Read {
            seq![q.last().waker->0]
        } else {
            Seq::<u64>::empty()
        }
    }
}

/// The waiters of `q` that are not readers, in queue order.
pub open spec fn non_readers(q: Seq<Waiter>) -> Seq<Waiter>
    decreases q.len(),
{
    if q.len() == 0 {
        Seq::empty()
    } else {
        non_readers(q.drop_last()) + if q.last().req is Read {
            Seq::<Waiter>::empty()
        } else {
            seq![q.last()]
        }
    }
}

/// The handles woken by one release: the head, and — when the head is a
/// reader — every other queued reader as well.
pub open spec fn wake_next_woken(q: Seq<Waiter>) -> Seq<u64> {
    if q.len() == 0 {
        Seq::empty()
    } else if q[0].req is Read {
        seq![q[0].waker->0] + reader_handles(q.drop_first())
    } else {
        seq![q[0].waker->0]
    }
}

/// The queue left behind by one release.
pub open spec fn wake_next_rest(q: Seq<Waiter>) -> Seq<Waiter> {
    if q.len() == 0 {
        q
    } else if q[0].req is Read {
        non_readers(q.drop_first())
    } else {
        q.drop_first()
    }
}

/// `non_readers` keeps only waiters of `q`, so its well-formedness carries
/// over.
pub proof fn lemma_non_readers_wf(q: Seq<Waiter>)
    requires
        queue_wf(q),
    ensures
        queue_wf(non_readers(q)),
        forall|i: int| 0 <= i < non_readers(q).len() ==> !((#[trigger] non_readers(q)[i]).req
            is Read),
    decreases q.len(),
{
    if q.len() > 0 {
        lemma_non_readers_wf(q.drop_last());
    }
}

/// Wake and remove every queued reader, keeping the other waiters in order;
/// the handles come back in queue order.
pub(crate) fn drain_readers(waiters: &mut Vec<Waiter>) -> (woken: Vec<u64>)
    requires
        queue_wf(old(waiters)@),
    ensures
        woken@ == reader_handles(old(waiters)@),
        final(waiters)@ == non_readers(old(waiters)@),
        queue_wf(final(waiters)@),
{
    let ghost q = waiters@;
    let mut woken: Vec<u64> = Vec::new();
    let mut kept: Vec<Waiter> = Vec::new();
    let mut i: usize = 0;
    while i < waiters.len()
        invariant
            queue_wf(q),
            waiters@ == q,
            i <= q.len(),
            woken@ == reader_handles(q.take(i as int)),
            kept@ == non_readers(q.take(i as int)),
        decreases q.len() - i,
    {
        let w = waiters[i];
        proof {
            assert(q.take(i + 1).drop_last() =~= q.take(i as int));
            assert(q.take(i + 1).last() == q[i as int]);
        }
        if matches!(w.req, AcquireType::Read) {
            let h = w.wake();
            woken.push(h);
        } else {
            kept.push(w);
        }
        i = i + 1;
    }
    proof {
        assert(q.take(q.len() as int) =~= q);
        lemma_non_readers_wf(q);
    }
    *waiters = kept;
    woken
}

/// The wake step of a release that drained its tier: pop the head waiter and
/// wake it; when the head is a reader, also wake and remove every other
/// queued reader (writer and disk waiters stay queued, in order).
pub(crate) fn wake_next(waiters: &mut Vec<Waiter>) -> (woken: Vec<u64>)
    requires
        queue_wf(old(waiters)@),
    ensures
        woken@ == wake_next_woken(old(waiters)@),
        final(waiters)@ == wake_next_rest(old(waiters)@),
        queue_wf(final(waiters)@),
{
    let mut woken: Vec<u64> = Vec::new();
    if waiters.len() == 0 {
        return woken;
    }
    let head = waiters.remove(0);
    let h = head.wake();
    woken.push(h);
    if matches!(head.req, AcquireType::Read) {
        let mut more = drain_readers(waiters);
        woken.append(&mut more);
    }
    woken
}

} // verus!
