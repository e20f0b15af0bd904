//! A dual-channel mutex over the two-tier engine: one independent writer
//! permit per execution context.
//!
//! As with the plain dual-channel lock, there is no coordination between the
//! channels: interrupt-context critical sections take the interrupt channel
//! and never wait behind a normal-context holder.

use vstd::prelude::*;

use crate::future::rw_semaphore::{AcquireFuture, RwSemaphore, WRITER};
use crate::future::waiter::{wake_next_rest, wake_next_woken, AcquireType, Waiter};
use crate::nest::{IrqState, NestStrategy};
use crate::spinlock::mcslock::LockChannel;

verus! {

/// A dual-channel mutex protecting a payload of type `T`.
pub struct FutureMCSLock<T, N: NestStrategy> {
    /// The engine guarding normal-context critical sections.
    pub lock_normal: RwSemaphore<N>,
    /// The engine guarding interrupt-context critical sections.
    pub lock_interrupt: RwSemaphore<N>,
    /// The protected payload.
    pub data: T,
}

/// The token held while one channel is owned; returned to
/// [`FutureMCSLock::unlock`] exactly once.
pub struct FutureMCSLockGuard {
    /// The channel this guard holds.
    pub channel: LockChannel,
}

impl<T, N: NestStrategy> FutureMCSLock<T, N> {
    /// The engine of the given channel.
    pub open spec fn spec_channel(&self, channel: LockChannel) -> RwSemaphore<N> {
        match channel {
            LockChannel::Normal => self.lock_normal,
            LockChannel::Interrupt => self.lock_interrupt,
        }
    }

    /// Well-formed: both engines are.
    pub open spec fn wf(&self) -> bool {
        self.lock_normal.wf() && self.lock_interrupt.wf()
    }

    /// A fresh lock with both channels free, owning `data`.
    pub fn new(data: T) -> (m: Self)
        ensures
            m.wf(),
            m.lock_normal.permit == 0,
            m.lock_interrupt.permit == 0,
            m.lock_normal.waiters@.len() == 0,
            m.lock_interrupt.waiters@.len() == 0,
            m.data == data,
    {
        FutureMCSLock { lock_normal: RwSemaphore::new(), lock_interrupt: RwSemaphore::new(), data }
    }

    /// Consume the lock and hand the payload back. No locking is needed:
    /// ownership proves no other reference exists.
    pub fn into_inner(self) -> (data: T)
        ensures
            data == self.data,
    {
        self.data
    }

    /// Start one acquisition attempt for the selected channel: a resumable
    /// computation that polls that channel's writer permit on every resume.
    pub fn lock(&self, channel: LockChannel) -> (f: AcquireFuture)
        ensures
            f.node == (Waiter { req: AcquireType::Write, waker: None, queued: false }),
    {
        match channel {
            LockChannel::Normal => self.lock_normal.acquire_write(),
            LockChannel::Interrupt => self.lock_interrupt.acquire_write(),
        }
    }

    /// One resume of an acquisition attempt started by
    /// [`FutureMCSLock::lock`] for the same channel: registers the wake
    /// handle (first resume only), polls that channel's writer permit, and
    /// hands out the guard when it was taken. While the channel is held the
    /// attempt parks (once) and `None` comes back; the other channel is never
    /// touched.
    pub fn poll_lock(
        &mut self,
        channel: LockChannel,
        attempt: &mut AcquireFuture,
        irq: &mut IrqState,
        waker: u64,
    ) -> (g: Option<FutureMCSLockGuard>)
        requires
            old(self).wf(),
            old(attempt).node.req is Write,
            old(attempt).node.waker is Some ==> old(attempt).node.waker == Some(waker),
            N::push_ok(*old(irq)),
        ensures
            final(self).wf(),
            final(self).data == old(self).data,
            final(attempt).node.req is Write,
            final(attempt).node.waker == Some(waker),
            g is Some <==> old(self).spec_channel(channel).permit == 0,
            g is Some ==> g->0.channel == channel && final(self).spec_channel(channel).permit
                == WRITER && final(self).spec_channel(channel).waiters == old(self).spec_channel(
                channel,
            ).waiters && *final(irq) == N::push_spec(*old(irq)),
            g is None ==> final(self).spec_channel(channel).permit == old(self).spec_channel(
                channel,
            ).permit && *final(irq) == *old(irq) && final(attempt).node.queued,
            g is None && !old(attempt).node.queued ==> final(self).spec_channel(channel).waiters@
                == old(self).spec_channel(channel).waiters@.push(final(attempt).node),
            g is None && old(attempt).node.queued ==> final(self).spec_channel(channel).waiters
                == old(self).spec_channel(channel).waiters,
            forall|c: LockChannel| c != channel ==> final(self).spec_channel(c) == old(
                self,
            ).spec_channel(c),
    {
        let ready = match channel {
            LockChannel::Normal => attempt.poll(&mut self.lock_normal, irq, waker),
            LockChannel::Interrupt => attempt.poll(&mut self.lock_interrupt, irq, waker),
        };
        if ready {
            Some(FutureMCSLockGuard { channel })
        } else {
            None
        }
    }

    /// Try to take the selected channel: succeeds exactly when that channel
    /// is free; never blocks and never touches the other channel. On failure
    /// nothing changes, the interrupt state included.
    pub fn try_lock(&mut self, channel: LockChannel, irq: &mut IrqState) -> (g: Option<
        FutureMCSLockGuard,
    >)
        requires
            old(self).wf(),
            N::push_ok(*old(irq)),
        ensures
            final(self).wf(),
            final(self).data == old(self).data,
            g is Some <==> old(self).spec_channel(channel).permit == 0,
            g is Some ==> g->0.channel == channel && final(self).spec_channel(channel).permit
                == WRITER && final(self).spec_channel(channel).waiters == old(self).spec_channel(
                channel,
            ).waiters && *final(irq) == N::push_spec(*old(irq)),
            g is None ==> *final(self) == *old(self) && *final(irq) == *old(irq),
            forall|c: LockChannel| c != channel ==> final(self).spec_channel(c) == old(
                self,
            ).spec_channel(c),
    {
        let r = match channel {
            LockChannel::Normal => self.lock_normal.try_acquire_write(irq),
            LockChannel::Interrupt => self.lock_interrupt.try_acquire_write(irq),
        };
        match r {
            Ok(_) => Some(FutureMCSLockGuard { channel }),
            Err(_) => None,
        }
    }

    /// The blocking path: spin until the selected channel is taken. A free
    /// channel is required — the same logical owner spinning on its own
    /// channel would never terminate.
    pub fn spin_lock(&mut self, channel: LockChannel, irq: &mut IrqState) -> (g:
        FutureMCSLockGuard)
        requires
            old(self).wf(),
            old(self).spec_channel(channel).permit == 0,
            N::push_ok(*old(irq)),
        ensures
            final(self).wf(),
            final(self).data == old(self).data,
            g.channel == channel,
            final(self).spec_channel(channel).permit == WRITER,
            final(self).spec_channel(channel).waiters == old(self).spec_channel(channel).waiters,
            *final(irq) == N::push_spec(*old(irq)),
            forall|c: LockChannel| c != channel ==> final(self).spec_channel(c) == old(
                self,
            ).spec_channel(c),
    {
        loop
            invariant
                self.wf(),
                self.spec_channel(channel).permit == 0,
                self.data == old(self).data,
                *self == *old(self),
                N::push_ok(*irq),
                *irq == *old(irq),
            decreases 1int,
        {
            match self.try_lock(channel, irq) {
                Some(guard) => {
                    return guard;
                },
                None => (),
            }
        }
    }

    /// Release the channel the guard holds, consuming the guard; that
    /// channel's wake policy runs and the woken handles are handed back.
    pub fn unlock(&mut self, g: FutureMCSLockGuard, irq: &mut IrqState) -> (woken: Vec<u64>)
        requires
            old(self).wf(),
            old(self).spec_channel(g.channel).spec_writer(),
            N::pop_ok(*old(irq)),
        ensures
            final(self).wf(),
            final(self).data == old(self).data,
            final(self).spec_channel(g.channel).permit == 0,
            *final(irq) == N::pop_spec(*old(irq)),
            woken@ == wake_next_woken(old(self).spec_channel(g.channel).waiters@),
            final(self).spec_channel(g.channel).waiters@ == wake_next_rest(
                old(self).spec_channel(g.channel).waiters@,
            ),
            forall|c: LockChannel| c != g.channel ==> final(self).spec_channel(c) == old(
                self,
            ).spec_channel(c),
    {
        match g.channel {
            LockChannel::Normal => self.lock_normal.release_write(irq),
            LockChannel::Interrupt => self.lock_interrupt.release_write(irq),
        }
    }

    /// Borrow the payload mutably. No locking is needed: `&mut self` proves
    /// no other reference exists.
    pub fn get_mut(&mut self) -> (data: &mut T)
        ensures
            *data == old(self).data,
            final(self).lock_normal == old(self).lock_normal,
            final(self).lock_interrupt == old(self).lock_interrupt,
            final(self).data == *final(data),
    {
        &mut self.data
    }
}

} // verus!
