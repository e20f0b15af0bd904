//! The dual-channel ownership lock: two independent single-owner locks
//! addressed by execution-context tag.
//!
//! There is deliberately no coordination between the channels: code running
//! in interrupt context takes the interrupt channel and never contends with a
//! normal-context holder, so an interrupt preempting code that holds the
//! normal channel cannot deadlock against it.

use vstd::prelude::*;

use crate::nest::NestStrategy;
use core::marker::PhantomData;

verus! {

/// The execution context a critical section runs in, selecting which channel
/// of the lock it takes.
#[derive(Clone, Copy, PartialEq, Eq, Structural, Debug)]
pub enum LockChannel {
    Normal,
    Interrupt,
}

/// A dual-channel lock protecting a payload of type `T`.
pub struct MCSLock<T, N: NestStrategy> {
    /// Whether the normal channel is held.
    pub locked_normal: bool,
    /// Whether the interrupt channel is held.
    pub locked_interrupt: bool,
    /// The protected payload.
    pub data: T,
    /// The interrupt-masking strategy of the embedding environment.
    pub nest: PhantomData<N>,
}

/// The token held while one channel is owned; returned to [`MCSLock::unlock`]
/// exactly once.
pub struct MCSLockGuard {
    /// The channel this guard holds.
    pub channel: LockChannel,
}

impl<T, N: NestStrategy> MCSLock<T, N> {
    /// Whether the given channel is held.
    pub open spec fn spec_locked(&self, channel: LockChannel) -> bool {
        match channel {
            LockChannel::Normal => self.locked_normal,
            LockChannel::Interrupt => self.locked_interrupt,
        }
    }

    /// A fresh lock with both channels free, owning `data`.
    pub fn new(data: T) -> (m: Self)
        ensures
            !m.locked_normal,
            !m.locked_interrupt,
            m.data == data,
    {
        MCSLock { locked_normal: false, locked_interrupt: false, data, nest: PhantomData }
    }

    /// Consume the lock and hand the payload back. No locking is needed:
    /// ownership proves no other reference exists.
    pub fn into_inner(self) -> (data: T)
        ensures
            data == self.data,
    {
        self.data
    }

    /// Acquire the selected channel. The same logical owner acquiring its
    /// channel twice would spin forever (the lock is not reentrant), so a
    /// held channel is ruled out by the precondition; the other channel is
    /// left entirely alone.
    pub fn lock(&mut self, channel: LockChannel) -> (g: MCSLockGuard)
        requires
            !old(self).spec_locked(channel),
        ensures
            final(self).spec_locked(channel),
            g.channel == channel,
            final(self).data == old(self).data,
            forall|c: LockChannel| c != channel ==> final(self).spec_locked(c) == old(
                self,
            ).spec_locked(c),
    {
        match channel {
            LockChannel::Normal => self.locked_normal = true,
            LockChannel::Interrupt => self.locked_interrupt = true,
        }
        MCSLockGuard { channel }
    }

    /// Try to acquire the selected channel: succeeds exactly when that
    /// channel is free; never blocks and never touches the other channel.
    pub fn try_lock(&mut self, channel: LockChannel) -> (g: Option<MCSLockGuard>)
        ensures
            final(self).data == old(self).data,
            g is Some <==> !old(self).spec_locked(channel),
            g is Some ==> g->0.channel == channel && final(self).spec_locked(channel),
            g is None ==> *final(self) == *old(self),
            forall|c: LockChannel| c != channel ==> final(self).spec_locked(c) == old(
                self,
            ).spec_locked(c),
    {
        let held = self.is_locked(channel);
        if !held {
            match channel {
                LockChannel::Normal => self.locked_normal = true,
                LockChannel::Interrupt => self.locked_interrupt = true,
            }
            Some(MCSLockGuard { channel })
        } else {
            None
        }
    }

    /// Release the channel the guard holds, consuming the guard.
    pub fn unlock(&mut self, g: MCSLockGuard)
        requires
            old(self).spec_locked(g.channel),
        ensures
            !final(self).spec_locked(g.channel),
            final(self).data == old(self).data,
            forall|c: LockChannel| c != g.channel ==> final(self).spec_locked(c) == old(
                self,
            ).spec_locked(c),
    {
        match g.channel {
            LockChannel::Normal => self.locked_normal = false,
            LockChannel::Interrupt => self.locked_interrupt = false,
        }
    }

    /// Borrow the payload mutably. No locking is needed: `&mut self` proves
    /// no other reference exists.
    pub fn get_mut(&mut self) -> (data: &mut T)
        ensures
            *data == old(self).data,
            final(self).locked_normal == old(self).locked_normal,
            final(self).locked_interrupt == old(self).locked_interrupt,
            final(self).data == *final(data),
    {
        &mut self.data
    }

    /// Whether the selected channel is currently held.
    pub fn is_locked(&self, channel: LockChannel) -> (r: bool)
        ensures
            r == self.spec_locked(channel),
    {
        match channel {
            LockChannel::Normal => self.locked_normal,
            LockChannel::Interrupt => self.locked_interrupt,
        }
    }
}

} // verus!
