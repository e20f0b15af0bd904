//! The classic single-owner spin lock, with interrupt masking while held.
//!
//! Acquiring masks interrupts through the nest strategy; releasing (or a
//! failed `try_lock`) restores them. The guard is an explicit token standing
//! for exit-scoped ownership: the holder passes it back to
//! [`SpinMutex::unlock`] exactly once, on every path out of its critical
//! section.

use vstd::prelude::*;

use crate::nest::{IrqState, NestStrategy};
use core::marker::PhantomData;

verus! {

/// A spin lock protecting a payload of type `T`.
pub struct SpinMutex<T, N: NestStrategy> {
    /// Whether the lock is held.
    pub locked: bool,
    /// The protected payload.
    pub data: T,
    /// The interrupt-masking strategy.
    pub nest: PhantomData<N>,
}

/// The token held while the lock is owned; returned to [`SpinMutex::unlock`]
/// exactly once.
pub struct SpinMutexGuard;

impl<T, N: NestStrategy> SpinMutex<T, N> {
    /// A fresh, unlocked mutex owning `data`.
    pub fn new(data: T) -> (m: Self)
        ensures
            !m.locked,
            m.data == data,
    {
        SpinMutex { locked: false, data, nest: PhantomData }
    }

    /// Consume the mutex and hand the payload back. No locking is needed:
    /// ownership proves no other reference exists.
    pub fn into_inner(self) -> (data: T)
        ensures
            data == self.data,
    {
        self.data
    }

    /// Acquire the lock. The same logical owner acquiring twice would spin
    /// forever (the lock is not reentrant), so a held lock is ruled out by
    /// the precondition.
    pub fn lock(&mut self, irq: &mut IrqState) -> (g: SpinMutexGuard)
        requires
            !old(self).locked,
            N::push_ok(*old(irq)),
        ensures
            final(self).locked,
            final(self).data == old(self).data,
            *final(irq) == N::push_spec(*old(irq)),
    {
        N::push_off(irq);
        self.locked = true;
        SpinMutexGuard
    }

    /// Try to acquire the lock: succeeds exactly when it is free; never
    /// blocks. On failure the interrupt state is restored.
    pub fn try_lock(&mut self, irq: &mut IrqState) -> (g: Option<SpinMutexGuard>)
        requires
            N::push_ok(*old(irq)),
        ensures
            final(self).data == old(self).data,
            g is Some <==> !old(self).locked,
            g is Some ==> final(self).locked && *final(irq) == N::push_spec(*old(irq)),
            g is None ==> *final(self) == *old(self) && *final(irq) == *old(irq),
    {
        let ghost irq0 = *irq;
        N::push_off(irq);
        if !self.locked {
            self.locked = true;
            Some(SpinMutexGuard)
        } else {
            proof {
                N::push_pop_inverse(irq0);
            }
            N::pop_off(irq);
            None
        }
    }

    /// Release the lock, consuming the guard and restoring the interrupt
    /// state.
    pub fn unlock(&mut self, g: SpinMutexGuard, irq: &mut IrqState) -> (woken: ())
        requires
            old(self).locked,
            N::pop_ok(*old(irq)),
        ensures
            !final(self).locked,
            final(self).data == old(self).data,
            *final(irq) == N::pop_spec(*old(irq)),
    {
        self.locked = false;
        N::pop_off(irq);
    }

    /// Borrow the payload mutably. No locking is needed: `&mut self` proves
    /// no other reference exists.
    pub fn get_mut(&mut self) -> (data: &mut T)
        ensures
            *data == old(self).data,
            final(self).locked == old(self).locked,
            final(self).data == *final(data),
    {
        &mut self.data
    }

    /// Whether the lock is currently held.
    pub fn is_locked(&self) -> (r: bool)
        ensures
            r == self.locked,
    {
        self.locked
    }
}

} // verus!
