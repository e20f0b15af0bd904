//! The ticket lock: FIFO fairness through a take-a-number protocol, with
//! interrupt masking while held.
//!
//! `next_ticket` is the number the next arrival draws; `next_serving` is the
//! number currently admitted. The lock is free exactly when the two agree.

use vstd::prelude::*;

use crate::nest::{IrqState, NestStrategy};
use core::marker::PhantomData;

verus! {

/// A ticket lock protecting a payload of type `T`.
pub struct TicketMutex<T, N: NestStrategy> {
    /// The number the next arrival draws.
    pub next_ticket: usize,
    /// The number currently admitted.
    pub next_serving: usize,
    /// The protected payload.
    pub data: T,
    /// The interrupt-masking strategy.
    pub nest: PhantomData<N>,
}

/// The token held while the lock is owned: the holder's ticket number.
pub struct TicketMutexGuard {
    /// The number this holder drew.
    pub ticket: usize,
}

impl<T, N: NestStrategy> TicketMutex<T, N> {
    /// Whether the lock is held: a drawn ticket has not been served out.
    pub open spec fn spec_is_locked(&self) -> bool {
        self.next_ticket != self.next_serving
    }

    /// Well-formed: at most one ticket is outstanding (the model admits one
    /// holder at a time; contenders draw only when the counters agree).
    pub open spec fn wf(&self) -> bool {
        self.next_serving <= self.next_ticket <= self.next_serving + 1
    }

    /// A fresh, unlocked mutex owning `data`.
    pub fn new(data: T) -> (m: Self)
        ensures
            m.next_ticket == 0,
            m.next_serving == 0,
            m.data == data,
            m.wf(),
            !m.spec_is_locked(),
    {
        TicketMutex { next_ticket: 0, next_serving: 0, data, nest: PhantomData }
    }

    /// Consume the mutex and hand the payload back. No locking is needed:
    /// ownership proves no other reference exists.
    pub fn into_inner(self) -> (data: T)
        ensures
            data == self.data,
    {
        self.data
    }

    /// Draw a ticket and wait until it is served. The lock is not reentrant:
    /// a ticket drawn behind one's own holder is never served, so a held lock
    /// is ruled out by the precondition.
    pub fn lock(&mut self, irq: &mut IrqState) -> (g: TicketMutexGuard)
        requires
            old(self).wf(),
            !old(self).spec_is_locked(),
            old(self).next_ticket < usize::MAX,
            N::push_ok(*old(irq)),
        ensures
            final(self).wf(),
            final(self).spec_is_locked(),
            g.ticket == old(self).next_ticket,
            final(self).next_ticket == old(self).next_ticket + 1,
            final(self).next_serving == old(self).next_serving,
            final(self).data == old(self).data,
            *final(irq) == N::push_spec(*old(irq)),
    {
        N::push_off(irq);
        let ticket = self.next_ticket;
        self.next_ticket = self.next_ticket + 1;
        TicketMutexGuard { ticket }
    }

    /// Draw a ticket only if it would be served at once: succeeds exactly
    /// when the lock is free; never blocks. On failure the interrupt state is
    /// restored.
    pub fn try_lock(&mut self, irq: &mut IrqState) -> (g: Option<TicketMutexGuard>)
        requires
            old(self).wf(),
            old(self).next_ticket < usize::MAX,
            N::push_ok(*old(irq)),
        ensures
            final(self).wf(),
            final(self).data == old(self).data,
            g is Some <==> !old(self).spec_is_locked(),
            g is Some ==> g->0.ticket == old(self).next_ticket && final(self).next_ticket == old(
                self,
            ).next_ticket + 1 && final(self).next_serving == old(self).next_serving && *final(irq)
                == N::push_spec(*old(irq)),
            g is None ==> *final(self) == *old(self) && *final(irq) == *old(irq),
    {
        let ghost irq0 = *irq;
        N::push_off(irq);
        if self.next_serving == self.next_ticket {
            let ticket = self.next_ticket;
            self.next_ticket = self.next_ticket + 1;
            Some(TicketMutexGuard { ticket })
        } else {
            proof {
                N::push_pop_inverse(irq0);
            }
            N::pop_off(irq);
            None
        }
    }

    /// Release the lock: serve out the holder's ticket, consuming the guard
    /// and restoring the interrupt state.
    pub fn unlock(&mut self, g: TicketMutexGuard, irq: &mut IrqState)
        requires
            old(self).wf(),
            old(self).spec_is_locked(),
            g.ticket == old(self).next_serving,
            N::pop_ok(*old(irq)),
        ensures
            final(self).wf(),
            !final(self).spec_is_locked(),
            final(self).next_serving == g.ticket + 1,
            final(self).next_ticket == old(self).next_ticket,
            final(self).data == old(self).data,
            *final(irq) == N::pop_spec(*old(irq)),
    {
        self.next_serving = g.ticket + 1;
        N::pop_off(irq);
    }

    /// Borrow the payload mutably. No locking is needed: `&mut self` proves
    /// no other reference exists.
    pub fn get_mut(&mut self) -> (data: &mut T)
        ensures
            *data == old(self).data,
            final(self).next_ticket == old(self).next_ticket,
            final(self).next_serving == old(self).next_serving,
            final(self).data == *final(data),
    {
        &mut self.data
    }

    /// Whether the lock is currently held.
    pub fn is_locked(&self) -> (r: bool)
        ensures
            r == self.spec_is_locked(),
    {
        let ticket = self.next_ticket;
        self.next_serving != ticket
    }
}

} // verus!
