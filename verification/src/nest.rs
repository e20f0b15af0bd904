//! Interrupt-nesting discipline: a per-execution-context counter of
//! "interrupts disabled" depth, with save/restore of the prior
//! interrupt-enable state.
//!
//! The hardware interrupt-enable flag is modelled as a plain boolean inside
//! [`IrqState`]; a strategy that really toggles the flag ([`NoIrqNest`]) and a
//! no-op strategy for host-side testing ([`MockNest`]) implement the same
//! capability interface [`NestStrategy`].

use vstd::prelude::*;

verus! {

/// The interrupt state of one execution context: the nesting depth, the
/// current interrupt-enable flag, and the flag saved at the outermost
/// `push_off`.
#[derive(Clone, Copy, PartialEq, Eq, Structural, Debug)]
pub struct IrqState {
    /// How many `push_off` calls are outstanding.
    pub depth: usize,
    /// Whether interrupts are currently enabled.
    pub enabled: bool,
    /// The value `enabled` had just before the outermost `push_off`.
    pub saved: bool,
}

impl IrqState {
    /// Well-formed: while at least one `push_off` is outstanding, interrupts
    /// are masked; while none is, the saved flag mirrors the live one (it was
    /// copied from it by the last restore, or at construction).
    pub open spec fn wf(&self) -> bool {
        &&& self.depth > 0 ==> !self.enabled
        &&& self.depth == 0 ==> self.saved == self.enabled
    }

    /// A fresh context with interrupts enabled and no nesting.
    pub fn new() -> (s: IrqState)
        ensures
            s == (IrqState { depth: 0, enabled: true, saved: true }),
    {
        IrqState { depth: 0, enabled: true, saved: true }
    }
}

/// The capability interface for entering and leaving a section that must run
/// with interrupts masked. `push_off`/`pop_off` calls must nest like a stack;
/// an unmatched `pop_off` is a programming error and is ruled out by the
/// preconditions.
pub trait NestStrategy {
    /// When `push_off` may be called.
    spec fn push_ok(s: IrqState) -> bool;

    /// The state after `push_off`.
    spec fn push_spec(s: IrqState) -> IrqState;

    /// When `pop_off` may be called.
    spec fn pop_ok(s: IrqState) -> bool;

    /// The state after `pop_off`.
    spec fn pop_spec(s: IrqState) -> IrqState;

    /// A `pop_off` exactly undoes the `push_off` that preceded it, and both
    /// steps keep the state well-formed.
    proof fn push_pop_inverse(s: IrqState)
        ensures
            Self::push_ok(s) ==> Self::pop_ok(Self::push_spec(s))
                && Self::pop_spec(Self::push_spec(s)) == s,
            s.wf() && Self::push_ok(s) ==> Self::push_spec(s).wf(),
            s.wf() && Self::pop_ok(s) ==> Self::pop_spec(s).wf(),
    ;

    /// Enter a masked section: one more level of nesting.
    fn push_off(s: &mut IrqState)
        requires
            Self::push_ok(*old(s)),
        ensures
            *final(s) == Self::push_spec(*old(s)),
    ;

    /// Leave a masked section: one less level of nesting.
    fn pop_off(s: &mut IrqState)
        requires
            Self::pop_ok(*old(s)),
        ensures
            *final(s) == Self::pop_spec(*old(s)),
    ;
}

/// The real strategy: masks interrupts on the outermost `push_off`, recording
/// whether they were enabled, and restores that record on the matching
/// outermost `pop_off`.
pub struct NoIrqNest;

impl NestStrategy for NoIrqNest {
    open spec fn push_ok(s: IrqState) -> bool {
        s.depth < usize::MAX && s.wf()
    }

    open spec fn push_spec(s: IrqState) -> IrqState {
        IrqState {
            depth: (s.depth + 1) as usize,
            enabled: false,
            saved: if s.depth == 0 {
                s.enabled
            } else {
                s.saved
            },
        }
    }

    open spec fn pop_ok(s: IrqState) -> bool {
        s.depth > 0 && s.wf()
    }

    open spec fn pop_spec(s: IrqState) -> IrqState {
        IrqState {
            depth: (s.depth - 1) as usize,
            enabled: if s.depth == 1 {
                s.saved
            } else {
                false
            },
            saved: s.saved,
        }
    }

    proof fn push_pop_inverse(s: IrqState) {
    }

    fn push_off(s: &mut IrqState) {
        if s.depth == 0 {
            s.saved = s.enabled;
        }
        s.enabled = false;
        s.depth = s.depth + 1;
    }

    fn pop_off(s: &mut IrqState) {
        s.depth = s.depth - 1;
        if s.depth == 0 {
            s.enabled = s.saved;
        }
    }
}

/// The no-op strategy for host-side testing: neither the depth nor the flag
/// is touched.
pub struct MockNest;

impl NestStrategy for MockNest {
    open spec fn push_ok(s: IrqState) -> bool {
        true
    }

    open spec fn push_spec(s: IrqState) -> IrqState {
        s
    }

    open spec fn pop_ok(s: IrqState) -> bool {
        true
    }

    open spec fn pop_spec(s: IrqState) -> IrqState {
        s
    }

    proof fn push_pop_inverse(s: IrqState) {
    }

    fn push_off(s: &mut IrqState) {
    }

    fn pop_off(s: &mut IrqState) {
    }
}

/// `n` applications of `push_spec`.
pub open spec fn push_n(s: IrqState, n: nat) -> IrqState
    decreases n,
{
    if n == 0 {
        s
    } else {
        NoIrqNest::push_spec(push_n(s, (n - 1) as nat))
    }
}

/// `n` applications of `pop_spec`.
pub open spec fn pop_n(s: IrqState, n: nat) -> IrqState
    decreases n,
{
    if n == 0 {
        s
    } else {
        NoIrqNest::pop_spec(pop_n(s, (n - 1) as nat))
    }
}

/// After `k` pushes the depth has grown by `k`, interrupts are masked, and
/// the flag saved at the outermost push is the original one.
pub proof fn lemma_push_n_shape(s: IrqState, n: nat)
    requires
        s.wf(),
        s.depth == 0,
        n >= 1,
        n <= usize::MAX,
    ensures
        push_n(s, n).depth == n,
        !push_n(s, n).enabled,
        push_n(s, n).saved == s.enabled,
        push_n(s, n).wf(),
    decreases n,
{
    if n > 1 {
        lemma_push_n_shape(s, (n - 1) as nat);
    } else {
        reveal_with_fuel(push_n, 2);
    }
}

/// Nested masking restores the prior interrupt-enable state exactly once: after
/// `n` `push_off` steps followed by `n` `pop_off` steps the context is back to
/// where it started, and no inner pop (the first `n - 1` of them) re-enables
/// interrupts — only the outermost one does.
pub proof fn lemma_nested_push_pop(s: IrqState, n: nat)
    requires
        s.wf(),
        s.depth == 0,
        n >= 1,
        n <= usize::MAX,
    ensures
        pop_n(push_n(s, n), n) == s,
        forall|k: nat| 1 <= k < n ==> !(#[trigger] pop_n(push_n(s, n), k)).enabled,
    decreases n,
{
    lemma_push_n_shape(s, n);
    assert forall|k: nat| k <= n implies pop_n(push_n(s, n), k) == (IrqState {
        depth: (n - k) as usize,
        enabled: if k == n {
            s.enabled
        } else {
            false
        },
        saved: s.enabled,
    }) by {
        lemma_pop_k(s, n, k);
    }
}

/// Shape of the state after `k` pops following `n` pushes.
proof fn lemma_pop_k(s: IrqState, n: nat, k: nat)
    requires
        s.wf(),
        s.depth == 0,
        1 <= n <= usize::MAX,
        k <= n,
    ensures
        pop_n(push_n(s, n), k) == (IrqState {
            depth: (n - k) as usize,
            enabled: if k == n {
                s.enabled
            } else {
                false
            },
            saved: s.enabled,
        }),
    decreases k,
{
    lemma_push_n_shape(s, n);
    if k > 0 {
        lemma_pop_k(s, n, (k - 1) as nat);
    }
}

} // verus!
