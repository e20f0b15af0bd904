//! Tests of the interrupt-nesting counter and its two strategies.

use lock::nest::{IrqState, MockNest, NestStrategy, NoIrqNest};

#[test]
fn push_off_masks_and_pop_off_restores() {
    let mut s = IrqState::new();
    assert!(s.enabled);
    NoIrqNest::push_off(&mut s);
    assert_eq!(s.depth, 1);
    assert!(!s.enabled);
    assert!(s.saved);
    NoIrqNest::pop_off(&mut s);
    assert_eq!(s.depth, 0);
    assert!(s.enabled);
}

/// Nested push_off calls followed by as many pop_off calls restore the
/// pre-push state exactly once: no inner pop re-enables interrupts.
#[test]
fn nested_push_pop_restores_once() {
    const N: usize = 6;
    let mut s = IrqState::new();
    for k in 1..=N {
        NoIrqNest::push_off(&mut s);
        assert_eq!(s.depth, k);
        assert!(!s.enabled);
    }
    for k in (1..N).rev() {
        NoIrqNest::pop_off(&mut s);
        assert_eq!(s.depth, k);
        // Inner pops do not restore: interrupts stay masked.
        assert!(!s.enabled);
    }
    NoIrqNest::pop_off(&mut s);
    assert_eq!(s.depth, 0);
    // The outermost pop is the one that restores.
    assert!(s.enabled);
}

#[test]
fn push_off_from_masked_context_stays_masked() {
    // A context that starts with interrupts already disabled gets them back
    // disabled: the saved flag records what was there, not "true".
    let mut s = IrqState { depth: 0, enabled: false, saved: false };
    NoIrqNest::push_off(&mut s);
    NoIrqNest::pop_off(&mut s);
    assert!(!s.enabled);
    assert_eq!(s.depth, 0);
}

#[test]
fn mock_nest_is_a_no_op() {
    let mut s = IrqState::new();
    MockNest::push_off(&mut s);
    assert_eq!(s.depth, 0);
    assert!(s.enabled);
    MockNest::pop_off(&mut s);
    assert_eq!(s, IrqState::new());
}
