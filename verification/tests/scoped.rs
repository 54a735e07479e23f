//! Scopes pinned to the stack.

use suspend::scoped::{with_scope, PinShared};

#[test]
fn pin_shared_unused() {
    let mut shared = PinShared::new(());
    shared.with(|scope, inner| scope.drop(inner), "owner");
    assert!(!shared.is_pending());
    assert_eq!(shared.into_inner(), ());
}

#[test]
fn pin_shared_borrow() {
    let mut shared = PinShared::new(());
    shared.with(
        |scope, inner| {
            scope.clone(inner).drop(inner);
            scope.drop(inner);
        },
        "owner",
    );
    assert!(!shared.is_pending());
    assert_eq!(shared.into_inner(), ());
}

#[test]
fn with_scope_unused() {
    let mut rest = None;
    assert_eq!(
        with_scope(
            |scope, inner| {
                scope.drop(inner);
                true
            },
            "owner",
            &mut rest
        ),
        true
    );
    assert!(rest.is_none());
}

#[test]
fn with_scope_borrow() {
    let mut rest = None;
    assert_eq!(
        with_scope(
            |scope, inner| {
                for _ in 0..10 {
                    scope.clone(inner).drop(inner);
                }
                scope.drop(inner);
                true
            },
            "owner",
            &mut rest
        ),
        true
    );
    assert!(rest.is_none());
}

#[test]
fn scope_waits_for_trackers() {
    let mut shared = PinShared::new(7);
    let (one, other) = shared.with(
        |scope, inner| {
            let other = scope.clone(inner);
            assert_eq!(scope.borrow_count(inner), 2);
            assert_eq!(*scope.as_ref(inner), 7);
            (scope, other)
        },
        "first",
    );
    assert!(shared.is_pending());
    assert_eq!(one.borrow_count(shared.scope()), 2);
    one.drop(shared.scope());
    assert!(shared.finish("second").is_pending());
    assert_eq!(other.borrow_count(shared.scope()), 1);
    other.drop(shared.scope());
    assert_eq!(shared.scope().take_woken(), vec!["second"]);
    assert!(shared.finish("third").is_ready());
    assert!(!shared.is_pending());
    assert_eq!(shared.into_inner(), 7);
}

#[test]
fn scope_with_trackers_is_handed_out() {
    let mut rest = None;
    let tracker = with_scope(|scope, _inner| scope, "owner", &mut rest);
    let mut scope = rest.expect("The scope should be pending");
    tracker.drop(scope.scope());
    assert!(scope.finish("owner").is_ready());
}
