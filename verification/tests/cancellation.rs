//! Tokens, their children and what cancelling does to them.

use bevy_flurx::runner::CancellationScope;

#[test]
fn new_scope_has_no_tokens() {
    let scope = CancellationScope::new();
    assert_eq!(scope.len(), 0);
}

#[test]
fn root_is_not_cancelled() {
    let mut scope = CancellationScope::new();
    let root = scope.root();
    assert_eq!(scope.len(), 1);
    assert!(!root.requested_cancel(&scope));
}

#[test]
fn cancel_is_seen_on_the_token() {
    let mut scope = CancellationScope::new();
    let root = scope.root();
    root.cancel(&mut scope);
    assert!(root.requested_cancel(&scope));
    assert_eq!(scope.len(), 1);
}

#[test]
fn child_inherits_from_parent() {
    let mut scope = CancellationScope::new();
    let root = scope.root();
    let child = root.fork(&mut scope);
    assert_eq!(scope.len(), 2);
    assert!(!child.requested_cancel(&scope));
    root.cancel(&mut scope);
    assert!(child.requested_cancel(&scope));
}

#[test]
fn grandchild_inherits_from_any_ancestor() {
    let mut scope = CancellationScope::new();
    let root = scope.root();
    let child = root.fork(&mut scope);
    let grandchild = child.fork(&mut scope);
    let great = grandchild.fork(&mut scope);
    child.cancel(&mut scope);
    assert!(!root.requested_cancel(&scope));
    assert!(child.requested_cancel(&scope));
    assert!(grandchild.requested_cancel(&scope));
    assert!(great.requested_cancel(&scope));
}

#[test]
fn cancel_of_a_child_spares_parent_and_siblings() {
    let mut scope = CancellationScope::new();
    let root = scope.root();
    let left = root.fork(&mut scope);
    let right = root.fork(&mut scope);
    let below_right = right.fork(&mut scope);
    left.cancel(&mut scope);
    assert!(left.requested_cancel(&scope));
    assert!(!root.requested_cancel(&scope));
    assert!(!right.requested_cancel(&scope));
    assert!(!below_right.requested_cancel(&scope));
}

#[test]
fn roots_are_independent() {
    let mut scope = CancellationScope::new();
    let one = scope.root();
    let two = scope.root();
    one.cancel(&mut scope);
    assert!(one.requested_cancel(&scope));
    assert!(!two.requested_cancel(&scope));
}

#[test]
fn fork_of_a_cancelled_token_is_cancelled() {
    let mut scope = CancellationScope::new();
    let root = scope.root();
    root.cancel(&mut scope);
    let child = root.fork(&mut scope);
    assert!(child.requested_cancel(&scope));
}

#[test]
fn cancel_is_never_taken_back() {
    let mut scope = CancellationScope::new();
    let root = scope.root();
    let child = root.fork(&mut scope);
    root.cancel(&mut scope);
    let other = scope.root();
    let below = child.fork(&mut scope);
    other.cancel(&mut scope);
    root.cancel(&mut scope);
    child.cancel(&mut scope);
    assert!(root.requested_cancel(&scope));
    assert!(child.requested_cancel(&scope));
    assert!(below.requested_cancel(&scope));
}

#[test]
fn token_of_another_scope_has_no_flag() {
    let mut big = CancellationScope::new();
    big.root();
    big.root();
    let stranger = big.root();
    let mut scope = CancellationScope::new();
    let root = scope.root();
    assert!(!stranger.requested_cancel(&scope));
    stranger.cancel(&mut scope);
    assert!(!stranger.requested_cancel(&scope));
    assert!(!root.requested_cancel(&scope));
    assert_eq!(scope.len(), 1);
}

#[test]
fn fork_of_a_token_of_another_scope_is_a_root() {
    let mut big = CancellationScope::new();
    big.root();
    let stranger = big.root();
    let mut scope = CancellationScope::new();
    let root = scope.root();
    let child = stranger.fork(&mut scope);
    assert_eq!(scope.len(), 2);
    root.cancel(&mut scope);
    assert!(!child.requested_cancel(&scope));
    child.cancel(&mut scope);
    assert!(child.requested_cancel(&scope));
}

#[test]
fn tokens_compare_by_identity() {
    let mut scope = CancellationScope::new();
    let root = scope.root();
    let child = root.fork(&mut scope);
    let copy = root;
    assert_eq!(root, copy);
    assert_ne!(root, child);
}

#[test]
fn a_copy_of_a_scope_goes_its_own_way() {
    let mut scope = CancellationScope::new();
    let root = scope.root();
    let child = root.fork(&mut scope);
    let mut copy = scope.clone();
    assert_eq!(copy.len(), 2);
    root.cancel(&mut copy);
    assert!(child.requested_cancel(&copy));
    assert!(!child.requested_cancel(&scope));
}
