use render_cache::resource::{Handle, ShaderProgram, Texture, WeakHandle};
use std::collections::HashSet;

fn live(ids: &[u64]) -> HashSet<u64> {
    ids.iter().copied().collect()
}

#[test]
fn new_handle_keeps_its_identity() {
    let h: Handle<Texture> = Handle::new(42);
    assert_eq!(h.id, 42);
}

#[test]
fn downgrade_remembers_the_identity() {
    let h: Handle<Texture> = Handle::new(7);
    assert_eq!(h.downgrade().target, Some(7));
}

#[test]
fn weak_resolves_while_the_resource_is_alive() {
    let h: Handle<Texture> = Handle::new(7);
    let w = h.downgrade();
    let strong = w.upgrade(&live(&[3, 7]));
    assert_eq!(strong.map(|s| s.id), Some(7));
}

#[test]
fn weak_fails_to_resolve_once_the_resource_is_gone() {
    let h: Handle<Texture> = Handle::new(7);
    let w = h.downgrade();
    assert!(w.upgrade(&live(&[3])).is_none());
    assert!(w.upgrade(&live(&[])).is_none());
}

#[test]
fn empty_weak_never_resolves() {
    let w: WeakHandle<ShaderProgram> = WeakHandle::new();
    assert_eq!(w.target, None);
    assert!(w.upgrade(&live(&[0, 1, 2, u64::MAX])).is_none());
}

#[test]
fn ptr_eq_is_identity_not_content() {
    let a: Handle<Texture> = Handle::new(1);
    let a_again: Handle<Texture> = Handle::new(1);
    let b: Handle<Texture> = Handle::new(2);
    assert!(Handle::ptr_eq(&a, &a_again));
    assert!(!Handle::ptr_eq(&a, &b));
}

#[test]
fn refers_to_needs_both_liveness_and_identity() {
    let a: Handle<Texture> = Handle::new(1);
    let b: Handle<Texture> = Handle::new(2);
    let w = a.downgrade();
    assert!(w.refers_to(&a, &live(&[1, 2])));
    assert!(!w.refers_to(&b, &live(&[1, 2])));
    assert!(!w.refers_to(&a, &live(&[2])));
    let empty: WeakHandle<Texture> = WeakHandle::new();
    assert!(!empty.refers_to(&a, &live(&[1, 2])));
}

#[test]
fn handles_are_copied_with_their_identity() {
    let a: Handle<Texture> = Handle::new(9);
    let b = a;
    let c = a.clone();
    assert_eq!((a.id, b.id, c.id), (9, 9, 9));
    let w = a.downgrade();
    let v = w;
    assert_eq!(w.clone().target, v.target);
}
