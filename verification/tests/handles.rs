use noodle::comptr::{RcHost, RcInterface};

const BITMAP_CAP: u64 = 3;
const SURFACE_CAP: u64 = 5;

fn mask(tags: &[u64]) -> u64 {
    tags.iter().fold(0u64, |m, t| m | (1u64 << t))
}

#[test]
fn refcount_balance_over_clone_drop_sequences() {
    let mut host = RcHost::new();
    let id = host.register(mask(&[BITMAP_CAP]), 5);
    assert_eq!(host.ref_count(id), 5);

    // Take shared ownership, clone it three times, then drop every handle:
    // the count returns exactly to its starting value.
    let h = RcInterface::borrow(&mut host, id, BITMAP_CAP);
    assert_eq!(host.ref_count(id), 6);
    let c1 = h.clone_handle(&mut host);
    let c2 = h.clone_handle(&mut host);
    let c3 = c1.clone_handle(&mut host);
    assert_eq!(host.ref_count(id), 9);
    assert!(h.drop_handle(&mut host));
    assert!(c1.drop_handle(&mut host));
    assert!(c2.drop_handle(&mut host));
    assert!(c3.drop_handle(&mut host));
    assert_eq!(host.ref_count(id), 5);
    assert!(!host.is_finalized(id));
}

#[test]
fn adopt_does_not_touch_the_count() {
    let mut host = RcHost::new();
    let id = host.register(0, 2);
    let h = RcInterface::adopt(&host, id, 0);
    assert_eq!(host.ref_count(id), 2);
    assert!(h.drop_handle(&mut host));
    assert_eq!(host.ref_count(id), 1);
}

#[test]
fn dropping_the_last_reference_finalizes() {
    let mut host = RcHost::new();
    let id = host.register(0, 1);
    let h = RcInterface::adopt(&host, id, 0);
    assert!(h.drop_handle(&mut host));
    assert_eq!(host.ref_count(id), 0);
    assert!(host.is_finalized(id));
}

#[test]
fn one_drop_too_many_is_flagged() {
    let mut host = RcHost::new();
    let id = host.register(0, 1);
    let h = RcInterface::adopt(&host, id, 0);
    // A second handle claiming the same single reference: the caller's
    // contract violation the harness is after.
    let bogus = RcInterface { target: Some(id), iface: 0 };
    assert!(h.drop_handle(&mut host));
    assert_eq!(host.ref_count(id), 0);
    let ok = bogus.drop_handle(&mut host);
    assert!(!ok);
    assert_eq!(host.ref_count(id), 0);
}

#[test]
fn null_handles_own_nothing() {
    let mut host = RcHost::new();
    let h = RcInterface::null();
    assert!(h.is_null());
    let c = h.clone_handle(&mut host);
    assert!(c.is_null());
    assert!(c.drop_handle(&mut host));
    assert!(h.drop_handle(&mut host));
    assert_eq!(RcInterface::null().query_capability(&mut host, BITMAP_CAP), None);
}

#[test]
fn capability_query_matches_declared_support() {
    let mut host = RcHost::new();
    let id = host.register(mask(&[BITMAP_CAP, SURFACE_CAP]), 1);
    let h = RcInterface::adopt(&host, id, 0);

    // Supported capability: a new owning handle to the same object.
    let q = h.query_capability(&mut host, SURFACE_CAP);
    let q = q.expect("declared capability must be found");
    assert_eq!(q, h);
    assert_eq!(host.ref_count(id), 2);

    // Unsupported capability: nothing, and the count is untouched.
    assert_eq!(h.query_capability(&mut host, 7), None);
    assert_eq!(host.ref_count(id), 2);

    // The queried handle clones and drops like any constructed handle.
    let qc = q.clone_handle(&mut host);
    assert_eq!(host.ref_count(id), 3);
    assert!(qc.drop_handle(&mut host));
    assert!(q.drop_handle(&mut host));
    assert!(h.drop_handle(&mut host));
    assert_eq!(host.ref_count(id), 0);
    assert!(host.is_finalized(id));
}

#[test]
fn equality_is_identity() {
    let mut host = RcHost::new();
    let a = host.register(0, 1);
    let b = host.register(0, 1);
    let ha = RcInterface::adopt(&host, a, 0);
    let ha2 = ha.clone_handle(&mut host);
    let hb = RcInterface::adopt(&host, b, 0);
    assert_eq!(ha, ha2);
    assert_ne!(ha, hb);
    assert_eq!(RcInterface::null(), RcInterface::null());
    assert_ne!(ha, RcInterface::null());
    assert!(ha.drop_handle(&mut host));
    assert!(ha2.drop_handle(&mut host));
    assert!(hb.drop_handle(&mut host));
}

#[test]
fn forget_extracts_without_releasing() {
    let mut host = RcHost::new();
    let id = host.register(0, 1);
    let h = RcInterface::adopt(&host, id, 0);
    assert_eq!(h.forget(), Some(id));
    assert_eq!(host.ref_count(id), 1);
    assert_eq!(RcInterface::null().forget(), None);
}
