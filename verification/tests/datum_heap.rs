use vm_player::datum::{Datum, DatumHeap, DatumRef};
use vm_player::instances::InstanceTable;

#[test]
fn resolve_yields_allocated_value_while_outstanding() {
    let mut h = DatumHeap::new();
    let r = h.allocate(Datum::Int(42));
    match h.resolve(r) {
        Some(Datum::Int(n)) => assert_eq!(n, 42),
        _ => panic!("expected the allocated value"),
    }
    // a second reference keeps it resolvable after one release
    h.retain(r);
    h.release(r);
    match h.resolve(r) {
        Some(Datum::Int(n)) => assert_eq!(n, 42),
        _ => panic!("expected the value while a reference is outstanding"),
    }
}

#[test]
fn resolve_after_release_to_zero_is_not_found() {
    let mut h = DatumHeap::new();
    let r = h.allocate(Datum::Str("hello".to_string()));
    h.release(r);
    assert!(h.resolve(r).is_none());
}

#[test]
fn stale_handle_does_not_see_a_reused_slot() {
    let mut h = DatumHeap::new();
    let r1 = h.allocate(Datum::Int(1));
    h.release(r1);
    // the slot is free and may be reused for a different value
    let r2 = h.allocate(Datum::Int(2));
    assert!(h.resolve(r1).is_none());
    match h.resolve(r2) {
        Some(Datum::Int(n)) => assert_eq!(n, 2),
        _ => panic!("expected the new value"),
    }
}

#[test]
fn unknown_handle_is_not_found() {
    let h = DatumHeap::new();
    let bogus = DatumRef { index: 7, generation: 3 };
    assert!(h.resolve(bogus).is_none());
}

#[test]
fn allocation_never_disturbs_live_handles() {
    let mut h = DatumHeap::new();
    let a = h.allocate(Datum::Int(10));
    let b = h.allocate(Datum::Str("x".to_string()));
    let _c = h.allocate(Datum::Void);
    match h.resolve(a) {
        Some(Datum::Int(n)) => assert_eq!(n, 10),
        _ => panic!("first handle lost"),
    }
    match h.resolve(b) {
        Some(Datum::Str(s)) => assert_eq!(s, "x"),
        _ => panic!("second handle lost"),
    }
}

#[test]
fn instance_retain_keeps_it_alive_across_one_release() {
    let mut t = InstanceTable::new();
    let id = t.create("behavior".to_string()).unwrap();
    t.retain(id);
    t.release(id);
    assert_eq!(t.snapshot(id).unwrap(), "behavior");
    t.release(id);
    assert!(t.snapshot(id).is_none());
}

#[test]
fn hex_dump_of_empty_payload_is_empty() {
    let empty: Vec<u8> = Vec::new();
    assert_eq!(vm_player::cast::hex_dump(&empty), "");
    assert_eq!(vm_player::cast::hex_dump(&vec![0xffu8, 0x00, 0x1a]), "ff001a");
}

#[test]
fn counts_balance_retains_against_releases() {
    let mut h = DatumHeap::new();
    let r = h.allocate(Datum::Int(7));
    h.retain(r);
    h.retain(r);
    h.release(r);
    assert!(h.resolve(r).is_some());
    h.release(r);
    assert!(h.resolve(r).is_some());
    h.release(r);
    assert!(h.resolve(r).is_none());
    // releasing a dead handle stays a no-op
    h.release(r);
    assert!(h.resolve(r).is_none());
}

#[test]
fn instance_creation_is_owed_and_counts_balance() {
    let mut t = InstanceTable::new();
    let a = t.create("alpha".to_string()).unwrap();
    let b = t.create("beta".to_string()).unwrap();
    assert_ne!(a, b);
    t.retain(b);
    t.retain(b);
    t.release(b);
    t.release(b);
    assert_eq!(t.snapshot(b).unwrap(), "beta");
    t.release(b);
    assert!(t.snapshot(b).is_none());
    // the other instance was never disturbed
    assert_eq!(t.snapshot(a).unwrap(), "alpha");
}
