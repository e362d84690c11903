use adamant::com::{ComPtr, RefRegistry, CAST_NOT_SUPPORTED};

#[test]
fn comptr_null_is_inert() {
    let p = ComPtr::empty();
    assert!(p.is_null());
    assert_eq!(p.as_ptr(), 0);
    assert_eq!(p.into_ptr(), 0);
}

#[test]
fn comptr_wraps_address() {
    let p = ComPtr::from_ptr(5);
    assert!(!p.is_null());
    assert_eq!(p.as_ptr(), 5);
    assert_eq!(p.as_ptr_mut(), 5);
    assert_eq!(p.into_ptr(), 5);
}

#[test]
fn refcount_net_change_is_clones_minus_drops() {
    let mut reg = RefRegistry::new();
    let p = reg.create(Vec::new());
    assert_eq!(reg.counts[0], 1);

    // two clones, one drop: net +1
    let q = reg.clone_ref(&p);
    let r = reg.clone_ref(&p);
    reg.release(q);
    assert_eq!(reg.counts[0], 2);

    // the remaining handles go away; the object dies exactly at zero
    reg.release(r);
    assert_eq!(reg.counts[0], 1);
    reg.release(p);
    assert_eq!(reg.counts[0], 0);
}

#[test]
fn release_of_null_handle_changes_nothing() {
    let mut reg = RefRegistry::new();
    let _p = reg.create(Vec::new());
    reg.release(ComPtr::empty());
    assert_eq!(reg.counts.len(), 1);
    assert_eq!(reg.counts[0], 1);
}

#[test]
fn cast_to_supported_interface_adds_a_reference() {
    let mut reg = RefRegistry::new();
    let p = reg.create(vec![7, 9]);
    let q = reg.cast(&p, 7).unwrap();
    assert_eq!(q.as_ptr(), p.as_ptr());
    assert_eq!(reg.counts[0], 2);
}

#[test]
fn cast_to_unsupported_interface_fails_cleanly() {
    let mut reg = RefRegistry::new();
    let p = reg.create(vec![7, 9]);
    let e = reg.cast(&p, 8).unwrap_err();
    assert_eq!(e, CAST_NOT_SUPPORTED);
    assert_eq!(reg.counts[0], 1);
}

#[test]
fn cast_of_null_handle_returns_null() {
    let mut reg = RefRegistry::new();
    let p = ComPtr::empty();
    let q = reg.cast(&p, 7).unwrap();
    assert!(q.is_null());
}
