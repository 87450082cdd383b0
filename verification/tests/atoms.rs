use xwrap::{DisplayOwnership, XAtom, XAtomRegistry, XDisplay, XLibError};

#[test]
fn atom_round_trip() {
    let mut reg = XAtomRegistry::new();
    let name = b"WM_PROTOCOLS".to_vec();
    let id = reg.intern(&name, true).expect("creation requested");
    assert!(id != 0);
    let back = reg.resolve(id).expect("the atom was interned");
    assert_eq!(back, name);
}

#[test]
fn intern_is_idempotent() {
    let mut reg = XAtomRegistry::new();
    let name = b"CLIPBOARD".to_vec();
    let id1 = reg.intern(&name, true).expect("creation requested");
    let id2 = reg.intern(&name, true).expect("already interned");
    let id3 = reg.intern(&name, false).expect("already interned");
    assert_eq!(id1, id2);
    assert_eq!(id1, id3);
    assert_eq!(reg.len(), 1);
}

#[test]
fn intern_without_create_fails_for_new_names() {
    let mut reg = XAtomRegistry::new();
    assert!(reg.intern(&b"PRIMARY".to_vec(), false).is_none());
    assert_eq!(reg.len(), 0);
}

#[test]
fn distinct_names_get_distinct_atoms() {
    let mut reg = XAtomRegistry::new();
    let a = reg.intern(&b"A".to_vec(), true).unwrap();
    let b = reg.intern(&b"B".to_vec(), true).unwrap();
    let c = reg.intern(&b"C".to_vec(), true).unwrap();
    assert!(a != b && b != c && a != c);
    assert_eq!(reg.resolve(a).unwrap(), b"A".to_vec());
    assert_eq!(reg.resolve(b).unwrap(), b"B".to_vec());
    assert_eq!(reg.resolve(c).unwrap(), b"C".to_vec());
}

#[test]
fn resolve_of_unknown_identifier_is_none() {
    let mut reg = XAtomRegistry::new();
    let id = reg.intern(&b"A".to_vec(), true).unwrap();
    assert!(reg.resolve(0).is_none());
    assert!(reg.resolve(id + 1).is_none());
}

#[test]
fn atom_wraps_identifier() {
    let d = XDisplay::new(1, DisplayOwnership::Foreign, 0, 0);
    let a = XAtom::new(99, &d);
    assert_eq!(a.handle(), 99);
}

#[test]
fn open_display_error_carries_name() {
    let e = XLibError::OpenDisplayFailed(String::from("0"));
    assert_eq!(e.message(), "failed to open display :0");
}
