use xwrap::{
    DisplayOwnership, XAtom, XDisplay, XPropertyChangeMode, XPropertyDataFormat, XPropertyHolder,
    XPropertyStore, XPropertyValues,
};

fn display() -> XDisplay {
    XDisplay::new(1, DisplayOwnership::Foreign, 90, 131)
}

#[test]
fn format_from_native_accepts_exactly_8_16_32() {
    assert_eq!(XPropertyDataFormat::from_native(8), Some(XPropertyDataFormat::Bit8));
    assert_eq!(XPropertyDataFormat::from_native(16), Some(XPropertyDataFormat::Bit16));
    assert_eq!(XPropertyDataFormat::from_native(32), Some(XPropertyDataFormat::Bit32));
    assert_eq!(XPropertyDataFormat::from_native(0), None);
    assert_eq!(XPropertyDataFormat::from_native(7), None);
    assert_eq!(XPropertyDataFormat::from_native(64), None);
}

#[test]
fn format_byte_counts() {
    assert_eq!(XPropertyDataFormat::Bit8.byte_count(), 1);
    assert_eq!(XPropertyDataFormat::Bit16.byte_count(), 2);
    assert_eq!(XPropertyDataFormat::Bit32.byte_count(), 4);
    assert_eq!(XPropertyDataFormat::Bit8.to_native(), 8);
    assert_eq!(XPropertyDataFormat::Bit16.to_native(), 16);
    assert_eq!(XPropertyDataFormat::Bit32.to_native(), 32);
    assert_eq!(XPropertyDataFormat::Bit16.byte_count_array(5), 10);
}

#[test]
fn property_round_trip_bit8() {
    let d = display();
    let mut store = XPropertyStore::new();
    let a = XAtom::new(10, &d);
    let t = XAtom::new(31, &d);
    store.change_property8(a, t, XPropertyChangeMode::Replace, &vec![1u8, 2, 3]);
    let data = store
        .get_property_completely(a, false, t)
        .expect("the property was just written");
    assert_eq!(data.format(), XPropertyDataFormat::Bit8);
    assert_eq!(data.ty().handle(), 31);
    assert_eq!(data.length(), 3);
    match data.values() {
        XPropertyValues::Bit8(b) => assert_eq!(b, &vec![1u8, 2, 3]),
        _ => panic!("expected 8-bit elements"),
    }
}

#[test]
fn completely_read_short_circuits_on_empty_property() {
    let d = display();
    let mut store = XPropertyStore::new();
    let a = XAtom::new(10, &d);
    let t = XAtom::new(31, &d);
    store.change_property8(a, t, XPropertyChangeMode::Replace, &vec![]);
    assert_eq!(store.reads(), 0);
    let data = store
        .get_property_completely(a, false, t)
        .expect("the empty property exists");
    // The probe reported nothing remaining, so exactly one underlying
    // read was issued, not two.
    assert_eq!(store.reads(), 1);
    assert_eq!(data.length(), 0);
}

#[test]
fn completely_read_uses_two_reads_when_data_remains() {
    let d = display();
    let mut store = XPropertyStore::new();
    let a = XAtom::new(10, &d);
    let t = XAtom::new(31, &d);
    store.change_property8(a, t, XPropertyChangeMode::Replace, &vec![9u8; 10]);
    let data = store
        .get_property_completely(a, false, t)
        .expect("the property exists");
    assert_eq!(store.reads(), 2);
    assert_eq!(data.length(), 10);
}

#[test]
fn get_property_of_absent_atom_is_none() {
    let d = display();
    let mut store = XPropertyStore::new();
    let a = XAtom::new(10, &d);
    let t = XAtom::new(31, &d);
    assert!(store.get_property(a, 0, 1, false, t).is_none());
    assert!(store.get_property_completely(a, false, t).is_none());
}

#[test]
fn get_property_type_mismatch_returns_no_elements() {
    let d = display();
    let mut store = XPropertyStore::new();
    let a = XAtom::new(10, &d);
    let t = XAtom::new(31, &d);
    let other = XAtom::new(32, &d);
    store.change_property8(a, t, XPropertyChangeMode::Replace, &vec![1u8, 2, 3, 4]);
    let (data, remaining) = store.get_property(a, 0, 1, false, other).expect("format known");
    assert_eq!(data.length(), 0);
    assert_eq!(data.ty().handle(), 31);
    assert_eq!(data.format(), XPropertyDataFormat::Bit8);
    // The full length is reported as remaining.
    assert_eq!(remaining, 4);
}

#[test]
fn windowed_read_reports_remaining_bytes() {
    let d = display();
    let mut store = XPropertyStore::new();
    let a = XAtom::new(10, &d);
    let t = XAtom::new(31, &d);
    store.change_property8(a, t, XPropertyChangeMode::Replace, &vec![1u8, 2, 3, 4, 5, 6]);
    // One 32-bit unit covers the first four bytes; two bytes remain.
    let (data, remaining) = store.get_property(a, 0, 1, false, t).expect("present");
    assert_eq!(data.length(), 4);
    assert_eq!(remaining, 2);
    match data.values() {
        XPropertyValues::Bit8(b) => assert_eq!(b, &vec![1u8, 2, 3, 4]),
        _ => panic!("expected 8-bit elements"),
    }
}

#[test]
fn delete_after_full_read() {
    let d = display();
    let mut store = XPropertyStore::new();
    let a = XAtom::new(10, &d);
    let t = XAtom::new(31, &d);
    store.change_property8(a, t, XPropertyChangeMode::Replace, &vec![1u8, 2]);
    let data = store.get_property_completely(a, true, t).expect("present");
    assert_eq!(data.length(), 2);
    // The full range was read with deletion requested: the property is
    // gone.
    assert!(store.get_property(a, 0, 1, false, t).is_none());
}

#[test]
fn partial_read_does_not_delete() {
    let d = display();
    let mut store = XPropertyStore::new();
    let a = XAtom::new(10, &d);
    let t = XAtom::new(31, &d);
    store.change_property8(a, t, XPropertyChangeMode::Replace, &vec![1u8; 8]);
    let (_, remaining) = store.get_property(a, 0, 1, true, t).expect("present");
    assert_eq!(remaining, 4);
    // The window did not reach the end, so the property stays.
    assert!(store.get_property(a, 0, 2, false, t).is_some());
}

#[test]
fn append_and_prepend_modes() {
    let d = display();
    let mut store = XPropertyStore::new();
    let a = XAtom::new(10, &d);
    let t = XAtom::new(31, &d);
    store.change_property8(a, t, XPropertyChangeMode::Replace, &vec![2u8, 3]);
    store.change_property8(a, t, XPropertyChangeMode::Append, &vec![4u8]);
    store.change_property8(a, t, XPropertyChangeMode::Prepend, &vec![1u8]);
    let data = store.get_property_completely(a, false, t).expect("present");
    match data.values() {
        XPropertyValues::Bit8(b) => assert_eq!(b, &vec![1u8, 2, 3, 4]),
        _ => panic!("expected 8-bit elements"),
    }
}

#[test]
fn sixteen_and_thirty_two_bit_round_trips() {
    let d = display();
    let mut store = XPropertyStore::new();
    let a = XAtom::new(10, &d);
    let t = XAtom::new(31, &d);
    store.change_property16(a, t, XPropertyChangeMode::Replace, &vec![-5i16, 600]);
    let data = store.get_property_completely(a, false, t).expect("present");
    assert_eq!(data.format(), XPropertyDataFormat::Bit16);
    assert_eq!(data.byte_size(), 4);
    match data.values() {
        XPropertyValues::Bit16(v) => assert_eq!(v, &vec![-5i16, 600]),
        _ => panic!("expected 16-bit elements"),
    }

    let b = XAtom::new(11, &d);
    store.change_property32(b, t, XPropertyChangeMode::Replace, &vec![1i32, -2, 3]);
    let data = store.get_property_completely(b, false, t).expect("present");
    assert_eq!(data.format(), XPropertyDataFormat::Bit32);
    assert_eq!(data.length(), 3);
    match data.values() {
        XPropertyValues::Bit32(v) => assert_eq!(v, &vec![1i32, -2, 3]),
        _ => panic!("expected 32-bit elements"),
    }
}

#[test]
fn windowed_read_respects_element_width() {
    let d = display();
    let mut store = XPropertyStore::new();
    let a = XAtom::new(10, &d);
    let t = XAtom::new(31, &d);
    store.change_property16(a, t, XPropertyChangeMode::Replace, &vec![1i16, 2, 3, 4]);
    // One 32-bit unit covers two 16-bit elements; four bytes remain.
    let (data, remaining) = store.get_property(a, 0, 1, false, t).expect("present");
    assert_eq!(data.length(), 2);
    assert_eq!(remaining, 4);
    match data.values() {
        XPropertyValues::Bit16(v) => assert_eq!(v, &vec![1i16, 2]),
        _ => panic!("expected 16-bit elements"),
    }
}

#[test]
fn delete_property_removes_entry() {
    let d = display();
    let mut store = XPropertyStore::new();
    let a = XAtom::new(10, &d);
    let t = XAtom::new(31, &d);
    store.change_property8(a, t, XPropertyChangeMode::Replace, &vec![1u8]);
    store.delete_property(a);
    assert!(store.get_property(a, 0, 1, false, t).is_none());
}
