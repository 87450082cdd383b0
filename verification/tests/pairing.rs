use xwrap::wire::{
    XWireDeviceEvent, XWireEnterEvent, XWireGenericData, XWireGenericEvent, XWireHierarchyEvent,
    XWireHierarchyInfo, XWireModifierState, XWirePayload, XWireRawDeviceEvent,
    XWireTouchOwnershipEvent, XWireValuatorState, XWireXIPropertyEvent, XWireEvent,
};
use xwrap::{
    DisplayOwnership, XDisplay, XEventData, XIFocusEventDetail, XIFocusEventMode,
    XIPropertyEventChange, XIValuatorState,
};

fn display() -> XDisplay {
    XDisplay::new(1, DisplayOwnership::Foreign, 90, 131)
}

fn generic(evtype: i32, data: XWireGenericData) -> XWireEvent {
    XWireEvent {
        event_type: 35,
        serial: 1,
        send_event: 0,
        window: 0,
        payload: XWirePayload::Generic(XWireGenericEvent { extension: 131, evtype, data }),
    }
}

fn mods() -> XWireModifierState {
    XWireModifierState { base: 0, latched: 0, locked: 0, effective: 0 }
}

#[test]
fn mask_value_pairing_ascending() {
    // Mask byte 0b00011010 has bits 1, 3 and 4 set; the packed array
    // carries one value per set bit, in ascending bit order.
    let state = XIValuatorState::new(
        vec![0b0001_1010u8],
        vec![10.0f64.to_bits(), 20.0f64.to_bits(), 30.0f64.to_bits()],
    );
    let pairs = state.pairs();
    assert_eq!(pairs.len(), 3);
    assert_eq!(pairs[0], (1, 10.0f64.to_bits()));
    assert_eq!(pairs[1], (3, 20.0f64.to_bits()));
    assert_eq!(pairs[2], (4, 30.0f64.to_bits()));
}

#[test]
fn mask_value_pairing_across_bytes() {
    // Bits 0 and 9 set: the second value belongs to bit 9 in the second
    // mask byte.
    let state = XIValuatorState::new(vec![0x01u8, 0x02u8], vec![1u64, 2u64]);
    let pairs = state.pairs();
    assert_eq!(pairs.len(), 2);
    assert_eq!(pairs[0], (0, 1));
    assert_eq!(pairs[1], (9, 2));
}

#[test]
fn xi_device_event_extracts_masked_values() {
    let d = display();
    let ev = generic(
        6,
        XWireGenericData::Device(XWireDeviceEvent {
            time: 10,
            deviceid: 2,
            sourceid: 3,
            detail: 0,
            root: 100,
            event: 200,
            child: 300,
            root_x: 1.5f64.to_bits(),
            root_y: 2.5f64.to_bits(),
            event_x: 3.5f64.to_bits(),
            event_y: 4.5f64.to_bits(),
            flags: 0,
            buttons: vec![0b0000_0010u8],
            valuators: XWireValuatorState {
                mask: vec![0b0000_0101u8],
                values: vec![7u64, 8u64, 99u64],
            },
            mods: mods(),
            group: mods(),
        }),
    );
    match XEventData::new(ev, &d) {
        XEventData::XIMotion(e) => {
            assert_eq!(e.time(), 10);
            assert_eq!(e.device().id(), 2);
            assert_eq!(e.source().id(), 3);
            assert_eq!(e.root().handle(), 100);
            assert!(!e.root().needs_release());
            assert!(!e.event().needs_release());
            assert!(!e.child().needs_release());
            assert_eq!(e.root_x(), 1.5f64.to_bits());
            assert_eq!(e.event_y(), 4.5f64.to_bits());
            assert_eq!(e.buttons().mask()[0], 0b0000_0010u8);
            // Two mask bits are set, so exactly the first two packed
            // values are consumed.
            assert_eq!(e.valuators().values().len(), 2);
            assert_eq!(e.valuators().values()[0], 7);
            assert_eq!(e.valuators().values()[1], 8);
            let pairs = e.valuators().pairs();
            assert_eq!(pairs, vec![(0u32, 7u64), (2u32, 8u64)]);
        },
        _ => panic!("expected an extension motion event"),
    }
}

#[test]
fn xi_raw_event_pairs_both_arrays() {
    let d = display();
    let ev = generic(
        17,
        XWireGenericData::RawDevice(XWireRawDeviceEvent {
            time: 5,
            deviceid: 4,
            sourceid: 4,
            detail: 0,
            flags: 0,
            valuators: XWireValuatorState { mask: vec![0b0000_0011u8], values: vec![1, 2, 3] },
            raw_values: vec![10, 20, 30],
        }),
    );
    match XEventData::new(ev, &d) {
        XEventData::XIRawMotion(e) => {
            assert_eq!(e.valuators().values().len(), 2);
            assert_eq!(e.valuators().values()[0], 1);
            assert_eq!(e.valuators().values()[1], 2);
            assert_eq!(e.raw_values().len(), 2);
            assert_eq!(e.raw_values()[0], 10);
            assert_eq!(e.raw_values()[1], 20);
        },
        _ => panic!("expected a raw motion event"),
    }
}

#[test]
fn xi_hierarchy_event_converts_entries() {
    let d = display();
    let ev = generic(
        11,
        XWireGenericData::Hierarchy(XWireHierarchyEvent {
            time: 3,
            flags: 0x40,
            info: vec![
                XWireHierarchyInfo { deviceid: 5, attachment: 2, usage: 1, enabled: 1, flags: 0x40 },
                XWireHierarchyInfo { deviceid: 6, attachment: 2, usage: 3, enabled: 0, flags: 0 },
            ],
        }),
    );
    match XEventData::new(ev, &d) {
        XEventData::XIHierarchyChanged(e) => {
            assert_eq!(e.time(), 3);
            assert_eq!(e.flags().bits(), 0x40);
            assert_eq!(e.info().len(), 2);
            assert_eq!(e.info()[0].device().id(), 5);
            assert!(e.info()[0].enabled());
            assert!(!e.info()[1].enabled());
        },
        _ => panic!("expected a hierarchy event"),
    }
}

#[test]
fn xi_touch_ownership_and_focus_events() {
    let d = display();
    let ev = generic(
        21,
        XWireGenericData::TouchOwnership(XWireTouchOwnershipEvent {
            time: 4,
            deviceid: 9,
            sourceid: 9,
            touchid: 77,
            root: 1,
            event: 2,
            child: 3,
            flags: 0,
        }),
    );
    match XEventData::new(ev, &d) {
        XEventData::XITouchOwnershipChanged(e) => {
            assert_eq!(e.touch_id(), 77);
            assert!(!e.root().needs_release());
        },
        _ => panic!("expected a touch ownership event"),
    }

    let ev = generic(
        9,
        XWireGenericData::Enter(XWireEnterEvent {
            time: 4,
            deviceid: 9,
            sourceid: 9,
            detail: 3,
            root: 1,
            event: 2,
            child: 3,
            root_x: 0,
            root_y: 0,
            event_x: 0,
            event_y: 0,
            mode: 2,
            focus: 1,
            same_screen: 1,
            buttons: vec![0u8],
            mods: mods(),
            group: mods(),
        }),
    );
    match XEventData::new(ev, &d) {
        XEventData::XIFocusIn(e) => {
            assert_eq!(e.detail(), XIFocusEventDetail::Nonlinear);
            assert_eq!(e.mode(), XIFocusEventMode::Ungrab);
            assert!(e.focus());
        },
        _ => panic!("expected an extension focus-in event"),
    }
}

#[test]
fn xi_property_event_changes() {
    let d = display();
    let ev = generic(
        12,
        XWireGenericData::XIProperty(XWireXIPropertyEvent {
            time: 1,
            deviceid: 3,
            property: 44,
            what: 2,
        }),
    );
    match XEventData::new(ev, &d) {
        XEventData::XIPropertyChanged(e) => {
            assert_eq!(e.property().handle(), 44);
            assert_eq!(e.what(), XIPropertyEventChange::Modified);
        },
        _ => panic!("expected a device property event"),
    }
}
