use xwrap::{
    ClientMessageData, DisplayOwnership, XDisplay, XEvent, XEventData, XWireEvent,
    XWireGenericData, XWireGenericEvent, XWirePayload,
};
use xwrap::wire::{
    XWireButtonEvent, XWireClientMessageEvent, XWireColormapEvent, XWireConfigureEvent,
    XWireCrossingEvent, XWireCursorNotifyEvent, XWireDestroyWindowEvent, XWireExposeEvent,
    XWireFocusChangeEvent, XWireKeymapEvent, XWireMappingEvent, XWireMotionEvent,
    XWirePropertyEvent, XWireSelectionEvent, XWireVisibilityEvent,
};
use xwrap::{ColormapState, NotifyDetail, NotifyMode, PropertyState, VisibilityState};

fn display() -> XDisplay {
    // A connection whose cursor extension event base is 90 and whose input
    // extension opcode is 131.
    XDisplay::new(0x7f00_0000, DisplayOwnership::Foreign, 90, 131)
}

fn wire(event_type: i32, payload: XWirePayload) -> XWireEvent {
    XWireEvent { event_type, serial: 7, send_event: 0, window: 0x42, payload }
}

#[test]
fn unknown_tag_decodes_to_unknown() {
    let d = display();
    // Tag 16 (create notify) is not interpreted by this library.
    let ev = wire(16, XWirePayload::Other);
    let data = XEventData::new(ev, &d);
    assert!(matches!(data, XEventData::Unknown(u) if u.event_type == 16));

    // A tag far outside the protocol range.
    let ev = wire(200, XWirePayload::Other);
    let data = XEventData::new(ev, &d);
    assert!(matches!(data, XEventData::Unknown(_)));

    // A dynamic cursor-notify code different from the cached base + 1.
    let ev = wire(77, XWirePayload::Other);
    let data = XEventData::new(ev, &d);
    assert!(matches!(data, XEventData::Unknown(_)));
}

#[test]
fn destroy_event_window_is_foreign() {
    let d = display();
    let ev = wire(
        17,
        XWirePayload::DestroyWindow(XWireDestroyWindowEvent { window: 0x1234 }),
    );
    let data = XEventData::new(ev, &d);
    match data {
        XEventData::Destroy(e) => {
            assert_eq!(e.window().handle(), 0x1234);
            // Foreign: dropping the handle must issue no release call.
            assert!(!e.window().needs_release());
        },
        _ => panic!("expected a destroy event"),
    }
}

#[test]
fn motion_event_fields_and_ownership() {
    let d = display();
    let ev = wire(
        6,
        XWirePayload::Motion(XWireMotionEvent {
            root: 11,
            subwindow: 22,
            time: 1000,
            x: 5,
            y: -7,
            x_root: 50,
            y_root: 70,
            state: 0x115,
            is_hint: 1,
            same_screen: 1,
        }),
    );
    let event = XEvent::new(ev, &d);
    assert_eq!(event.serial(), 7);
    assert!(!event.is_from_send_event());
    assert_eq!(event.window().handle(), 0x42);
    assert!(!event.window().needs_release());
    match event.data() {
        XEventData::Motion(e) => {
            assert_eq!(e.root().handle(), 11);
            assert_eq!(e.subwindow().handle(), 22);
            assert!(!e.root().needs_release());
            assert!(!e.subwindow().needs_release());
            assert_eq!(e.time(), 1000);
            assert_eq!(e.x(), 5);
            assert_eq!(e.y(), -7);
            assert_eq!(e.root_x(), 50);
            assert_eq!(e.root_y(), 70);
            assert_eq!(e.state().bits(), 0x115);
            assert!(e.is_hint());
            assert!(e.on_same_screen());
        },
        _ => panic!("expected a motion event"),
    }
}

#[test]
fn button_press_and_release_tags() {
    let d = display();
    let raw = |t: i32| {
        wire(
            t,
            XWirePayload::Button(XWireButtonEvent {
                root: 1,
                subwindow: 2,
                time: 3,
                x: 4,
                y: 5,
                x_root: 6,
                y_root: 7,
                state: 0,
                button: 3,
                same_screen: 0,
            }),
        )
    };
    let data = XEventData::new(raw(4), &d);
    assert!(matches!(data, XEventData::ButtonPress(ref e) if e.button() == 3));
    let data = XEventData::new(raw(5), &d);
    assert!(matches!(data, XEventData::ButtonRelease(ref e) if !e.on_same_screen()));
}

#[test]
fn colormap_event_state_and_ownership() {
    let d = display();
    let ev = wire(
        32,
        XWirePayload::Colormap(XWireColormapEvent { colormap: 99, new: 1, state: 1 }),
    );
    let data = XEventData::new(ev, &d);
    match data {
        XEventData::ColormapChange(e) => {
            assert_eq!(e.colormap().handle(), 99);
            assert!(!e.colormap().needs_release());
            assert!(e.is_new());
            assert_eq!(e.state(), ColormapState::Installed);
        },
        _ => panic!("expected a colormap event"),
    }
}

#[test]
fn crossing_and_focus_events() {
    let d = display();
    let ev = wire(
        7,
        XWirePayload::Crossing(XWireCrossingEvent {
            root: 1,
            subwindow: 0,
            time: 9,
            x: 1,
            y: 2,
            x_root: 3,
            y_root: 4,
            detail: 4,
            same_screen: 1,
            focus: 1,
            state: 0,
        }),
    );
    let data = XEventData::new(ev, &d);
    match data {
        XEventData::EnterWindow(e) => {
            assert_eq!(e.detail(), NotifyDetail::NonlinearVirtual);
            assert!(e.has_focus());
        },
        _ => panic!("expected an enter event"),
    }

    let ev = wire(9, XWirePayload::FocusChange(XWireFocusChangeEvent { mode: 1, detail: 7 }));
    let data = XEventData::new(ev, &d);
    match data {
        XEventData::FocusIn(e) => {
            assert_eq!(e.mode(), NotifyMode::Grab);
            assert_eq!(e.detail(), NotifyDetail::NoDetail);
        },
        _ => panic!("expected a focus-in event"),
    }
}

#[test]
fn expose_and_visibility_events() {
    let d = display();
    let ev = wire(
        12,
        XWirePayload::Expose(XWireExposeEvent { x: 1, y: 2, width: 30, height: 40, count: 0 }),
    );
    let data = XEventData::new(ev, &d);
    assert!(matches!(data, XEventData::Expose(ref e)
        if e.x() == 1 && e.y() == 2 && e.width() == 30 && e.height() == 40 && e.count() == 0));

    let ev = wire(15, XWirePayload::Visibility(XWireVisibilityEvent { state: 2 }));
    let data = XEventData::new(ev, &d);
    assert!(matches!(data, XEventData::VisibilityChange(ref e)
        if e.state() == VisibilityState::FullyObscured));
}

#[test]
fn keymap_event_converts_bytes_to_chars() {
    let d = display();
    let mut kv = [0i8; 32];
    kv[0] = 65;
    kv[1] = 66;
    kv[31] = 67;
    let ev = wire(11, XWirePayload::Keymap(XWireKeymapEvent { key_vector: kv }));
    let data = XEventData::new(ev, &d);
    match data {
        XEventData::KeymapChange(e) => {
            let v = e.key_vector();
            assert_eq!(v.len(), 32);
            assert_eq!(v[0], 'A');
            assert_eq!(v[1], 'B');
            assert_eq!(v[2], '\0');
            assert_eq!(v[31], 'C');
        },
        _ => panic!("expected a keymap event"),
    }
}

#[test]
fn property_event_decodes() {
    let d = display();
    let ev = wire(
        28,
        XWirePayload::Property(XWirePropertyEvent { atom: 55, time: 123, state: 1 }),
    );
    let data = XEventData::new(ev, &d);
    match data {
        XEventData::PropertyChange(e) => {
            assert_eq!(e.atom().handle(), 55);
            assert_eq!(e.time(), 123);
            assert_eq!(e.state(), PropertyState::Delete);
        },
        _ => panic!("expected a property event"),
    }
}

#[test]
fn configure_event_bottom_of_stack() {
    let d = display();
    let raw = |above: u64| {
        wire(
            22,
            XWirePayload::Configure(XWireConfigureEvent {
                window: 8,
                x: 1,
                y: 2,
                width: 3,
                height: 4,
                border_width: 5,
                above,
                override_redirect: 0,
            }),
        )
    };
    match XEventData::new(raw(0), &d) {
        XEventData::Configure(e) => assert!(e.above().is_none()),
        _ => panic!("expected a configure event"),
    }
    match XEventData::new(raw(77), &d) {
        XEventData::Configure(e) => {
            let a = e.above().expect("sibling expected");
            assert_eq!(a.handle(), 77);
            assert!(!a.needs_release());
        },
        _ => panic!("expected a configure event"),
    }
}

#[test]
fn client_message_formats() {
    let d = display();
    let raw = |format: i32| {
        let mut bytes = [0i8; 20];
        bytes[0] = 1;
        bytes[19] = -2;
        let mut shorts = [0i16; 10];
        shorts[0] = 300;
        let mut longs = [0i64; 5];
        longs[0] = 0x1_0000_0001;
        wire(
            33,
            XWirePayload::ClientMessage(XWireClientMessageEvent {
                message_type: 12,
                format,
                bytes,
                shorts,
                longs,
            }),
        )
    };
    match XEventData::new(raw(8), &d) {
        XEventData::ClientMessage(e) => {
            assert_eq!(e.message_type().handle(), 12);
            match e.data() {
                ClientMessageData::Bit8(b) => {
                    assert_eq!(b[0], 1);
                    assert_eq!(b[19], -2);
                },
                _ => panic!("expected 8-bit data"),
            }
        },
        _ => panic!("expected a client message"),
    }
    match XEventData::new(raw(16), &d) {
        XEventData::ClientMessage(e) => match e.data() {
            ClientMessageData::Bit16(s) => assert_eq!(s[0], 300),
            _ => panic!("expected 16-bit data"),
        },
        _ => panic!("expected a client message"),
    }
    match XEventData::new(raw(32), &d) {
        XEventData::ClientMessage(e) => match e.data() {
            // The stored long is truncated to 32 bits.
            ClientMessageData::Bit32(l) => assert_eq!(l[0], 1),
            _ => panic!("expected 32-bit data"),
        },
        _ => panic!("expected a client message"),
    }
}

#[test]
fn mapping_and_selection_events() {
    let d = display();
    let ev = wire(
        34,
        XWirePayload::Mapping(XWireMappingEvent { request: 1, first_keycode: 8, count: 240 }),
    );
    let data = XEventData::new(ev, &d);
    assert!(matches!(data, XEventData::Mapping(ref e)
        if e.first_keycode() == 8 && e.count() == 240));

    let ev = wire(
        31,
        XWirePayload::Selection(XWireSelectionEvent {
            selection: 1,
            target: 2,
            property: 0,
            time: 5,
        }),
    );
    match XEventData::new(ev, &d) {
        XEventData::Selection(e) => {
            assert_eq!(e.selection().handle(), 1);
            assert_eq!(e.target().handle(), 2);
            assert!(e.property().is_none());
        },
        _ => panic!("expected a selection event"),
    }
}

#[test]
fn cursor_notify_matches_dynamic_tag() {
    let d = display();
    // The cached cursor event base is 90, so the notification arrives
    // with tag 91.
    let ev = wire(
        91,
        XWirePayload::CursorNotify(XWireCursorNotifyEvent {
            subtype: 0,
            cursor_serial: 17,
            timestamp: 99,
            cursor_name: 5,
        }),
    );
    match XEventData::new(ev, &d) {
        XEventData::CursorChanged(e) => {
            assert_eq!(e.cursor_serial(), 17);
            assert_eq!(e.time(), 99);
            assert_eq!(e.cursor_name().handle(), 5);
        },
        _ => panic!("expected a cursor notification"),
    }
}

#[test]
fn generic_event_of_other_extension_is_unknown() {
    let d = display();
    // The envelope carries extension opcode 17, the connection's cached
    // input-extension opcode is 131: the decoder must not touch it.
    let ev = wire(
        35,
        XWirePayload::Generic(XWireGenericEvent {
            extension: 17,
            evtype: 2,
            data: XWireGenericData::Other,
        }),
    );
    let data = XEventData::new(ev, &d);
    match data {
        XEventData::Unknown(u) => {
            assert_eq!(u.event_type, 35);
            assert!(matches!(u.payload, XWirePayload::Generic(ref g) if g.extension == 17));
        },
        _ => panic!("expected the catch-all variant"),
    }
}

#[test]
fn generic_event_with_unknown_subtype_is_unknown() {
    let d = display();
    let ev = wire(
        35,
        XWirePayload::Generic(XWireGenericEvent {
            extension: 131,
            evtype: 99,
            data: XWireGenericData::Other,
        }),
    );
    let data = XEventData::new(ev, &d);
    assert!(matches!(data, XEventData::Unknown(_)));
}
