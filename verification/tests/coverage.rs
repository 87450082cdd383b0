use xwrap::wire::{
    XWireCirculateEvent, XWireCirculateRequestEvent, XWireConfigureRequestEvent, XWireEvent,
    XWireGravityEvent, XWireMapEvent, XWireMapRequestEvent, XWireMappingEvent,
    XWireReparentEvent, XWireResizeRequestEvent, XWireSelectionClearEvent,
    XWireSelectionRequestEvent, XWireUnmapEvent, XWirePayload,
};
use xwrap::{
    CirculatePlace, ConfigureDetail, DisplayOwnership, MappingRequestType, XChar, XDisplay,
    XEventData, XFont, XFontDirection, XFontId, XGC, XImage, XTextExtents, XWindow,
    WindowHandleOwnership,
};

fn display() -> XDisplay {
    XDisplay::new(3, DisplayOwnership::Foreign, 90, 131)
}

fn wire(event_type: i32, payload: XWirePayload) -> XWireEvent {
    XWireEvent { event_type, serial: 1, send_event: 1, window: 9, payload }
}

#[test]
fn structure_events_decode() {
    let d = display();

    match XEventData::new(
        wire(24, XWirePayload::Gravity(XWireGravityEvent { window: 1, x: 2, y: 3 })),
        &d,
    ) {
        XEventData::Gravity(e) => {
            assert_eq!(e.window().handle(), 1);
            assert_eq!((e.x(), e.y()), (2, 3));
        },
        _ => panic!("expected a gravity event"),
    }

    match XEventData::new(
        wire(19, XWirePayload::MapNotify(XWireMapEvent { window: 4, override_redirect: 1 })),
        &d,
    ) {
        XEventData::MapNotify(e) => {
            assert_eq!(e.window().handle(), 4);
            assert!(e.override_redirect());
        },
        _ => panic!("expected a map event"),
    }

    match XEventData::new(
        wire(
            21,
            XWirePayload::Reparent(XWireReparentEvent {
                window: 4,
                parent: 5,
                x: 0,
                y: 0,
                override_redirect: 0,
            }),
        ),
        &d,
    ) {
        XEventData::Reparent(e) => {
            assert_eq!(e.parent().handle(), 5);
            assert!(!e.parent().needs_release());
        },
        _ => panic!("expected a reparent event"),
    }

    match XEventData::new(
        wire(18, XWirePayload::Unmap(XWireUnmapEvent { window: 4, from_configure: 1 })),
        &d,
    ) {
        XEventData::Unmap(e) => assert!(e.is_from_configure()),
        _ => panic!("expected an unmap event"),
    }

    match XEventData::new(
        wire(26, XWirePayload::Circulate(XWireCirculateEvent { window: 4, place: 1 })),
        &d,
    ) {
        XEventData::Circulate(e) => assert_eq!(e.place(), CirculatePlace::Bottom),
        _ => panic!("expected a circulate event"),
    }

    match XEventData::new(
        wire(
            27,
            XWirePayload::CirculateRequest(XWireCirculateRequestEvent { window: 4, place: 0 }),
        ),
        &d,
    ) {
        XEventData::CirculateRequest(e) => assert_eq!(e.place(), CirculatePlace::Top),
        _ => panic!("expected a circulate request"),
    }

    match XEventData::new(
        wire(
            23,
            XWirePayload::ConfigureRequest(XWireConfigureRequestEvent {
                window: 4,
                x: 1,
                y: 2,
                width: 3,
                height: 4,
                border_width: 5,
                above: 6,
                detail: 2,
                value_mask: 0x7f,
            }),
        ),
        &d,
    ) {
        XEventData::ConfigureRequest(e) => {
            assert_eq!(e.detail(), ConfigureDetail::TopIf);
            assert_eq!(e.value_mask(), 0x7f);
            assert_eq!(e.above().handle(), 6);
        },
        _ => panic!("expected a configure request"),
    }

    match XEventData::new(
        wire(20, XWirePayload::MapRequest(XWireMapRequestEvent { window: 4 })),
        &d,
    ) {
        XEventData::MapRequest(e) => assert_eq!(e.window().handle(), 4),
        _ => panic!("expected a map request"),
    }

    match XEventData::new(
        wire(25, XWirePayload::ResizeRequest(XWireResizeRequestEvent { width: 7, height: 8 })),
        &d,
    ) {
        XEventData::ResizeRequest(e) => assert_eq!((e.width(), e.height()), (7, 8)),
        _ => panic!("expected a resize request"),
    }

    match XEventData::new(
        wire(
            29,
            XWirePayload::SelectionClear(XWireSelectionClearEvent { selection: 2, time: 10 }),
        ),
        &d,
    ) {
        XEventData::SelectionClear(e) => {
            assert_eq!(e.selection().handle(), 2);
            assert_eq!(e.time(), 10);
        },
        _ => panic!("expected a selection clear"),
    }

    match XEventData::new(
        wire(
            30,
            XWirePayload::SelectionRequest(XWireSelectionRequestEvent {
                requestor: 3,
                selection: 4,
                target: 5,
                property: 6,
                time: 11,
            }),
        ),
        &d,
    ) {
        XEventData::SelectionRequest(e) => {
            assert_eq!(e.requestor().handle(), 3);
            assert!(!e.requestor().needs_release());
            assert_eq!(e.property().handle(), 6);
        },
        _ => panic!("expected a selection request"),
    }

    match XEventData::new(
        wire(34, XWirePayload::Mapping(XWireMappingEvent { request: 2, first_keycode: 1, count: 2 })),
        &d,
    ) {
        XEventData::Mapping(e) => assert_eq!(e.request_type(), MappingRequestType::Pointer),
        _ => panic!("expected a mapping event"),
    }
}

#[test]
fn font_metrics_model() {
    let c = XChar::new(-1, 10, 11, 12, 3, 0);
    assert_eq!(c.left_bearing(), -1);
    assert_eq!(c.right_bearing(), 10);
    assert_eq!(c.width(), 11);
    assert_eq!(c.ascent(), 12);
    assert_eq!(c.descent(), 3);
    assert_eq!(c.attributes(), 0);

    let e = XTextExtents::new(XFontDirection::LeftToRight, 14, 4, c);
    assert_eq!(e.direction(), XFontDirection::LeftToRight);
    assert_eq!(e.font_ascent(), 14);
    assert_eq!(e.font_descent(), 4);
    assert_eq!(e.overall().width(), 11);

    let d = display();
    let f = XFont::new(0x99, true, &d);
    assert_eq!(f.handle(), 0x99);
    assert!(f.needs_release());
    let borrowed = XFont::new(0x99, false, &d);
    assert!(!borrowed.needs_release());
    assert_eq!(XFontId(7), XFontId(7));
}

#[test]
fn gc_and_image_handles() {
    let d = display();
    let w = XWindow::new(2, &d, WindowHandleOwnership::Foreign);
    let gc: XGC<'_, XWindow<'_>> = XGC::new(0x55, &w, &d);
    assert_eq!(gc.handle(), 0x55);
    let img = XImage::new(0x66, &d);
    assert_eq!(img.handle(), 0x66);
}
