use xwrap::{
    BackingWindowStore, ColormapHandleOwnership, ColormapState, DisplayOwnership,
    InputModifierMask, QueuedMode, SetWindowAttributes, VisualClass, WindowClass,
    WindowHandleOwnership, WindowShapeKind, XColormap, XCursor, XDisplay, XFontDirection,
    XImageFormat, XInputDevice, XPixmap, XServerRegion, XVisual, XVisualInfo, XWindow,
    XWindowTreeInfo, PixmapHandleOwnership,
};
use xwrap::masks::{BUTTON_1_MASK, SHIFT_MASK};
use xwrap::window::{
    CW_BACKING_STORE, CW_BACK_PIXEL, CW_COLORMAP, CW_EVENT_MASK, CW_OVERRIDE_REDIRECT,
};
use xwrap::WindowInputMask;

fn display() -> XDisplay {
    XDisplay::new(0xdead, DisplayOwnership::Owned, 86, 131)
}

#[test]
fn display_caches_extension_state() {
    let d = display();
    assert_eq!(d.handle(), 0xdead);
    assert_eq!(d.xfixes_event_base(), 86);
    assert_eq!(d.xinput2_opcode(), 131);
    assert!(d.needs_close());
    let borrowed = XDisplay::new(1, DisplayOwnership::Foreign, 0, 0);
    assert!(!borrowed.needs_close());
}

#[test]
fn window_ownership_decides_release() {
    let d = display();
    let foreign = XWindow::new(5, &d, WindowHandleOwnership::Foreign);
    let owned = XWindow::new(6, &d, WindowHandleOwnership::Owned);
    let overlay = XWindow::new(7, &d, WindowHandleOwnership::OwnedCompositeOverlay);
    assert!(!foreign.needs_release());
    assert!(owned.needs_release());
    assert!(overlay.needs_release());
    let clone = owned.foreign_clone();
    assert_eq!(clone.handle(), 6);
    assert!(!clone.needs_release());
}

#[test]
fn colormap_and_pixmap_ownership() {
    let d = display();
    let c = XColormap::new(9, &d, ColormapHandleOwnership::Foreign);
    assert!(!c.needs_release());
    assert_eq!(c.handle(), 9);
    let c = XColormap::new(9, &d, ColormapHandleOwnership::Owned);
    assert!(c.needs_release());
    let p = XPixmap::new(4, &d, PixmapHandleOwnership::Owned);
    assert!(p.needs_release());
    assert_eq!(p.handle(), 4);
    let cur = XCursor::new(3, &d);
    assert_eq!(cur.handle(), 3);
    let r = XServerRegion::new(8, &d);
    assert_eq!(r.handle(), 8);
}

#[test]
fn input_devices_use_sentinel_identifiers() {
    let d = display();
    assert_eq!(XInputDevice::all(&d).id(), 0);
    assert_eq!(XInputDevice::all_master(&d).id(), 1);
    assert_eq!(XInputDevice::from_id(12, &d).id(), 12);
}

#[test]
fn window_attributes_value_mask() {
    let d = display();
    let colormap = XColormap::new(1, &d, ColormapHandleOwnership::Foreign);
    let attrs = SetWindowAttributes::new();
    assert_eq!(attrs.value_mask(), 0);
    let attrs = attrs
        .background_pixel(0xff_0000)
        .backing_store(BackingWindowStore::WhenMapped)
        .override_redirect(true)
        .event_mask(WindowInputMask::from_bits_retain(5))
        .colormap(&colormap);
    assert_eq!(
        attrs.value_mask(),
        CW_BACK_PIXEL | CW_BACKING_STORE | CW_OVERRIDE_REDIRECT | CW_EVENT_MASK | CW_COLORMAP,
    );
}

#[test]
fn window_tree_info_splits() {
    let d = display();
    let root = XWindow::new(1, &d, WindowHandleOwnership::Foreign);
    let parent = XWindow::new(2, &d, WindowHandleOwnership::Foreign);
    let children = vec![
        XWindow::new(3, &d, WindowHandleOwnership::Foreign),
        XWindow::new(4, &d, WindowHandleOwnership::Foreign),
    ];
    let info = XWindowTreeInfo::new(root, parent, children);
    assert_eq!(info.root().handle(), 1);
    assert_eq!(info.parent().handle(), 2);
    assert_eq!(info.children().len(), 2);
    assert_eq!(info.children()[1].handle(), 4);
    let (r, p, c) = info.split();
    assert_eq!(r.handle(), 1);
    assert_eq!(p.handle(), 2);
    assert_eq!(c.len(), 2);
}

#[test]
fn masks_and_enum_conversions() {
    let m = InputModifierMask::from_bits_retain(SHIFT_MASK | BUTTON_1_MASK);
    assert!(m.contains(InputModifierMask::from_bits_retain(SHIFT_MASK)));
    assert!(!m.contains(InputModifierMask::from_bits_retain(0x2)));
    assert_eq!(m.bits(), 0x101);

    assert_eq!(QueuedMode::AfterFlush.to_native(), 2);
    assert_eq!(WindowClass::InputOnly.to_native(), 2);
    assert_eq!(WindowShapeKind::Input.to_native(), 2);
    assert_eq!(VisualClass::TrueColor.to_native(), 4);
    assert_eq!(XImageFormat::ZPixmap.to_native(), 2);
    assert_eq!(ColormapState::new(1), ColormapState::Installed);
    assert_eq!(ColormapState::new(0), ColormapState::Uninstalled);
    assert_eq!(XFontDirection::from_raw(1), XFontDirection::RightToLeft);
}

#[test]
fn visual_info_carries_depth_and_visual() {
    let v = XVisual::new(100, 41);
    assert_eq!(v.handle(), 100);
    assert_eq!(v.id(), 41);
    let info = XVisualInfo::new(24, v);
    assert_eq!(info.depth(), 24);
    assert_eq!(info.visual().id(), 41);
    let v = info.into_visual();
    assert_eq!(v.handle(), 100);
}
