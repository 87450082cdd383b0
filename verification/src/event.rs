//! Typed events and the decoding core.
//!
//! `XEvent::new` consumes one raw wire event and classifies it into the
//! closed set of typed variants below.  The classification is total: a type
//! tag outside the known set — including a dynamic cursor-notification tag
//! that does not match the connection's cached base — yields the catch-all
//! variant and never fails.  Every resource handle embedded in a decoded
//! event is tagged foreign: an event reports that a resource exists, it
//! never grants ownership of it.

use crate::atom::XAtom;
use crate::colormap::{ColormapHandleOwnership, ColormapState, XColormap};
use crate::display::XDisplay;
use crate::masks::InputModifierMask;
use crate::window::{WindowHandleOwnership, XWindow};
use crate::wire::{
    is_core_event_type, is_known_event_type, XWireButtonEvent, XWireCirculateEvent, XWireCirculateRequestEvent, XWireClientMessageEvent,
    XWireColormapEvent, XWireConfigureEvent, XWireConfigureRequestEvent, XWireCrossingEvent,
    XWireCursorNotifyEvent, XWireDestroyWindowEvent, XWireExposeEvent, XWireFocusChangeEvent,
    XWireGravityEvent, XWireKeyEvent, XWireKeymapEvent, XWireMapEvent, XWireMapRequestEvent,
    XWireMappingEvent, XWireMotionEvent, XWirePropertyEvent, XWireReparentEvent,
    XWireResizeRequestEvent, XWireSelectionClearEvent, XWireSelectionEvent,
    XWireSelectionRequestEvent, XWireUnmapEvent, XWireVisibilityEvent, XWireDeviceChangedEvent,
    XWireDeviceEvent, XWireEnterEvent, XWireEvent, XWireGenericData, XWireGenericEvent,
    XWireHierarchyEvent, XWirePayload, XWireRawDeviceEvent, XWireTouchOwnershipEvent,
    XWireXIPropertyEvent, XWireBarrierEvent, CLIENT_MESSAGE, BUTTON_PRESS, BUTTON_RELEASE,
    CIRCULATE_NOTIFY, CIRCULATE_REQUEST, COLORMAP_NOTIFY, CONFIGURE_NOTIFY, CONFIGURE_REQUEST,
    DESTROY_NOTIFY, ENTER_NOTIFY, EXPOSE, FOCUS_IN, FOCUS_OUT, GENERIC_EVENT, GRAVITY_NOTIFY,
    KEYMAP_NOTIFY, KEY_PRESS, KEY_RELEASE, LEAVE_NOTIFY, MAPPING_NOTIFY, MAP_NOTIFY, MAP_REQUEST,
    MOTION_NOTIFY, PROPERTY_NOTIFY, REPARENT_NOTIFY, RESIZE_REQUEST, SELECTION_CLEAR,
    SELECTION_NOTIFY, SELECTION_REQUEST, UNMAP_NOTIFY, VISIBILITY_NOTIFY, XFIXES_CURSOR_NOTIFY,
    XI_BARRIER_HIT, XI_BARRIER_LEAVE, XI_BUTTON_PRESS, XI_BUTTON_RELEASE, XI_DEVICE_CHANGED,
    XI_ENTER, XI_FOCUS_IN, XI_FOCUS_OUT, XI_HIERARCHY_CHANGED, XI_KEY_PRESS, XI_KEY_RELEASE,
    XI_LEAVE, XI_MOTION, XI_PROPERTY_EVENT, XI_RAW_BUTTON_PRESS, XI_RAW_BUTTON_RELEASE,
    XI_RAW_KEY_PRESS, XI_RAW_KEY_RELEASE, XI_RAW_MOTION, XI_RAW_TOUCH_BEGIN, XI_RAW_TOUCH_END,
    XI_RAW_TOUCH_UPDATE, XI_TOUCH_BEGIN, XI_TOUCH_END, XI_TOUCH_OWNERSHIP, XI_TOUCH_UPDATE,
};
use crate::xi::{
    XIBarrierEvent, XIDeviceChangedEvent, XIDeviceEvent, XIFocusEvent, XIHierarchyEvent,
    XIPropertyEvent, XIRawEvent, XITouchOwnershipEvent,
};
use vstd::pervasive::unreached;
use vstd::prelude::*;

verus! {

/// The value the hint field of a motion event carries when the event is a
/// motion hint.
pub const NOTIFY_HINT: i32 = 1;

/// How much of a window is visible.
#[derive(Debug, Copy, Clone, Eq, PartialEq, Structural)]
pub enum VisibilityState {
    /// The window is fully visible
    Unobscured,
    /// The window is partially hidden
    PartiallyObscured,
    /// The window is fully hidden
    FullyObscured,
}

impl VisibilityState {
    /// Wraps an existing X11 visibility state; the native encoding defines
    /// exactly the values 0 to 2.
    pub fn new(state: i32) -> (r: Self)
        requires
            0 <= state <= 2,
        ensures
            state == 0 ==> r == VisibilityState::Unobscured,
            state == 1 ==> r == VisibilityState::PartiallyObscured,
            state == 2 ==> r == VisibilityState::FullyObscured,
    {
        if state == 0 {
            VisibilityState::Unobscured
        } else if state == 1 {
            VisibilityState::PartiallyObscured
        } else {
            VisibilityState::FullyObscured
        }
    }
}

/// What part of the input mapping changed.
#[derive(Debug, Copy, Clone, Eq, PartialEq, Structural)]
pub enum MappingRequestType {
    Modifier,
    Keyboard,
    Pointer,
}

impl MappingRequestType {
    /// Wraps an existing X11 mapping request type; the native encoding
    /// defines exactly the values 0 to 2.
    pub fn new(request: i32) -> (r: Self)
        requires
            0 <= request <= 2,
        ensures
            request == 0 ==> r == MappingRequestType::Modifier,
            request == 1 ==> r == MappingRequestType::Keyboard,
            request == 2 ==> r == MappingRequestType::Pointer,
    {
        if request == 0 {
            MappingRequestType::Modifier
        } else if request == 1 {
            MappingRequestType::Keyboard
        } else {
            MappingRequestType::Pointer
        }
    }
}

/// The payload of a client message, read in the element width its format
/// field names.
#[derive(Debug, Copy, Clone, Eq, PartialEq)]
pub enum ClientMessageData {
    Bit8([i8; 20]),
    Bit16([i16; 10]),
    Bit32([i32; 5]),
}

/// Where a window asks to be stacked.
#[derive(Debug, Copy, Clone, Eq, PartialEq, Structural)]
pub enum ConfigureDetail {
    Above,
    Below,
    TopIf,
    BottomIf,
    Opposite,
}

impl ConfigureDetail {
    /// Wraps an existing X11 configure detail; the native encoding defines
    /// exactly the values 0 to 4.
    pub fn new(detail: i32) -> (r: Self)
        requires
            0 <= detail <= 4,
        ensures
            detail == 0 ==> r == ConfigureDetail::Above,
            detail == 1 ==> r == ConfigureDetail::Below,
            detail == 2 ==> r == ConfigureDetail::TopIf,
            detail == 3 ==> r == ConfigureDetail::BottomIf,
            detail == 4 ==> r == ConfigureDetail::Opposite,
    {
        if detail == 0 {
            ConfigureDetail::Above
        } else if detail == 1 {
            ConfigureDetail::Below
        } else if detail == 2 {
            ConfigureDetail::TopIf
        } else if detail == 3 {
            ConfigureDetail::BottomIf
        } else {
            ConfigureDetail::Opposite
        }
    }
}

/// Where a circulated window is placed.
#[derive(Debug, Copy, Clone, Eq, PartialEq, Structural)]
pub enum CirculatePlace {
    /// The window should be placed on top
    Top,
    /// The window should be placed on the bottom
    Bottom,
}

impl CirculatePlace {
    /// Wraps an existing X11 circulate place; the native encoding defines
    /// exactly the values 0 (top) and 1 (bottom).
    pub fn new(place: i32) -> (r: Self)
        requires
            place == 0 || place == 1,
        ensures
            place == 0 ==> r == CirculatePlace::Top,
            place == 1 ==> r == CirculatePlace::Bottom,
    {
        if place == 0 {
            CirculatePlace::Top
        } else {
            CirculatePlace::Bottom
        }
    }
}

/// What happened to a property.
#[derive(Debug, Copy, Clone, Eq, PartialEq, Structural)]
pub enum PropertyState {
    /// The property has a new value
    NewValue,
    /// The property got deleted
    Delete,
}

impl PropertyState {
    /// Wraps an existing X11 property state; the native encoding defines
    /// exactly the values 0 (new value) and 1 (deleted).
    pub fn new(state: i32) -> (r: Self)
        requires
            state == 0 || state == 1,
        ensures
            state == 0 ==> r == PropertyState::NewValue,
            state == 1 ==> r == PropertyState::Delete,
    {
        if state == 0 {
            PropertyState::NewValue
        } else {
            PropertyState::Delete
        }
    }
}

/// The mode of a focus or crossing notification.
#[derive(Debug, Copy, Clone, Eq, PartialEq, Hash, Structural)]
pub enum NotifyMode {
    /// Normal notification
    Normal,
    /// Grabbed notification
    Grab,
    /// Ungrabbed notification
    Ungrab,
}

impl NotifyMode {
    /// Wraps an existing X11 notify mode; this library handles the native
    /// values 0 (normal), 1 (grab) and 2 (ungrab).
    pub fn new(mode: i32) -> (r: Self)
        requires
            0 <= mode <= 2,
        ensures
            mode == 0 ==> r == NotifyMode::Normal,
            mode == 1 ==> r == NotifyMode::Grab,
            mode == 2 ==> r == NotifyMode::Ungrab,
    {
        if mode == 0 {
            NotifyMode::Normal
        } else if mode == 1 {
            NotifyMode::Grab
        } else {
            NotifyMode::Ungrab
        }
    }
}

/// The detail of a focus or crossing notification.
#[derive(Debug, Copy, Clone, Eq, PartialEq, Hash, Structural)]
pub enum NotifyDetail {
    /// Notification from ancestor window
    Ancestor,
    /// Virtual notification
    Virtual,
    /// Notification from inferior window
    Inferior,
    /// Notification from non linear related window
    Nonlinear,
    /// Virtual notification from non linear related window
    NonlinearVirtual,
    /// Notification from a pointer
    Pointer,
    /// Notification from a root pointer
    PointerRoot,
    /// No detail given
    NoDetail,
}

impl NotifyDetail {
    /// Wraps an existing X11 notify detail; the native encoding defines
    /// exactly the values 0 to 7.
    pub fn new(detail: i32) -> (r: Self)
        requires
            0 <= detail <= 7,
        ensures
            detail == 0 ==> r == NotifyDetail::Ancestor,
            detail == 1 ==> r == NotifyDetail::Virtual,
            detail == 2 ==> r == NotifyDetail::Inferior,
            detail == 3 ==> r == NotifyDetail::Nonlinear,
            detail == 4 ==> r == NotifyDetail::NonlinearVirtual,
            detail == 5 ==> r == NotifyDetail::Pointer,
            detail == 6 ==> r == NotifyDetail::PointerRoot,
            detail == 7 ==> r == NotifyDetail::NoDetail,
    {
        if detail == 0 {
            NotifyDetail::Ancestor
        } else if detail == 1 {
            NotifyDetail::Virtual
        } else if detail == 2 {
            NotifyDetail::Inferior
        } else if detail == 3 {
            NotifyDetail::Nonlinear
        } else if detail == 4 {
            NotifyDetail::NonlinearVirtual
        } else if detail == 5 {
            NotifyDetail::Pointer
        } else if detail == 6 {
            NotifyDetail::PointerRoot
        } else {
            NotifyDetail::NoDetail
        }
    }
}

/// The sub-type of a cursor notification.
#[derive(Debug, Copy, Clone, Eq, PartialEq, Hash, Structural)]
pub enum XDisplayCursorEventSubtype {
    CursorNotify,
}

impl XDisplayCursorEventSubtype {
    /// Wraps an existing cursor event subtype; the native encoding defines
    /// exactly the value 0.
    pub fn new(subtype: i32) -> (r: Self)
        requires
            subtype == 0,
        ensures
            r == XDisplayCursorEventSubtype::CursorNotify,
    {
        XDisplayCursorEventSubtype::CursorNotify
    }
}

/// A pointer motion report.
#[derive(Debug)]
pub struct XMotionEvent<'a> {
    pub root: XWindow<'a>,
    pub subwindow: XWindow<'a>,
    pub time: u64,
    pub x: i32,
    pub y: i32,
    pub x_root: i32,
    pub y_root: i32,
    pub state: InputModifierMask,
    pub is_hint: bool,
    pub same_screen: bool,
}

impl<'a> XMotionEvent<'a> {
    /// Every window handle embedded in this event is foreign.
    pub open spec fn all_foreign(self) -> bool {
        &&& self.root.is_foreign()
        &&& self.subwindow.is_foreign()
    }

    /// How this event decodes its wire form.
    pub open spec fn decodes(self, w: XWireMotionEvent, display: &XDisplay) -> bool {
        &&& self.root.handle == w.root
        &&& self.root.display == display
        &&& self.subwindow.handle == w.subwindow
        &&& self.subwindow.display == display
        &&& self.all_foreign()
        &&& self.time == w.time
        &&& self.x == w.x
        &&& self.y == w.y
        &&& self.x_root == w.x_root
        &&& self.y_root == w.y_root
        &&& self.state.bits == w.state
        &&& self.is_hint == (w.is_hint == NOTIFY_HINT)
        &&& self.same_screen == (w.same_screen != 0)
    }

    /// Converts a wire motion event.
    pub fn new(event: &XWireMotionEvent, display: &'a XDisplay) -> (r: Self)
        ensures
            r.decodes(*event, display),
            r.all_foreign(),
    {
        XMotionEvent {
            root: XWindow::new(event.root, display, WindowHandleOwnership::Foreign),
            subwindow: XWindow::new(event.subwindow, display, WindowHandleOwnership::Foreign),
            time: event.time,
            x: event.x,
            y: event.y,
            x_root: event.x_root,
            y_root: event.y_root,
            state: InputModifierMask::from_bits_retain(event.state),
            is_hint: event.is_hint == NOTIFY_HINT,
            same_screen: event.same_screen != 0,
        }
    }

    /// Retrieves the root window this event occurred on.
    pub fn root(&self) -> (r: &XWindow<'a>)
        ensures
            *r == self.root,
    {
        &self.root
    }

    /// Retrieves the subwindow this event occurred on.
    pub fn subwindow(&self) -> (r: &XWindow<'a>)
        ensures
            *r == self.subwindow,
    {
        &self.subwindow
    }

    /// Retrieves the timestamp this event occurred at.
    pub fn time(&self) -> (r: u64)
        ensures
            r == self.time,
    {
        self.time
    }

    /// The x position of the cursor relative to the window that generated
    /// the event.
    pub fn x(&self) -> (r: i32)
        ensures
            r == self.x,
    {
        self.x
    }

    /// The y position of the cursor relative to the window that generated
    /// the event.
    pub fn y(&self) -> (r: i32)
        ensures
            r == self.y,
    {
        self.y
    }

    /// The x position of the cursor relative to the root window.
    pub fn root_x(&self) -> (r: i32)
        ensures
            r == self.x_root,
    {
        self.x_root
    }

    /// The y position of the cursor relative to the root window.
    pub fn root_y(&self) -> (r: i32)
        ensures
            r == self.y_root,
    {
        self.y_root
    }

    /// Retrieves the state the cursor was in when the event occurred.
    pub fn state(&self) -> (r: InputModifierMask)
        ensures
            r == self.state,
    {
        self.state
    }

    /// Determines whether this event is a hint.
    pub fn is_hint(&self) -> (r: bool)
        ensures
            r == self.is_hint,
    {
        self.is_hint
    }

    /// Determines whether the window the event occurred in and the root
    /// window were on the same screen.
    pub fn on_same_screen(&self) -> (r: bool)
        ensures
            r == self.same_screen,
    {
        self.same_screen
    }
}

/// A button press or release report.
#[derive(Debug)]
pub struct XButtonEvent<'a> {
    pub root: XWindow<'a>,
    pub subwindow: XWindow<'a>,
    pub time: u64,
    pub x: i32,
    pub y: i32,
    pub x_root: i32,
    pub y_root: i32,
    pub state: InputModifierMask,
    pub button: u32,
    pub same_screen: bool,
}

impl<'a> XButtonEvent<'a> {
    /// Every window handle embedded in this event is foreign.
    pub open spec fn all_foreign(self) -> bool {
        &&& self.root.is_foreign()
        &&& self.subwindow.is_foreign()
    }

    /// How this event decodes its wire form.
    pub open spec fn decodes(self, w: XWireButtonEvent, display: &XDisplay) -> bool {
        &&& self.root.handle == w.root
        &&& self.root.display == display
        &&& self.subwindow.handle == w.subwindow
        &&& self.subwindow.display == display
        &&& self.all_foreign()
        &&& self.time == w.time
        &&& self.x == w.x
        &&& self.y == w.y
        &&& self.x_root == w.x_root
        &&& self.y_root == w.y_root
        &&& self.state.bits == w.state
        &&& self.button == w.button
        &&& self.same_screen == (w.same_screen != 0)
    }

    /// Converts a wire button event.
    pub fn new(event: &XWireButtonEvent, display: &'a XDisplay) -> (r: Self)
        ensures
            r.decodes(*event, display),
            r.all_foreign(),
    {
        XButtonEvent {
            root: XWindow::new(event.root, display, WindowHandleOwnership::Foreign),
            subwindow: XWindow::new(event.subwindow, display, WindowHandleOwnership::Foreign),
            time: event.time,
            x: event.x,
            y: event.y,
            x_root: event.x_root,
            y_root: event.y_root,
            state: InputModifierMask::from_bits_retain(event.state),
            button: event.button,
            same_screen: event.same_screen != 0,
        }
    }

    /// Retrieves the root window this event occurred on.
    pub fn root(&self) -> (r: &XWindow<'a>)
        ensures
            *r == self.root,
    {
        &self.root
    }

    /// Retrieves the subwindow this event occurred on.
    pub fn subwindow(&self) -> (r: &XWindow<'a>)
        ensures
            *r == self.subwindow,
    {
        &self.subwindow
    }

    /// Retrieves the timestamp this event occurred at.
    pub fn time(&self) -> (r: u64)
        ensures
            r == self.time,
    {
        self.time
    }

    /// The x position of the cursor relative to the window that generated
    /// the event.
    pub fn x(&self) -> (r: i32)
        ensures
            r == self.x,
    {
        self.x
    }

    /// The y position of the cursor relative to the window that generated
    /// the event.
    pub fn y(&self) -> (r: i32)
        ensures
            r == self.y,
    {
        self.y
    }

    /// The x position of the cursor relative to the root window.
    pub fn root_x(&self) -> (r: i32)
        ensures
            r == self.x_root,
    {
        self.x_root
    }

    /// The y position of the cursor relative to the root window.
    pub fn root_y(&self) -> (r: i32)
        ensures
            r == self.y_root,
    {
        self.y_root
    }

    /// Retrieves the state the cursor was in when the event occurred.
    pub fn state(&self) -> (r: InputModifierMask)
        ensures
            r == self.state,
    {
        self.state
    }

    /// Retrieves the number of the button that triggered the event.
    pub fn button(&self) -> (r: u32)
        ensures
            r == self.button,
    {
        self.button
    }

    /// Determines whether the window the event occurred in and the root
    /// window were on the same screen.
    pub fn on_same_screen(&self) -> (r: bool)
        ensures
            r == self.same_screen,
    {
        self.same_screen
    }
}

/// A key press or release report.
#[derive(Debug)]
pub struct XKeyEvent<'a> {
    pub root: XWindow<'a>,
    pub subwindow: XWindow<'a>,
    pub time: u64,
    pub x: i32,
    pub y: i32,
    pub x_root: i32,
    pub y_root: i32,
    pub state: InputModifierMask,
    pub keycode: u32,
    pub same_screen: bool,
}

impl<'a> XKeyEvent<'a> {
    /// Every window handle embedded in this event is foreign.
    pub open spec fn all_foreign(self) -> bool {
        &&& self.root.is_foreign()
        &&& self.subwindow.is_foreign()
    }

    /// How this event decodes its wire form.
    pub open spec fn decodes(self, w: XWireKeyEvent, display: &XDisplay) -> bool {
        &&& self.root.handle == w.root
        &&& self.root.display == display
        &&& self.subwindow.handle == w.subwindow
        &&& self.subwindow.display == display
        &&& self.all_foreign()
        &&& self.time == w.time
        &&& self.x == w.x
        &&& self.y == w.y
        &&& self.x_root == w.x_root
        &&& self.y_root == w.y_root
        &&& self.state.bits == w.state
        &&& self.keycode == w.keycode
        &&& self.same_screen == (w.same_screen != 0)
    }

    /// Converts a wire key event.
    pub fn new(event: &XWireKeyEvent, display: &'a XDisplay) -> (r: Self)
        ensures
            r.decodes(*event, display),
            r.all_foreign(),
    {
        XKeyEvent {
            root: XWindow::new(event.root, display, WindowHandleOwnership::Foreign),
            subwindow: XWindow::new(event.subwindow, display, WindowHandleOwnership::Foreign),
            time: event.time,
            x: event.x,
            y: event.y,
            x_root: event.x_root,
            y_root: event.y_root,
            state: InputModifierMask::from_bits_retain(event.state),
            keycode: event.keycode,
            same_screen: event.same_screen != 0,
        }
    }

    /// Retrieves the root window this event occurred on.
    pub fn root(&self) -> (r: &XWindow<'a>)
        ensures
            *r == self.root,
    {
        &self.root
    }

    /// Retrieves the subwindow this event occurred on.
    pub fn subwindow(&self) -> (r: &XWindow<'a>)
        ensures
            *r == self.subwindow,
    {
        &self.subwindow
    }

    /// Retrieves the timestamp this event occurred at.
    pub fn time(&self) -> (r: u64)
        ensures
            r == self.time,
    {
        self.time
    }

    /// The x position of the cursor relative to the window that generated
    /// the event.
    pub fn x(&self) -> (r: i32)
        ensures
            r == self.x,
    {
        self.x
    }

    /// The y position of the cursor relative to the window that generated
    /// the event.
    pub fn y(&self) -> (r: i32)
        ensures
            r == self.y,
    {
        self.y
    }

    /// The x position of the cursor relative to the root window.
    pub fn root_x(&self) -> (r: i32)
        ensures
            r == self.x_root,
    {
        self.x_root
    }

    /// The y position of the cursor relative to the root window.
    pub fn root_y(&self) -> (r: i32)
        ensures
            r == self.y_root,
    {
        self.y_root
    }

    /// Retrieves the state the cursor was in when the event occurred.
    pub fn state(&self) -> (r: InputModifierMask)
        ensures
            r == self.state,
    {
        self.state
    }

    /// Retrieves the keycode of the key that triggered the event.
    pub fn keycode(&self) -> (r: u32)
        ensures
            r == self.keycode,
    {
        self.keycode
    }

    /// Determines whether the window the event occurred in and the root
    /// window were on the same screen.
    pub fn on_same_screen(&self) -> (r: bool)
        ensures
            r == self.same_screen,
    {
        self.same_screen
    }
}

/// A colormap change report.
#[derive(Debug)]
pub struct XColormapEvent<'a> {
    pub colormap: XColormap<'a>,
    pub new: bool,
    pub state: ColormapState,
}

impl<'a> XColormapEvent<'a> {
    /// Every resource handle embedded in this event is foreign.
    pub open spec fn all_foreign(self) -> bool {
        self.colormap.ownership == ColormapHandleOwnership::Foreign
    }

    /// How this event decodes its wire form.
    pub open spec fn decodes(self, w: XWireColormapEvent, display: &XDisplay) -> bool {
        &&& self.colormap.handle == w.colormap
        &&& self.colormap.display == display
        &&& self.all_foreign()
        &&& self.new == (w.new != 0)
        &&& (w.state == 1 ==> self.state == ColormapState::Installed)
        &&& (w.state == 0 ==> self.state == ColormapState::Uninstalled)
    }

    /// Converts a wire colormap event.
    pub fn new(event: &XWireColormapEvent, display: &'a XDisplay) -> (r: Self)
        requires
            event.state == 0 || event.state == 1,
        ensures
            r.decodes(*event, display),
            r.all_foreign(),
    {
        XColormapEvent {
            colormap: XColormap::new(event.colormap, display, ColormapHandleOwnership::Foreign),
            new: event.new != 0,
            state: ColormapState::new(event.state),
        }
    }

    /// Retrieves the colormap that triggered this event.
    pub fn colormap(&self) -> (r: &XColormap<'a>)
        ensures
            *r == self.colormap,
    {
        &self.colormap
    }

    /// Determines whether the colormap is a new colormap.
    pub fn is_new(&self) -> (r: bool)
        ensures
            r == self.new,
    {
        self.new
    }

    /// Retrieves the state of the colormap.
    pub fn state(&self) -> (r: ColormapState)
        ensures
            r == self.state,
    {
        self.state
    }
}

/// A report that the pointer crossed a window boundary.
#[derive(Debug)]
pub struct XCrossingEvent<'a> {
    pub root: XWindow<'a>,
    pub subwindow: XWindow<'a>,
    pub time: u64,
    pub x: i32,
    pub y: i32,
    pub x_root: i32,
    pub y_root: i32,
    pub detail: NotifyDetail,
    pub same_screen: bool,
    pub focus: bool,
    pub state: InputModifierMask,
}

impl<'a> XCrossingEvent<'a> {
    /// Every window handle embedded in this event is foreign.
    pub open spec fn all_foreign(self) -> bool {
        &&& self.root.is_foreign()
        &&& self.subwindow.is_foreign()
    }

    /// How this event decodes its wire form.
    pub open spec fn decodes(self, w: XWireCrossingEvent, display: &XDisplay) -> bool {
        &&& self.root.handle == w.root
        &&& self.root.display == display
        &&& self.subwindow.handle == w.subwindow
        &&& self.subwindow.display == display
        &&& self.all_foreign()
        &&& self.time == w.time
        &&& self.x == w.x
        &&& self.y == w.y
        &&& self.x_root == w.x_root
        &&& self.y_root == w.y_root
        &&& (w.detail == 0 ==> self.detail == NotifyDetail::Ancestor)
        &&& (w.detail == 1 ==> self.detail == NotifyDetail::Virtual)
        &&& (w.detail == 2 ==> self.detail == NotifyDetail::Inferior)
        &&& (w.detail == 3 ==> self.detail == NotifyDetail::Nonlinear)
        &&& (w.detail == 4 ==> self.detail == NotifyDetail::NonlinearVirtual)
        &&& (w.detail == 5 ==> self.detail == NotifyDetail::Pointer)
        &&& (w.detail == 6 ==> self.detail == NotifyDetail::PointerRoot)
        &&& (w.detail == 7 ==> self.detail == NotifyDetail::NoDetail)
        &&& self.same_screen == (w.same_screen != 0)
        &&& self.focus == (w.focus != 0)
        &&& self.state.bits == w.state
    }

    /// Converts a wire crossing event.
    pub fn new(event: &XWireCrossingEvent, display: &'a XDisplay) -> (r: Self)
        requires
            0 <= event.detail <= 7,
        ensures
            r.decodes(*event, display),
            r.all_foreign(),
    {
        XCrossingEvent {
            root: XWindow::new(event.root, display, WindowHandleOwnership::Foreign),
            subwindow: XWindow::new(event.subwindow, display, WindowHandleOwnership::Foreign),
            time: event.time,
            x: event.x,
            y: event.y,
            x_root: event.x_root,
            y_root: event.y_root,
            detail: NotifyDetail::new(event.detail),
            same_screen: event.same_screen != 0,
            focus: event.focus != 0,
            state: InputModifierMask::from_bits_retain(event.state),
        }
    }

    /// Retrieves the root window this event occurred on.
    pub fn root(&self) -> (r: &XWindow<'a>)
        ensures
            *r == self.root,
    {
        &self.root
    }

    /// Retrieves the subwindow this event occurred on.
    pub fn subwindow(&self) -> (r: &XWindow<'a>)
        ensures
            *r == self.subwindow,
    {
        &self.subwindow
    }

    /// Retrieves the timestamp this event occurred at.
    pub fn time(&self) -> (r: u64)
        ensures
            r == self.time,
    {
        self.time
    }

    /// The x position of the cursor relative to the window that generated
    /// the event.
    pub fn x(&self) -> (r: i32)
        ensures
            r == self.x,
    {
        self.x
    }

    /// The y position of the cursor relative to the window that generated
    /// the event.
    pub fn y(&self) -> (r: i32)
        ensures
            r == self.y,
    {
        self.y
    }

    /// The x position of the cursor relative to the root window.
    pub fn root_x(&self) -> (r: i32)
        ensures
            r == self.x_root,
    {
        self.x_root
    }

    /// The y position of the cursor relative to the root window.
    pub fn root_y(&self) -> (r: i32)
        ensures
            r == self.y_root,
    {
        self.y_root
    }

    /// Retrieves the detail of this notification.
    pub fn detail(&self) -> (r: NotifyDetail)
        ensures
            r == self.detail,
    {
        self.detail
    }

    /// Determines whether the window has focus.
    pub fn has_focus(&self) -> (r: bool)
        ensures
            r == self.focus,
    {
        self.focus
    }

    /// Retrieves the state the cursor was in when the event occurred.
    pub fn state(&self) -> (r: InputModifierMask)
        ensures
            r == self.state,
    {
        self.state
    }

    /// Determines whether the window the event occurred in and the root
    /// window were on the same screen.
    pub fn on_same_screen(&self) -> (r: bool)
        ensures
            r == self.same_screen,
    {
        self.same_screen
    }
}

/// A report that part of a window was exposed and needs to be redrawn.
#[derive(Debug, Copy, Clone, Eq, PartialEq, Structural)]
pub struct XExposeEvent {
    pub x: i32,
    pub y: i32,
    pub width: i32,
    pub height: i32,
    pub count: i32,
}

impl XExposeEvent {
    /// How this event decodes its wire form.
    pub open spec fn decodes(self, w: XWireExposeEvent) -> bool {
        &&& self.x == w.x
        &&& self.y == w.y
        &&& self.width == w.width
        &&& self.height == w.height
        &&& self.count == w.count
    }

    /// Converts a wire expose event.
    pub fn new(event: &XWireExposeEvent) -> (r: Self)
        ensures
            r.decodes(*event),
    {
        XExposeEvent {
            x: event.x,
            y: event.y,
            width: event.width,
            height: event.height,
            count: event.count,
        }
    }

    /// The x coordinate inside the window where the exposure happened.
    pub fn x(&self) -> (r: i32)
        ensures
            r == self.x,
    {
        self.x
    }

    /// The y coordinate inside the window where the exposure happened.
    pub fn y(&self) -> (r: i32)
        ensures
            r == self.y,
    {
        self.y
    }

    /// Retrieves the width of the exposed rectangle.
    pub fn width(&self) -> (r: i32)
        ensures
            r == self.width,
    {
        self.width
    }

    /// Retrieves the height of the exposed rectangle.
    pub fn height(&self) -> (r: i32)
        ensures
            r == self.height,
    {
        self.height
    }

    /// The amount of expose events following this event.  Applications
    /// that always redraw the full window should ignore any event with a
    /// count greater than 0 and redraw when the count reaches 0.
    pub fn count(&self) -> (r: i32)
        ensures
            r == self.count,
    {
        self.count
    }
}

/// A focus change report.
#[derive(Debug, Copy, Clone, Eq, PartialEq, Structural)]
pub struct XFocusChangeEvent {
    pub mode: NotifyMode,
    pub detail: NotifyDetail,
}

impl XFocusChangeEvent {
    /// How this event decodes its wire form.
    pub open spec fn decodes(self, w: XWireFocusChangeEvent) -> bool {
        &&& (w.mode == 0 ==> self.mode == NotifyMode::Normal)
        &&& (w.mode == 1 ==> self.mode == NotifyMode::Grab)
        &&& (w.mode == 2 ==> self.mode == NotifyMode::Ungrab)
        &&& (w.detail == 0 ==> self.detail == NotifyDetail::Ancestor)
        &&& (w.detail == 1 ==> self.detail == NotifyDetail::Virtual)
        &&& (w.detail == 2 ==> self.detail == NotifyDetail::Inferior)
        &&& (w.detail == 3 ==> self.detail == NotifyDetail::Nonlinear)
        &&& (w.detail == 4 ==> self.detail == NotifyDetail::NonlinearVirtual)
        &&& (w.detail == 5 ==> self.detail == NotifyDetail::Pointer)
        &&& (w.detail == 6 ==> self.detail == NotifyDetail::PointerRoot)
        &&& (w.detail == 7 ==> self.detail == NotifyDetail::NoDetail)
    }

    /// Converts a wire focus change event.
    pub fn new(event: &XWireFocusChangeEvent) -> (r: Self)
        requires
            0 <= event.mode <= 2,
            0 <= event.detail <= 7,
        ensures
            r.decodes(*event),
    {
        XFocusChangeEvent {
            mode: NotifyMode::new(event.mode),
            detail: NotifyDetail::new(event.detail),
        }
    }

    /// Retrieves the mode of this notification.
    pub fn mode(&self) -> (r: NotifyMode)
        ensures
            r == self.mode,
    {
        self.mode
    }

    /// Retrieves the detail of this notification.
    pub fn detail(&self) -> (r: NotifyDetail)
        ensures
            r == self.detail,
    {
        self.detail
    }
}

/// A report of the keyboard state after a keymap change.
#[derive(Debug)]
pub struct XKeymapEvent {
    pub key_vector: Vec<char>,
}

impl XKeymapEvent {
    /// How this event decodes its wire form: each of the 32 key-vector
    /// bytes becomes one character.
    pub open spec fn decodes(self, w: XWireKeymapEvent) -> bool {
        &&& self.key_vector@.len() == 32
        &&& forall|i: int|
            0 <= i < 32 ==> self.key_vector@[i] == ((w.key_vector@[i] as u8) as char)
    }

    /// Converts a wire keymap event.
    pub fn new(event: &XWireKeymapEvent) -> (r: Self)
        ensures
            r.decodes(*event),
    {
        let mut key_vector: Vec<char> = Vec::new();
        let mut i: usize = 0;
        while i < 32
            invariant
                0 <= i <= 32,
                key_vector@.len() == i,
                forall|j: int|
                    0 <= j < i ==> key_vector@[j] == ((event.key_vector@[j] as u8) as char),
            decreases 32 - i,
        {
            let k = event.key_vector[i];
            key_vector.push((k as u8) as char);
            i = i + 1;
        }
        XKeymapEvent { key_vector }
    }

    /// Retrieves the new key vector of the keymap, one character per byte.
    pub fn key_vector(&self) -> (r: &Vec<char>)
        ensures
            r == self.key_vector,
    {
        &self.key_vector
    }
}

/// A window property change report.
#[derive(Debug)]
pub struct XPropertyEvent<'a> {
    pub atom: XAtom<'a>,
    pub time: u64,
    pub state: PropertyState,
}

impl<'a> XPropertyEvent<'a> {
    /// How this event decodes its wire form.
    pub open spec fn decodes(self, w: XWirePropertyEvent, display: &XDisplay) -> bool {
        &&& self.atom.handle == w.atom
        &&& self.atom.display == display
        &&& self.time == w.time
        &&& (w.state == 0 ==> self.state == PropertyState::NewValue)
        &&& (w.state == 1 ==> self.state == PropertyState::Delete)
    }

    /// Converts a wire property event.
    pub fn new(event: &XWirePropertyEvent, display: &'a XDisplay) -> (r: Self)
        requires
            event.state == 0 || event.state == 1,
        ensures
            r.decodes(*event, display),
    {
        XPropertyEvent {
            atom: XAtom::new(event.atom, display),
            time: event.time,
            state: PropertyState::new(event.state),
        }
    }

    /// Retrieves the atom identifying the property.
    pub fn atom(&self) -> (r: XAtom<'a>)
        ensures
            r == self.atom,
    {
        self.atom
    }

    /// Retrieves the timestamp the event occurred at.
    pub fn time(&self) -> (r: u64)
        ensures
            r == self.time,
    {
        self.time
    }

    /// Retrieves the new state of the property.
    pub fn state(&self) -> (r: PropertyState)
        ensures
            r == self.state,
    {
        self.state
    }
}

/// A request that a window be resized.
#[derive(Debug, Copy, Clone, Eq, PartialEq, Structural)]
pub struct XResizeRequestEvent {
    pub width: i32,
    pub height: i32,
}

impl XResizeRequestEvent {
    /// How this event decodes its wire form.
    pub open spec fn decodes(self, w: XWireResizeRequestEvent) -> bool {
        &&& self.width == w.width
        &&& self.height == w.height
    }

    /// Converts a wire resize request event.
    pub fn new(event: &XWireResizeRequestEvent) -> (r: Self)
        ensures
            r.decodes(*event),
    {
        XResizeRequestEvent { width: event.width, height: event.height }
    }

    /// Retrieves the requested width.
    pub fn width(&self) -> (r: i32)
        ensures
            r == self.width,
    {
        self.width
    }

    /// Retrieves the requested height.
    pub fn height(&self) -> (r: i32)
        ensures
            r == self.height,
    {
        self.height
    }
}

/// A report that a window was circulated.
#[derive(Debug)]
pub struct XCirculateEvent<'a> {
    pub window: XWindow<'a>,
    pub place: CirculatePlace,
}

impl<'a> XCirculateEvent<'a> {
    /// Every window handle embedded in this event is foreign.
    pub open spec fn all_foreign(self) -> bool {
        self.window.is_foreign()
    }

    /// How this event decodes its wire form.
    pub open spec fn decodes(self, w: XWireCirculateEvent, display: &XDisplay) -> bool {
        &&& self.window.handle == w.window
        &&& self.window.display == display
        &&& self.all_foreign()
        &&& (w.place == 0 ==> self.place == CirculatePlace::Top)
        &&& (w.place == 1 ==> self.place == CirculatePlace::Bottom)
    }

    /// Converts a wire circulate event.
    pub fn new(event: &XWireCirculateEvent, display: &'a XDisplay) -> (r: Self)
        requires
            event.place == 0 || event.place == 1,
        ensures
            r.decodes(*event, display),
            r.all_foreign(),
    {
        XCirculateEvent {
            window: XWindow::new(event.window, display, WindowHandleOwnership::Foreign),
            place: CirculatePlace::new(event.place),
        }
    }

    /// Retrieves the window which was circulated.
    pub fn window(&self) -> (r: &XWindow<'a>)
        ensures
            *r == self.window,
    {
        &self.window
    }

    /// Retrieves the new place of the window.
    pub fn place(&self) -> (r: CirculatePlace)
        ensures
            r == self.place,
    {
        self.place
    }
}

/// A report that a window was configured.
#[derive(Debug)]
pub struct XConfigureEvent<'a> {
    pub window: XWindow<'a>,
    pub x: i32,
    pub y: i32,
    pub width: i32,
    pub height: i32,
    pub border_width: i32,
    pub above: Option<XWindow<'a>>,
    pub override_redirect: bool,
}

impl<'a> XConfigureEvent<'a> {
    /// Every window handle embedded in this event is foreign.
    pub open spec fn all_foreign(self) -> bool {
        &&& self.window.is_foreign()
        &&& (self.above matches Some(a) ==> a.is_foreign())
    }

    /// How this event decodes its wire form; a zero sibling handle means
    /// the window sits at the bottom of the stack.
    pub open spec fn decodes(self, w: XWireConfigureEvent, display: &XDisplay) -> bool {
        &&& self.window.handle == w.window
        &&& self.window.display == display
        &&& self.all_foreign()
        &&& self.x == w.x
        &&& self.y == w.y
        &&& self.width == w.width
        &&& self.height == w.height
        &&& self.border_width == w.border_width
        &&& (w.above == 0 ==> self.above is None)
        &&& (w.above != 0 ==> (self.above matches Some(a) && a.handle == w.above
            && a.display == display))
        &&& self.override_redirect == (w.override_redirect != 0)
    }

    /// Converts a wire configure event.
    pub fn new(event: &XWireConfigureEvent, display: &'a XDisplay) -> (r: Self)
        ensures
            r.decodes(*event, display),
            r.all_foreign(),
    {
        XConfigureEvent {
            window: XWindow::new(event.window, display, WindowHandleOwnership::Foreign),
            x: event.x,
            y: event.y,
            width: event.width,
            height: event.height,
            border_width: event.border_width,
            above: if event.above == 0 {
                None
            } else {
                Some(XWindow::new(event.above, display, WindowHandleOwnership::Foreign))
            },
            override_redirect: event.override_redirect != 0,
        }
    }

    /// Retrieves the window which was configured.
    pub fn window(&self) -> (r: &XWindow<'a>)
        ensures
            *r == self.window,
    {
        &self.window
    }

    /// Retrieves the new x coordinate of the window.
    pub fn x(&self) -> (r: i32)
        ensures
            r == self.x,
    {
        self.x
    }

    /// Retrieves the new y coordinate of the window.
    pub fn y(&self) -> (r: i32)
        ensures
            r == self.y,
    {
        self.y
    }

    /// Retrieves the new width of the window.
    pub fn width(&self) -> (r: i32)
        ensures
            r == self.width,
    {
        self.width
    }

    /// Retrieves the new height of the window.
    pub fn height(&self) -> (r: i32)
        ensures
            r == self.height,
    {
        self.height
    }

    /// Retrieves the new border width of the window.
    pub fn border_width(&self) -> (r: i32)
        ensures
            r == self.border_width,
    {
        self.border_width
    }

    /// Retrieves the sibling window for stacking operations, if any; none
    /// when the window is at the bottom of the stack.
    pub fn above(&self) -> (r: Option<&XWindow<'a>>)
        ensures
            self.above is Some <==> r is Some,
            r matches Some(a) ==> Some(*a) == self.above,
    {
        self.above.as_ref()
    }

    /// Determines whether override redirect is enabled for this window.
    pub fn override_redirect(&self) -> (r: bool)
        ensures
            r == self.override_redirect,
    {
        self.override_redirect
    }
}

/// A report that a window was destroyed.
#[derive(Debug)]
pub struct XDestroyWindowEvent<'a> {
    pub window: XWindow<'a>,
}

impl<'a> XDestroyWindowEvent<'a> {
    /// Every window handle embedded in this event is foreign.
    pub open spec fn all_foreign(self) -> bool {
        self.window.is_foreign()
    }

    /// How this event decodes its wire form.
    pub open spec fn decodes(self, w: XWireDestroyWindowEvent, display: &XDisplay) -> bool {
        &&& self.window.handle == w.window
        &&& self.window.display == display
        &&& self.all_foreign()
    }

    /// Converts a wire destroy event.
    pub fn new(event: &XWireDestroyWindowEvent, display: &'a XDisplay) -> (r: Self)
        ensures
            r.decodes(*event, display),
            r.all_foreign(),
    {
        XDestroyWindowEvent {
            window: XWindow::new(event.window, display, WindowHandleOwnership::Foreign),
        }
    }

    /// Retrieves the window that has been destroyed.
    pub fn window(&self) -> (r: &XWindow<'a>)
        ensures
            *r == self.window,
    {
        &self.window
    }
}

/// A report that a window moved because of its gravity.
#[derive(Debug)]
pub struct XGravityEvent<'a> {
    pub window: XWindow<'a>,
    pub x: i32,
    pub y: i32,
}

impl<'a> XGravityEvent<'a> {
    /// Every window handle embedded in this event is foreign.
    pub open spec fn all_foreign(self) -> bool {
        self.window.is_foreign()
    }

    /// How this event decodes its wire form.
    pub open spec fn decodes(self, w: XWireGravityEvent, display: &XDisplay) -> bool {
        &&& self.window.handle == w.window
        &&& self.window.display == display
        &&& self.all_foreign()
        &&& self.x == w.x
        &&& self.y == w.y
    }

    /// Converts a wire gravity event.
    pub fn new(event: &XWireGravityEvent, display: &'a XDisplay) -> (r: Self)
        ensures
            r.decodes(*event, display),
            r.all_foreign(),
    {
        XGravityEvent {
            window: XWindow::new(event.window, display, WindowHandleOwnership::Foreign),
            x: event.x,
            y: event.y,
        }
    }

    /// Retrieves the window whose position has changed.
    pub fn window(&self) -> (r: &XWindow<'a>)
        ensures
            *r == self.window,
    {
        &self.window
    }

    /// Retrieves the new x coordinate of the window.
    pub fn x(&self) -> (r: i32)
        ensures
            r == self.x,
    {
        self.x
    }

    /// Retrieves the new y coordinate of the window.
    pub fn y(&self) -> (r: i32)
        ensures
            r == self.y,
    {
        self.y
    }
}

/// A report that a window was mapped.
#[derive(Debug)]
pub struct XMapEvent<'a> {
    pub window: XWindow<'a>,
    pub override_redirect: bool,
}

impl<'a> XMapEvent<'a> {
    /// Every window handle embedded in this event is foreign.
    pub open spec fn all_foreign(self) -> bool {
        self.window.is_foreign()
    }

    /// How this event decodes its wire form.
    pub open spec fn decodes(self, w: XWireMapEvent, display: &XDisplay) -> bool {
        &&& self.window.handle == w.window
        &&& self.window.display == display
        &&& self.all_foreign()
        &&& self.override_redirect == (w.override_redirect != 0)
    }

    /// Converts a wire map event.
    pub fn new(event: &XWireMapEvent, display: &'a XDisplay) -> (r: Self)
        ensures
            r.decodes(*event, display),
            r.all_foreign(),
    {
        XMapEvent {
            window: XWindow::new(event.window, display, WindowHandleOwnership::Foreign),
            override_redirect: event.override_redirect != 0,
        }
    }

    /// Retrieves the window which has been mapped.
    pub fn window(&self) -> (r: &XWindow<'a>)
        ensures
            *r == self.window,
    {
        &self.window
    }

    /// Determines whether override redirect is enabled for this window.
    pub fn override_redirect(&self) -> (r: bool)
        ensures
            r == self.override_redirect,
    {
        self.override_redirect
    }
}

/// A report that a window was reparented.
#[derive(Debug)]
pub struct XReparentEvent<'a> {
    pub window: XWindow<'a>,
    pub parent: XWindow<'a>,
    pub x: i32,
    pub y: i32,
    pub override_redirect: bool,
}

impl<'a> XReparentEvent<'a> {
    /// Every window handle embedded in this event is foreign.
    pub open spec fn all_foreign(self) -> bool {
        &&& self.window.is_foreign()
        &&& self.parent.is_foreign()
    }

    /// How this event decodes its wire form.
    pub open spec fn decodes(self, w: XWireReparentEvent, display: &XDisplay) -> bool {
        &&& self.window.handle == w.window
        &&& self.window.display == display
        &&& self.parent.handle == w.parent
        &&& self.parent.display == display
        &&& self.all_foreign()
        &&& self.x == w.x
        &&& self.y == w.y
        &&& self.override_redirect == (w.override_redirect != 0)
    }

    /// Converts a wire reparent event.
    pub fn new(event: &XWireReparentEvent, display: &'a XDisplay) -> (r: Self)
        ensures
            r.decodes(*event, display),
            r.all_foreign(),
    {
        XReparentEvent {
            window: XWindow::new(event.window, display, WindowHandleOwnership::Foreign),
            parent: XWindow::new(event.parent, display, WindowHandleOwnership::Foreign),
            x: event.x,
            y: event.y,
            override_redirect: event.override_redirect != 0,
        }
    }

    /// Retrieves the window which has been reparented.
    pub fn window(&self) -> (r: &XWindow<'a>)
        ensures
            *r == self.window,
    {
        &self.window
    }

    /// Retrieves the new parent of the window.
    pub fn parent(&self) -> (r: &XWindow<'a>)
        ensures
            *r == self.parent,
    {
        &self.parent
    }

    /// Retrieves the new x coordinate of the window relative to the parent.
    pub fn x(&self) -> (r: i32)
        ensures
            r == self.x,
    {
        self.x
    }

    /// Retrieves the new y coordinate of the window relative to the parent.
    pub fn y(&self) -> (r: i32)
        ensures
            r == self.y,
    {
        self.y
    }

    /// Determines whether override redirect is enabled for this window.
    pub fn override_redirect(&self) -> (r: bool)
        ensures
            r == self.override_redirect,
    {
        self.override_redirect
    }
}

/// A report that a window was unmapped.
#[derive(Debug)]
pub struct XUnmapEvent<'a> {
    pub window: XWindow<'a>,
    pub from_configure: bool,
}

impl<'a> XUnmapEvent<'a> {
    /// Every window handle embedded in this event is foreign.
    pub open spec fn all_foreign(self) -> bool {
        self.window.is_foreign()
    }

    /// How this event decodes its wire form.
    pub open spec fn decodes(self, w: XWireUnmapEvent, display: &XDisplay) -> bool {
        &&& self.window.handle == w.window
        &&& self.window.display == display
        &&& self.all_foreign()
        &&& self.from_configure == (w.from_configure != 0)
    }

    /// Converts a wire unmap event.
    pub fn new(event: &XWireUnmapEvent, display: &'a XDisplay) -> (r: Self)
        ensures
            r.decodes(*event, display),
            r.all_foreign(),
    {
        XUnmapEvent {
            window: XWindow::new(event.window, display, WindowHandleOwnership::Foreign),
            from_configure: event.from_configure != 0,
        }
    }

    /// Retrieves the window which has been unmapped.
    pub fn window(&self) -> (r: &XWindow<'a>)
        ensures
            *r == self.window,
    {
        &self.window
    }

    /// Determines whether this window has been unmapped by a configure
    /// call.
    pub fn is_from_configure(&self) -> (r: bool)
        ensures
            r == self.from_configure,
    {
        self.from_configure
    }
}

/// A request that a child window be circulated.
#[derive(Debug)]
pub struct XCirculateRequestEvent<'a> {
    pub window: XWindow<'a>,
    pub place: CirculatePlace,
}

impl<'a> XCirculateRequestEvent<'a> {
    /// Every window handle embedded in this event is foreign.
    pub open spec fn all_foreign(self) -> bool {
        self.window.is_foreign()
    }

    /// How this event decodes its wire form.
    pub open spec fn decodes(self, w: XWireCirculateRequestEvent, display: &XDisplay) -> bool {
        &&& self.window.handle == w.window
        &&& self.window.display == display
        &&& self.all_foreign()
        &&& (w.place == 0 ==> self.place == CirculatePlace::Top)
        &&& (w.place == 1 ==> self.place == CirculatePlace::Bottom)
    }

    /// Converts a wire circulate request.
    pub fn new(event: &XWireCirculateRequestEvent, display: &'a XDisplay) -> (r: Self)
        requires
            event.place == 0 || event.place == 1,
        ensures
            r.decodes(*event, display),
            r.all_foreign(),
    {
        XCirculateRequestEvent {
            window: XWindow::new(event.window, display, WindowHandleOwnership::Foreign),
            place: CirculatePlace::new(event.place),
        }
    }

    /// Retrieves the window which should be circulated.
    pub fn window(&self) -> (r: &XWindow<'a>)
        ensures
            *r == self.window,
    {
        &self.window
    }

    /// Retrieves the desired new circulation place.
    pub fn place(&self) -> (r: CirculatePlace)
        ensures
            r == self.place,
    {
        self.place
    }
}

/// A request that a child window be configured.
#[derive(Debug)]
pub struct XConfigureRequestEvent<'a> {
    pub window: XWindow<'a>,
    pub x: i32,
    pub y: i32,
    pub width: i32,
    pub height: i32,
    pub border_width: i32,
    pub above: XWindow<'a>,
    pub detail: ConfigureDetail,
    pub value_mask: u64,
}

impl<'a> XConfigureRequestEvent<'a> {
    /// Every window handle embedded in this event is foreign.
    pub open spec fn all_foreign(self) -> bool {
        &&& self.window.is_foreign()
        &&& self.above.is_foreign()
    }

    /// How this event decodes its wire form.
    pub open spec fn decodes(self, w: XWireConfigureRequestEvent, display: &XDisplay) -> bool {
        &&& self.window.handle == w.window
        &&& self.window.display == display
        &&& self.above.handle == w.above
        &&& self.above.display == display
        &&& self.all_foreign()
        &&& self.x == w.x
        &&& self.y == w.y
        &&& self.width == w.width
        &&& self.height == w.height
        &&& self.border_width == w.border_width
        &&& (w.detail == 0 ==> self.detail == ConfigureDetail::Above)
        &&& (w.detail == 1 ==> self.detail == ConfigureDetail::Below)
        &&& (w.detail == 2 ==> self.detail == ConfigureDetail::TopIf)
        &&& (w.detail == 3 ==> self.detail == ConfigureDetail::BottomIf)
        &&& (w.detail == 4 ==> self.detail == ConfigureDetail::Opposite)
        &&& self.value_mask == w.value_mask
    }

    /// Converts a wire configure request.
    pub fn new(event: &XWireConfigureRequestEvent, display: &'a XDisplay) -> (r: Self)
        requires
            0 <= event.detail <= 4,
        ensures
            r.decodes(*event, display),
            r.all_foreign(),
    {
        XConfigureRequestEvent {
            window: XWindow::new(event.window, display, WindowHandleOwnership::Foreign),
            x: event.x,
            y: event.y,
            width: event.width,
            height: event.height,
            border_width: event.border_width,
            above: XWindow::new(event.above, display, WindowHandleOwnership::Foreign),
            detail: ConfigureDetail::new(event.detail),
            value_mask: event.value_mask,
        }
    }

    /// Retrieves the window which should be configured.
    pub fn window(&self) -> (r: &XWindow<'a>)
        ensures
            *r == self.window,
    {
        &self.window
    }

    /// Retrieves the new desired x position of the window.
    pub fn x(&self) -> (r: i32)
        ensures
            r == self.x,
    {
        self.x
    }

    /// Retrieves the new desired y coordinate of the window.
    pub fn y(&self) -> (r: i32)
        ensures
            r == self.y,
    {
        self.y
    }

    /// Retrieves the new desired width of the window.
    pub fn width(&self) -> (r: i32)
        ensures
            r == self.width,
    {
        self.width
    }

    /// Retrieves the new desired height of the window.
    pub fn height(&self) -> (r: i32)
        ensures
            r == self.height,
    {
        self.height
    }

    /// Retrieves the new desired border width of the window.
    pub fn border_width(&self) -> (r: i32)
        ensures
            r == self.border_width,
    {
        self.border_width
    }

    /// Retrieves the window which this window should be placed above.
    pub fn above(&self) -> (r: &XWindow<'a>)
        ensures
            *r == self.above,
    {
        &self.above
    }

    /// Determines the detail of this request.
    pub fn detail(&self) -> (r: ConfigureDetail)
        ensures
            r == self.detail,
    {
        self.detail
    }

    /// The mask of the fields which were set in the initial request; all
    /// other values were filled in automatically.
    pub fn value_mask(&self) -> (r: u64)
        ensures
            r == self.value_mask,
    {
        self.value_mask
    }
}

/// A request that a child window be mapped.
#[derive(Debug)]
pub struct XMapRequestEvent<'a> {
    pub window: XWindow<'a>,
}

impl<'a> XMapRequestEvent<'a> {
    /// Every window handle embedded in this event is foreign.
    pub open spec fn all_foreign(self) -> bool {
        self.window.is_foreign()
    }

    /// How this event decodes its wire form.
    pub open spec fn decodes(self, w: XWireMapRequestEvent, display: &XDisplay) -> bool {
        &&& self.window.handle == w.window
        &&& self.window.display == display
        &&& self.all_foreign()
    }

    /// Converts a wire map request.
    pub fn new(event: &XWireMapRequestEvent, display: &'a XDisplay) -> (r: Self)
        ensures
            r.decodes(*event, display),
            r.all_foreign(),
    {
        XMapRequestEvent {
            window: XWindow::new(event.window, display, WindowHandleOwnership::Foreign),
        }
    }

    /// Retrieves the window which should be mapped.
    pub fn window(&self) -> (r: &XWindow<'a>)
        ensures
            *r == self.window,
    {
        &self.window
    }
}

/// A message sent by another client.
#[derive(Debug)]
pub struct XClientMessageEvent<'a> {
    pub message_type: XAtom<'a>,
    pub data: ClientMessageData,
}

impl<'a> XClientMessageEvent<'a> {
    /// How this event decodes its wire form: the format field selects
    /// which reading of the payload the message carries.
    pub open spec fn decodes(self, w: XWireClientMessageEvent, display: &XDisplay) -> bool {
        &&& self.message_type.handle == w.message_type
        &&& self.message_type.display == display
        &&& (w.format == 8 ==> self.data == ClientMessageData::Bit8(w.bytes))
        &&& (w.format == 16 ==> self.data == ClientMessageData::Bit16(w.shorts))
        &&& (w.format == 32 ==> (self.data matches ClientMessageData::Bit32(d)
            && d@[0] == w.longs@[0] as i32
            && d@[1] == w.longs@[1] as i32
            && d@[2] == w.longs@[2] as i32
            && d@[3] == w.longs@[3] as i32
            && d@[4] == w.longs@[4] as i32))
    }

    /// Converts a wire client message.
    pub fn new(event: &XWireClientMessageEvent, display: &'a XDisplay) -> (r: Self)
        requires
            event.format == 8 || event.format == 16 || event.format == 32,
        ensures
            r.decodes(*event, display),
    {
        let data = if event.format == 8 {
            ClientMessageData::Bit8(event.bytes)
        } else if event.format == 16 {
            ClientMessageData::Bit16(event.shorts)
        } else {
            ClientMessageData::Bit32(
                [
                    event.longs[0] as i32,
                    event.longs[1] as i32,
                    event.longs[2] as i32,
                    event.longs[3] as i32,
                    event.longs[4] as i32,
                ],
            )
        };
        XClientMessageEvent { message_type: XAtom::new(event.message_type, display), data }
    }

    /// Retrieves the atom identifying the type of this message; the value
    /// is application defined.
    pub fn message_type(&self) -> (r: XAtom<'a>)
        ensures
            r == self.message_type,
    {
        self.message_type
    }

    /// Retrieves the data of this message.
    pub fn data(&self) -> (r: ClientMessageData)
        ensures
            r == self.data,
    {
        self.data
    }
}

/// A report that the input mapping changed.
#[derive(Debug, Copy, Clone, Eq, PartialEq, Structural)]
pub struct XMappingEvent {
    pub request: MappingRequestType,
    pub first_keycode: i32,
    pub count: i32,
}

impl XMappingEvent {
    /// How this event decodes its wire form.
    pub open spec fn decodes(self, w: XWireMappingEvent) -> bool {
        &&& (w.request == 0 ==> self.request == MappingRequestType::Modifier)
        &&& (w.request == 1 ==> self.request == MappingRequestType::Keyboard)
        &&& (w.request == 2 ==> self.request == MappingRequestType::Pointer)
        &&& self.first_keycode == w.first_keycode
        &&& self.count == w.count
    }

    /// Converts a wire mapping event.
    pub fn new(event: &XWireMappingEvent) -> (r: Self)
        requires
            0 <= event.request <= 2,
        ensures
            r.decodes(*event),
    {
        XMappingEvent {
            request: MappingRequestType::new(event.request),
            first_keycode: event.first_keycode,
            count: event.count,
        }
    }

    /// Determines the type of this request.
    pub fn request_type(&self) -> (r: MappingRequestType)
        ensures
            r == self.request,
    {
        self.request
    }

    /// Determines the first keycode of the mapping request.
    pub fn first_keycode(&self) -> (r: i32)
        ensures
            r == self.first_keycode,
    {
        self.first_keycode
    }

    /// Determines the count of keycodes in the mapping request.
    pub fn count(&self) -> (r: i32)
        ensures
            r == self.count,
    {
        self.count
    }
}

/// A report that a selection was cleared.
#[derive(Debug)]
pub struct XSelectionClearEvent<'a> {
    pub selection: XAtom<'a>,
    pub time: u64,
}

impl<'a> XSelectionClearEvent<'a> {
    /// How this event decodes its wire form.
    pub open spec fn decodes(self, w: XWireSelectionClearEvent, display: &XDisplay) -> bool {
        &&& self.selection.handle == w.selection
        &&& self.selection.display == display
        &&& self.time == w.time
    }

    /// Converts a wire selection clear event.
    pub fn new(event: &XWireSelectionClearEvent, display: &'a XDisplay) -> (r: Self)
        ensures
            r.decodes(*event, display),
    {
        XSelectionClearEvent {
            selection: XAtom::new(event.selection, display),
            time: event.time,
        }
    }

    /// Retrieves the selection that was cleared.
    pub fn selection(&self) -> (r: XAtom<'a>)
        ensures
            r == self.selection,
    {
        self.selection
    }

    /// Retrieves the timestamp at which this event occurred.
    pub fn time(&self) -> (r: u64)
        ensures
            r == self.time,
    {
        self.time
    }
}

/// A report that a selection changed.
#[derive(Debug)]
pub struct XSelectionEvent<'a> {
    pub selection: XAtom<'a>,
    pub target: XAtom<'a>,
    pub property: Option<XAtom<'a>>,
    pub time: u64,
}

impl<'a> XSelectionEvent<'a> {
    /// How this event decodes its wire form; a zero property atom means
    /// no property.
    pub open spec fn decodes(self, w: XWireSelectionEvent, display: &XDisplay) -> bool {
        &&& self.selection.handle == w.selection
        &&& self.selection.display == display
        &&& self.target.handle == w.target
        &&& self.target.display == display
        &&& (w.property == 0 ==> self.property is None)
        &&& (w.property != 0 ==> (self.property matches Some(a) && a.handle == w.property
            && a.display == display))
        &&& self.time == w.time
    }

    /// Converts a wire selection event.
    pub fn new(event: &XWireSelectionEvent, display: &'a XDisplay) -> (r: Self)
        ensures
            r.decodes(*event, display),
    {
        XSelectionEvent {
            selection: XAtom::new(event.selection, display),
            target: XAtom::new(event.target, display),
            property: if event.property == 0 {
                None
            } else {
                Some(XAtom::new(event.property, display))
            },
            time: event.time,
        }
    }

    /// Retrieves the selection that changed.
    pub fn selection(&self) -> (r: XAtom<'a>)
        ensures
            r == self.selection,
    {
        self.selection
    }

    /// Retrieves the selection target.
    pub fn target(&self) -> (r: XAtom<'a>)
        ensures
            r == self.target,
    {
        self.target
    }

    /// Retrieves the selection property, if any.
    pub fn property(&self) -> (r: Option<XAtom<'a>>)
        ensures
            r == self.property,
    {
        self.property
    }

    /// Retrieves the timestamp at which this event occurred.
    pub fn time(&self) -> (r: u64)
        ensures
            r == self.time,
    {
        self.time
    }
}

/// A request that a selection be changed.
#[derive(Debug)]
pub struct XSelectionRequestEvent<'a> {
    pub requestor: XWindow<'a>,
    pub selection: XAtom<'a>,
    pub target: XAtom<'a>,
    pub property: XAtom<'a>,
    pub time: u64,
}

impl<'a> XSelectionRequestEvent<'a> {
    /// Every window handle embedded in this event is foreign.
    pub open spec fn all_foreign(self) -> bool {
        self.requestor.is_foreign()
    }

    /// How this event decodes its wire form.
    pub open spec fn decodes(self, w: XWireSelectionRequestEvent, display: &XDisplay) -> bool {
        &&& self.requestor.handle == w.requestor
        &&& self.requestor.display == display
        &&& self.all_foreign()
        &&& self.selection.handle == w.selection
        &&& self.selection.display == display
        &&& self.target.handle == w.target
        &&& self.target.display == display
        &&& self.property.handle == w.property
        &&& self.property.display == display
        &&& self.time == w.time
    }

    /// Converts a wire selection request.
    pub fn new(event: &XWireSelectionRequestEvent, display: &'a XDisplay) -> (r: Self)
        ensures
            r.decodes(*event, display),
            r.all_foreign(),
    {
        XSelectionRequestEvent {
            requestor: XWindow::new(event.requestor, display, WindowHandleOwnership::Foreign),
            selection: XAtom::new(event.selection, display),
            target: XAtom::new(event.target, display),
            property: XAtom::new(event.property, display),
            time: event.time,
        }
    }

    /// Retrieves the window which issued this request.
    pub fn requestor(&self) -> (r: &XWindow<'a>)
        ensures
            *r == self.requestor,
    {
        &self.requestor
    }

    /// Retrieves the selection to be changed.
    pub fn selection(&self) -> (r: XAtom<'a>)
        ensures
            r == self.selection,
    {
        self.selection
    }

    /// Retrieves the target of the selection.
    pub fn target(&self) -> (r: XAtom<'a>)
        ensures
            r == self.target,
    {
        self.target
    }

    /// Retrieves the property of the selection.
    pub fn property(&self) -> (r: XAtom<'a>)
        ensures
            r == self.property,
    {
        self.property
    }

    /// Retrieves the timestamp this event occurred at.
    pub fn time(&self) -> (r: u64)
        ensures
            r == self.time,
    {
        self.time
    }
}

/// A report that the visibility of a window changed.
#[derive(Debug, Copy, Clone, Eq, PartialEq, Structural)]
pub struct XVisibilityEvent {
    pub state: VisibilityState,
}

impl XVisibilityEvent {
    /// How this event decodes its wire form.
    pub open spec fn decodes(self, w: XWireVisibilityEvent) -> bool {
        &&& (w.state == 0 ==> self.state == VisibilityState::Unobscured)
        &&& (w.state == 1 ==> self.state == VisibilityState::PartiallyObscured)
        &&& (w.state == 2 ==> self.state == VisibilityState::FullyObscured)
    }

    /// Converts a wire visibility event.
    pub fn new(event: &XWireVisibilityEvent) -> (r: Self)
        requires
            0 <= event.state <= 2,
        ensures
            r.decodes(*event),
    {
        XVisibilityEvent { state: VisibilityState::new(event.state) }
    }

    /// Retrieves the new visibility of the window.
    pub fn state(&self) -> (r: VisibilityState)
        ensures
            r == self.state,
    {
        self.state
    }
}

/// A report that the global cursor changed.
#[derive(Debug)]
pub struct XDisplayCursorEvent<'a> {
    pub subtype: XDisplayCursorEventSubtype,
    pub cursor_serial: u64,
    pub timestamp: u64,
    pub cursor_name: XAtom<'a>,
}

impl<'a> XDisplayCursorEvent<'a> {
    /// How this event decodes its wire form.
    pub open spec fn decodes(self, w: XWireCursorNotifyEvent, display: &XDisplay) -> bool {
        &&& self.subtype == XDisplayCursorEventSubtype::CursorNotify
        &&& self.cursor_serial == w.cursor_serial
        &&& self.timestamp == w.timestamp
        &&& self.cursor_name.handle == w.cursor_name
        &&& self.cursor_name.display == display
    }

    /// Converts a wire cursor notification.
    pub fn new(event: &XWireCursorNotifyEvent, display: &'a XDisplay) -> (r: Self)
        requires
            event.subtype == 0,
        ensures
            r.decodes(*event, display),
    {
        XDisplayCursorEvent {
            subtype: XDisplayCursorEventSubtype::new(event.subtype),
            cursor_serial: event.cursor_serial,
            timestamp: event.timestamp,
            cursor_name: XAtom::new(event.cursor_name, display),
        }
    }

    /// Retrieves the subtype of the event.
    pub fn subtype(&self) -> (r: XDisplayCursorEventSubtype)
        ensures
            r == self.subtype,
    {
        self.subtype
    }

    /// Retrieves the serial of the cursor.
    pub fn cursor_serial(&self) -> (r: u64)
        ensures
            r == self.cursor_serial,
    {
        self.cursor_serial
    }

    /// Retrieves the timestamp this event occurred at.
    pub fn time(&self) -> (r: u64)
        ensures
            r == self.timestamp,
    {
        self.timestamp
    }

    /// Retrieves the name of the cursor that changed.
    pub fn cursor_name(&self) -> (r: XAtom<'a>)
        ensures
            r == self.cursor_name,
    {
        self.cursor_name
    }
}

/// The payload of a decoded event: one variant per recognised wire event,
/// plus a catch-all carrying the raw event for anything unrecognised.
#[derive(Debug)]
pub enum XEventData<'a> {
    /// The mouse cursor has moved.
    Motion(XMotionEvent<'a>),
    /// A key has been pressed.
    KeyPress(XKeyEvent<'a>),
    /// A key has been released.
    KeyRelease(XKeyEvent<'a>),
    /// A mouse button has been pressed.
    ButtonPress(XButtonEvent<'a>),
    /// A mouse button has been released.
    ButtonRelease(XButtonEvent<'a>),
    /// A colormap has been changed.
    ColormapChange(XColormapEvent<'a>),
    /// The mouse has entered the window.
    EnterWindow(XCrossingEvent<'a>),
    /// The mouse has left the window.
    LeaveWindow(XCrossingEvent<'a>),
    /// The window has been exposed and content needs to be drawn.
    Expose(XExposeEvent),
    /// The window has been focused.
    FocusIn(XFocusChangeEvent),
    /// The window has been unfocused.
    FocusOut(XFocusChangeEvent),
    /// The keymap has changed.
    KeymapChange(XKeymapEvent),
    /// A window property has changed.
    PropertyChange(XPropertyEvent<'a>),
    /// The window should be resized.
    ResizeRequest(XResizeRequestEvent),
    /// The window has been circulated.
    Circulate(XCirculateEvent<'a>),
    /// The window has been configured.
    Configure(XConfigureEvent<'a>),
    /// The window has been destroyed.
    Destroy(XDestroyWindowEvent<'a>),
    /// The window has been moved because of its gravity.
    Gravity(XGravityEvent<'a>),
    /// The window has been mapped.
    MapNotify(XMapEvent<'a>),
    /// The window has been reparented.
    Reparent(XReparentEvent<'a>),
    /// The window has been unmapped.
    Unmap(XUnmapEvent<'a>),
    /// A child window has been requested to be circulated.
    CirculateRequest(XCirculateRequestEvent<'a>),
    /// A child window has been requested to be configured.
    ConfigureRequest(XConfigureRequestEvent<'a>),
    /// A child window has been requested to be mapped.
    MapRequest(XMapRequestEvent<'a>),
    /// A client message has been received.
    ClientMessage(XClientMessageEvent<'a>),
    /// The input mapping has changed.
    Mapping(XMappingEvent),
    /// The selection has been cleared.
    SelectionClear(XSelectionClearEvent<'a>),
    /// The selection has been changed.
    Selection(XSelectionEvent<'a>),
    /// A selection has been requested to change.
    SelectionRequest(XSelectionRequestEvent<'a>),
    /// The window visibility has changed.
    VisibilityChange(XVisibilityEvent),
    /// The global cursor has changed.
    CursorChanged(XDisplayCursorEvent<'a>),
    /// The input-extension device hierarchy has changed.
    XIHierarchyChanged(XIHierarchyEvent<'a>),
    /// An input-extension device has changed.
    XIDeviceChanged(XIDeviceChangedEvent<'a>),
    /// A key has been pressed on an extension device.
    XIKeyPressed(XIDeviceEvent<'a>),
    /// A key has been released on an extension device.
    XIKeyReleased(XIDeviceEvent<'a>),
    /// A button has been pressed on an extension device.
    XIButtonPressed(XIDeviceEvent<'a>),
    /// A button has been released on an extension device.
    XIButtonReleased(XIDeviceEvent<'a>),
    /// A touch has begun.
    XITouchBegin(XIDeviceEvent<'a>),
    /// A touch has ended.
    XITouchEnd(XIDeviceEvent<'a>),
    /// A touch has updated.
    XITouchUpdate(XIDeviceEvent<'a>),
    /// A touch ownership has changed.
    XITouchOwnershipChanged(XITouchOwnershipEvent<'a>),
    /// An extension pointer has moved.
    XIMotion(XIDeviceEvent<'a>),
    /// A raw key press has occurred.
    XIRawKeyPressed(XIRawEvent<'a>),
    /// A raw key release has occurred.
    XIRawKeyReleased(XIRawEvent<'a>),
    /// A raw button press has occurred.
    XIRawButtonPressed(XIRawEvent<'a>),
    /// A raw button release has occurred.
    XIRawButtonReleased(XIRawEvent<'a>),
    /// A raw touch has begun.
    XIRawTouchBegin(XIRawEvent<'a>),
    /// A raw touch has ended.
    XIRawTouchEnd(XIRawEvent<'a>),
    /// A raw touch has been updated.
    XIRawTouchUpdated(XIRawEvent<'a>),
    /// A raw motion has occurred.
    XIRawMotion(XIRawEvent<'a>),
    /// A pointer has hit a barrier.
    XIBarrierHit(XIBarrierEvent<'a>),
    /// A pointer has left a barrier.
    XIBarrierLeft(XIBarrierEvent<'a>),
    /// An extension device has entered a window.
    XIEntered(XIFocusEvent<'a>),
    /// An extension device has left a window.
    XILeft(XIFocusEvent<'a>),
    /// An extension device has been focused.
    XIFocusIn(XIFocusEvent<'a>),
    /// An extension device has been unfocused.
    XIFocusOut(XIFocusEvent<'a>),
    /// A device property changed.
    XIPropertyChanged(XIPropertyEvent<'a>),
    /// An event this library does not interpret, kept raw so that callers
    /// may handle it by hand.
    Unknown(XWireEvent),
}

impl<'a> XEventData<'a> {
    /// Every resource handle reachable from this payload carries the
    /// foreign ownership tag: decoding reports resources, it never owns
    /// them.
    pub open spec fn all_foreign(self) -> bool {
        match self {
            XEventData::Motion(e) => e.all_foreign(),
            XEventData::KeyPress(e) => e.all_foreign(),
            XEventData::KeyRelease(e) => e.all_foreign(),
            XEventData::ButtonPress(e) => e.all_foreign(),
            XEventData::ButtonRelease(e) => e.all_foreign(),
            XEventData::ColormapChange(e) => e.all_foreign(),
            XEventData::EnterWindow(e) => e.all_foreign(),
            XEventData::LeaveWindow(e) => e.all_foreign(),
            XEventData::Expose(_) => true,
            XEventData::FocusIn(_) => true,
            XEventData::FocusOut(_) => true,
            XEventData::KeymapChange(_) => true,
            XEventData::PropertyChange(_) => true,
            XEventData::ResizeRequest(_) => true,
            XEventData::Circulate(e) => e.all_foreign(),
            XEventData::Configure(e) => e.all_foreign(),
            XEventData::Destroy(e) => e.all_foreign(),
            XEventData::Gravity(e) => e.all_foreign(),
            XEventData::MapNotify(e) => e.all_foreign(),
            XEventData::Reparent(e) => e.all_foreign(),
            XEventData::Unmap(e) => e.all_foreign(),
            XEventData::CirculateRequest(e) => e.all_foreign(),
            XEventData::ConfigureRequest(e) => e.all_foreign(),
            XEventData::MapRequest(e) => e.all_foreign(),
            XEventData::ClientMessage(_) => true,
            XEventData::Mapping(_) => true,
            XEventData::SelectionClear(_) => true,
            XEventData::Selection(_) => true,
            XEventData::SelectionRequest(e) => e.all_foreign(),
            XEventData::VisibilityChange(_) => true,
            XEventData::CursorChanged(_) => true,
            XEventData::XIHierarchyChanged(_) => true,
            XEventData::XIDeviceChanged(_) => true,
            XEventData::XIKeyPressed(e) => e.all_foreign(),
            XEventData::XIKeyReleased(e) => e.all_foreign(),
            XEventData::XIButtonPressed(e) => e.all_foreign(),
            XEventData::XIButtonReleased(e) => e.all_foreign(),
            XEventData::XITouchBegin(e) => e.all_foreign(),
            XEventData::XITouchEnd(e) => e.all_foreign(),
            XEventData::XITouchUpdate(e) => e.all_foreign(),
            XEventData::XITouchOwnershipChanged(e) => e.all_foreign(),
            XEventData::XIMotion(e) => e.all_foreign(),
            XEventData::XIRawKeyPressed(_) => true,
            XEventData::XIRawKeyReleased(_) => true,
            XEventData::XIRawButtonPressed(_) => true,
            XEventData::XIRawButtonReleased(_) => true,
            XEventData::XIRawTouchBegin(_) => true,
            XEventData::XIRawTouchEnd(_) => true,
            XEventData::XIRawTouchUpdated(_) => true,
            XEventData::XIRawMotion(_) => true,
            XEventData::XIBarrierHit(e) => e.all_foreign(),
            XEventData::XIBarrierLeft(e) => e.all_foreign(),
            XEventData::XIEntered(e) => e.all_foreign(),
            XEventData::XILeft(e) => e.all_foreign(),
            XEventData::XIFocusIn(e) => e.all_foreign(),
            XEventData::XIFocusOut(e) => e.all_foreign(),
            XEventData::XIPropertyChanged(_) => true,
            XEventData::Unknown(_) => true,
        }
    }

    /// How the inner, extension-specific dispatch decodes a generic-event
    /// envelope: an envelope of any other extension decodes to the
    /// catch-all; one of the input extension dispatches on its sub-type
    /// code, and an unrecognised sub-type decodes to the catch-all too.
    pub open spec fn decodes_generic(self, w: XWireEvent, display: &XDisplay) -> bool {
        w.payload matches XWirePayload::Generic(g) ==> {
            &&& g.extension != display.spec_xinput2_opcode() ==> (self
                matches XEventData::Unknown(u) && u == w)
            &&& g.extension == display.spec_xinput2_opcode() ==> {
                &&& g.evtype == XI_DEVICE_CHANGED ==> (self
                    matches XEventData::XIDeviceChanged(e) && e.decodes(
                    g.data->DeviceChanged_0,
                    display,
                ))
                &&& g.evtype == XI_KEY_PRESS ==> (self matches XEventData::XIKeyPressed(e)
                    && e.decodes(g.data->Device_0, display))
                &&& g.evtype == XI_KEY_RELEASE ==> (self matches XEventData::XIKeyReleased(e)
                    && e.decodes(g.data->Device_0, display))
                &&& g.evtype == XI_BUTTON_PRESS ==> (self matches XEventData::XIButtonPressed(e)
                    && e.decodes(g.data->Device_0, display))
                &&& g.evtype == XI_BUTTON_RELEASE ==> (self
                    matches XEventData::XIButtonReleased(e) && e.decodes(
                    g.data->Device_0,
                    display,
                ))
                &&& g.evtype == XI_MOTION ==> (self matches XEventData::XIMotion(e)
                    && e.decodes(g.data->Device_0, display))
                &&& g.evtype == XI_TOUCH_BEGIN ==> (self matches XEventData::XITouchBegin(e)
                    && e.decodes(g.data->Device_0, display))
                &&& g.evtype == XI_TOUCH_UPDATE ==> (self matches XEventData::XITouchUpdate(e)
                    && e.decodes(g.data->Device_0, display))
                &&& g.evtype == XI_TOUCH_END ==> (self matches XEventData::XITouchEnd(e)
                    && e.decodes(g.data->Device_0, display))
                &&& g.evtype == XI_TOUCH_OWNERSHIP ==> (self
                    matches XEventData::XITouchOwnershipChanged(e) && e.decodes(
                    g.data->TouchOwnership_0,
                    display,
                ))
                &&& g.evtype == XI_HIERARCHY_CHANGED ==> (self
                    matches XEventData::XIHierarchyChanged(e) && e.decodes(
                    g.data->Hierarchy_0,
                    display,
                ))
                &&& g.evtype == XI_RAW_KEY_PRESS ==> (self matches XEventData::XIRawKeyPressed(e)
                    && e.decodes(g.data->RawDevice_0, display))
                &&& g.evtype == XI_RAW_KEY_RELEASE ==> (self
                    matches XEventData::XIRawKeyReleased(e) && e.decodes(
                    g.data->RawDevice_0,
                    display,
                ))
                &&& g.evtype == XI_RAW_BUTTON_PRESS ==> (self
                    matches XEventData::XIRawButtonPressed(e) && e.decodes(
                    g.data->RawDevice_0,
                    display,
                ))
                &&& g.evtype == XI_RAW_BUTTON_RELEASE ==> (self
                    matches XEventData::XIRawButtonReleased(e) && e.decodes(
                    g.data->RawDevice_0,
                    display,
                ))
                &&& g.evtype == XI_RAW_MOTION ==> (self matches XEventData::XIRawMotion(e)
                    && e.decodes(g.data->RawDevice_0, display))
                &&& g.evtype == XI_RAW_TOUCH_BEGIN ==> (self
                    matches XEventData::XIRawTouchBegin(e) && e.decodes(
                    g.data->RawDevice_0,
                    display,
                ))
                &&& g.evtype == XI_RAW_TOUCH_UPDATE ==> (self
                    matches XEventData::XIRawTouchUpdated(e) && e.decodes(
                    g.data->RawDevice_0,
                    display,
                ))
                &&& g.evtype == XI_RAW_TOUCH_END ==> (self matches XEventData::XIRawTouchEnd(e)
                    && e.decodes(g.data->RawDevice_0, display))
                &&& g.evtype == XI_BARRIER_HIT ==> (self matches XEventData::XIBarrierHit(e)
                    && e.decodes(g.data->Barrier_0, display))
                &&& g.evtype == XI_BARRIER_LEAVE ==> (self matches XEventData::XIBarrierLeft(e)
                    && e.decodes(g.data->Barrier_0, display))
                &&& g.evtype == XI_ENTER ==> (self matches XEventData::XIEntered(e)
                    && e.decodes(g.data->Enter_0, display))
                &&& g.evtype == XI_LEAVE ==> (self matches XEventData::XILeft(e)
                    && e.decodes(g.data->Enter_0, display))
                &&& g.evtype == XI_FOCUS_IN ==> (self matches XEventData::XIFocusIn(e)
                    && e.decodes(g.data->Enter_0, display))
                &&& g.evtype == XI_FOCUS_OUT ==> (self matches XEventData::XIFocusOut(e)
                    && e.decodes(g.data->Enter_0, display))
                &&& g.evtype == XI_PROPERTY_EVENT ==> (self
                    matches XEventData::XIPropertyChanged(e) && e.decodes(
                    g.data->XIProperty_0,
                    display,
                ))
                &&& (g.evtype < XI_DEVICE_CHANGED || g.evtype > XI_BARRIER_LEAVE) ==> (self
                    matches XEventData::Unknown(u) && u == w)
            }
        }
    }

    /// How a decoded payload relates to the raw event it came from: one
    /// clause per known type tag, the dynamically assigned cursor tag
    /// resolved against the connection's cached base, and the guarantee
    /// that any other tag decodes to the catch-all variant carrying the
    /// raw event unchanged.
    pub open spec fn decodes(self, w: XWireEvent, display: &XDisplay) -> bool {
        &&& w.event_type == MOTION_NOTIFY ==> (self matches XEventData::Motion(e)
            && e.decodes(w.payload->Motion_0, display))
        &&& w.event_type == KEY_PRESS ==> (self matches XEventData::KeyPress(e)
            && e.decodes(w.payload->Key_0, display))
        &&& w.event_type == KEY_RELEASE ==> (self matches XEventData::KeyRelease(e)
            && e.decodes(w.payload->Key_0, display))
        &&& w.event_type == BUTTON_PRESS ==> (self matches XEventData::ButtonPress(e)
            && e.decodes(w.payload->Button_0, display))
        &&& w.event_type == BUTTON_RELEASE ==> (self matches XEventData::ButtonRelease(e)
            && e.decodes(w.payload->Button_0, display))
        &&& w.event_type == COLORMAP_NOTIFY ==> (self matches XEventData::ColormapChange(e)
            && e.decodes(w.payload->Colormap_0, display))
        &&& w.event_type == ENTER_NOTIFY ==> (self matches XEventData::EnterWindow(e)
            && e.decodes(w.payload->Crossing_0, display))
        &&& w.event_type == LEAVE_NOTIFY ==> (self matches XEventData::LeaveWindow(e)
            && e.decodes(w.payload->Crossing_0, display))
        &&& w.event_type == EXPOSE ==> (self matches XEventData::Expose(e)
            && e.decodes(w.payload->Expose_0))
        &&& w.event_type == FOCUS_IN ==> (self matches XEventData::FocusIn(e)
            && e.decodes(w.payload->FocusChange_0))
        &&& w.event_type == FOCUS_OUT ==> (self matches XEventData::FocusOut(e)
            && e.decodes(w.payload->FocusChange_0))
        &&& w.event_type == KEYMAP_NOTIFY ==> (self matches XEventData::KeymapChange(e)
            && e.decodes(w.payload->Keymap_0))
        &&& w.event_type == PROPERTY_NOTIFY ==> (self matches XEventData::PropertyChange(e)
            && e.decodes(w.payload->Property_0, display))
        &&& w.event_type == RESIZE_REQUEST ==> (self matches XEventData::ResizeRequest(e)
            && e.decodes(w.payload->ResizeRequest_0))
        &&& w.event_type == CIRCULATE_NOTIFY ==> (self matches XEventData::Circulate(e)
            && e.decodes(w.payload->Circulate_0, display))
        &&& w.event_type == CONFIGURE_NOTIFY ==> (self matches XEventData::Configure(e)
            && e.decodes(w.payload->Configure_0, display))
        &&& w.event_type == DESTROY_NOTIFY ==> (self matches XEventData::Destroy(e)
            && e.decodes(w.payload->DestroyWindow_0, display))
        &&& w.event_type == GRAVITY_NOTIFY ==> (self matches XEventData::Gravity(e)
            && e.decodes(w.payload->Gravity_0, display))
        &&& w.event_type == MAP_NOTIFY ==> (self matches XEventData::MapNotify(e)
            && e.decodes(w.payload->MapNotify_0, display))
        &&& w.event_type == REPARENT_NOTIFY ==> (self matches XEventData::Reparent(e)
            && e.decodes(w.payload->Reparent_0, display))
        &&& w.event_type == UNMAP_NOTIFY ==> (self matches XEventData::Unmap(e)
            && e.decodes(w.payload->Unmap_0, display))
        &&& w.event_type == CIRCULATE_REQUEST ==> (self matches XEventData::CirculateRequest(e)
            && e.decodes(w.payload->CirculateRequest_0, display))
        &&& w.event_type == CONFIGURE_REQUEST ==> (self matches XEventData::ConfigureRequest(e)
            && e.decodes(w.payload->ConfigureRequest_0, display))
        &&& w.event_type == MAP_REQUEST ==> (self matches XEventData::MapRequest(e)
            && e.decodes(w.payload->MapRequest_0, display))
        &&& w.event_type == CLIENT_MESSAGE ==> (self matches XEventData::ClientMessage(e)
            && e.decodes(w.payload->ClientMessage_0, display))
        &&& w.event_type == MAPPING_NOTIFY ==> (self matches XEventData::Mapping(e)
            && e.decodes(w.payload->Mapping_0))
        &&& w.event_type == SELECTION_CLEAR ==> (self matches XEventData::SelectionClear(e)
            && e.decodes(w.payload->SelectionClear_0, display))
        &&& w.event_type == SELECTION_NOTIFY ==> (self matches XEventData::Selection(e)
            && e.decodes(w.payload->Selection_0, display))
        &&& w.event_type == SELECTION_REQUEST ==> (self matches XEventData::SelectionRequest(e)
            && e.decodes(w.payload->SelectionRequest_0, display))
        &&& w.event_type == VISIBILITY_NOTIFY ==> (self matches XEventData::VisibilityChange(e)
            && e.decodes(w.payload->Visibility_0))
        &&& w.event_type == GENERIC_EVENT ==> self.decodes_generic(w, display)
        &&& w.event_type == display.spec_xfixes_event_base() + XFIXES_CURSOR_NOTIFY
            && !is_core_event_type(w.event_type as int) ==> (self
            matches XEventData::CursorChanged(e) && e.decodes(w.payload->CursorNotify_0, display))
        &&& !is_known_event_type(
            w.event_type as int,
            display.spec_xfixes_event_base() as int,
        ) ==> (self matches XEventData::Unknown(u) && u == w)
    }
}

/// Moves the fetched extension payload out of a generic envelope.
fn into_generic(p: XWirePayload) -> (g: XWireGenericEvent)
    requires
        p is Generic,
    ensures
        p == XWirePayload::Generic(g),
{
    match p {
        XWirePayload::Generic(g) => g,
        _ => unreached(),
    }
}

impl<'a> XEventData<'a> {
    /// Converts raw event data from its wire representation: the outer
    /// dispatch of the decoder, on the event's type tag.  The dispatch is
    /// total — any tag outside the known set yields the catch-all variant
    /// carrying the raw event — and every resource handle in the result is
    /// tagged foreign.
    pub fn new(event: XWireEvent, display: &'a XDisplay) -> (r: Self)
        requires
            event.wf(
                display.spec_xfixes_event_base() as int,
                display.spec_xinput2_opcode() as int,
            ),
        ensures
            r.decodes(event, display),
            r.all_foreign(),
    {
        let t = event.event_type;
        if t == MOTION_NOTIFY {
            match &event.payload {
                XWirePayload::Motion(m) => XEventData::Motion(XMotionEvent::new(m, display)),
                _ => unreached(),
            }
        } else if t == KEY_PRESS {
            match &event.payload {
                XWirePayload::Key(k) => XEventData::KeyPress(XKeyEvent::new(k, display)),
                _ => unreached(),
            }
        } else if t == KEY_RELEASE {
            match &event.payload {
                XWirePayload::Key(k) => XEventData::KeyRelease(XKeyEvent::new(k, display)),
                _ => unreached(),
            }
        } else if t == BUTTON_PRESS {
            match &event.payload {
                XWirePayload::Button(b) => XEventData::ButtonPress(XButtonEvent::new(b, display)),
                _ => unreached(),
            }
        } else if t == BUTTON_RELEASE {
            match &event.payload {
                XWirePayload::Button(b) => XEventData::ButtonRelease(XButtonEvent::new(b, display)),
                _ => unreached(),
            }
        } else if t == COLORMAP_NOTIFY {
            match &event.payload {
                XWirePayload::Colormap(c) => XEventData::ColormapChange(
                    XColormapEvent::new(c, display),
                ),
                _ => unreached(),
            }
        } else if t == ENTER_NOTIFY {
            match &event.payload {
                XWirePayload::Crossing(c) => XEventData::EnterWindow(
                    XCrossingEvent::new(c, display),
                ),
                _ => unreached(),
            }
        } else if t == LEAVE_NOTIFY {
            match &event.payload {
                XWirePayload::Crossing(c) => XEventData::LeaveWindow(
                    XCrossingEvent::new(c, display),
                ),
                _ => unreached(),
            }
        } else if t == EXPOSE {
            match &event.payload {
                XWirePayload::Expose(e) => XEventData::Expose(XExposeEvent::new(e)),
                _ => unreached(),
            }
        } else if t == FOCUS_IN {
            match &event.payload {
                XWirePayload::FocusChange(f) => XEventData::FocusIn(XFocusChangeEvent::new(f)),
                _ => unreached(),
            }
        } else if t == FOCUS_OUT {
            match &event.payload {
                XWirePayload::FocusChange(f) => XEventData::FocusOut(XFocusChangeEvent::new(f)),
                _ => unreached(),
            }
        } else if t == KEYMAP_NOTIFY {
            match &event.payload {
                XWirePayload::Keymap(k) => XEventData::KeymapChange(XKeymapEvent::new(k)),
                _ => unreached(),
            }
        } else if t == PROPERTY_NOTIFY {
            match &event.payload {
                XWirePayload::Property(p) => XEventData::PropertyChange(
                    XPropertyEvent::new(p, display),
                ),
                _ => unreached(),
            }
        } else if t == RESIZE_REQUEST {
            match &event.payload {
                XWirePayload::ResizeRequest(e) => XEventData::ResizeRequest(
                    XResizeRequestEvent::new(e),
                ),
                _ => unreached(),
            }
        } else if t == CIRCULATE_NOTIFY {
            match &event.payload {
                XWirePayload::Circulate(c) => XEventData::Circulate(
                    XCirculateEvent::new(c, display),
                ),
                _ => unreached(),
            }
        } else if t == CONFIGURE_NOTIFY {
            match &event.payload {
                XWirePayload::Configure(c) => XEventData::Configure(
                    XConfigureEvent::new(c, display),
                ),
                _ => unreached(),
            }
        } else if t == DESTROY_NOTIFY {
            match &event.payload {
                XWirePayload::DestroyWindow(d) => XEventData::Destroy(
                    XDestroyWindowEvent::new(d, display),
                ),
                _ => unreached(),
            }
        } else if t == GRAVITY_NOTIFY {
            match &event.payload {
                XWirePayload::Gravity(g) => XEventData::Gravity(XGravityEvent::new(g, display)),
                _ => unreached(),
            }
        } else if t == MAP_NOTIFY {
            match &event.payload {
                XWirePayload::MapNotify(m) => XEventData::MapNotify(XMapEvent::new(m, display)),
                _ => unreached(),
            }
        } else if t == REPARENT_NOTIFY {
            match &event.payload {
                XWirePayload::Reparent(e) => XEventData::Reparent(XReparentEvent::new(e, display)),
                _ => unreached(),
            }
        } else if t == UNMAP_NOTIFY {
            match &event.payload {
                XWirePayload::Unmap(u) => XEventData::Unmap(XUnmapEvent::new(u, display)),
                _ => unreached(),
            }
        } else if t == CIRCULATE_REQUEST {
            match &event.payload {
                XWirePayload::CirculateRequest(c) => XEventData::CirculateRequest(
                    XCirculateRequestEvent::new(c, display),
                ),
                _ => unreached(),
            }
        } else if t == CONFIGURE_REQUEST {
            match &event.payload {
                XWirePayload::ConfigureRequest(c) => XEventData::ConfigureRequest(
                    XConfigureRequestEvent::new(c, display),
                ),
                _ => unreached(),
            }
        } else if t == MAP_REQUEST {
            match &event.payload {
                XWirePayload::MapRequest(m) => XEventData::MapRequest(
                    XMapRequestEvent::new(m, display),
                ),
                _ => unreached(),
            }
        } else if t == CLIENT_MESSAGE {
            match &event.payload {
                XWirePayload::ClientMessage(c) => XEventData::ClientMessage(
                    XClientMessageEvent::new(c, display),
                ),
                _ => unreached(),
            }
        } else if t == MAPPING_NOTIFY {
            match &event.payload {
                XWirePayload::Mapping(m) => XEventData::Mapping(XMappingEvent::new(m)),
                _ => unreached(),
            }
        } else if t == SELECTION_CLEAR {
            match &event.payload {
                XWirePayload::SelectionClear(s) => XEventData::SelectionClear(
                    XSelectionClearEvent::new(s, display),
                ),
                _ => unreached(),
            }
        } else if t == SELECTION_NOTIFY {
            match &event.payload {
                XWirePayload::Selection(s) => XEventData::Selection(
                    XSelectionEvent::new(s, display),
                ),
                _ => unreached(),
            }
        } else if t == SELECTION_REQUEST {
            match &event.payload {
                XWirePayload::SelectionRequest(s) => XEventData::SelectionRequest(
                    XSelectionRequestEvent::new(s, display),
                ),
                _ => unreached(),
            }
        } else if t == VISIBILITY_NOTIFY {
            match &event.payload {
                XWirePayload::Visibility(v) => XEventData::VisibilityChange(
                    XVisibilityEvent::new(v),
                ),
                _ => unreached(),
            }
        } else if t == GENERIC_EVENT {
            Self::new_generic(event, display)
        } else if (t as i64) == (display.xfixes_event_base() as i64) + (
        XFIXES_CURSOR_NOTIFY as i64) {
            match &event.payload {
                XWirePayload::CursorNotify(c) => XEventData::CursorChanged(
                    XDisplayCursorEvent::new(c, display),
                ),
                _ => unreached(),
            }
        } else {
            XEventData::Unknown(event)
        }
    }

    /// Decodes a generic-event envelope: when the carried extension
    /// identifier is not the connection's cached input-extension opcode
    /// the envelope decodes to the catch-all; otherwise the inner
    /// dispatch classifies it.
    fn new_generic(event: XWireEvent, display: &'a XDisplay) -> (r: Self)
        requires
            event.wf(
                display.spec_xfixes_event_base() as int,
                display.spec_xinput2_opcode() as int,
            ),
            event.event_type == GENERIC_EVENT,
        ensures
            r.decodes_generic(event, display),
            r.all_foreign(),
    {
        let extension = match &event.payload {
            XWirePayload::Generic(g) => g.extension,
            _ => unreached(),
        };
        if extension != display.xinput2_opcode() {
            XEventData::Unknown(event)
        } else {
            Self::new_xinput2(event, display)
        }
    }

    /// The third-level dispatch, on the input extension's sub-type code.
    fn new_xinput2(event: XWireEvent, display: &'a XDisplay) -> (r: Self)
        requires
            event.wf(
                display.spec_xfixes_event_base() as int,
                display.spec_xinput2_opcode() as int,
            ),
            event.event_type == GENERIC_EVENT,
            event.payload matches XWirePayload::Generic(g)
                && g.extension == display.spec_xinput2_opcode(),
        ensures
            r.decodes_generic(event, display),
            r.all_foreign(),
    {
        let evtype = match &event.payload {
            XWirePayload::Generic(g) => g.evtype,
            _ => unreached(),
        };
        if evtype < XI_DEVICE_CHANGED || evtype > XI_BARRIER_LEAVE {
            return XEventData::Unknown(event);
        }
        let g = into_generic(event.payload);
        if evtype == XI_DEVICE_CHANGED {
            match g.data {
                XWireGenericData::DeviceChanged(d) => XEventData::XIDeviceChanged(
                    XIDeviceChangedEvent::new(&d, display),
                ),
                _ => unreached(),
            }
        } else if evtype == XI_KEY_PRESS {
            match g.data {
                XWireGenericData::Device(d) => XEventData::XIKeyPressed(
                    XIDeviceEvent::new(&d, display),
                ),
                _ => unreached(),
            }
        } else if evtype == XI_KEY_RELEASE {
            match g.data {
                XWireGenericData::Device(d) => XEventData::XIKeyReleased(
                    XIDeviceEvent::new(&d, display),
                ),
                _ => unreached(),
            }
        } else if evtype == XI_BUTTON_PRESS {
            match g.data {
                XWireGenericData::Device(d) => XEventData::XIButtonPressed(
                    XIDeviceEvent::new(&d, display),
                ),
                _ => unreached(),
            }
        } else if evtype == XI_BUTTON_RELEASE {
            match g.data {
                XWireGenericData::Device(d) => XEventData::XIButtonReleased(
                    XIDeviceEvent::new(&d, display),
                ),
                _ => unreached(),
            }
        } else if evtype == XI_MOTION {
            match g.data {
                XWireGenericData::Device(d) => XEventData::XIMotion(
                    XIDeviceEvent::new(&d, display),
                ),
                _ => unreached(),
            }
        } else if evtype == XI_TOUCH_BEGIN {
            match g.data {
                XWireGenericData::Device(d) => XEventData::XITouchBegin(
                    XIDeviceEvent::new(&d, display),
                ),
                _ => unreached(),
            }
        } else if evtype == XI_TOUCH_UPDATE {
            match g.data {
                XWireGenericData::Device(d) => XEventData::XITouchUpdate(
                    XIDeviceEvent::new(&d, display),
                ),
                _ => unreached(),
            }
        } else if evtype == XI_TOUCH_END {
            match g.data {
                XWireGenericData::Device(d) => XEventData::XITouchEnd(
                    XIDeviceEvent::new(&d, display),
                ),
                _ => unreached(),
            }
        } else if evtype == XI_TOUCH_OWNERSHIP {
            match g.data {
                XWireGenericData::TouchOwnership(d) => XEventData::XITouchOwnershipChanged(
                    XITouchOwnershipEvent::new(&d, display),
                ),
                _ => unreached(),
            }
        } else if evtype == XI_HIERARCHY_CHANGED {
            match g.data {
                XWireGenericData::Hierarchy(d) => XEventData::XIHierarchyChanged(
                    XIHierarchyEvent::new(&d, display),
                ),
                _ => unreached(),
            }
        } else if evtype == XI_RAW_KEY_PRESS {
            match g.data {
                XWireGenericData::RawDevice(d) => XEventData::XIRawKeyPressed(
                    XIRawEvent::new(&d, display),
                ),
                _ => unreached(),
            }
        } else if evtype == XI_RAW_KEY_RELEASE {
            match g.data {
                XWireGenericData::RawDevice(d) => XEventData::XIRawKeyReleased(
                    XIRawEvent::new(&d, display),
                ),
                _ => unreached(),
            }
        } else if evtype == XI_RAW_BUTTON_PRESS {
            match g.data {
                XWireGenericData::RawDevice(d) => XEventData::XIRawButtonPressed(
                    XIRawEvent::new(&d, display),
                ),
                _ => unreached(),
            }
        } else if evtype == XI_RAW_BUTTON_RELEASE {
            match g.data {
                XWireGenericData::RawDevice(d) => XEventData::XIRawButtonReleased(
                    XIRawEvent::new(&d, display),
                ),
                _ => unreached(),
            }
        } else if evtype == XI_RAW_MOTION {
            match g.data {
                XWireGenericData::RawDevice(d) => XEventData::XIRawMotion(
                    XIRawEvent::new(&d, display),
                ),
                _ => unreached(),
            }
        } else if evtype == XI_RAW_TOUCH_BEGIN {
            match g.data {
                XWireGenericData::RawDevice(d) => XEventData::XIRawTouchBegin(
                    XIRawEvent::new(&d, display),
                ),
                _ => unreached(),
            }
        } else if evtype == XI_RAW_TOUCH_UPDATE {
            match g.data {
                XWireGenericData::RawDevice(d) => XEventData::XIRawTouchUpdated(
                    XIRawEvent::new(&d, display),
                ),
                _ => unreached(),
            }
        } else if evtype == XI_RAW_TOUCH_END {
            match g.data {
                XWireGenericData::RawDevice(d) => XEventData::XIRawTouchEnd(
                    XIRawEvent::new(&d, display),
                ),
                _ => unreached(),
            }
        } else if evtype == XI_BARRIER_HIT {
            match g.data {
                XWireGenericData::Barrier(d) => XEventData::XIBarrierHit(
                    XIBarrierEvent::new(&d, display),
                ),
                _ => unreached(),
            }
        } else if evtype == XI_BARRIER_LEAVE {
            match g.data {
                XWireGenericData::Barrier(d) => XEventData::XIBarrierLeft(
                    XIBarrierEvent::new(&d, display),
                ),
                _ => unreached(),
            }
        } else if evtype == XI_ENTER {
            match g.data {
                XWireGenericData::Enter(d) => XEventData::XIEntered(
                    XIFocusEvent::new(&d, display),
                ),
                _ => unreached(),
            }
        } else if evtype == XI_LEAVE {
            match g.data {
                XWireGenericData::Enter(d) => XEventData::XILeft(XIFocusEvent::new(&d, display)),
                _ => unreached(),
            }
        } else if evtype == XI_FOCUS_IN {
            match g.data {
                XWireGenericData::Enter(d) => XEventData::XIFocusIn(
                    XIFocusEvent::new(&d, display),
                ),
                _ => unreached(),
            }
        } else if evtype == XI_FOCUS_OUT {
            match g.data {
                XWireGenericData::Enter(d) => XEventData::XIFocusOut(
                    XIFocusEvent::new(&d, display),
                ),
                _ => unreached(),
            }
        } else {
            match g.data {
                XWireGenericData::XIProperty(d) => XEventData::XIPropertyChanged(
                    XIPropertyEvent::new(&d, display),
                ),
                _ => unreached(),
            }
        }
    }
}

/// A decoded event: the header every event shares, plus the typed payload.
#[derive(Debug)]
pub struct XEvent<'a> {
    pub serial: u64,
    pub send_event: bool,
    pub window: XWindow<'a>,
    pub data: XEventData<'a>,
}

impl<'a> XEvent<'a> {
    /// Decodes one raw wire event: reads the shared header, wraps the
    /// header window as foreign and classifies the payload.  Decoding is
    /// total over well-formed raw events and never takes ownership of any
    /// resource an event mentions.
    pub fn new(event: XWireEvent, display: &'a XDisplay) -> (r: Self)
        requires
            event.wf(
                display.spec_xfixes_event_base() as int,
                display.spec_xinput2_opcode() as int,
            ),
        ensures
            r.serial == event.serial,
            r.send_event == (event.send_event != 0),
            r.window.handle == event.window,
            r.window.display == display,
            r.window.is_foreign(),
            r.data.decodes(event, display),
            r.data.all_foreign(),
    {
        let serial = event.serial;
        let send_event = event.send_event != 0;
        let window = XWindow::new(event.window, display, WindowHandleOwnership::Foreign);
        let data = XEventData::new(event, display);
        XEvent { serial, send_event, window, data }
    }

    /// Retrieves the event serial.
    pub fn serial(&self) -> (r: u64)
        ensures
            r == self.serial,
    {
        self.serial
    }

    /// Determines whether this event was generated by a `SendEvent`
    /// request.
    pub fn is_from_send_event(&self) -> (r: bool)
        ensures
            r == self.send_event,
    {
        self.send_event
    }

    /// Retrieves the window this event was generated for.
    ///
    /// X does not clearly define which window this is, other than "the
    /// most useful for toolkit dispatchers".  Prefer the windows contained
    /// in the events themselves, when available.
    pub fn window(&self) -> (r: &XWindow<'a>)
        ensures
            *r == self.window,
    {
        &self.window
    }

    /// Determines whether this event was sent by a send event call.
    pub fn send_event(&self) -> (r: bool)
        ensures
            r == self.send_event,
    {
        self.send_event
    }

    /// Retrieves the underlying data of this event.
    pub fn data(&self) -> (r: &XEventData<'a>)
        ensures
            r == self.data,
    {
        &self.data
    }
}

/// Totality of the decoder: a raw event whose type tag lies outside the
/// known set — the compile-time tags plus the connection's dynamically
/// assigned cursor-notification tag — always decodes to the catch-all
/// variant carrying the raw event unchanged.
pub proof fn lemma_decode_total(data: XEventData, w: XWireEvent, display: &XDisplay)
    requires
        data.decodes(w, display),
        !is_known_event_type(w.event_type as int, display.spec_xfixes_event_base() as int),
    ensures
        data matches XEventData::Unknown(u) && u == w,
{
}

/// Gating of the extension dispatch: a generic-event envelope whose
/// carried extension identifier differs from the connection's cached
/// input-extension opcode always decodes to the catch-all variant carrying
/// the raw event unchanged, whatever its sub-type code says.
pub proof fn lemma_generic_gating(data: XEventData, w: XWireEvent, display: &XDisplay)
    requires
        data.decodes(w, display),
        w.event_type == GENERIC_EVENT,
        w.payload matches XWirePayload::Generic(g)
            && g.extension != display.spec_xinput2_opcode(),
    ensures
        data matches XEventData::Unknown(u) && u == w,
{
}

} // verus!
