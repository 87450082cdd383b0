//! Plain-value model of the raw wire-format event union.
//!
//! The X server delivers every event as one untyped C union discriminated by
//! a numeric type tag.  This module mirrors that union as a tagged payload of
//! plain values: the header fields every event shares, plus one payload
//! variant per wire structure that the decoder reads.  The conversion from
//! the C union into this model is a mechanical field copy; everything that
//! *interprets* the fields happens in the verified decoder.
//!
//! `XWireEvent::wf` states the well-formedness the decoder relies on: for
//! every known type tag the payload variant matches the tag, and fields that
//! feed closed enumerations hold one of the values the protocol defines.

use vstd::prelude::*;

verus! {

// Core protocol event type tags.
pub const KEY_PRESS: i32 = 2;
pub const KEY_RELEASE: i32 = 3;
pub const BUTTON_PRESS: i32 = 4;
pub const BUTTON_RELEASE: i32 = 5;
pub const MOTION_NOTIFY: i32 = 6;
pub const ENTER_NOTIFY: i32 = 7;
pub const LEAVE_NOTIFY: i32 = 8;
pub const FOCUS_IN: i32 = 9;
pub const FOCUS_OUT: i32 = 10;
pub const KEYMAP_NOTIFY: i32 = 11;
pub const EXPOSE: i32 = 12;
pub const VISIBILITY_NOTIFY: i32 = 15;
pub const DESTROY_NOTIFY: i32 = 17;
pub const UNMAP_NOTIFY: i32 = 18;
pub const MAP_NOTIFY: i32 = 19;
pub const MAP_REQUEST: i32 = 20;
pub const REPARENT_NOTIFY: i32 = 21;
pub const CONFIGURE_NOTIFY: i32 = 22;
pub const CONFIGURE_REQUEST: i32 = 23;
pub const GRAVITY_NOTIFY: i32 = 24;
pub const RESIZE_REQUEST: i32 = 25;
pub const CIRCULATE_NOTIFY: i32 = 26;
pub const CIRCULATE_REQUEST: i32 = 27;
pub const PROPERTY_NOTIFY: i32 = 28;
pub const SELECTION_CLEAR: i32 = 29;
pub const SELECTION_REQUEST: i32 = 30;
pub const SELECTION_NOTIFY: i32 = 31;
pub const COLORMAP_NOTIFY: i32 = 32;
pub const CLIENT_MESSAGE: i32 = 33;
pub const MAPPING_NOTIFY: i32 = 34;
pub const GENERIC_EVENT: i32 = 35;

// XFixes cursor notification: the event code is `xfixes_event_base`
// (negotiated at connect time) plus this offset; the subtype inside it.
pub const XFIXES_CURSOR_NOTIFY: i32 = 1;
pub const XFIXES_DISPLAY_CURSOR_NOTIFY: i32 = 0;

// XInput2 extension event sub-type codes.
pub const XI_DEVICE_CHANGED: i32 = 1;
pub const XI_KEY_PRESS: i32 = 2;
pub const XI_KEY_RELEASE: i32 = 3;
pub const XI_BUTTON_PRESS: i32 = 4;
pub const XI_BUTTON_RELEASE: i32 = 5;
pub const XI_MOTION: i32 = 6;
pub const XI_ENTER: i32 = 7;
pub const XI_LEAVE: i32 = 8;
pub const XI_FOCUS_IN: i32 = 9;
pub const XI_FOCUS_OUT: i32 = 10;
pub const XI_HIERARCHY_CHANGED: i32 = 11;
pub const XI_PROPERTY_EVENT: i32 = 12;
pub const XI_RAW_KEY_PRESS: i32 = 13;
pub const XI_RAW_KEY_RELEASE: i32 = 14;
pub const XI_RAW_BUTTON_PRESS: i32 = 15;
pub const XI_RAW_BUTTON_RELEASE: i32 = 16;
pub const XI_RAW_MOTION: i32 = 17;
pub const XI_TOUCH_BEGIN: i32 = 18;
pub const XI_TOUCH_UPDATE: i32 = 19;
pub const XI_TOUCH_END: i32 = 20;
pub const XI_TOUCH_OWNERSHIP: i32 = 21;
pub const XI_RAW_TOUCH_BEGIN: i32 = 22;
pub const XI_RAW_TOUCH_UPDATE: i32 = 23;
pub const XI_RAW_TOUCH_END: i32 = 24;
pub const XI_BARRIER_HIT: i32 = 25;
pub const XI_BARRIER_LEAVE: i32 = 26;

/// A raw wire event: the header shared by all events plus the payload view
/// selected by the type tag.
#[derive(Debug)]
pub struct XWireEvent {
    /// The numeric type tag of the event.
    pub event_type: i32,
    /// The serial number of the last request processed by the server.
    pub serial: u64,
    /// Non-zero when the event came from a `SendEvent` request.
    pub send_event: i32,
    /// The window the event is reported relative to.
    pub window: u64,
    /// The payload view matching the type tag.
    pub payload: XWirePayload,
}

/// One variant per wire structure the decoder reads.  `Other` stands for
/// every payload this library does not interpret; events carrying it decode
/// to the catch-all variant.
#[derive(Debug)]
pub enum XWirePayload {
    Motion(XWireMotionEvent),
    Button(XWireButtonEvent),
    Key(XWireKeyEvent),
    Colormap(XWireColormapEvent),
    Crossing(XWireCrossingEvent),
    Expose(XWireExposeEvent),
    FocusChange(XWireFocusChangeEvent),
    Keymap(XWireKeymapEvent),
    Property(XWirePropertyEvent),
    ResizeRequest(XWireResizeRequestEvent),
    Circulate(XWireCirculateEvent),
    Configure(XWireConfigureEvent),
    DestroyWindow(XWireDestroyWindowEvent),
    Gravity(XWireGravityEvent),
    MapNotify(XWireMapEvent),
    Reparent(XWireReparentEvent),
    Unmap(XWireUnmapEvent),
    CirculateRequest(XWireCirculateRequestEvent),
    ConfigureRequest(XWireConfigureRequestEvent),
    MapRequest(XWireMapRequestEvent),
    ClientMessage(XWireClientMessageEvent),
    Mapping(XWireMappingEvent),
    SelectionClear(XWireSelectionClearEvent),
    Selection(XWireSelectionEvent),
    SelectionRequest(XWireSelectionRequestEvent),
    Visibility(XWireVisibilityEvent),
    CursorNotify(XWireCursorNotifyEvent),
    Generic(XWireGenericEvent),
    Other,
}

#[derive(Debug)]
pub struct XWireMotionEvent {
    pub root: u64,
    pub subwindow: u64,
    pub time: u64,
    pub x: i32,
    pub y: i32,
    pub x_root: i32,
    pub y_root: i32,
    pub state: u32,
    pub is_hint: i32,
    pub same_screen: i32,
}

#[derive(Debug)]
pub struct XWireButtonEvent {
    pub root: u64,
    pub subwindow: u64,
    pub time: u64,
    pub x: i32,
    pub y: i32,
    pub x_root: i32,
    pub y_root: i32,
    pub state: u32,
    pub button: u32,
    pub same_screen: i32,
}

#[derive(Debug)]
pub struct XWireKeyEvent {
    pub root: u64,
    pub subwindow: u64,
    pub time: u64,
    pub x: i32,
    pub y: i32,
    pub x_root: i32,
    pub y_root: i32,
    pub state: u32,
    pub keycode: u32,
    pub same_screen: i32,
}

#[derive(Debug)]
pub struct XWireColormapEvent {
    pub colormap: u64,
    pub new: i32,
    pub state: i32,
}

#[derive(Debug)]
pub struct XWireCrossingEvent {
    pub root: u64,
    pub subwindow: u64,
    pub time: u64,
    pub x: i32,
    pub y: i32,
    pub x_root: i32,
    pub y_root: i32,
    pub detail: i32,
    pub same_screen: i32,
    pub focus: i32,
    pub state: u32,
}

#[derive(Debug)]
pub struct XWireExposeEvent {
    pub x: i32,
    pub y: i32,
    pub width: i32,
    pub height: i32,
    pub count: i32,
}

#[derive(Debug)]
pub struct XWireFocusChangeEvent {
    pub mode: i32,
    pub detail: i32,
}

#[derive(Debug)]
pub struct XWireKeymapEvent {
    pub key_vector: [i8; 32],
}

#[derive(Debug)]
pub struct XWirePropertyEvent {
    pub atom: u64,
    pub time: u64,
    pub state: i32,
}

#[derive(Debug)]
pub struct XWireResizeRequestEvent {
    pub width: i32,
    pub height: i32,
}

#[derive(Debug)]
pub struct XWireCirculateEvent {
    pub window: u64,
    pub place: i32,
}

#[derive(Debug)]
pub struct XWireConfigureEvent {
    pub window: u64,
    pub x: i32,
    pub y: i32,
    pub width: i32,
    pub height: i32,
    pub border_width: i32,
    pub above: u64,
    pub override_redirect: i32,
}

#[derive(Debug)]
pub struct XWireDestroyWindowEvent {
    pub window: u64,
}

#[derive(Debug)]
pub struct XWireGravityEvent {
    pub window: u64,
    pub x: i32,
    pub y: i32,
}

#[derive(Debug)]
pub struct XWireMapEvent {
    pub window: u64,
    pub override_redirect: i32,
}

#[derive(Debug)]
pub struct XWireReparentEvent {
    pub window: u64,
    pub parent: u64,
    pub x: i32,
    pub y: i32,
    pub override_redirect: i32,
}

#[derive(Debug)]
pub struct XWireUnmapEvent {
    pub window: u64,
    pub from_configure: i32,
}

#[derive(Debug)]
pub struct XWireCirculateRequestEvent {
    pub window: u64,
    pub place: i32,
}

#[derive(Debug)]
pub struct XWireConfigureRequestEvent {
    pub window: u64,
    pub x: i32,
    pub y: i32,
    pub width: i32,
    pub height: i32,
    pub border_width: i32,
    pub above: u64,
    pub detail: i32,
    pub value_mask: u64,
}

#[derive(Debug)]
pub struct XWireMapRequestEvent {
    pub window: u64,
}

/// The client-message payload carries 20 bytes that may be read as bytes,
/// shorts or longs; the format field says which reading is meant.
#[derive(Debug)]
pub struct XWireClientMessageEvent {
    pub message_type: u64,
    pub format: i32,
    pub bytes: [i8; 20],
    pub shorts: [i16; 10],
    pub longs: [i64; 5],
}

#[derive(Debug)]
pub struct XWireMappingEvent {
    pub request: i32,
    pub first_keycode: i32,
    pub count: i32,
}

#[derive(Debug)]
pub struct XWireSelectionClearEvent {
    pub selection: u64,
    pub time: u64,
}

#[derive(Debug)]
pub struct XWireSelectionEvent {
    pub selection: u64,
    pub target: u64,
    pub property: u64,
    pub time: u64,
}

#[derive(Debug)]
pub struct XWireSelectionRequestEvent {
    pub requestor: u64,
    pub selection: u64,
    pub target: u64,
    pub property: u64,
    pub time: u64,
}

#[derive(Debug)]
pub struct XWireVisibilityEvent {
    pub state: i32,
}

#[derive(Debug)]
pub struct XWireCursorNotifyEvent {
    pub subtype: i32,
    pub cursor_serial: u64,
    pub timestamp: u64,
    pub cursor_name: u64,
}

/// The generic-event envelope: an extension identifier, an extension-local
/// sub-type code, and the extension payload fetched for the event.
#[derive(Debug)]
pub struct XWireGenericEvent {
    pub extension: i32,
    pub evtype: i32,
    pub data: XWireGenericData,
}

/// The fetched payload of a generic-event envelope.  `Other` stands for any
/// payload of a sub-type this library does not interpret.
#[derive(Debug)]
pub enum XWireGenericData {
    DeviceChanged(XWireDeviceChangedEvent),
    Device(XWireDeviceEvent),
    RawDevice(XWireRawDeviceEvent),
    TouchOwnership(XWireTouchOwnershipEvent),
    Hierarchy(XWireHierarchyEvent),
    Enter(XWireEnterEvent),
    Barrier(XWireBarrierEvent),
    XIProperty(XWireXIPropertyEvent),
    Other,
}

/// A valuator state on the wire: a byte mask of axes plus one value (an
/// IEEE-754 bit pattern) for every set bit, packed in ascending bit order.
#[derive(Debug)]
pub struct XWireValuatorState {
    pub mask: Vec<u8>,
    pub values: Vec<u64>,
}

#[derive(Debug)]
pub struct XWireModifierState {
    pub base: i32,
    pub latched: i32,
    pub locked: i32,
    pub effective: i32,
}

#[derive(Debug)]
pub struct XWireDeviceEvent {
    pub time: u64,
    pub deviceid: i32,
    pub sourceid: i32,
    pub detail: i32,
    pub root: u64,
    pub event: u64,
    pub child: u64,
    pub root_x: u64,
    pub root_y: u64,
    pub event_x: u64,
    pub event_y: u64,
    pub flags: i32,
    pub buttons: Vec<u8>,
    pub valuators: XWireValuatorState,
    pub mods: XWireModifierState,
    pub group: XWireModifierState,
}

#[derive(Debug)]
pub struct XWireRawDeviceEvent {
    pub time: u64,
    pub deviceid: i32,
    pub sourceid: i32,
    pub detail: i32,
    pub flags: i32,
    pub valuators: XWireValuatorState,
    pub raw_values: Vec<u64>,
}

/// One class description of an input device, already split by class kind.
#[derive(Debug)]
pub enum XWireClassInfo {
    Key { sourceid: i32, keycodes: Vec<i32> },
    Button { sourceid: i32, labels: Vec<u64>, state_mask: Vec<u8> },
    Valuator {
        sourceid: i32,
        number: i32,
        label: u64,
        min: u64,
        max: u64,
        value: u64,
        resolution: i32,
        mode: i32,
    },
    Scroll { sourceid: i32, number: i32, scroll_type: i32, increment: u64, flags: i32 },
    Touch { sourceid: i32, mode: i32, num_touches: i32 },
}

#[derive(Debug)]
pub struct XWireDeviceChangedEvent {
    pub time: u64,
    pub deviceid: i32,
    pub sourceid: i32,
    pub reason: i32,
    pub classes: Vec<XWireClassInfo>,
}

#[derive(Debug)]
pub struct XWireHierarchyInfo {
    pub deviceid: i32,
    pub attachment: i32,
    pub usage: i32,
    pub enabled: i32,
    pub flags: i32,
}

#[derive(Debug)]
pub struct XWireHierarchyEvent {
    pub time: u64,
    pub flags: i32,
    pub info: Vec<XWireHierarchyInfo>,
}

#[derive(Debug)]
pub struct XWireTouchOwnershipEvent {
    pub time: u64,
    pub deviceid: i32,
    pub sourceid: i32,
    pub touchid: u32,
    pub root: u64,
    pub event: u64,
    pub child: u64,
    pub flags: i32,
}

#[derive(Debug)]
pub struct XWireEnterEvent {
    pub time: u64,
    pub deviceid: i32,
    pub sourceid: i32,
    pub detail: i32,
    pub root: u64,
    pub event: u64,
    pub child: u64,
    pub root_x: u64,
    pub root_y: u64,
    pub event_x: u64,
    pub event_y: u64,
    pub mode: i32,
    pub focus: i32,
    pub same_screen: i32,
    pub buttons: Vec<u8>,
    pub mods: XWireModifierState,
    pub group: XWireModifierState,
}

#[derive(Debug)]
pub struct XWireBarrierEvent {
    pub time: u64,
    pub deviceid: i32,
    pub sourceid: i32,
    pub event: u64,
    pub root: u64,
    pub root_x: u64,
    pub root_y: u64,
    pub dx: u64,
    pub dy: u64,
    pub dtime: i32,
    pub flags: i32,
    pub barrier: u64,
    pub eventid: u32,
}

#[derive(Debug)]
pub struct XWireXIPropertyEvent {
    pub time: u64,
    pub deviceid: i32,
    pub property: u64,
    pub what: i32,
}

/// Whether bit `k` (0 to 7) of the byte `b` is set.
pub open spec fn bit_at(b: u8, k: u8) -> bool {
    (b >> k) & 1u8 == 1u8
}

/// Whether bit `i` of the byte mask is set, bits numbered from bit 0 of the
/// first byte upward.
pub open spec fn mask_bit(mask: Seq<u8>, i: int) -> bool {
    bit_at(mask[i / 8], (i % 8) as u8)
}

/// The number of set bits among the first `n` bit positions of the mask.
pub open spec fn count_set(mask: Seq<u8>, n: int) -> nat
    decreases n,
{
    if n <= 0 {
        0
    } else {
        count_set(mask, n - 1) + if mask_bit(mask, n - 1) { 1nat } else { 0nat }
    }
}

/// The number of set bits in the whole mask.
pub open spec fn popcount(mask: Seq<u8>) -> nat {
    count_set(mask, mask.len() as int * 8)
}

impl XWireValuatorState {
    /// The value array holds one entry per set mask bit.
    pub open spec fn wf(&self) -> bool {
        &&& self.values@.len() >= popcount(self.mask@)
        &&& self.mask@.len() * 8 <= usize::MAX
    }
}

impl XWireDeviceEvent {
    pub open spec fn wf(&self) -> bool {
        self.valuators.wf()
    }
}

impl XWireRawDeviceEvent {
    /// Both value arrays pair with the same mask, entry per set bit.
    pub open spec fn wf(&self) -> bool {
        &&& self.valuators.wf()
        &&& self.raw_values@.len() >= popcount(self.valuators.mask@)
    }
}

impl XWireClassInfo {
    /// Mode and kind fields hold values the protocol defines.
    pub open spec fn wf(&self) -> bool {
        match *self {
            XWireClassInfo::Valuator { mode, .. } => mode == 0 || mode == 1,
            XWireClassInfo::Scroll { scroll_type, .. } => scroll_type == 1 || scroll_type == 2,
            XWireClassInfo::Touch { mode, .. } => mode == 1 || mode == 2,
            _ => true,
        }
    }
}

impl XWireDeviceChangedEvent {
    pub open spec fn wf(&self) -> bool {
        &&& self.reason == 1 || self.reason == 2
        &&& forall|i: int| 0 <= i < self.classes@.len() ==> self.classes@[i].wf()
    }
}

impl XWireEnterEvent {
    pub open spec fn wf(&self) -> bool {
        &&& 0 <= self.mode <= 2
        &&& 0 <= self.detail <= 7
    }
}

impl XWireGenericEvent {
    /// When the envelope belongs to the input extension, the fetched data
    /// matches the sub-type code and is itself well formed.
    pub open spec fn wf(&self, xinput2_opcode: int) -> bool {
        self.extension == xinput2_opcode ==> {
            &&& (self.evtype == XI_KEY_PRESS || self.evtype == XI_KEY_RELEASE
                || self.evtype == XI_BUTTON_PRESS || self.evtype == XI_BUTTON_RELEASE
                || self.evtype == XI_MOTION || self.evtype == XI_TOUCH_BEGIN
                || self.evtype == XI_TOUCH_UPDATE || self.evtype == XI_TOUCH_END)
                ==> (self.data matches XWireGenericData::Device(d) && d.wf())
            &&& (self.evtype == XI_RAW_KEY_PRESS || self.evtype == XI_RAW_KEY_RELEASE
                || self.evtype == XI_RAW_BUTTON_PRESS || self.evtype == XI_RAW_BUTTON_RELEASE
                || self.evtype == XI_RAW_MOTION || self.evtype == XI_RAW_TOUCH_BEGIN
                || self.evtype == XI_RAW_TOUCH_UPDATE || self.evtype == XI_RAW_TOUCH_END)
                ==> (self.data matches XWireGenericData::RawDevice(d) && d.wf())
            &&& self.evtype == XI_DEVICE_CHANGED
                ==> (self.data matches XWireGenericData::DeviceChanged(d) && d.wf())
            &&& self.evtype == XI_TOUCH_OWNERSHIP
                ==> self.data is TouchOwnership
            &&& self.evtype == XI_HIERARCHY_CHANGED
                ==> self.data is Hierarchy
            &&& (self.evtype == XI_ENTER || self.evtype == XI_LEAVE
                || self.evtype == XI_FOCUS_IN || self.evtype == XI_FOCUS_OUT)
                ==> (self.data matches XWireGenericData::Enter(d) && d.wf())
            &&& (self.evtype == XI_BARRIER_HIT || self.evtype == XI_BARRIER_LEAVE)
                ==> self.data is Barrier
            &&& self.evtype == XI_PROPERTY_EVENT
                ==> (self.data matches XWireGenericData::XIProperty(d)
                    && 0 <= d.what <= 2)
        }
    }
}

/// The compile-time type tags the decoder recognises.
pub open spec fn is_core_event_type(t: int) -> bool {
    ||| t == MOTION_NOTIFY
    ||| t == BUTTON_PRESS
    ||| t == BUTTON_RELEASE
    ||| t == KEY_PRESS
    ||| t == KEY_RELEASE
    ||| t == COLORMAP_NOTIFY
    ||| t == ENTER_NOTIFY
    ||| t == LEAVE_NOTIFY
    ||| t == EXPOSE
    ||| t == FOCUS_IN
    ||| t == FOCUS_OUT
    ||| t == KEYMAP_NOTIFY
    ||| t == PROPERTY_NOTIFY
    ||| t == RESIZE_REQUEST
    ||| t == CIRCULATE_NOTIFY
    ||| t == CONFIGURE_NOTIFY
    ||| t == DESTROY_NOTIFY
    ||| t == GRAVITY_NOTIFY
    ||| t == MAP_NOTIFY
    ||| t == REPARENT_NOTIFY
    ||| t == UNMAP_NOTIFY
    ||| t == CIRCULATE_REQUEST
    ||| t == CONFIGURE_REQUEST
    ||| t == MAP_REQUEST
    ||| t == CLIENT_MESSAGE
    ||| t == MAPPING_NOTIFY
    ||| t == SELECTION_CLEAR
    ||| t == SELECTION_NOTIFY
    ||| t == SELECTION_REQUEST
    ||| t == VISIBILITY_NOTIFY
    ||| t == GENERIC_EVENT
}

/// The type tags the decoder recognises on a connection whose cursor
/// extension reported the given event base: the compile-time tags plus the
/// dynamically assigned cursor-notification tag.
pub open spec fn is_known_event_type(t: int, xfixes_event_base: int) -> bool {
    is_core_event_type(t) || t == xfixes_event_base + XFIXES_CURSOR_NOTIFY
}

impl XWireEvent {
    /// Well-formedness of a raw event, relative to the connection's two
    /// negotiated extension identifiers: for every known type tag the
    /// payload view matches the tag, and fields that feed closed
    /// enumerations hold protocol-defined values.  Events with any other
    /// tag are unconstrained; the decoder classifies them as unknown.
    pub open spec fn wf(&self, xfixes_event_base: int, xinput2_opcode: int) -> bool {
        &&& self.event_type == MOTION_NOTIFY ==> self.payload is Motion
        &&& (self.event_type == BUTTON_PRESS || self.event_type == BUTTON_RELEASE)
            ==> self.payload is Button
        &&& (self.event_type == KEY_PRESS || self.event_type == KEY_RELEASE)
            ==> self.payload is Key
        &&& self.event_type == COLORMAP_NOTIFY
            ==> (self.payload matches XWirePayload::Colormap(c) && (c.state == 0 || c.state == 1))
        &&& (self.event_type == ENTER_NOTIFY || self.event_type == LEAVE_NOTIFY)
            ==> (self.payload matches XWirePayload::Crossing(c) && 0 <= c.detail <= 7)
        &&& self.event_type == EXPOSE ==> self.payload is Expose
        &&& (self.event_type == FOCUS_IN || self.event_type == FOCUS_OUT)
            ==> (self.payload matches XWirePayload::FocusChange(f)
                && 0 <= f.mode <= 2 && 0 <= f.detail <= 7)
        &&& self.event_type == KEYMAP_NOTIFY ==> self.payload is Keymap
        &&& self.event_type == PROPERTY_NOTIFY
            ==> (self.payload matches XWirePayload::Property(p) && (p.state == 0 || p.state == 1))
        &&& self.event_type == RESIZE_REQUEST ==> self.payload is ResizeRequest
        &&& self.event_type == CIRCULATE_NOTIFY
            ==> (self.payload matches XWirePayload::Circulate(c) && (c.place == 0 || c.place == 1))
        &&& self.event_type == CONFIGURE_NOTIFY ==> self.payload is Configure
        &&& self.event_type == DESTROY_NOTIFY ==> self.payload is DestroyWindow
        &&& self.event_type == GRAVITY_NOTIFY ==> self.payload is Gravity
        &&& self.event_type == MAP_NOTIFY ==> self.payload is MapNotify
        &&& self.event_type == REPARENT_NOTIFY ==> self.payload is Reparent
        &&& self.event_type == UNMAP_NOTIFY ==> self.payload is Unmap
        &&& self.event_type == CIRCULATE_REQUEST
            ==> (self.payload matches XWirePayload::CirculateRequest(c)
                && (c.place == 0 || c.place == 1))
        &&& self.event_type == CONFIGURE_REQUEST
            ==> (self.payload matches XWirePayload::ConfigureRequest(c) && 0 <= c.detail <= 4)
        &&& self.event_type == MAP_REQUEST ==> self.payload is MapRequest
        &&& self.event_type == CLIENT_MESSAGE
            ==> (self.payload matches XWirePayload::ClientMessage(c)
                && (c.format == 8 || c.format == 16 || c.format == 32))
        &&& self.event_type == MAPPING_NOTIFY
            ==> (self.payload matches XWirePayload::Mapping(m) && 0 <= m.request <= 2)
        &&& self.event_type == SELECTION_CLEAR ==> self.payload is SelectionClear
        &&& self.event_type == SELECTION_NOTIFY ==> self.payload is Selection
        &&& self.event_type == SELECTION_REQUEST ==> self.payload is SelectionRequest
        &&& self.event_type == VISIBILITY_NOTIFY
            ==> (self.payload matches XWirePayload::Visibility(v) && 0 <= v.state <= 2)
        &&& self.event_type == xfixes_event_base + XFIXES_CURSOR_NOTIFY
            && !is_core_event_type(self.event_type as int)
            ==> (self.payload matches XWirePayload::CursorNotify(c)
                && c.subtype == XFIXES_DISPLAY_CURSOR_NOTIFY)
        &&& self.event_type == GENERIC_EVENT
            ==> (self.payload matches XWirePayload::Generic(g) && g.wf(xinput2_opcode))
    }
}

} // verus!
