//! A safety-oriented, ownership-tracked model of an X11 client wrapper.
//!
//! The heart of the crate is the event decoding core: a total classification
//! of raw wire events into typed variants, in which every resource handle
//! embedded in an event is tagged as foreign (never owned), so that no
//! decode path can ever release a resource it does not own.

pub mod atom;
pub mod buf;
pub mod colormap;
pub mod cursor;
pub mod display;
pub mod drawable;
pub mod event;
pub mod font;
pub mod gc;
pub mod image;
pub mod input;
pub mod masks;
pub mod pixmap;
pub mod property;
pub mod region;
pub mod screen;
pub mod visual;
pub mod window;
pub mod wire;
pub mod xi;

pub use atom::{XAtom, XAtomRegistry};
pub use colormap::{ColormapAllocation, ColormapHandleOwnership, ColormapState, XColormap};
pub use cursor::XCursor;
pub use display::{DisplayOwnership, QueuedMode, XDisplay};
pub use drawable::XDrawable;
pub use event::{
    CirculatePlace, ClientMessageData, ConfigureDetail, MappingRequestType, NotifyDetail,
    NotifyMode, PropertyState, VisibilityState, XButtonEvent, XCirculateEvent,
    XCirculateRequestEvent, XClientMessageEvent, XColormapEvent, XConfigureEvent,
    XConfigureRequestEvent, XCrossingEvent, XDestroyWindowEvent, XDisplayCursorEvent,
    XDisplayCursorEventSubtype, XEvent, XEventData, XExposeEvent, XFocusChangeEvent,
    XGravityEvent, XKeyEvent, XKeymapEvent, XMapEvent, XMapRequestEvent, XMappingEvent,
    XMotionEvent, XPropertyEvent, XReparentEvent, XResizeRequestEvent, XSelectionClearEvent,
    XSelectionEvent, XSelectionRequestEvent, XUnmapEvent, XVisibilityEvent,
};
pub use masks::{
    CursorInputMask, InputModifierMask, WindowInputMask, XIBarrierEventFlags, XIDeviceEventFlags,
    XIHierarchyChangeFlags, XIScrollFlags, XITouchOwnershipEventFlags, XInputEventMask,
};
pub use font::{XChar, XFont, XFontDirection, XFontId, XTextExtents};
pub use gc::XGC;
pub use image::{XBitmapPadding, XImage, XImageFormat};
pub use input::XInputDevice;
pub use pixmap::{PixmapHandleOwnership, XPixmap};
pub use property::{
    XPropEntry, XPropertyChangeMode, XPropertyData, XPropertyDataFormat, XPropertyHolder,
    XPropertyStore, XPropertyValues, XPropertyValuesView, ANY_PROPERTY_TYPE,
};
pub use region::{XRectangle, XServerRegion};
pub use screen::{XRandRMonitorInfo, XScreen};
pub use visual::{VisualClass, XVisual, XVisualInfo};
pub use window::{
    BackingWindowStore, SetWindowAttributes, WindowClass, WindowHandleOwnership, WindowShapeKind,
    XWindow, XWindowAttributes, XWindowTreeInfo,
};
pub use wire::{XWireEvent, XWireGenericData, XWireGenericEvent, XWirePayload};
pub use xi::{
    XIBarrierEvent, XIButtonState, XIClassInfo, XIDeviceChangeReason, XIDeviceChangedEvent,
    XIDeviceEvent, XIFocusEvent, XIFocusEventDetail, XIFocusEventMode, XIHierarchyEvent,
    XIHierarchyInfo, XIModifierState, XIPropertyEvent, XIPropertyEventChange, XIRawEvent,
    XIScrollType, XITouchMode, XITouchOwnershipEvent, XIValuatorMode, XIValuatorState,
};

use vstd::prelude::*;

verus! {

/// Relies on the standard library's `String::push_str`: it appends the
/// given string slice onto the end of the string.
pub assume_specification[ String::push_str ](s: &mut String, other: &str)
    ensures
        final(s)@ == old(s)@ + other@,
;

/// Errors reported by the library.
#[derive(Debug)]
pub enum XLibError {
    /// Opening the connection to the X server failed; carries the display
    /// name that was attempted.
    OpenDisplayFailed(String),
}

impl XLibError {
    /// A human-readable description of the error.
    pub fn message(&self) -> (r: String)
        ensures
            self matches XLibError::OpenDisplayFailed(name)
                ==> r@ == "failed to open display :"@ + name@,
    {
        match self {
            XLibError::OpenDisplayFailed(name) => {
                let mut s = String::new();
                s.push_str("failed to open display :");
                s.push_str(name.as_str());
                s
            },
        }
    }
}

} // verus!
