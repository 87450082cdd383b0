//! Window handles, attribute building and tree information.

use crate::colormap::XColormap;
use crate::cursor::XCursor;
use crate::display::XDisplay;
use crate::screen::XScreen;
use crate::visual::XVisual;
use crate::drawable::XDrawable;
use crate::masks::WindowInputMask;
use crate::pixmap::XPixmap;
use vstd::prelude::*;

verus! {

/// The kind of window shape a region can be applied to.
#[derive(Debug, Copy, Clone, Eq, PartialEq, Structural)]
pub enum WindowShapeKind {
    Bounding,
    Clip,
    Input,
}

impl WindowShapeKind {
    /// The native value of this shape kind.
    pub fn to_native(&self) -> (r: i32)
        ensures
            r == match *self {
                WindowShapeKind::Bounding => 0int,
                WindowShapeKind::Clip => 1int,
                WindowShapeKind::Input => 2int,
            },
    {
        match self {
            WindowShapeKind::Bounding => 0,
            WindowShapeKind::Clip => 1,
            WindowShapeKind::Input => 2,
        }
    }
}

/// Whether a window can be drawn to or only receives input.
#[derive(Debug, Copy, Clone, Eq, PartialEq, Structural)]
pub enum WindowClass {
    InputOnly,
    InputOutput,
}

impl WindowClass {
    /// The native value of this window class.
    pub fn to_native(&self) -> (r: i32)
        ensures
            r == match *self {
                WindowClass::InputOutput => 1int,
                WindowClass::InputOnly => 2int,
            },
    {
        match self {
            WindowClass::InputOutput => 1,
            WindowClass::InputOnly => 2,
        }
    }
}

/// When the server should maintain the contents of a window.
#[derive(Debug, Copy, Clone, Eq, PartialEq, Structural)]
pub enum BackingWindowStore {
    NotUseful,
    WhenMapped,
    Always,
}

impl BackingWindowStore {
    /// The native value of this backing store mode.
    pub fn to_native(&self) -> (r: i32)
        ensures
            r == match *self {
                BackingWindowStore::NotUseful => 0int,
                BackingWindowStore::WhenMapped => 1int,
                BackingWindowStore::Always => 2int,
            },
    {
        match self {
            BackingWindowStore::NotUseful => 0,
            BackingWindowStore::WhenMapped => 1,
            BackingWindowStore::Always => 2,
        }
    }
}

// Bits of the value mask that says which window attributes are set.
pub const CW_BACK_PIXMAP: u64 = 0x0001;
pub const CW_BACK_PIXEL: u64 = 0x0002;
pub const CW_BORDER_PIXMAP: u64 = 0x0004;
pub const CW_BORDER_PIXEL: u64 = 0x0008;
pub const CW_BIT_GRAVITY: u64 = 0x0010;
pub const CW_WIN_GRAVITY: u64 = 0x0020;
pub const CW_BACKING_STORE: u64 = 0x0040;
pub const CW_BACKING_PLANES: u64 = 0x0080;
pub const CW_BACKING_PIXEL: u64 = 0x0100;
pub const CW_OVERRIDE_REDIRECT: u64 = 0x0200;
pub const CW_SAVE_UNDER: u64 = 0x0400;
pub const CW_EVENT_MASK: u64 = 0x0800;
pub const CW_DONT_PROPAGATE: u64 = 0x1000;
pub const CW_COLORMAP: u64 = 0x2000;
pub const CW_CURSOR: u64 = 0x4000;

/// A set of window attributes in which every attribute may be set or left
/// to its default; the value mask reports exactly which ones are set.
#[derive(Debug, Clone)]
pub struct SetWindowAttributes<'creation, 'a> {
    pub background_pixmap: Option<&'creation XPixmap<'a>>,
    pub background_pixel: Option<u64>,
    pub border_pixmap: Option<&'creation XPixmap<'a>>,
    pub border_pixel: Option<u64>,
    pub bit_gravity: Option<i32>,
    pub win_gravity: Option<i32>,
    pub backing_store: Option<BackingWindowStore>,
    pub backing_planes: Option<u64>,
    pub backing_pixels: Option<u64>,
    pub save_under: Option<bool>,
    pub event_mask: Option<WindowInputMask>,
    pub do_not_propagate_mask: Option<WindowInputMask>,
    pub override_redirect: Option<bool>,
    pub colormap: Option<&'creation XColormap<'a>>,
    pub cursor: Option<&'creation XCursor<'a>>,
}

impl<'creation, 'a> SetWindowAttributes<'creation, 'a> {
    /// Creates a new set of window attributes without any set.
    pub fn new() -> (r: Self)
        ensures
            r.spec_value_mask() == 0,
    {
        proof {
            assert(0u64 | 0u64 == 0u64) by (bit_vector);
        }
        SetWindowAttributes {
            background_pixmap: None,
            background_pixel: None,
            border_pixmap: None,
            border_pixel: None,
            bit_gravity: None,
            win_gravity: None,
            backing_store: None,
            backing_planes: None,
            backing_pixels: None,
            save_under: None,
            event_mask: None,
            do_not_propagate_mask: None,
            override_redirect: None,
            colormap: None,
            cursor: None,
        }
    }

    /// Sets the window background pixmap.
    pub fn background_pixmap(self, pixmap: &'creation XPixmap<'a>) -> (r: Self)
        ensures
            r == (SetWindowAttributes { background_pixmap: Some(pixmap), ..self }),
    {
        SetWindowAttributes { background_pixmap: Some(pixmap), ..self }
    }

    /// Sets the window background pixel.
    pub fn background_pixel(self, pixel: u64) -> (r: Self)
        ensures
            r == (SetWindowAttributes { background_pixel: Some(pixel), ..self }),
    {
        SetWindowAttributes { background_pixel: Some(pixel), ..self }
    }

    /// Sets the window border pixmap.
    pub fn border_pixmap(self, pixmap: &'creation XPixmap<'a>) -> (r: Self)
        ensures
            r == (SetWindowAttributes { border_pixmap: Some(pixmap), ..self }),
    {
        SetWindowAttributes { border_pixmap: Some(pixmap), ..self }
    }

    /// Sets the window border pixel.
    pub fn border_pixel(self, pixel: u64) -> (r: Self)
        ensures
            r == (SetWindowAttributes { border_pixel: Some(pixel), ..self }),
    {
        SetWindowAttributes { border_pixel: Some(pixel), ..self }
    }

    /// Sets the window bit gravity.
    pub fn bit_gravity(self, gravity: i32) -> (r: Self)
        ensures
            r == (SetWindowAttributes { bit_gravity: Some(gravity), ..self }),
    {
        SetWindowAttributes { bit_gravity: Some(gravity), ..self }
    }

    /// Sets the window gravity.
    pub fn window_gravity(self, gravity: i32) -> (r: Self)
        ensures
            r == (SetWindowAttributes { win_gravity: Some(gravity), ..self }),
    {
        SetWindowAttributes { win_gravity: Some(gravity), ..self }
    }

    /// Sets the window backing store.
    pub fn backing_store(self, backing_store: BackingWindowStore) -> (r: Self)
        ensures
            r == (SetWindowAttributes { backing_store: Some(backing_store), ..self }),
    {
        SetWindowAttributes { backing_store: Some(backing_store), ..self }
    }

    /// Sets the window backing planes.
    pub fn backing_planes(self, planes: u64) -> (r: Self)
        ensures
            r == (SetWindowAttributes { backing_planes: Some(planes), ..self }),
    {
        SetWindowAttributes { backing_planes: Some(planes), ..self }
    }

    /// Sets the window backing pixel.
    pub fn backing_pixels(self, pixels: u64) -> (r: Self)
        ensures
            r == (SetWindowAttributes { backing_pixels: Some(pixels), ..self }),
    {
        SetWindowAttributes { backing_pixels: Some(pixels), ..self }
    }

    /// Sets whether bits under should be saved.
    pub fn save_under(self, save: bool) -> (r: Self)
        ensures
            r == (SetWindowAttributes { save_under: Some(save), ..self }),
    {
        SetWindowAttributes { save_under: Some(save), ..self }
    }

    /// Sets the window event mask.
    pub fn event_mask(self, mask: WindowInputMask) -> (r: Self)
        ensures
            r == (SetWindowAttributes { event_mask: Some(mask), ..self }),
    {
        SetWindowAttributes { event_mask: Some(mask), ..self }
    }

    /// Sets the window do-not-propagate mask.
    pub fn do_not_propagate_mask(self, mask: WindowInputMask) -> (r: Self)
        ensures
            r == (SetWindowAttributes { do_not_propagate_mask: Some(mask), ..self }),
    {
        SetWindowAttributes { do_not_propagate_mask: Some(mask), ..self }
    }

    /// Sets whether override redirect is enabled for this window.
    pub fn override_redirect(self, override_redirect: bool) -> (r: Self)
        ensures
            r == (SetWindowAttributes { override_redirect: Some(override_redirect), ..self }),
    {
        SetWindowAttributes { override_redirect: Some(override_redirect), ..self }
    }

    /// Sets the window colormap.
    pub fn colormap(self, colormap: &'creation XColormap<'a>) -> (r: Self)
        ensures
            r == (SetWindowAttributes { colormap: Some(colormap), ..self }),
    {
        SetWindowAttributes { colormap: Some(colormap), ..self }
    }

    /// Sets the window cursor.
    pub fn cursor(self, cursor: &'creation XCursor<'a>) -> (r: Self)
        ensures
            r == (SetWindowAttributes { cursor: Some(cursor), ..self }),
    {
        SetWindowAttributes { cursor: Some(cursor), ..self }
    }

    /// The value mask these attributes marshal to: one bit for every
    /// attribute that is set.
    pub open spec fn spec_value_mask(&self) -> u64 {
        (if self.background_pixmap is Some { CW_BACK_PIXMAP } else { 0u64 })
            | (if self.background_pixel is Some { CW_BACK_PIXEL } else { 0u64 })
            | (if self.border_pixmap is Some { CW_BORDER_PIXMAP } else { 0u64 })
            | (if self.border_pixel is Some { CW_BORDER_PIXEL } else { 0u64 })
            | (if self.bit_gravity is Some { CW_BIT_GRAVITY } else { 0u64 })
            | (if self.win_gravity is Some { CW_WIN_GRAVITY } else { 0u64 })
            | (if self.backing_store is Some { CW_BACKING_STORE } else { 0u64 })
            | (if self.backing_planes is Some { CW_BACKING_PLANES } else { 0u64 })
            | (if self.backing_pixels is Some { CW_BACKING_PIXEL } else { 0u64 })
            | (if self.override_redirect is Some { CW_OVERRIDE_REDIRECT } else { 0u64 })
            | (if self.save_under is Some { CW_SAVE_UNDER } else { 0u64 })
            | (if self.event_mask is Some { CW_EVENT_MASK } else { 0u64 })
            | (if self.do_not_propagate_mask is Some { CW_DONT_PROPAGATE } else { 0u64 })
            | (if self.colormap is Some { CW_COLORMAP } else { 0u64 })
            | (if self.cursor is Some { CW_CURSOR } else { 0u64 })
    }

    /// Computes the value mask that marshalling these attributes hands the
    /// server: one bit for every attribute that is set.
    pub fn value_mask(&self) -> (r: u64)
        ensures
            r == self.spec_value_mask(),
    {
        (if self.background_pixmap.is_some() { CW_BACK_PIXMAP } else { 0u64 })
            | (if self.background_pixel.is_some() { CW_BACK_PIXEL } else { 0u64 })
            | (if self.border_pixmap.is_some() { CW_BORDER_PIXMAP } else { 0u64 })
            | (if self.border_pixel.is_some() { CW_BORDER_PIXEL } else { 0u64 })
            | (if self.bit_gravity.is_some() { CW_BIT_GRAVITY } else { 0u64 })
            | (if self.win_gravity.is_some() { CW_WIN_GRAVITY } else { 0u64 })
            | (if self.backing_store.is_some() { CW_BACKING_STORE } else { 0u64 })
            | (if self.backing_planes.is_some() { CW_BACKING_PLANES } else { 0u64 })
            | (if self.backing_pixels.is_some() { CW_BACKING_PIXEL } else { 0u64 })
            | (if self.override_redirect.is_some() { CW_OVERRIDE_REDIRECT } else { 0u64 })
            | (if self.save_under.is_some() { CW_SAVE_UNDER } else { 0u64 })
            | (if self.event_mask.is_some() { CW_EVENT_MASK } else { 0u64 })
            | (if self.do_not_propagate_mask.is_some() { CW_DONT_PROPAGATE } else { 0u64 })
            | (if self.colormap.is_some() { CW_COLORMAP } else { 0u64 })
            | (if self.cursor.is_some() { CW_CURSOR } else { 0u64 })
    }
}

/// Describes how a window handle is owned
#[derive(Debug, Copy, Clone, Eq, PartialEq, Structural)]
pub enum WindowHandleOwnership {
    /// The window handle is not owned at all
    Foreign,
    /// The window is our own handle
    Owned,
    /// The window handle is owned by us, but is the composite window
    OwnedCompositeOverlay,
}

/// Represents a window on the X server.
#[derive(Debug)]
pub struct XWindow<'a> {
    pub handle: u64,
    pub display: &'a XDisplay,
    pub ownership: WindowHandleOwnership,
}

impl<'a> XWindow<'a> {
    /// Wraps an existing native X11 window handle.  Depending on the
    /// ownership, tearing the wrapper down may or may not destroy the
    /// window.
    pub fn new(handle: u64, display: &'a XDisplay, ownership: WindowHandleOwnership) -> (r: Self)
        ensures
            r.handle == handle,
            r.display == display,
            r.ownership == ownership,
    {
        XWindow { handle, display, ownership }
    }

    /// Whether the handle is merely borrowed from the server.
    pub open spec fn is_foreign(&self) -> bool {
        self.ownership == WindowHandleOwnership::Foreign
    }

    /// Retrieves the underlying native X11 window handle.
    pub fn handle(&self) -> (r: u64)
        ensures
            r == self.handle,
    {
        self.handle
    }

    /// Whether tearing the handle down must release the window on the
    /// server: exactly when the handle is owned in some way, never when it
    /// is foreign.
    pub fn needs_release(&self) -> (r: bool)
        ensures
            r == (self.ownership != WindowHandleOwnership::Foreign),
    {
        self.ownership != WindowHandleOwnership::Foreign
    }

    /// Clones this window into a foreign window handle.
    pub fn foreign_clone(&self) -> (r: XWindow<'a>)
        ensures
            r.handle == self.handle,
            r.display == self.display,
            r.is_foreign(),
    {
        XWindow { handle: self.handle, display: self.display, ownership: WindowHandleOwnership::Foreign }
    }
}

impl<'a> XDrawable<'a> for XWindow<'a> {
    fn drawable_handle(&self) -> u64 {
        self.handle
    }

    fn display(&self) -> &'a XDisplay {
        self.display
    }
}

/// The tree around an X11 window.
#[derive(Debug)]
pub struct XWindowTreeInfo<'a> {
    root: XWindow<'a>,
    parent: XWindow<'a>,
    children: Vec<XWindow<'a>>,
}

impl<'a> XWindowTreeInfo<'a> {
    /// Collects information about the tree around an X11 window.
    pub fn new(root: XWindow<'a>, parent: XWindow<'a>, children: Vec<XWindow<'a>>) -> (r: Self)
        ensures
            r.spec_root() == root,
            r.spec_parent() == parent,
            r.spec_children() == children@,
    {
        XWindowTreeInfo { root, parent, children }
    }

    /// The root window.
    pub closed spec fn spec_root(&self) -> XWindow<'a> {
        self.root
    }

    /// The parent window.
    pub closed spec fn spec_parent(&self) -> XWindow<'a> {
        self.parent
    }

    /// The child windows.
    pub closed spec fn spec_children(&self) -> Seq<XWindow<'a>> {
        self.children@
    }

    /// Retrieves the root window
    pub fn root(&self) -> (r: &XWindow<'a>)
        ensures
            *r == self.spec_root(),
    {
        &self.root
    }

    /// Retrieves the parent
    pub fn parent(&self) -> (r: &XWindow<'a>)
        ensures
            *r == self.spec_parent(),
    {
        &self.parent
    }

    /// Retrieves the child windows
    pub fn children(&self) -> (r: &Vec<XWindow<'a>>)
        ensures
            r@ == self.spec_children(),
    {
        &self.children
    }

    /// Discards all information except the root window
    pub fn into_root(self) -> (r: XWindow<'a>)
        ensures
            r == self.spec_root(),
    {
        self.root
    }

    /// Discards all information except the parent window
    pub fn into_parent(self) -> (r: XWindow<'a>)
        ensures
            r == self.spec_parent(),
    {
        self.parent
    }

    /// Discards all information except the child windows
    pub fn into_children(self) -> (r: Vec<XWindow<'a>>)
        ensures
            r@ == self.spec_children(),
    {
        self.children
    }

    /// Splits the information bundle apart into root, parent and child
    /// windows.
    pub fn split(self) -> (r: (XWindow<'a>, XWindow<'a>, Vec<XWindow<'a>>))
        ensures
            r.0 == self.spec_root(),
            r.1 == self.spec_parent(),
            r.2@ == self.spec_children(),
    {
        (self.root, self.parent, self.children)
    }
}

/// Properties of a window: the screen and visual it was created with.
#[derive(Debug)]
pub struct XWindowAttributes<'a> {
    pub screen: XScreen<'a>,
    pub visual: XVisual<'a>,
}

impl<'a> XWindowAttributes<'a> {
    /// Wraps the reported window properties.
    pub fn new(screen: XScreen<'a>, visual: XVisual<'a>) -> (r: Self)
        ensures
            r.screen == screen,
            r.visual == visual,
    {
        XWindowAttributes { screen, visual }
    }

    /// Retrieves the screen of the window these attributes describe.
    pub fn screen(&self) -> (r: &XScreen<'a>)
        ensures
            *r == self.screen,
    {
        &self.screen
    }

    /// Retrieves the visual of the window these attributes describe.
    pub fn visual(&self) -> (r: &XVisual<'a>)
        ensures
            *r == self.visual,
    {
        &self.visual
    }
}

} // verus!
