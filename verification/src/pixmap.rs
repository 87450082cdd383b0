//! Pixmap handles.

use crate::display::XDisplay;
use crate::drawable::XDrawable;
use vstd::prelude::*;

verus! {

/// Describes how a pixmap handle is owned.
#[derive(Debug, Copy, Clone, Eq, PartialEq, Structural)]
pub enum PixmapHandleOwnership {
    /// The pixmap handle is not owned at all
    Foreign,
    /// The pixmap is our own handle
    Owned,
}

/// A pixmap handle: the native identifier, the display it belongs to and
/// the ownership decided once at construction.
#[derive(Debug)]
pub struct XPixmap<'a> {
    pub handle: u64,
    pub display: &'a XDisplay,
    pub ownership: PixmapHandleOwnership,
}

impl<'a> XPixmap<'a> {
    /// Wraps an existing X11 pixmap handle.
    pub fn new(handle: u64, display: &'a XDisplay, ownership: PixmapHandleOwnership) -> (r: Self)
        ensures
            r.handle == handle,
            r.display == display,
            r.ownership == ownership,
    {
        XPixmap { handle, display, ownership }
    }

    /// Retrieves the underlying native X11 pixmap handle.
    pub fn handle(&self) -> (r: u64)
        ensures
            r == self.handle,
    {
        self.handle
    }

    /// Whether tearing the handle down must free the pixmap on the server:
    /// exactly when the handle is owned, never when it is foreign.
    pub fn needs_release(&self) -> (r: bool)
        ensures
            r == (self.ownership != PixmapHandleOwnership::Foreign),
    {
        self.ownership != PixmapHandleOwnership::Foreign
    }
}

impl<'a> XDrawable<'a> for XPixmap<'a> {
    fn drawable_handle(&self) -> u64 {
        self.handle
    }

    fn display(&self) -> &'a XDisplay {
        self.display
    }
}

} // verus!
