//! Server-side regions.

use crate::display::XDisplay;
use vstd::prelude::*;

verus! {

/// A rectangle in screen coordinates.
#[derive(Debug, Copy, Clone, Eq, PartialEq, Hash, Structural)]
pub struct XRectangle {
    pub x: i16,
    pub y: i16,
    pub width: u16,
    pub height: u16,
}

/// A server-side region handle.  Regions wrapped here are always owned, so
/// tearing one down must destroy the region on the server.
#[derive(Debug)]
pub struct XServerRegion<'a> {
    pub handle: u64,
    pub display: &'a XDisplay,
}

impl<'a> XServerRegion<'a> {
    /// Wraps an existing native region handle.
    pub fn new(handle: u64, display: &'a XDisplay) -> (r: Self)
        ensures
            r.handle == handle,
            r.display == display,
    {
        XServerRegion { handle, display }
    }

    /// Retrieves the underlying native region handle.
    pub fn handle(&self) -> (r: u64)
        ensures
            r == self.handle,
    {
        self.handle
    }
}

} // verus!
