//! Cursor handles.

use crate::display::XDisplay;
use vstd::prelude::*;

verus! {

/// A cursor handle paired with the display it belongs to.  Cursors wrapped
/// here are never owned, so tearing one down releases nothing.
#[derive(Debug)]
pub struct XCursor<'a> {
    pub handle: u64,
    pub display: &'a XDisplay,
}

impl<'a> XCursor<'a> {
    /// Wraps an existing X11 cursor.
    pub fn new(handle: u64, display: &'a XDisplay) -> (r: Self)
        ensures
            r.handle == handle,
            r.display == display,
    {
        XCursor { handle, display }
    }

    /// Retrieves the underlying native X11 cursor handle.
    pub fn handle(&self) -> (r: u64)
        ensures
            r == self.handle,
    {
        self.handle
    }
}

} // verus!
