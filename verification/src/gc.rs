//! Graphics contexts.

use crate::display::XDisplay;
use crate::drawable::XDrawable;
use vstd::prelude::*;

verus! {

/// A graphics context bound to a drawable.  Contexts wrapped here are
/// always owned and must be freed on teardown.
#[derive(Debug)]
pub struct XGC<'a, T> where T: XDrawable<'a> {
    pub handle: u64,
    pub drawable: &'a T,
    pub display: &'a XDisplay,
}

impl<'a, T> XGC<'a, T> where T: XDrawable<'a> {
    /// Wraps an existing native graphics context.
    pub fn new(handle: u64, drawable: &'a T, display: &'a XDisplay) -> (r: Self)
        ensures
            r.handle == handle,
            r.drawable == drawable,
            r.display == display,
    {
        XGC { handle, drawable, display }
    }

    /// Retrieves the underlying native graphics context handle.
    pub fn handle(&self) -> (r: u64)
        ensures
            r == self.handle,
    {
        self.handle
    }
}

} // verus!
