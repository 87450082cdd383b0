//! Surfaces that drawing operations can target.

use crate::display::XDisplay;
use vstd::prelude::*;

verus! {

/// Implemented by handle types the server accepts as drawing targets.
pub trait XDrawable<'a> {
    /// The native identifier of the drawable.
    fn drawable_handle(&self) -> u64;

    /// The display the drawable belongs to.
    fn display(&self) -> &'a XDisplay;
}

} // verus!
