//! Colormap handles.

use crate::display::XDisplay;
use vstd::prelude::*;

verus! {

/// How the entries of a newly created colormap are allocated.
#[derive(Debug, Copy, Clone, Eq, PartialEq, Structural)]
pub enum ColormapAllocation {
    /// No entries are allocated initially
    AllocNone,
    /// All entries are allocated initially
    AllocAll,
}

impl ColormapAllocation {
    /// The native value of this allocation mode.
    pub fn to_native(&self) -> (r: i32)
        ensures
            r == match *self {
                ColormapAllocation::AllocNone => 0int,
                ColormapAllocation::AllocAll => 1int,
            },
    {
        match self {
            ColormapAllocation::AllocNone => 0,
            ColormapAllocation::AllocAll => 1,
        }
    }
}

/// Whether a colormap is installed on the X server.
#[derive(Debug, Copy, Clone, Eq, PartialEq, Structural)]
pub enum ColormapState {
    /// The colormap is installed on the X server
    Installed,
    /// The colormap is not installed on the X server
    Uninstalled,
}

impl ColormapState {
    /// Wraps an existing X11 colormap state; the native encoding defines
    /// exactly the values 0 (uninstalled) and 1 (installed).
    pub fn new(state: i32) -> (r: Self)
        requires
            state == 0 || state == 1,
        ensures
            state == 1 ==> r == ColormapState::Installed,
            state == 0 ==> r == ColormapState::Uninstalled,
    {
        if state == 1 {
            ColormapState::Installed
        } else {
            ColormapState::Uninstalled
        }
    }
}

/// Describes how a colormap handle is owned
#[derive(Debug, Copy, Clone, Eq, PartialEq, Structural)]
pub enum ColormapHandleOwnership {
    /// The colormap handle is not owned at all
    Foreign,
    /// The colormap is our own handle
    Owned,
}

/// A colormap handle: the native identifier, the display it belongs to and
/// the ownership decided once at construction.
#[derive(Debug)]
pub struct XColormap<'a> {
    pub handle: u64,
    pub display: &'a XDisplay,
    pub ownership: ColormapHandleOwnership,
}

impl<'a> XColormap<'a> {
    /// Wraps an existing X11 colormap handle.  Construction never validates
    /// the handle; an invalid handle surfaces on later operations, not here.
    pub fn new(handle: u64, display: &'a XDisplay, ownership: ColormapHandleOwnership) -> (r: Self)
        ensures
            r.handle == handle,
            r.display == display,
            r.ownership == ownership,
    {
        XColormap { handle, display, ownership }
    }

    /// Retrieves the underlying native X11 colormap handle.
    pub fn handle(&self) -> (r: u64)
        ensures
            r == self.handle,
    {
        self.handle
    }

    /// Whether tearing the handle down must release the colormap on the
    /// server: exactly when the handle is owned, never when it is foreign.
    pub fn needs_release(&self) -> (r: bool)
        ensures
            r == (self.ownership != ColormapHandleOwnership::Foreign),
    {
        self.ownership != ColormapHandleOwnership::Foreign
    }
}

} // verus!
