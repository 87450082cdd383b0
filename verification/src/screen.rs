//! Screens and monitor information.

use crate::atom::XAtom;
use crate::display::XDisplay;
use vstd::prelude::*;

verus! {

/// Information about one monitor connected to a screen.
#[derive(Debug)]
pub struct XRandRMonitorInfo<'a> {
    /// The atom naming the connection of the monitor.
    pub connection_name: XAtom<'a>,
    /// The physical name of the monitor, when its identification block
    /// reported one.
    pub monitor_name: Option<String>,
    /// The serial of the monitor, when its identification block reported
    /// one.
    pub monitor_serial: Option<u32>,
    /// Whether this monitor is the primary monitor.
    pub primary: bool,
    /// Whether this monitor is currently in automatic configuration mode.
    pub automatic: bool,
    /// The number of physical connections behind this virtual monitor.
    pub output_count: i32,
    /// The x coordinate at which the monitor starts.
    pub x: i32,
    /// The y coordinate at which the monitor starts.
    pub y: i32,
    /// The width of the monitor in pixels.
    pub width: i32,
    /// The height of the monitor in pixels.
    pub height: i32,
    /// The physical width of the monitor.
    pub physical_width: i32,
    /// The physical height of the monitor.
    pub physical_height: i32,
}

/// A screen handle.  Usually one X11 display has exactly one screen that
/// spans all monitors.
#[derive(Debug)]
pub struct XScreen<'a> {
    pub handle: u64,
    pub display: &'a XDisplay,
}

impl<'a> XScreen<'a> {
    /// Wraps a native screen handle.
    pub fn new(handle: u64, display: &'a XDisplay) -> (r: Self)
        ensures
            r.handle == handle,
            r.display == display,
    {
        XScreen { handle, display }
    }

    /// Retrieves the display this screen belongs to.
    pub fn display(&self) -> (r: &'a XDisplay)
        ensures
            r == self.display,
    {
        self.display
    }

    /// Retrieves the underlying native screen handle.
    pub fn handle(&self) -> (r: u64)
        ensures
            r == self.handle,
    {
        self.handle
    }
}

} // verus!
