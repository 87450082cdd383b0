//! Input device identifiers.

use crate::display::XDisplay;
use vstd::prelude::*;

verus! {

/// The sentinel identifier selecting all input devices.
pub const XI_ALL_DEVICES: i32 = 0;

/// The sentinel identifier selecting all master input devices.
pub const XI_ALL_MASTER_DEVICES: i32 = 1;

/// A lightweight identifier-based handle to an input source.  Devices are
/// value types: they own nothing and releasing one does nothing.
#[derive(Debug, Clone)]
pub struct XInputDevice<'a> {
    pub display: &'a XDisplay,
    pub id: i32,
}

impl<'a> XInputDevice<'a> {
    /// Wraps an existing input device identifier; identifiers are trusted
    /// at construction and never validated.
    pub fn from_id(id: i32, display: &'a XDisplay) -> (r: Self)
        ensures
            r.id == id,
            r.display == display,
    {
        XInputDevice { id, display }
    }

    /// The device that stands for all devices.
    pub fn all(display: &'a XDisplay) -> (r: Self)
        ensures
            r.id == XI_ALL_DEVICES,
            r.display == display,
    {
        XInputDevice { id: XI_ALL_DEVICES, display }
    }

    /// The device that stands for all master devices.
    pub fn all_master(display: &'a XDisplay) -> (r: Self)
        ensures
            r.id == XI_ALL_MASTER_DEVICES,
            r.display == display,
    {
        XInputDevice { id: XI_ALL_MASTER_DEVICES, display }
    }

    /// Retrieves the id of the device.
    pub fn id(&self) -> (r: i32)
        ensures
            r == self.id,
    {
        self.id
    }
}

} // verus!
