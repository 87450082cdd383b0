//! Bit-mask value types.
//!
//! The protocol describes modifier state, event selection and extension
//! flags as bit masks.  Each mask type wraps the raw bits; the flag values
//! are the protocol's own constants.

use vstd::prelude::*;

verus! {

// Modifier and button state bits.
pub const SHIFT_MASK: u32 = 0x0000_0001;
pub const LOCK_MASK: u32 = 0x0000_0002;
pub const CONTROL_MASK: u32 = 0x0000_0004;
pub const MOD_1_MASK: u32 = 0x0000_0008;
pub const MOD_2_MASK: u32 = 0x0000_0010;
pub const MOD_3_MASK: u32 = 0x0000_0020;
pub const MOD_4_MASK: u32 = 0x0000_0040;
pub const MOD_5_MASK: u32 = 0x0000_0080;
pub const BUTTON_1_MASK: u32 = 0x0000_0100;
pub const BUTTON_2_MASK: u32 = 0x0000_0200;
pub const BUTTON_3_MASK: u32 = 0x0000_0400;
pub const BUTTON_4_MASK: u32 = 0x0000_0800;
pub const BUTTON_5_MASK: u32 = 0x0000_1000;

/// The modifier and button state carried by core input events.
#[derive(Debug, Copy, Clone, Eq, PartialEq, Hash, Structural)]
pub struct InputModifierMask {
    pub bits: u32,
}

impl InputModifierMask {
    /// Wraps raw state bits, keeping every bit as it is.
    pub fn from_bits_retain(bits: u32) -> (r: Self)
        ensures
            r.bits == bits,
    {
        InputModifierMask { bits }
    }

    /// The raw state bits.
    pub fn bits(&self) -> (r: u32)
        ensures
            r == self.bits,
    {
        self.bits
    }

    /// Whether every bit of `other` is set in this mask.
    pub fn contains(&self, other: Self) -> (r: bool)
        ensures
            r == (self.bits & other.bits == other.bits),
    {
        self.bits & other.bits == other.bits
    }

    /// The mask with no bit set.
    pub fn empty() -> (r: Self)
        ensures
            r.bits == 0,
    {
        InputModifierMask { bits: 0 }
    }
}

// Core event selection bits.
pub const NO_EVENT_MASK: i64 = 0;
pub const KEY_PRESS_MASK: i64 = 0x0000_0001;
pub const KEY_RELEASE_MASK: i64 = 0x0000_0002;
pub const BUTTON_PRESS_MASK: i64 = 0x0000_0004;
pub const BUTTON_RELEASE_MASK: i64 = 0x0000_0008;
pub const ENTER_WINDOW_MASK: i64 = 0x0000_0010;
pub const LEAVE_WINDOW_MASK: i64 = 0x0000_0020;
pub const POINTER_MOTION_MASK: i64 = 0x0000_0040;
pub const POINTER_MOTION_HINT_MASK: i64 = 0x0000_0080;
pub const BUTTON_1_MOTION_MASK: i64 = 0x0000_0100;
pub const BUTTON_2_MOTION_MASK: i64 = 0x0000_0200;
pub const BUTTON_3_MOTION_MASK: i64 = 0x0000_0400;
pub const BUTTON_4_MOTION_MASK: i64 = 0x0000_0800;
pub const BUTTON_5_MOTION_MASK: i64 = 0x0000_1000;
pub const BUTTON_MOTION_MASK: i64 = 0x0000_2000;
pub const KEYMAP_STATE_MASK: i64 = 0x0000_4000;
pub const EXPOSURE_MASK: i64 = 0x0000_8000;
pub const VISIBILITY_CHANGE_MASK: i64 = 0x0001_0000;
pub const STRUCTURE_NOTIFY_MASK: i64 = 0x0002_0000;
pub const RESIZE_REDIRECT_MASK: i64 = 0x0004_0000;
pub const SUBSTRUCTURE_NOTIFY_MASK: i64 = 0x0008_0000;
pub const SUBSTRUCTURE_REDIRECT_MASK: i64 = 0x0010_0000;
pub const FOCUS_CHANGE_MASK: i64 = 0x0020_0000;
pub const PROPERTY_CHANGE_MASK: i64 = 0x0040_0000;
pub const COLORMAP_CHANGE_MASK: i64 = 0x0080_0000;
pub const OWNER_GRAB_BUTTON_MASK: i64 = 0x0100_0000;

/// Determines which events are sent to the X11 client.
#[derive(Debug, Copy, Clone, Eq, PartialEq, Hash, Structural)]
pub struct WindowInputMask {
    pub bits: i64,
}

impl WindowInputMask {
    /// Wraps raw selection bits, keeping every bit as it is.
    pub fn from_bits_retain(bits: i64) -> (r: Self)
        ensures
            r.bits == bits,
    {
        WindowInputMask { bits }
    }

    /// The raw selection bits.
    pub fn bits(&self) -> (r: i64)
        ensures
            r == self.bits,
    {
        self.bits
    }

    /// The union of this mask and `other`.
    pub fn union(&self, other: Self) -> (r: Self)
        ensures
            r.bits == (self.bits | other.bits),
    {
        WindowInputMask { bits: self.bits | other.bits }
    }

    /// The mask with no bit set.
    pub fn empty() -> (r: Self)
        ensures
            r.bits == 0,
    {
        WindowInputMask { bits: 0 }
    }
}

// Cursor event selection bits.
pub const CURSOR_NOTIFY_MASK: i64 = 0x0000_0001;

/// Determines which cursor events are sent to the X11 client.
#[derive(Debug, Copy, Clone, Eq, PartialEq, Hash, Structural)]
pub struct CursorInputMask {
    pub bits: i64,
}

impl CursorInputMask {
    /// Wraps raw selection bits, keeping every bit as it is.
    pub fn from_bits_retain(bits: i64) -> (r: Self)
        ensures
            r.bits == bits,
    {
        CursorInputMask { bits }
    }

    /// The raw selection bits.
    pub fn bits(&self) -> (r: i64)
        ensures
            r == self.bits,
    {
        self.bits
    }
}

// Input-extension event selection bits, one per sub-type code.
pub const XI_DEVICE_CHANGED_MASK: i32 = 0x0000_0002;
pub const XI_KEY_PRESS_MASK: i32 = 0x0000_0004;
pub const XI_KEY_RELEASE_MASK: i32 = 0x0000_0008;
pub const XI_BUTTON_PRESS_MASK: i32 = 0x0000_0010;
pub const XI_BUTTON_RELEASE_MASK: i32 = 0x0000_0020;
pub const XI_MOTION_MASK: i32 = 0x0000_0040;
pub const XI_ENTER_MASK: i32 = 0x0000_0080;
pub const XI_LEAVE_MASK: i32 = 0x0000_0100;
pub const XI_FOCUS_IN_MASK: i32 = 0x0000_0200;
pub const XI_FOCUS_OUT_MASK: i32 = 0x0000_0400;
pub const XI_HIERARCHY_CHANGED_MASK: i32 = 0x0000_0800;
pub const XI_PROPERTY_EVENT_MASK: i32 = 0x0000_1000;
pub const XI_RAW_KEY_PRESS_MASK: i32 = 0x0000_2000;
pub const XI_RAW_KEY_RELEASE_MASK: i32 = 0x0000_4000;
pub const XI_RAW_BUTTON_PRESS_MASK: i32 = 0x0000_8000;
pub const XI_RAW_BUTTON_RELEASE_MASK: i32 = 0x0001_0000;
pub const XI_RAW_MOTION_MASK: i32 = 0x0002_0000;
pub const XI_TOUCH_BEGIN_MASK: i32 = 0x0004_0000;
pub const XI_TOUCH_UPDATE_MASK: i32 = 0x0008_0000;
pub const XI_TOUCH_END_MASK: i32 = 0x0010_0000;
pub const XI_TOUCH_OWNERSHIP_CHANGED_MASK: i32 = 0x0020_0000;
pub const XI_RAW_TOUCH_BEGIN_MASK: i32 = 0x0040_0000;
pub const XI_RAW_TOUCH_UPDATE_MASK: i32 = 0x0080_0000;
pub const XI_RAW_TOUCH_END_MASK: i32 = 0x0100_0000;
pub const XI_BARRIER_HIT_MASK: i32 = 0x0200_0000;
pub const XI_BARRIER_LEAVE_MASK: i32 = 0x0400_0000;

/// Determines which input-extension events are sent to the X11 client.
#[derive(Debug, Copy, Clone, Eq, PartialEq, Hash, Structural)]
pub struct XInputEventMask {
    pub bits: i32,
}

impl XInputEventMask {
    /// Wraps raw selection bits, keeping every bit as it is.
    pub fn from_bits_retain(bits: i32) -> (r: Self)
        ensures
            r.bits == bits,
    {
        XInputEventMask { bits }
    }

    /// The raw selection bits.
    pub fn bits(&self) -> (r: i32)
        ensures
            r == self.bits,
    {
        self.bits
    }

    /// The union of this mask and `other`.
    pub fn union(&self, other: Self) -> (r: Self)
        ensures
            r.bits == (self.bits | other.bits),
    {
        XInputEventMask { bits: self.bits | other.bits }
    }
}

// Input-extension hierarchy change bits.
pub const XI_MASTER_ADDED: i32 = 0x01;
pub const XI_MASTER_REMOVED: i32 = 0x02;
pub const XI_SLAVE_ADDED: i32 = 0x04;
pub const XI_SLAVE_REMOVED: i32 = 0x08;
pub const XI_SLAVE_ATTACHED: i32 = 0x10;
pub const XI_SLAVE_DETACHED: i32 = 0x20;
pub const XI_DEVICE_ENABLED: i32 = 0x40;
pub const XI_DEVICE_DISABLED: i32 = 0x80;

/// The hierarchy-change flags of an input-extension hierarchy event.
#[derive(Debug, Copy, Clone, Eq, PartialEq, Hash, Structural)]
pub struct XIHierarchyChangeFlags {
    pub bits: i32,
}

impl XIHierarchyChangeFlags {
    /// Wraps raw flag bits, keeping every bit as it is.
    pub fn from_bits_retain(bits: i32) -> (r: Self)
        ensures
            r.bits == bits,
    {
        XIHierarchyChangeFlags { bits }
    }

    /// The raw flag bits.
    pub fn bits(&self) -> (r: i32)
        ensures
            r == self.bits,
    {
        self.bits
    }

    /// Whether every bit of `other` is set in this mask.
    pub fn contains(&self, other: Self) -> (r: bool)
        ensures
            r == (self.bits & other.bits == other.bits),
    {
        self.bits & other.bits == other.bits
    }
}

// Input-extension device event flag bits.
pub const XI_KEY_REPEAT: i32 = 0x0001_0000;
pub const XI_POINTER_EMULATED: i32 = 0x0001_0000;
pub const XI_TOUCH_PENDING_END: i32 = 0x0001_0000;
pub const XI_TOUCH_EMULATING_POINTER: i32 = 0x0002_0000;

/// The flags of an input-extension device event.
#[derive(Debug, Copy, Clone, Eq, PartialEq, Hash, Structural)]
pub struct XIDeviceEventFlags {
    pub bits: i32,
}

impl XIDeviceEventFlags {
    /// Wraps raw flag bits, keeping every bit as it is.
    pub fn from_bits_retain(bits: i32) -> (r: Self)
        ensures
            r.bits == bits,
    {
        XIDeviceEventFlags { bits }
    }

    /// The raw flag bits.
    pub fn bits(&self) -> (r: i32)
        ensures
            r == self.bits,
    {
        self.bits
    }

    /// Whether every bit of `other` is set in this mask.
    pub fn contains(&self, other: Self) -> (r: bool)
        ensures
            r == (self.bits & other.bits == other.bits),
    {
        self.bits & other.bits == other.bits
    }
}

// Input-extension scroll class flag bits.
pub const XI_SCROLL_FLAG_NO_EMULATION: i32 = 0x01;
pub const XI_SCROLL_FLAG_PREFERRED: i32 = 0x02;

/// The flags of an input-extension scroll class.
#[derive(Debug, Copy, Clone, Eq, PartialEq, Hash, Structural)]
pub struct XIScrollFlags {
    pub bits: i32,
}

impl XIScrollFlags {
    /// Wraps raw flag bits, keeping every bit as it is.
    pub fn from_bits_retain(bits: i32) -> (r: Self)
        ensures
            r.bits == bits,
    {
        XIScrollFlags { bits }
    }

    /// The raw flag bits.
    pub fn bits(&self) -> (r: i32)
        ensures
            r == self.bits,
    {
        self.bits
    }
}

/// The flags of an input-extension touch ownership event; the protocol
/// defines no flag bits for it yet.
#[derive(Debug, Copy, Clone, Eq, PartialEq, Hash, Structural)]
pub struct XITouchOwnershipEventFlags {
    pub bits: i32,
}

impl XITouchOwnershipEventFlags {
    /// Wraps raw flag bits, keeping every bit as it is.
    pub fn from_bits_retain(bits: i32) -> (r: Self)
        ensures
            r.bits == bits,
    {
        XITouchOwnershipEventFlags { bits }
    }

    /// The raw flag bits.
    pub fn bits(&self) -> (r: i32)
        ensures
            r == self.bits,
    {
        self.bits
    }
}

// Input-extension barrier event flag bits.
pub const XI_BARRIER_POINTER_RELEASED: i32 = 0x01;
pub const XI_BARRIER_DEVICE_IS_GRABBED: i32 = 0x02;

/// The flags of an input-extension barrier event.
#[derive(Debug, Copy, Clone, Eq, PartialEq, Hash, Structural)]
pub struct XIBarrierEventFlags {
    pub bits: i32,
}

impl XIBarrierEventFlags {
    /// Wraps raw flag bits, keeping every bit as it is.
    pub fn from_bits_retain(bits: i32) -> (r: Self)
        ensures
            r.bits == bits,
    {
        XIBarrierEventFlags { bits }
    }

    /// The raw flag bits.
    pub fn bits(&self) -> (r: i32)
        ensures
            r == self.bits,
    {
        self.bits
    }

    /// Whether every bit of `other` is set in this mask.
    pub fn contains(&self, other: Self) -> (r: bool)
        ensures
            r == (self.bits & other.bits == other.bits),
    {
        self.bits & other.bits == other.bits
    }
}

} // verus!
