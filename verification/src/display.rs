//! The connection model.
//!
//! A display stands for one live connection to the X server.  The library
//! keeps, as plain values, exactly what the verified logic reads: the native
//! handle (as a number), how the handle is owned, and the two extension
//! identifiers negotiated once at connect time — the event-code base of the
//! cursor-tracking extension and the opcode under which the input extension
//! delivers generic events.  Opening, closing and every call that talks to
//! the server live outside the library and hand values in and out of this
//! model.

use vstd::prelude::*;

verus! {

/// How the event queue is inspected when counting queued events.
#[derive(Debug, Copy, Clone, Eq, PartialEq, Structural)]
pub enum QueuedMode {
    Already,
    AfterReading,
    AfterFlush,
}

impl QueuedMode {
    /// The native value of this mode.
    pub fn to_native(&self) -> (r: i32)
        ensures
            r == match *self {
                QueuedMode::Already => 0int,
                QueuedMode::AfterReading => 1int,
                QueuedMode::AfterFlush => 2int,
            },
    {
        match self {
            QueuedMode::Already => 0,
            QueuedMode::AfterReading => 1,
            QueuedMode::AfterFlush => 2,
        }
    }
}

/// Describes how a display handle is owned.
#[derive(Debug, Eq, PartialEq, Structural)]
pub enum DisplayOwnership {
    /// The display handle is our own handle
    Owned,
    /// The display handle is owned by something else
    Foreign,
}

/// The heart of an X11 connection: one live handle to the server link,
/// together with the two pieces of per-connection state negotiated at
/// connect time.
#[derive(Debug)]
pub struct XDisplay {
    handle: u64,
    ownership: DisplayOwnership,
    xfixes_event_base: i32,
    xinput2_opcode: i32,
}

impl XDisplay {
    /// Wraps a native display handle together with the extension state
    /// queried at connect time.
    pub fn new(
        handle: u64,
        ownership: DisplayOwnership,
        xfixes_event_base: i32,
        xinput2_opcode: i32,
    ) -> (r: Self)
        ensures
            r.spec_handle() == handle,
            r.spec_ownership() == ownership,
            r.spec_xfixes_event_base() == xfixes_event_base,
            r.spec_xinput2_opcode() == xinput2_opcode,
    {
        XDisplay { handle, ownership, xfixes_event_base, xinput2_opcode }
    }

    /// The native handle, as a number.
    pub closed spec fn spec_handle(&self) -> u64 {
        self.handle
    }

    /// How the handle is owned.
    pub closed spec fn spec_ownership(&self) -> DisplayOwnership {
        self.ownership
    }

    /// The cached event-code base of the cursor-tracking extension.
    pub closed spec fn spec_xfixes_event_base(&self) -> i32 {
        self.xfixes_event_base
    }

    /// The cached opcode of the input extension.
    pub closed spec fn spec_xinput2_opcode(&self) -> i32 {
        self.xinput2_opcode
    }

    /// Retrieves the underlying native platform handle.
    pub fn handle(&self) -> (r: u64)
        ensures
            r == self.spec_handle(),
    {
        self.handle
    }

    /// Whether tearing the wrapper down must close the underlying
    /// connection: exactly when the handle is our own.
    pub fn needs_close(&self) -> (r: bool)
        ensures
            r == (self.spec_ownership() == DisplayOwnership::Owned),
    {
        matches!(self.ownership, DisplayOwnership::Owned)
    }

    /// Retrieves the event base id for xfixes events.
    pub fn xfixes_event_base(&self) -> (r: i32)
        ensures
            r == self.spec_xfixes_event_base(),
    {
        self.xfixes_event_base
    }

    /// Retrieves the opcode for the xinput2 extension.
    pub fn xinput2_opcode(&self) -> (r: i32)
        ensures
            r == self.spec_xinput2_opcode(),
    {
        self.xinput2_opcode
    }
}

} // verus!
