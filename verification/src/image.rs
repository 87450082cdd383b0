//! Client-side image buffers.

use crate::display::XDisplay;
use vstd::prelude::*;

verus! {

/// The pixel padding of an image's scan lines.
#[derive(Debug, Copy, Clone, Eq, PartialEq, Hash, Structural)]
pub enum XBitmapPadding {
    Bit8,
    Bit16,
    Bit32,
}

impl XBitmapPadding {
    /// The padding in bits.
    pub fn bits(&self) -> (r: u32)
        ensures
            r == match *self {
                XBitmapPadding::Bit8 => 8u32,
                XBitmapPadding::Bit16 => 16u32,
                XBitmapPadding::Bit32 => 32u32,
            },
    {
        match self {
            XBitmapPadding::Bit8 => 8,
            XBitmapPadding::Bit16 => 16,
            XBitmapPadding::Bit32 => 32,
        }
    }
}

/// How the pixels of an image are organised.
#[derive(Debug, Copy, Clone, Eq, PartialEq, Hash, Structural)]
pub enum XImageFormat {
    /// Bitmap organized in planes
    XYBitmap,
    /// RGB image organized in planes
    XYPixmap,
    /// RGB image organized in pixels
    ZPixmap,
}

impl XImageFormat {
    /// The native value of this image format.
    pub fn to_native(&self) -> (r: i32)
        ensures
            r == match *self {
                XImageFormat::XYBitmap => 0int,
                XImageFormat::XYPixmap => 1int,
                XImageFormat::ZPixmap => 2int,
            },
    {
        match self {
            XImageFormat::XYBitmap => 0,
            XImageFormat::XYPixmap => 1,
            XImageFormat::ZPixmap => 2,
        }
    }
}

/// An image handle: a client-side buffer that can be uploaded to the
/// server.  Images wrapped here are always owned and must be destroyed on
/// teardown.
#[derive(Debug)]
pub struct XImage<'a> {
    pub handle: u64,
    pub display: &'a XDisplay,
}

impl<'a> XImage<'a> {
    /// Wraps an existing native image handle.
    pub fn new(handle: u64, display: &'a XDisplay) -> (r: Self)
        ensures
            r.handle == handle,
            r.display == display,
    {
        XImage { handle, display }
    }

    /// Retrieves the underlying native image handle.
    pub fn handle(&self) -> (r: u64)
        ensures
            r == self.handle,
    {
        self.handle
    }
}

} // verus!
