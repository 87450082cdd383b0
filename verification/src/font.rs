//! Fonts and text measurement.

use crate::display::XDisplay;
use vstd::prelude::*;

verus! {

/// The server-side identifier of a loaded font.
#[derive(Debug, Copy, Clone, Eq, PartialEq, Structural)]
pub struct XFontId(pub u64);

/// The direction text of a font is drawn in.
#[derive(Debug, Copy, Clone, Eq, PartialEq, Hash, Structural)]
pub enum XFontDirection {
    LeftToRight,
    RightToLeft,
}

impl XFontDirection {
    /// Wraps a native font direction; the native encoding defines exactly
    /// the values 0 (left to right) and 1 (right to left).
    pub fn from_raw(raw: i32) -> (r: Self)
        requires
            raw == 0 || raw == 1,
        ensures
            raw == 0 ==> r == XFontDirection::LeftToRight,
            raw == 1 ==> r == XFontDirection::RightToLeft,
    {
        if raw == 0 {
            XFontDirection::LeftToRight
        } else {
            XFontDirection::RightToLeft
        }
    }
}

/// The metrics of one character cell.
#[derive(Debug, Copy, Clone, Eq, PartialEq, Structural)]
pub struct XChar {
    pub lbearing: i16,
    pub rbearing: i16,
    pub char_width: i16,
    pub char_ascent: i16,
    pub char_descent: i16,
    pub char_attributes: u16,
}

impl XChar {
    /// Wraps the metrics of one character cell.
    pub fn new(
        lbearing: i16,
        rbearing: i16,
        char_width: i16,
        char_ascent: i16,
        char_descent: i16,
        char_attributes: u16,
    ) -> (r: Self)
        ensures
            r == (XChar {
                lbearing,
                rbearing,
                char_width,
                char_ascent,
                char_descent,
                char_attributes,
            }),
    {
        XChar { lbearing, rbearing, char_width, char_ascent, char_descent, char_attributes }
    }

    /// Retrieves the origin to the left edge of the raster.
    pub fn left_bearing(&self) -> (r: i16)
        ensures
            r == self.lbearing,
    {
        self.lbearing
    }

    /// Retrieves the origin to the right edge of the raster.
    pub fn right_bearing(&self) -> (r: i16)
        ensures
            r == self.rbearing,
    {
        self.rbearing
    }

    /// Retrieves the advance to the next char's origin.
    pub fn width(&self) -> (r: i16)
        ensures
            r == self.char_width,
    {
        self.char_width
    }

    /// Retrieves the baseline to top edge of the raster.
    pub fn ascent(&self) -> (r: i16)
        ensures
            r == self.char_ascent,
    {
        self.char_ascent
    }

    /// Retrieves the baseline to bottom edge of the raster.
    pub fn descent(&self) -> (r: i16)
        ensures
            r == self.char_descent,
    {
        self.char_descent
    }

    /// Retrieves the attributes of the char (not predefined).
    pub fn attributes(&self) -> (r: u16)
        ensures
            r == self.char_attributes,
    {
        self.char_attributes
    }
}

/// Shape of a text.
#[derive(Debug, Copy, Clone, Eq, PartialEq, Structural)]
pub struct XTextExtents {
    pub direction: XFontDirection,
    pub font_ascent: i32,
    pub font_descent: i32,
    pub overall: XChar,
}

impl XTextExtents {
    /// Wraps existing text extents.
    pub fn new(
        direction: XFontDirection,
        font_ascent: i32,
        font_descent: i32,
        overall: XChar,
    ) -> (r: Self)
        ensures
            r == (XTextExtents { direction, font_ascent, font_descent, overall }),
    {
        XTextExtents { direction, font_ascent, font_descent, overall }
    }

    /// Retrieves the direction of the text.
    pub fn direction(&self) -> (r: XFontDirection)
        ensures
            r == self.direction,
    {
        self.direction
    }

    /// Retrieves the ascent of the font.
    pub fn font_ascent(&self) -> (r: i32)
        ensures
            r == self.font_ascent,
    {
        self.font_ascent
    }

    /// Retrieves the descent of the font.
    pub fn font_descent(&self) -> (r: i32)
        ensures
            r == self.font_descent,
    {
        self.font_descent
    }

    /// Retrieves the overall extent of the text.
    pub fn overall(&self) -> (r: &XChar)
        ensures
            *r == self.overall,
    {
        &self.overall
    }
}

/// A font handle: the native pointer (as a number), whether it is owned,
/// and the display it was loaded on.
#[derive(Debug)]
pub struct XFont<'a> {
    pub handle: u64,
    pub owned: bool,
    pub display: &'a XDisplay,
}

impl<'a> XFont<'a> {
    /// Wraps an existing font.
    pub fn new(handle: u64, owned: bool, display: &'a XDisplay) -> (r: Self)
        ensures
            r.handle == handle,
            r.owned == owned,
            r.display == display,
    {
        XFont { handle, owned, display }
    }

    /// Retrieves the underlying native font handle.
    pub fn handle(&self) -> (r: u64)
        ensures
            r == self.handle,
    {
        self.handle
    }

    /// Whether tearing the handle down must free the font on the server:
    /// exactly when the font is owned.
    pub fn needs_release(&self) -> (r: bool)
        ensures
            r == self.owned,
    {
        self.owned
    }
}

} // verus!
