//! Visuals: the pixel formats a screen offers.

use vstd::prelude::*;

verus! {

/// The class of a visual.
#[derive(Debug, Copy, Clone, Eq, PartialEq, Structural)]
pub enum VisualClass {
    StaticGray,
    GrayScale,
    StaticColor,
    PseudoColor,
    TrueColor,
    DirectColor,
}

impl VisualClass {
    /// The native value of this visual class.
    pub fn to_native(&self) -> (r: i32)
        ensures
            r == match *self {
                VisualClass::StaticGray => 0int,
                VisualClass::GrayScale => 1int,
                VisualClass::StaticColor => 2int,
                VisualClass::PseudoColor => 3int,
                VisualClass::TrueColor => 4int,
                VisualClass::DirectColor => 5int,
            },
    {
        match self {
            VisualClass::StaticGray => 0,
            VisualClass::GrayScale => 1,
            VisualClass::StaticColor => 2,
            VisualClass::PseudoColor => 3,
            VisualClass::TrueColor => 4,
            VisualClass::DirectColor => 5,
        }
    }
}

/// A visual handle.
#[derive(Debug)]
pub struct XVisual<'a> {
    pub handle: u64,
    pub id: u64,
    pub phantom: core::marker::PhantomData<&'a ()>,
}

impl<'a> XVisual<'a> {
    /// Wraps an existing native visual together with its identifier.
    pub fn new(handle: u64, id: u64) -> (r: Self)
        ensures
            r.handle == handle,
            r.id == id,
    {
        XVisual { handle, id, phantom: core::marker::PhantomData }
    }

    /// Retrieves the underlying native visual handle.
    pub fn handle(&self) -> (r: u64)
        ensures
            r == self.handle,
    {
        self.handle
    }

    /// Retrieves the X11 id of the visual.
    pub fn id(&self) -> (r: u64)
        ensures
            r == self.id,
    {
        self.id
    }
}

/// Information about a visual.
#[derive(Debug)]
pub struct XVisualInfo<'a> {
    pub depth: i32,
    pub visual: XVisual<'a>,
}

impl<'a> XVisualInfo<'a> {
    /// Wraps a visual together with the information reported about it.
    pub fn new(depth: i32, visual: XVisual<'a>) -> (r: Self)
        ensures
            r.depth == depth,
            r.visual == visual,
    {
        XVisualInfo { depth, visual }
    }

    /// Retrieves the bit-depth of the visual.
    pub fn depth(&self) -> (r: i32)
        ensures
            r == self.depth,
    {
        self.depth
    }

    /// Retrieves the visual this information belongs to.
    pub fn visual(&self) -> (r: &XVisual<'a>)
        ensures
            *r == self.visual,
    {
        &self.visual
    }

    /// Extracts the visual from this info, consuming the info.
    pub fn into_visual(self) -> (r: XVisual<'a>)
        ensures
            r == self.visual,
    {
        self.visual
    }
}

} // verus!
