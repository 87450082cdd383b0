//! The property codec: typed property data, the read/write capability and
//! a verified in-memory property table.
//!
//! A property holds elements of one of three widths (8, 16 or 32 bits).
//! Reads are windowed: a request names an offset and a maximal length in
//! 32-bit units, and the server reports how many bytes remain after the
//! window.  `get_property_completely` turns that protocol into a two-phase
//! read: a zero-length probe to learn the remaining length, then — only
//! when anything remains — one read sized to cover it exactly.
//!
//! `XPropertyHolder` states those semantics once, over a map view of the
//! holder's property table; `XPropertyStore` implements them and is the
//! reference model the contracts are checked against.

use crate::atom::XAtom;
use crate::buf::{copy_range, extend_with};
use vstd::prelude::*;

verus! {

/// Describes the possible format of an X11 property.
#[derive(Debug, Copy, Clone, Eq, PartialEq, Structural)]
pub enum XPropertyDataFormat {
    /// One property element is 8 bits long
    Bit8,
    /// One property element is 16 bits long
    Bit16,
    /// One property element is 32 bits long
    Bit32,
}

impl XPropertyDataFormat {
    /// Attempts to convert the format from the X11 native representation.
    ///
    /// Returns a format exactly for the native values 8, 16 and 32, and
    /// nothing for every other value.
    pub fn from_native(format: i32) -> (r: Option<Self>)
        ensures
            format == 8 ==> r == Some(XPropertyDataFormat::Bit8),
            format == 16 ==> r == Some(XPropertyDataFormat::Bit16),
            format == 32 ==> r == Some(XPropertyDataFormat::Bit32),
            format != 8 && format != 16 && format != 32 ==> r is None,
    {
        match format {
            8 => Some(XPropertyDataFormat::Bit8),
            16 => Some(XPropertyDataFormat::Bit16),
            32 => Some(XPropertyDataFormat::Bit32),
            _ => None,
        }
    }

    /// Converts this format to the native representation.
    pub fn to_native(&self) -> (r: i32)
        ensures
            r == match *self {
                XPropertyDataFormat::Bit8 => 8int,
                XPropertyDataFormat::Bit16 => 16int,
                XPropertyDataFormat::Bit32 => 32int,
            },
    {
        match self {
            XPropertyDataFormat::Bit8 => 8,
            XPropertyDataFormat::Bit16 => 16,
            XPropertyDataFormat::Bit32 => 32,
        }
    }

    /// The number of bytes one element of this format occupies.
    pub open spec fn spec_byte_count(self) -> nat {
        match self {
            XPropertyDataFormat::Bit8 => 1,
            XPropertyDataFormat::Bit16 => 2,
            XPropertyDataFormat::Bit32 => 4,
        }
    }

    /// Returns the amount of bytes per property element.
    pub fn byte_count(&self) -> (r: usize)
        ensures
            r == self.spec_byte_count(),
    {
        match self {
            XPropertyDataFormat::Bit8 => 1,
            XPropertyDataFormat::Bit16 => 2,
            XPropertyDataFormat::Bit32 => 4,
        }
    }

    /// Returns the amount of bytes for a property array of `length`
    /// elements.
    pub fn byte_count_array(&self, length: usize) -> (r: usize)
        requires
            length * self.spec_byte_count() <= usize::MAX,
        ensures
            r == length * self.spec_byte_count(),
    {
        self.byte_count() * length
    }
}

/// The elements a property holds, in the width its format names.
#[derive(Debug)]
pub enum XPropertyValues {
    Bit8(Vec<u8>),
    Bit16(Vec<i16>),
    Bit32(Vec<i32>),
}

/// The mathematical view of property values: the same elements as
/// sequences.
#[verifier::ext_equal]
pub enum XPropertyValuesView {
    Bit8(Seq<u8>),
    Bit16(Seq<i16>),
    Bit32(Seq<i32>),
}

impl XPropertyValuesView {
    /// The format the elements are stored in.
    pub open spec fn format(self) -> XPropertyDataFormat {
        match self {
            XPropertyValuesView::Bit8(_) => XPropertyDataFormat::Bit8,
            XPropertyValuesView::Bit16(_) => XPropertyDataFormat::Bit16,
            XPropertyValuesView::Bit32(_) => XPropertyDataFormat::Bit32,
        }
    }

    /// The number of elements.
    pub open spec fn len(self) -> nat {
        match self {
            XPropertyValuesView::Bit8(s) => s.len(),
            XPropertyValuesView::Bit16(s) => s.len(),
            XPropertyValuesView::Bit32(s) => s.len(),
        }
    }

    /// The total size in bytes: element count times element width.
    pub open spec fn byte_len(self) -> nat {
        self.len() * self.format().spec_byte_count()
    }

    /// The elements from position `start` (inclusive) to `end` (exclusive).
    pub open spec fn slice(self, start: int, end: int) -> Self {
        match self {
            XPropertyValuesView::Bit8(s) => XPropertyValuesView::Bit8(s.subrange(start, end)),
            XPropertyValuesView::Bit16(s) => XPropertyValuesView::Bit16(s.subrange(start, end)),
            XPropertyValuesView::Bit32(s) => XPropertyValuesView::Bit32(s.subrange(start, end)),
        }
    }

    /// The concatenation with another value array of the same format.
    pub open spec fn cat(self, other: Self) -> Self {
        match (self, other) {
            (XPropertyValuesView::Bit8(a), XPropertyValuesView::Bit8(b)) =>
                XPropertyValuesView::Bit8(a + b),
            (XPropertyValuesView::Bit16(a), XPropertyValuesView::Bit16(b)) =>
                XPropertyValuesView::Bit16(a + b),
            (XPropertyValuesView::Bit32(a), XPropertyValuesView::Bit32(b)) =>
                XPropertyValuesView::Bit32(a + b),
            (a, _) => a,
        }
    }
}

impl View for XPropertyValues {
    type V = XPropertyValuesView;

    open spec fn view(&self) -> XPropertyValuesView {
        match self {
            XPropertyValues::Bit8(v) => XPropertyValuesView::Bit8(v@),
            XPropertyValues::Bit16(v) => XPropertyValuesView::Bit16(v@),
            XPropertyValues::Bit32(v) => XPropertyValuesView::Bit32(v@),
        }
    }
}

impl XPropertyValues {
    /// The format the elements are stored in.
    pub fn format(&self) -> (r: XPropertyDataFormat)
        ensures
            r == self@.format(),
    {
        match self {
            XPropertyValues::Bit8(_) => XPropertyDataFormat::Bit8,
            XPropertyValues::Bit16(_) => XPropertyDataFormat::Bit16,
            XPropertyValues::Bit32(_) => XPropertyDataFormat::Bit32,
        }
    }

    /// The number of elements.
    pub fn len(&self) -> (r: usize)
        ensures
            r == self@.len(),
    {
        match self {
            XPropertyValues::Bit8(v) => v.len(),
            XPropertyValues::Bit16(v) => v.len(),
            XPropertyValues::Bit32(v) => v.len(),
        }
    }

    /// An owned copy of the elements from `start` (inclusive) to `end`
    /// (exclusive).
    pub fn slice_copy(&self, start: usize, end: usize) -> (r: Self)
        requires
            start <= end <= self@.len(),
        ensures
            r@ == self@.slice(start as int, end as int),
    {
        match self {
            XPropertyValues::Bit8(v) => XPropertyValues::Bit8(copy_range(v, start, end)),
            XPropertyValues::Bit16(v) => XPropertyValues::Bit16(copy_range(v, start, end)),
            XPropertyValues::Bit32(v) => XPropertyValues::Bit32(copy_range(v, start, end)),
        }
    }

    /// Appends the elements of `other` when the formats agree; reports
    /// whether they did.
    pub fn append_values(&mut self, other: &XPropertyValues) -> (ok: bool)
        ensures
            ok == (old(self)@.format() == other@.format()),
            ok ==> final(self)@ == old(self)@.cat(other@),
            !ok ==> final(self)@ == old(self)@,
    {
        match (self, other) {
            (XPropertyValues::Bit8(a), XPropertyValues::Bit8(b)) => {
                extend_with(a, b);
                true
            },
            (XPropertyValues::Bit16(a), XPropertyValues::Bit16(b)) => {
                extend_with(a, b);
                true
            },
            (XPropertyValues::Bit32(a), XPropertyValues::Bit32(b)) => {
                extend_with(a, b);
                true
            },
            (_, _) => false,
        }
    }
}

/// Represents data held by a property: the element format, the type atom
/// the server reported, and the elements themselves.
#[derive(Debug)]
pub struct XPropertyData<'a> {
    pub format: XPropertyDataFormat,
    pub actual_type: XAtom<'a>,
    pub values: XPropertyValues,
}

impl<'a> XPropertyData<'a> {
    /// The format field agrees with the stored elements.
    pub open spec fn wf(&self) -> bool {
        self.format == self.values@.format()
    }

    /// Wraps property data.
    pub fn new(format: XPropertyDataFormat, actual_type: XAtom<'a>, values: XPropertyValues) -> (r:
        Self)
        requires
            format == values@.format(),
        ensures
            r.format == format,
            r.actual_type == actual_type,
            r.values == values,
            r.wf(),
    {
        XPropertyData { format, actual_type, values }
    }

    /// Retrieves the format of the property elements.
    pub fn format(&self) -> (r: XPropertyDataFormat)
        ensures
            r == self.format,
    {
        self.format
    }

    /// Retrieves the type of the property elements as reported by the X
    /// server.
    pub fn ty(&self) -> (r: XAtom<'a>)
        ensures
            r == self.actual_type,
    {
        self.actual_type
    }

    /// Retrieves the amount of elements in the data.
    pub fn length(&self) -> (r: usize)
        ensures
            r == self.values@.len(),
    {
        self.values.len()
    }

    /// Retrieves the size of the entire data in bytes.
    pub fn byte_size(&self) -> (r: usize)
        requires
            self.wf(),
            self.values@.byte_len() <= usize::MAX,
        ensures
            r == self.values@.byte_len(),
    {
        proof {
            vstd::arithmetic::mul::lemma_mul_is_commutative(
                self.values@.len() as int,
                self.values@.format().spec_byte_count() as int,
            );
        }
        self.format.byte_count_array(self.values.len())
    }

    /// Retrieves the stored elements.
    pub fn values(&self) -> (r: &XPropertyValues)
        ensures
            r == self.values,
    {
        &self.values
    }
}

/// Describes how the change of a property is performed.
#[derive(Debug, Copy, Clone, Eq, PartialEq, Hash, Structural)]
pub enum XPropertyChangeMode {
    Replace,
    Prepend,
    Append,
}

impl XPropertyChangeMode {
    /// The native value of this change mode.
    pub fn to_native(&self) -> (r: i32)
        ensures
            r == match *self {
                XPropertyChangeMode::Replace => 0int,
                XPropertyChangeMode::Prepend => 1int,
                XPropertyChangeMode::Append => 2int,
            },
    {
        match self {
            XPropertyChangeMode::Replace => 0,
            XPropertyChangeMode::Prepend => 1,
            XPropertyChangeMode::Append => 2,
        }
    }
}

/// One property of a holder, as the contracts see it: the type atom it was
/// written with and its elements.
pub struct XPropEntry {
    pub ty: u64,
    pub values: XPropertyValuesView,
}

/// The first element position of the window a read with the given offset
/// (in 32-bit units) covers.
pub open spec fn read_start_elems(e: XPropEntry, offset: int) -> int {
    vstd::math::min(4 * offset / e.values.format().spec_byte_count() as int, e.values.len() as int)
}

/// The element count of the window a read with the given offset and
/// maximal length (both in 32-bit units) covers.
pub open spec fn read_count_elems(e: XPropEntry, offset: int, length: int) -> int {
    vstd::math::min(
        4 * length / e.values.format().spec_byte_count() as int,
        e.values.len() as int - read_start_elems(e, offset),
    )
}

/// The number of bytes that remain past the window of a read with the
/// given offset and maximal length: what the server reports so that a
/// follow-up read can be sized to cover the rest.
pub open spec fn read_bytes_after(e: XPropEntry, offset: int, length: int) -> int {
    (e.values.len() as int - read_start_elems(e, offset) - read_count_elems(e, offset, length))
        * e.values.format().spec_byte_count() as int
}

/// The entry that a change with the given mode produces out of the
/// previous entry, if the change applies: replacing always applies;
/// prepending and appending apply to an absent property and to one whose
/// type and format agree, and are rejected otherwise, leaving the table
/// unchanged.
pub open spec fn change_result(
    oldv: Option<XPropEntry>,
    ty: u64,
    values: XPropertyValuesView,
    mode: XPropertyChangeMode,
) -> Option<XPropEntry> {
    match mode {
        XPropertyChangeMode::Replace => Some(XPropEntry { ty, values }),
        XPropertyChangeMode::Prepend => match oldv {
            Option::None => Some(XPropEntry { ty, values }),
            Option::Some(e) => if e.ty == ty && e.values.format() == values.format() {
                Some(XPropEntry { ty, values: values.cat(e.values) })
            } else {
                Option::None
            },
        },
        XPropertyChangeMode::Append => match oldv {
            Option::None => Some(XPropEntry { ty, values }),
            Option::Some(e) => if e.ty == ty && e.values.format() == values.format() {
                Some(XPropEntry { ty, values: e.values.cat(values) })
            } else {
                Option::None
            },
        },
    }
}

/// The sentinel type atom that matches any property type.
pub const ANY_PROPERTY_TYPE: u64 = 0;

/// Implemented by types which can hold properties.
///
/// The trait fixes the protocol's property semantics once, over a map view
/// of the holder's table: windowed reads that report the bytes remaining
/// past the window, writes that replace or splice element arrays, and
/// delete-on-full-read inherited from the protocol.
pub trait XPropertyHolder: Sized {
    /// The holder's property table: every property by its atom.
    spec fn props(&self) -> Map<u64, XPropEntry>;

    /// How many underlying read calls the holder has issued.
    spec fn read_count(&self) -> nat;

    /// The implementation's internal invariant.
    spec fn inv(&self) -> bool;

    /// Attempts to retrieve a property, returning the read data and the
    /// amount of bytes remaining after the read window.
    ///
    /// Reading a property that does not exist yields nothing.  Reading
    /// with a type that differs from the stored one yields the stored
    /// format and the full length as remaining, but no elements and no
    /// deletion.  Otherwise the window of the property selected by
    /// `offset` and `length` (both in 32-bit units) is returned, and when
    /// `delete` is set and the window reaches the end of the property the
    /// property is removed — the server-defined delete-on-full-read
    /// semantics, inherited as they are.
    fn get_property<'b>(
        &mut self,
        property: XAtom<'b>,
        offset: i64,
        length: i64,
        delete: bool,
        ty: XAtom<'b>,
    ) -> (r: Option<(XPropertyData<'b>, usize)>)
        requires
            old(self).inv(),
            0 <= offset,
            0 <= length,
            4 * offset <= usize::MAX,
            4 * length <= usize::MAX,
            old(self).read_count() < u64::MAX,
        ensures
            final(self).inv(),
            final(self).read_count() == old(self).read_count() + 1,
            !old(self).props().contains_key(property.handle) ==> {
                &&& r is None
                &&& final(self).props() == old(self).props()
            },
            old(self).props().contains_key(property.handle) && ty.handle != ANY_PROPERTY_TYPE
                && ty.handle != old(self).props()[property.handle].ty ==> {
                let e = old(self).props()[property.handle];
                &&& r matches Some((data, remaining))
                &&& data.format == e.values.format()
                &&& data.wf()
                &&& data.values@.len() == 0
                &&& data.actual_type.handle == e.ty
                &&& remaining == e.values.byte_len()
                &&& final(self).props() == old(self).props()
            },
            old(self).props().contains_key(property.handle) && (ty.handle == ANY_PROPERTY_TYPE
                || ty.handle == old(self).props()[property.handle].ty) ==> {
                let e = old(self).props()[property.handle];
                let start = read_start_elems(e, offset as int);
                let count = read_count_elems(e, offset as int, length as int);
                &&& r matches Some((data, remaining))
                &&& data.format == e.values.format()
                &&& data.wf()
                &&& data.values@ == e.values.slice(start, start + count)
                &&& data.actual_type.handle == e.ty
                &&& remaining == read_bytes_after(e, offset as int, length as int)
                &&& (delete && remaining == 0 ==> final(self).props() == old(self).props().remove(
                    property.handle,
                ))
                &&& (!(delete && remaining == 0) ==> final(self).props() == old(self).props())
            },
    ;

    /// Changes a property: stores, prepends or appends the given elements
    /// under the given type atom, as `change_result` describes.
    fn change_property(
        &mut self,
        property: XAtom<'_>,
        ty: XAtom<'_>,
        mode: XPropertyChangeMode,
        values: XPropertyValues,
    )
        requires
            old(self).inv(),
            change_result(
                if old(self).props().contains_key(property.handle) {
                    Some(old(self).props()[property.handle])
                } else {
                    Option::None
                },
                ty.handle,
                values@,
                mode,
            ) matches Some(e2) ==> e2.values.byte_len() <= usize::MAX,
        ensures
            final(self).inv(),
            final(self).read_count() == old(self).read_count(),
            ({
                let r = change_result(
                    if old(self).props().contains_key(property.handle) {
                        Some(old(self).props()[property.handle])
                    } else {
                        Option::None
                    },
                    ty.handle,
                    values@,
                    mode,
                );
                match r {
                    Some(e2) => final(self).props() == old(self).props().insert(
                        property.handle,
                        e2,
                    ),
                    Option::None => final(self).props() == old(self).props(),
                }
            }),
    ;

    /// Deletes a property if it exists.
    fn delete_property(&mut self, property: XAtom<'_>)
        requires
            old(self).inv(),
        ensures
            final(self).inv(),
            final(self).read_count() == old(self).read_count(),
            final(self).props() == old(self).props().remove(property.handle),
    ;

    /// Changes a property in 8 bit format.
    fn change_property8(
        &mut self,
        property: XAtom<'_>,
        ty: XAtom<'_>,
        mode: XPropertyChangeMode,
        data: &Vec<u8>,
    )
        requires
            old(self).inv(),
            change_result(
                if old(self).props().contains_key(property.handle) {
                    Some(old(self).props()[property.handle])
                } else {
                    Option::None
                },
                ty.handle,
                XPropertyValuesView::Bit8(data@),
                mode,
            ) matches Some(e2) ==> e2.values.byte_len() <= usize::MAX,
        ensures
            final(self).inv(),
            final(self).read_count() == old(self).read_count(),
            ({
                let r = change_result(
                    if old(self).props().contains_key(property.handle) {
                        Some(old(self).props()[property.handle])
                    } else {
                        Option::None
                    },
                    ty.handle,
                    XPropertyValuesView::Bit8(data@),
                    mode,
                );
                match r {
                    Some(e2) => final(self).props() == old(self).props().insert(
                        property.handle,
                        e2,
                    ),
                    Option::None => final(self).props() == old(self).props(),
                }
            }),
    {
        let values = XPropertyValues::Bit8(copy_range(data, 0, data.len()));
        assert(values@ == XPropertyValuesView::Bit8(data@)) by {
            assert(data@.subrange(0, data@.len() as int) =~= data@);
        }
        self.change_property(property, ty, mode, values);
    }

    /// Changes a property in 16 bit format.
    fn change_property16(
        &mut self,
        property: XAtom<'_>,
        ty: XAtom<'_>,
        mode: XPropertyChangeMode,
        data: &Vec<i16>,
    )
        requires
            old(self).inv(),
            change_result(
                if old(self).props().contains_key(property.handle) {
                    Some(old(self).props()[property.handle])
                } else {
                    Option::None
                },
                ty.handle,
                XPropertyValuesView::Bit16(data@),
                mode,
            ) matches Some(e2) ==> e2.values.byte_len() <= usize::MAX,
        ensures
            final(self).inv(),
            final(self).read_count() == old(self).read_count(),
            ({
                let r = change_result(
                    if old(self).props().contains_key(property.handle) {
                        Some(old(self).props()[property.handle])
                    } else {
                        Option::None
                    },
                    ty.handle,
                    XPropertyValuesView::Bit16(data@),
                    mode,
                );
                match r {
                    Some(e2) => final(self).props() == old(self).props().insert(
                        property.handle,
                        e2,
                    ),
                    Option::None => final(self).props() == old(self).props(),
                }
            }),
    {
        let values = XPropertyValues::Bit16(copy_range(data, 0, data.len()));
        assert(values@ == XPropertyValuesView::Bit16(data@)) by {
            assert(data@.subrange(0, data@.len() as int) =~= data@);
        }
        self.change_property(property, ty, mode, values);
    }

    /// Changes a property in 32 bit format.
    fn change_property32(
        &mut self,
        property: XAtom<'_>,
        ty: XAtom<'_>,
        mode: XPropertyChangeMode,
        data: &Vec<i32>,
    )
        requires
            old(self).inv(),
            change_result(
                if old(self).props().contains_key(property.handle) {
                    Some(old(self).props()[property.handle])
                } else {
                    Option::None
                },
                ty.handle,
                XPropertyValuesView::Bit32(data@),
                mode,
            ) matches Some(e2) ==> e2.values.byte_len() <= usize::MAX,
        ensures
            final(self).inv(),
            final(self).read_count() == old(self).read_count(),
            ({
                let r = change_result(
                    if old(self).props().contains_key(property.handle) {
                        Some(old(self).props()[property.handle])
                    } else {
                        Option::None
                    },
                    ty.handle,
                    XPropertyValuesView::Bit32(data@),
                    mode,
                );
                match r {
                    Some(e2) => final(self).props() == old(self).props().insert(
                        property.handle,
                        e2,
                    ),
                    Option::None => final(self).props() == old(self).props(),
                }
            }),
    {
        let values = XPropertyValues::Bit32(copy_range(data, 0, data.len()));
        assert(values@ == XPropertyValuesView::Bit32(data@)) by {
            assert(data@.subrange(0, data@.len() as int) =~= data@);
        }
        self.change_property(property, ty, mode, values);
    }

    /// Reads a property completely by automatically determining its
    /// length: a zero-length probe first, and — only when the probe
    /// reports bytes remaining — a second read sized to exactly cover
    /// them.  When the probe reports nothing remaining the probe's result
    /// is returned as it is, with no second read; in that case a requested
    /// deletion does not happen, since the probe never deletes.
    fn get_property_completely<'b>(
        &mut self,
        property: XAtom<'b>,
        delete: bool,
        ty: XAtom<'b>,
    ) -> (r: Option<XPropertyData<'b>>)
        requires
            old(self).inv(),
            old(self).read_count() + 2 <= u64::MAX,
            old(self).props().contains_key(property.handle)
                ==> old(self).props()[property.handle].values.byte_len() + 3 <= usize::MAX,
        ensures
            final(self).inv(),
            old(self).read_count() + 1 <= final(self).read_count() <= old(self).read_count() + 2,
            !old(self).props().contains_key(property.handle) ==> {
                &&& r is None
                &&& final(self).props() == old(self).props()
                &&& final(self).read_count() == old(self).read_count() + 1
            },
            old(self).props().contains_key(property.handle) && (ty.handle == ANY_PROPERTY_TYPE
                || ty.handle == old(self).props()[property.handle].ty) ==> {
                let e = old(self).props()[property.handle];
                &&& r matches Some(data)
                &&& data.format == e.values.format()
                &&& data.wf()
                &&& data.values@ == e.values
                &&& data.actual_type.handle == e.ty
                &&& (e.values.byte_len() == 0 ==> final(self).read_count() == old(
                    self,
                ).read_count() + 1 && final(self).props() == old(self).props())
                &&& (e.values.byte_len() > 0 && delete ==> final(self).props() == old(
                    self,
                ).props().remove(property.handle))
                &&& (e.values.byte_len() > 0 && !delete ==> final(self).props() == old(
                    self,
                ).props())
            },
    {
        let probe = self.get_property(property, 0, 0, false, ty);
        match probe {
            Option::None => Option::None,
            Option::Some((data0, remaining)) => {
                if remaining < 1 {
                    proof {
                        if old(self).props().contains_key(property.handle) && (ty.handle
                            == ANY_PROPERTY_TYPE || ty.handle == old(
                            self,
                        ).props()[property.handle].ty) {
                            let e = old(self).props()[property.handle];
                            lemma_probe_window(e);
                            assert(e.values.byte_len() == 0);
                            assert(e.values.len() == 0) by {
                                if e.values.len() > 0 {
                                    vstd::arithmetic::mul::lemma_mul_strictly_positive(
                                        e.values.len() as int,
                                        e.values.format().spec_byte_count() as int,
                                    );
                                }
                            }
                            assert(e.values.slice(0, 0) == e.values.slice(
                                0,
                                e.values.len() as int,
                            ));
                            lemma_slice_all(e.values);
                        }
                    }
                    return Option::Some(data0);
                }
                let length = (remaining / 4 + if remaining % 4 != 0 {
                    1
                } else {
                    0
                }) as i64;
                let second = self.get_property(property, 0, length, delete, ty);
                match second {
                    Option::None => Option::None,
                    Option::Some((data, _)) => {
                        proof {
                            let e = old(self).props()[property.handle];
                            if ty.handle == ANY_PROPERTY_TYPE || ty.handle == e.ty {
                                lemma_probe_window(e);
                                lemma_full_window(e, length as int);
                                lemma_slice_all(e.values);
                            }
                        }
                        Option::Some(data)
                    },
                }
            },
        }
    }
}

/// A zero-length probe at offset zero selects nothing and reports the
/// whole property as remaining.
proof fn lemma_probe_window(e: XPropEntry)
    ensures
        read_start_elems(e, 0) == 0,
        read_count_elems(e, 0, 0) == 0,
        read_bytes_after(e, 0, 0) == e.values.byte_len(),
{
    let w = e.values.format().spec_byte_count() as int;
    assert(w == 1 || w == 2 || w == 4);
    assert(0int / 1 == 0 && 0int / 2 == 0 && 0int / 4 == 0);
}

/// Slicing a value array over its whole range gives it back.
proof fn lemma_slice_all(v: XPropertyValuesView)
    ensures
        v.slice(0, v.len() as int) == v,
{
    match v {
        XPropertyValuesView::Bit8(s) => {
            assert(s.subrange(0, s.len() as int) =~= s);
        },
        XPropertyValuesView::Bit16(s) => {
            assert(s.subrange(0, s.len() as int) =~= s);
        },
        XPropertyValuesView::Bit32(s) => {
            assert(s.subrange(0, s.len() as int) =~= s);
        },
    }
}

/// A read window at offset zero whose length in 32-bit units covers the
/// whole property selects every element.
proof fn lemma_full_window(e: XPropEntry, length: int)
    requires
        4 * length >= e.values.byte_len(),
        0 <= length,
    ensures
        read_start_elems(e, 0) == 0,
        read_count_elems(e, 0, length) == e.values.len(),
        read_bytes_after(e, 0, length) == 0,
{
    let w = e.values.format().spec_byte_count() as int;
    let n = e.values.len() as int;
    assert(w == 1 || w == 2 || w == 4);
    assert(e.values.byte_len() == n * w);
    assert(read_start_elems(e, 0) == 0);
    assert(4 * length >= n * w);
    assert(4 * length / w >= n) by {
        vstd::arithmetic::div_mod::lemma_div_is_ordered(n * w, 4 * length, w);
        vstd::arithmetic::div_mod::lemma_div_multiples_vanish(n, w);
    }
}

/// One stored property of the in-memory table.
struct XStoredProperty {
    key: u64,
    ty: u64,
    values: XPropertyValues,
}

/// The mathematical view of one stored property.
spec fn entry_view(e: XStoredProperty) -> XPropEntry {
    XPropEntry { ty: e.ty, values: e.values@ }
}

/// The map an association list of stored properties stands for.
spec fn entries_map(s: Seq<XStoredProperty>) -> Map<u64, XPropEntry>
    decreases s.len(),
{
    if s.len() == 0 {
        Map::empty()
    } else {
        entries_map(s.drop_last()).insert(s.last().key, entry_view(s.last()))
    }
}

/// No key occurs twice in the association list.
spec fn unique_keys(s: Seq<XStoredProperty>) -> bool {
    forall|i: int, j: int| 0 <= i < j < s.len() ==> s[i].key != s[j].key
}

/// A key that occurs nowhere in the list is absent from its map.
proof fn lemma_map_absent(s: Seq<XStoredProperty>, k: u64)
    requires
        forall|i: int| 0 <= i < s.len() ==> s[i].key != k,
    ensures
        !entries_map(s).contains_key(k),
    decreases s.len(),
{
    if s.len() > 0 {
        assert(s.last().key != k);
        lemma_map_absent(s.drop_last(), k);
    }
}

/// Under unique keys, the map of the list holds, at the key of any entry,
/// exactly that entry.
proof fn lemma_map_at(s: Seq<XStoredProperty>, i: int)
    requires
        unique_keys(s),
        0 <= i < s.len(),
    ensures
        entries_map(s).contains_key(s[i].key),
        entries_map(s)[s[i].key] == entry_view(s[i]),
    decreases s.len(),
{
    if i == s.len() - 1 {
    } else {
        lemma_map_at(s.drop_last(), i);
        assert(s.last().key != s[i].key);
    }
}

/// Every key of the map of the list belongs to some entry.
proof fn lemma_map_keys(s: Seq<XStoredProperty>, k: u64)
    requires
        entries_map(s).contains_key(k),
    ensures
        exists|i: int| 0 <= i < s.len() && (#[trigger] s[i]).key == k,
    decreases s.len(),
{
    if s.len() > 0 {
        if s.last().key == k {
            assert(s[s.len() - 1].key == k);
        } else {
            lemma_map_keys(s.drop_last(), k);
            let i = choose|i: int| 0 <= i < s.drop_last().len() && (#[trigger] s.drop_last()[i]).key == k;
            assert(s[i].key == k);
        }
    }
}

/// Replacing the entry at a position, keeping its key, turns the map into
/// the map with that key re-bound.
proof fn lemma_map_update(s: Seq<XStoredProperty>, i: int, e2: XStoredProperty)
    requires
        unique_keys(s),
        0 <= i < s.len(),
        e2.key == s[i].key,
    ensures
        entries_map(s.update(i, e2)) =~= entries_map(s).insert(e2.key, entry_view(e2)),
    decreases s.len(),
{
    let s2 = s.update(i, e2);
    if i == s.len() - 1 {
        assert(s2.drop_last() =~= s.drop_last());
        assert(s2.last() == e2);
    } else {
        assert(s2.drop_last() =~= s.drop_last().update(i, e2));
        assert(s2.last() == s.last());
        lemma_map_update(s.drop_last(), i, e2);
        assert(s.last().key != e2.key);
    }
}

/// Appending an entry with a fresh key turns the map into the map with
/// that key bound.
proof fn lemma_map_push(s: Seq<XStoredProperty>, e: XStoredProperty)
    ensures
        entries_map(s.push(e)) =~= entries_map(s).insert(e.key, entry_view(e)),
{
    let s2 = s.push(e);
    assert(s2.drop_last() =~= s);
    assert(s2.last() == e);
}

/// Removing the entry at a position, under unique keys, turns the map
/// into the map without that entry's key.
proof fn lemma_map_remove(s: Seq<XStoredProperty>, i: int)
    requires
        unique_keys(s),
        0 <= i < s.len(),
    ensures
        entries_map(s.remove(i)) =~= entries_map(s).remove(s[i].key),
    decreases s.len(),
{
    let s2 = s.remove(i);
    if i == s.len() - 1 {
        assert(s2 =~= s.drop_last());
        lemma_map_absent(s.drop_last(), s[i].key);
    } else {
        assert(s2.drop_last() =~= s.drop_last().remove(i));
        assert(s2.last() == s.last());
        lemma_map_remove(s.drop_last(), i);
        assert(s.last().key != s[i].key);
    }
}

/// An empty value array of the given format.
fn empty_values(format: XPropertyDataFormat) -> (r: XPropertyValues)
    ensures
        r@.format() == format,
        r@.len() == 0,
{
    match format {
        XPropertyDataFormat::Bit8 => XPropertyValues::Bit8(Vec::new()),
        XPropertyDataFormat::Bit16 => XPropertyValues::Bit16(Vec::new()),
        XPropertyDataFormat::Bit32 => XPropertyValues::Bit32(Vec::new()),
    }
}

/// An in-memory property table with the protocol's read and write
/// semantics: the reference model the holder contracts are checked
/// against, and a stand-in holder for exercising codec logic without a
/// server.
pub struct XPropertyStore {
    entries: Vec<XStoredProperty>,
    reads: u64,
}

impl XPropertyStore {
    /// An empty property table.
    pub fn new() -> (r: Self)
        ensures
            r.inv(),
            r.props() =~= Map::<u64, XPropEntry>::empty(),
            r.read_count() == 0,
    {
        XPropertyStore { entries: Vec::new(), reads: 0 }
    }

    /// How many underlying read calls the table has served so far.
    pub fn reads(&self) -> (r: u64)
        ensures
            r == self.read_count(),
    {
        self.reads
    }

    /// The position of the property with the given atom, if it exists.
    fn find_index(&self, key: u64) -> (r: Option<usize>)
        ensures
            match r {
                Some(i) => i < self.entries@.len() && self.entries@[i as int].key == key,
                Option::None => forall|j: int|
                    0 <= j < self.entries@.len() ==> self.entries@[j].key != key,
            },
    {
        let n = self.entries.len();
        let mut i: usize = 0;
        while i < n
            invariant
                n == self.entries@.len(),
                0 <= i <= n,
                forall|j: int| 0 <= j < i ==> self.entries@[j].key != key,
            decreases n - i,
        {
            if self.entries[i].key == key {
                return Some(i);
            }
            i = i + 1;
        }
        Option::None
    }
}

impl XPropertyHolder for XPropertyStore {
    /// The table as a map from atoms to entries.
    closed spec fn props(&self) -> Map<u64, XPropEntry> {
        entries_map(self.entries@)
    }

    /// How many reads the table has served.
    closed spec fn read_count(&self) -> nat {
        self.reads as nat
    }

    /// Keys are unique and every entry's byte size fits the machine.
    closed spec fn inv(&self) -> bool {
        &&& unique_keys(self.entries@)
        &&& forall|i: int|
            0 <= i < self.entries@.len() ==> (#[trigger] self.entries@[i]).values@.byte_len()
                <= usize::MAX
    }

    fn get_property<'b>(
        &mut self,
        property: XAtom<'b>,
        offset: i64,
        length: i64,
        delete: bool,
        ty: XAtom<'b>,
    ) -> (r: Option<(XPropertyData<'b>, usize)>) {
        self.reads = self.reads + 1;
        let found = self.find_index(property.handle);
        match found {
            Option::None => {
                proof {
                    lemma_map_absent(self.entries@, property.handle);
                }
                Option::None
            },
            Option::Some(i) => {
                proof {
                    lemma_map_at(self.entries@, i as int);
                }
                let e_ty = self.entries[i].ty;
                let format = self.entries[i].values.format();
                let width = format.byte_count();
                let total_e = self.entries[i].values.len();
                proof {
                    assert(self.entries@[i as int].values@.byte_len() == self.entries@[i
                        as int].values@.len() * format.spec_byte_count());
                    vstd::arithmetic::mul::lemma_mul_is_commutative(
                        total_e as int,
                        width as int,
                    );
                }
                if ty.handle != ANY_PROPERTY_TYPE && ty.handle != e_ty {
                    let total_b = width * total_e;
                    let data = XPropertyData::new(
                        format,
                        XAtom::new(e_ty, property.display),
                        empty_values(format),
                    );
                    return Option::Some((data, total_b));
                }
                let off4 = (offset as usize) * 4;
                let start_e = {
                    let q = off4 / width;
                    if q < total_e {
                        q
                    } else {
                        total_e
                    }
                };
                let len4 = (length as usize) * 4;
                let count_e = {
                    let q = len4 / width;
                    if q < total_e - start_e {
                        q
                    } else {
                        total_e - start_e
                    }
                };
                let values = self.entries[i].values.slice_copy(start_e, start_e + count_e);
                let rest_e = total_e - start_e - count_e;
                proof {
                    vstd::arithmetic::mul::lemma_mul_inequality(
                        rest_e as int,
                        total_e as int,
                        width as int,
                    );
                    vstd::arithmetic::mul::lemma_mul_is_commutative(rest_e as int, width as int);
                }
                let remaining = rest_e * width;
                let data = XPropertyData::new(format, XAtom::new(e_ty, property.display), values);
                if delete && remaining == 0 {
                    proof {
                        lemma_map_remove(self.entries@, i as int);
                    }
                    let ghost s_before = self.entries@;
                    let _ = self.entries.remove(i);
                    assert forall|a: int, b: int|
                        0 <= a < b < self.entries@.len() implies self.entries@[a].key
                        != self.entries@[b].key by {
                        assert(self.entries@ == s_before.remove(i as int));
                    }
                }
                Option::Some((data, remaining))
            },
        }
    }

    fn change_property(
        &mut self,
        property: XAtom<'_>,
        ty: XAtom<'_>,
        mode: XPropertyChangeMode,
        values: XPropertyValues,
    ) {
        let found = self.find_index(property.handle);
        match found {
            Option::None => {
                proof {
                    lemma_map_absent(self.entries@, property.handle);
                    lemma_map_push(
                        self.entries@,
                        XStoredProperty { key: property.handle, ty: ty.handle, values },
                    );
                }
                let entry = XStoredProperty { key: property.handle, ty: ty.handle, values };
                self.entries.push(entry);
            },
            Option::Some(i) => {
                proof {
                    lemma_map_at(self.entries@, i as int);
                }
                match mode {
                    XPropertyChangeMode::Replace => {
                        let entry = XStoredProperty {
                            key: property.handle,
                            ty: ty.handle,
                            values,
                        };
                        proof {
                            lemma_map_update(self.entries@, i as int, entry);
                        }
                        self.entries[i] = entry;
                    },
                    XPropertyChangeMode::Prepend => {
                        let e_ty = self.entries[i].ty;
                        let formats_match = {
                            let a = values.format();
                            let b = self.entries[i].values.format();
                            a == b
                        };
                        if e_ty == ty.handle && formats_match {
                            let mut newv = values;
                            let _ = newv.append_values(&self.entries[i].values);
                            let entry = XStoredProperty {
                                key: property.handle,
                                ty: ty.handle,
                                values: newv,
                            };
                            proof {
                                lemma_map_update(self.entries@, i as int, entry);
                            }
                            self.entries[i] = entry;
                        }
                    },
                    XPropertyChangeMode::Append => {
                        let e_ty = self.entries[i].ty;
                        let formats_match = {
                            let a = values.format();
                            let b = self.entries[i].values.format();
                            a == b
                        };
                        if e_ty == ty.handle && formats_match {
                            let n = self.entries[i].values.len();
                            let mut newv = self.entries[i].values.slice_copy(0, n);
                            proof {
                                lemma_slice_all(self.entries@[i as int].values@);
                            }
                            let _ = newv.append_values(&values);
                            let entry = XStoredProperty {
                                key: property.handle,
                                ty: ty.handle,
                                values: newv,
                            };
                            proof {
                                lemma_map_update(self.entries@, i as int, entry);
                            }
                            self.entries[i] = entry;
                        }
                    },
                }
            },
        }
    }

    fn delete_property(&mut self, property: XAtom<'_>) {
        let found = self.find_index(property.handle);
        match found {
            Option::None => {
                proof {
                    lemma_map_absent(self.entries@, property.handle);
                    assert(self.props() =~= self.props().remove(property.handle));
                }
            },
            Option::Some(i) => {
                proof {
                    lemma_map_at(self.entries@, i as int);
                    lemma_map_remove(self.entries@, i as int);
                }
                let ghost s_before = self.entries@;
                let _ = self.entries.remove(i);
                assert forall|a: int, b: int|
                    0 <= a < b < self.entries@.len() implies self.entries@[a].key
                    != self.entries@[b].key by {
                    assert(self.entries@ == s_before.remove(i as int));
                }
            },
        }
    }
}

/// Property round trip: replacing a property with 8-bit elements binds its
/// atom, in the holder's table, to exactly the written bytes under the
/// written type, so that a complete read of the same atom — per the
/// contract of `get_property_completely` — returns data of 8-bit format
/// whose length and elements are the written bytes.
pub proof fn lemma_property_round_trip(m: Map<u64, XPropEntry>, property: u64, ty: u64, data: Seq<u8>)
    ensures
        ({
            let m1 = m.insert(property, XPropEntry { ty, values: XPropertyValuesView::Bit8(data) });
            &&& m1.contains_key(property)
            &&& m1[property].ty == ty
            &&& m1[property].values == XPropertyValuesView::Bit8(data)
            &&& m1[property].values.format() == XPropertyDataFormat::Bit8
            &&& m1[property].values.len() == data.len()
            &&& change_result(
                if m.contains_key(property) { Some(m[property]) } else { Option::None },
                ty,
                XPropertyValuesView::Bit8(data),
                XPropertyChangeMode::Replace,
            ) == Some(XPropEntry { ty, values: XPropertyValuesView::Bit8(data) })
        }),
{
}

} // verus!
