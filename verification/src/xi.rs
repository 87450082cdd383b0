//! Typed input-extension events and the mask/value pairing they rely on.
//!
//! Several extension events carry a byte mask of axes together with a packed
//! value array holding exactly one entry per set mask bit, in ascending bit
//! order.  `masked_pairs` is the specification of that pairing;
//! `XIValuatorState::pairs` recovers it, and `lemma_masked_pairs_ascending`
//! states the pairing law: the k-th pair carries the k-th set bit index and
//! the k-th packed value, in strictly ascending bit order.
//!
//! Coordinates and valuator values arrive as IEEE-754 double-precision
//! numbers; the library carries them as their 64-bit patterns.

use crate::atom::XAtom;
use crate::buf::{copy_bytes, copy_i32s};
use crate::display::XDisplay;
use crate::input::XInputDevice;
use crate::window::{WindowHandleOwnership, XWindow};
use crate::masks::{
    XIBarrierEventFlags, XIDeviceEventFlags, XIHierarchyChangeFlags, XIScrollFlags,
    XITouchOwnershipEventFlags,
};
use crate::wire::{
    count_set, mask_bit, popcount, XWireBarrierEvent, XWireClassInfo, XWireDeviceChangedEvent,
    XWireDeviceEvent, XWireEnterEvent, XWireHierarchyEvent, XWireHierarchyInfo,
    XWireModifierState, XWireRawDeviceEvent, XWireTouchOwnershipEvent, XWireXIPropertyEvent,
};
use vstd::prelude::*;

verus! {

/// Whether bit `i` of the byte mask is set.
pub fn mask_bit_set(mask: &Vec<u8>, i: usize) -> (r: bool)
    requires
        i / 8 < mask@.len(),
    ensures
        r == mask_bit(mask@, i as int),
{
    let byte = mask[i / 8];
    let k = (i % 8) as u8;
    assert((i as int) / 8 == (i / 8) as int && (i as int) % 8 == k as int);
    (byte >> k) & 1 == 1
}

/// The pairing of set mask bits with packed values, over the first `n` bit
/// positions: for every set bit, in ascending order, one pair of the bit
/// index and the next unconsumed value.
pub open spec fn masked_pairs(mask: Seq<u8>, values: Seq<u64>, n: int) -> Seq<(u32, u64)>
    decreases n,
{
    if n <= 0 {
        Seq::empty()
    } else {
        let p = masked_pairs(mask, values, n - 1);
        if mask_bit(mask, n - 1) {
            p.push(((n - 1) as u32, values[p.len() as int]))
        } else {
            p
        }
    }
}

/// The pairing consumes exactly one value per set bit.
pub proof fn lemma_masked_pairs_len(mask: Seq<u8>, values: Seq<u64>, n: int)
    ensures
        masked_pairs(mask, values, n).len() == count_set(mask, n),
    decreases n,
{
    if n > 0 {
        lemma_masked_pairs_len(mask, values, n - 1);
    }
}

/// Counting set bits is monotone in the number of positions considered.
pub proof fn lemma_count_set_le(mask: Seq<u8>, i: int, j: int)
    requires
        i <= j,
    ensures
        count_set(mask, i) <= count_set(mask, j),
    decreases j - i,
{
    if i < j {
        lemma_count_set_le(mask, i, j - 1);
    }
}

/// The mask/value pairing law: pairing a mask with a packed value array
/// yields one pair per set bit; the k-th pair holds the k-th set bit index
/// and the k-th value of the array, bit indices strictly ascending.
pub proof fn lemma_masked_pairs_ascending(mask: Seq<u8>, values: Seq<u64>, n: int)
    requires
        n <= u32::MAX,
    ensures
        masked_pairs(mask, values, n).len() == count_set(mask, n),
        forall|k: int|
            #![trigger masked_pairs(mask, values, n)[k]]
            0 <= k < masked_pairs(mask, values, n).len() ==> {
                &&& masked_pairs(mask, values, n)[k].1 == values[k]
                &&& masked_pairs(mask, values, n)[k].0 < n
                &&& mask_bit(mask, masked_pairs(mask, values, n)[k].0 as int)
            },
        forall|k1: int, k2: int|
            #![trigger masked_pairs(mask, values, n)[k1], masked_pairs(mask, values, n)[k2]]
            0 <= k1 < k2 < masked_pairs(mask, values, n).len()
                ==> masked_pairs(mask, values, n)[k1].0 < masked_pairs(mask, values, n)[k2].0,
    decreases n,
{
    lemma_masked_pairs_len(mask, values, n);
    if n > 0 {
        lemma_masked_pairs_ascending(mask, values, n - 1);
        lemma_masked_pairs_len(mask, values, n - 1);
        let p0 = masked_pairs(mask, values, n - 1);
        let p = masked_pairs(mask, values, n);
        assert forall|k: int| 0 <= k < p.len() implies {
            &&& p[k].1 == values[k]
            &&& p[k].0 < n
            &&& mask_bit(mask, p[k].0 as int)
        } by {
            if k < p0.len() {
                assert(p0[k].1 == values[k]);
                assert(p[k] == p0[k]);
            } else {
                assert(mask_bit(mask, n - 1));
                assert(p[k] == (((n - 1) as u32), values[p0.len() as int]));
            }
        }
        assert forall|k1: int, k2: int| 0 <= k1 < k2 < p.len() implies p[k1].0 < p[k2].0 by {
            if k2 < p0.len() {
                assert(p0[k1].0 < p0[k2].0);
                assert(p[k1] == p0[k1] && p[k2] == p0[k2]);
            } else {
                assert(p[k1] == p0[k1]);
                assert(p0[k1] == masked_pairs(mask, values, n - 1)[k1]);
                assert(p0[k1].0 < n - 1);
                assert(p[k2] == (((n - 1) as u32), values[p0.len() as int]));
            }
        }
    }
}

/// Copies, out of a packed value array, the one value belonging to each set
/// mask bit, in ascending bit order: exactly the first `popcount` entries.
pub fn extract_masked_values(mask: &Vec<u8>, values: &Vec<u64>) -> (out: Vec<u64>)
    requires
        values@.len() >= popcount(mask@),
        mask@.len() * 8 <= usize::MAX,
    ensures
        out@ == values@.take(popcount(mask@) as int),
{
    let end = mask.len() * 8;
    let mut out: Vec<u64> = Vec::new();
    let mut i: usize = 0;
    while i < end
        invariant
            end == mask@.len() * 8,
            0 <= i <= end,
            values@.len() >= popcount(mask@),
            out@.len() == count_set(mask@, i as int),
            out@ == values@.take(count_set(mask@, i as int) as int),
        decreases end - i,
    {
        proof {
            lemma_count_set_le(mask@, i + 1, end as int);
        }
        if mask_bit_set(mask, i) {
            out.push(values[out.len()]);
            assert(out@ =~= values@.take(count_set(mask@, i + 1) as int));
        }
        i = i + 1;
    }
    out
}

/// The mode a valuator reports values in.
#[derive(Debug, Copy, Clone, Eq, PartialEq, Structural)]
pub enum XIValuatorMode {
    Absolute,
    Relative,
}

impl XIValuatorMode {
    /// Wraps an existing valuator mode; the native encoding defines exactly
    /// the values 0 (relative) and 1 (absolute).
    pub fn new(mode: i32) -> (r: Self)
        requires
            mode == 0 || mode == 1,
        ensures
            mode == 1 ==> r == XIValuatorMode::Absolute,
            mode == 0 ==> r == XIValuatorMode::Relative,
    {
        if mode == 1 {
            XIValuatorMode::Absolute
        } else {
            XIValuatorMode::Relative
        }
    }
}

/// The direction a scroll class scrolls in.
#[derive(Debug, Copy, Clone, Eq, PartialEq, Structural)]
pub enum XIScrollType {
    Vertical,
    Horizontal,
}

impl XIScrollType {
    /// Wraps an existing scroll type; the native encoding defines exactly
    /// the values 1 (vertical) and 2 (horizontal).
    pub fn new(ty: i32) -> (r: Self)
        requires
            ty == 1 || ty == 2,
        ensures
            ty == 1 ==> r == XIScrollType::Vertical,
            ty == 2 ==> r == XIScrollType::Horizontal,
    {
        if ty == 1 {
            XIScrollType::Vertical
        } else {
            XIScrollType::Horizontal
        }
    }
}

/// How a touch device reports touches.
#[derive(Debug, Copy, Clone, Eq, PartialEq, Structural)]
pub enum XITouchMode {
    Direct,
    Dependent,
}

impl XITouchMode {
    /// Wraps an existing touch mode; the native encoding defines exactly
    /// the values 1 (direct) and 2 (dependent).
    pub fn new(mode: i32) -> (r: Self)
        requires
            mode == 1 || mode == 2,
        ensures
            mode == 1 ==> r == XITouchMode::Direct,
            mode == 2 ==> r == XITouchMode::Dependent,
    {
        if mode == 1 {
            XITouchMode::Direct
        } else {
            XITouchMode::Dependent
        }
    }
}

/// Why a device-changed event was sent.
#[derive(Debug, Copy, Clone, Eq, PartialEq, Hash, Structural)]
pub enum XIDeviceChangeReason {
    SlaveSwitch,
    DeviceChange,
}

impl XIDeviceChangeReason {
    /// Wraps an existing device change reason; the native encoding defines
    /// exactly the values 1 (slave switch) and 2 (device change).
    pub fn new(reason: i32) -> (r: Self)
        requires
            reason == 1 || reason == 2,
        ensures
            reason == 1 ==> r == XIDeviceChangeReason::SlaveSwitch,
            reason == 2 ==> r == XIDeviceChangeReason::DeviceChange,
    {
        if reason == 1 {
            XIDeviceChangeReason::SlaveSwitch
        } else {
            XIDeviceChangeReason::DeviceChange
        }
    }
}

/// The mode of an extension focus notification.
#[derive(Debug, Copy, Clone, Eq, PartialEq, Hash, Structural)]
pub enum XIFocusEventMode {
    Normal,
    Grab,
    Ungrab,
}

impl XIFocusEventMode {
    /// Wraps an existing focus event mode; this library handles the native
    /// values 0 (normal), 1 (grab) and 2 (ungrab).
    pub fn new(mode: i32) -> (r: Self)
        requires
            0 <= mode <= 2,
        ensures
            mode == 0 ==> r == XIFocusEventMode::Normal,
            mode == 1 ==> r == XIFocusEventMode::Grab,
            mode == 2 ==> r == XIFocusEventMode::Ungrab,
    {
        if mode == 0 {
            XIFocusEventMode::Normal
        } else if mode == 1 {
            XIFocusEventMode::Grab
        } else {
            XIFocusEventMode::Ungrab
        }
    }
}

/// The detail of an extension focus notification.
#[derive(Debug, Copy, Clone, Eq, PartialEq, Hash, Structural)]
pub enum XIFocusEventDetail {
    Ancestor,
    Virtual,
    Inferior,
    Nonlinear,
    NonlinearVirtual,
    Pointer,
    PointerRoot,
    NoDetail,
}

impl XIFocusEventDetail {
    /// Wraps an existing focus event detail; the native encoding defines
    /// exactly the values 0 to 7.
    pub fn new(detail: i32) -> (r: Self)
        requires
            0 <= detail <= 7,
        ensures
            detail == 0 ==> r == XIFocusEventDetail::Ancestor,
            detail == 1 ==> r == XIFocusEventDetail::Virtual,
            detail == 2 ==> r == XIFocusEventDetail::Inferior,
            detail == 3 ==> r == XIFocusEventDetail::Nonlinear,
            detail == 4 ==> r == XIFocusEventDetail::NonlinearVirtual,
            detail == 5 ==> r == XIFocusEventDetail::Pointer,
            detail == 6 ==> r == XIFocusEventDetail::PointerRoot,
            detail == 7 ==> r == XIFocusEventDetail::NoDetail,
    {
        if detail == 0 {
            XIFocusEventDetail::Ancestor
        } else if detail == 1 {
            XIFocusEventDetail::Virtual
        } else if detail == 2 {
            XIFocusEventDetail::Inferior
        } else if detail == 3 {
            XIFocusEventDetail::Nonlinear
        } else if detail == 4 {
            XIFocusEventDetail::NonlinearVirtual
        } else if detail == 5 {
            XIFocusEventDetail::Pointer
        } else if detail == 6 {
            XIFocusEventDetail::PointerRoot
        } else {
            XIFocusEventDetail::NoDetail
        }
    }
}

/// What a device property change did.
#[derive(Debug, Copy, Clone, Eq, PartialEq, Hash, Structural)]
pub enum XIPropertyEventChange {
    Created,
    Deleted,
    Modified,
}

impl XIPropertyEventChange {
    /// Wraps an existing property event change; the native encoding defines
    /// exactly the values 0 (deleted), 1 (created) and 2 (modified).
    pub fn new(change: i32) -> (r: Self)
        requires
            0 <= change <= 2,
        ensures
            change == 0 ==> r == XIPropertyEventChange::Deleted,
            change == 1 ==> r == XIPropertyEventChange::Created,
            change == 2 ==> r == XIPropertyEventChange::Modified,
    {
        if change == 0 {
            XIPropertyEventChange::Deleted
        } else if change == 1 {
            XIPropertyEventChange::Created
        } else {
            XIPropertyEventChange::Modified
        }
    }
}

/// The button state of an extension event: a byte mask with one bit per
/// button.
#[derive(Debug)]
pub struct XIButtonState {
    pub mask: Vec<u8>,
}

impl XIButtonState {
    /// Creates a new button state from its mask.
    pub fn new(mask: Vec<u8>) -> (r: Self)
        ensures
            r.mask == mask,
    {
        XIButtonState { mask }
    }

    /// Retrieves the mask of this state.
    pub fn mask(&self) -> (r: &Vec<u8>)
        ensures
            r == self.mask,
    {
        &self.mask
    }
}

/// The valuator state of an extension event: the axis mask together with
/// one value (a 64-bit IEEE-754 pattern) per set axis bit, in ascending
/// axis order.
#[derive(Debug)]
pub struct XIValuatorState {
    pub mask: Vec<u8>,
    pub values: Vec<u64>,
}

impl XIValuatorState {
    /// Creates a new valuator state.
    pub fn new(mask: Vec<u8>, values: Vec<u64>) -> (r: Self)
        ensures
            r.mask == mask,
            r.values == values,
    {
        XIValuatorState { mask, values }
    }

    /// Retrieves the mask of this state.
    pub fn mask(&self) -> (r: &Vec<u8>)
        ensures
            r == self.mask,
    {
        &self.mask
    }

    /// Retrieves the values of this state.
    pub fn values(&self) -> (r: &Vec<u64>)
        ensures
            r == self.values,
    {
        &self.values
    }

    /// The state pairs every set mask bit with one value.
    pub open spec fn wf(&self) -> bool {
        &&& self.values@.len() == popcount(self.mask@)
        &&& self.mask@.len() * 8 <= usize::MAX
    }

    /// Pairs every set axis bit with its value, in ascending axis order.
    pub fn pairs(&self) -> (out: Vec<(u32, u64)>)
        requires
            self.wf(),
        ensures
            out@ == masked_pairs(self.mask@, self.values@, self.mask@.len() * 8int),
    {
        let end = self.mask.len() * 8;
        let mut out: Vec<(u32, u64)> = Vec::new();
        let mut i: usize = 0;
        while i < end
            invariant
                end == self.mask@.len() * 8,
                0 <= i <= end,
                self.wf(),
                out@ == masked_pairs(self.mask@, self.values@, i as int),
                out@.len() == count_set(self.mask@, i as int),
            decreases end - i,
        {
            proof {
                lemma_masked_pairs_len(self.mask@, self.values@, i as int);
                lemma_count_set_le(self.mask@, i + 1, end as int);
            }
            if mask_bit_set(&self.mask, i) {
                let idx = i as u32;
                out.push((idx, self.values[out.len()]));
            }
            i = i + 1;
        }
        out
    }
}

/// The modifier state carried by extension input events.
#[derive(Debug, Copy, Clone, Eq, PartialEq, Structural)]
pub struct XIModifierState {
    pub base: u32,
    pub latched: u32,
    pub locked: u32,
    pub effective: u32,
}

impl XIModifierState {
    /// Converts a wire modifier state.
    pub fn new(state: &XWireModifierState) -> (r: Self)
        ensures
            r.decodes(*state),
    {
        XIModifierState {
            base: state.base as u32,
            latched: state.latched as u32,
            locked: state.locked as u32,
            effective: state.effective as u32,
        }
    }

    /// How this state decodes the wire modifier state.
    pub open spec fn decodes(self, w: XWireModifierState) -> bool {
        &&& self.base == w.base as u32
        &&& self.latched == w.latched as u32
        &&& self.locked == w.locked as u32
        &&& self.effective == w.effective as u32
    }

    /// Retrieves the currently pressed modifiers.
    pub fn base(&self) -> (r: u32)
        ensures
            r == self.base,
    {
        self.base
    }

    /// Retrieves the latched modifiers.
    pub fn latched(&self) -> (r: u32)
        ensures
            r == self.latched,
    {
        self.latched
    }

    /// Retrieves the locked modifiers.
    pub fn locked(&self) -> (r: u32)
        ensures
            r == self.locked,
    {
        self.locked
    }

    /// Retrieves the effectively active modifiers.
    pub fn effective(&self) -> (r: u32)
        ensures
            r == self.effective,
    {
        self.effective
    }
}

/// One hierarchy entry of a hierarchy-changed event.
#[derive(Debug)]
pub struct XIHierarchyInfo<'a> {
    pub device: XInputDevice<'a>,
    pub attachment: i32,
    pub usage: i32,
    pub enabled: bool,
    pub flags: XIHierarchyChangeFlags,
}

impl<'a> XIHierarchyInfo<'a> {
    /// How this entry decodes its wire form.
    pub open spec fn decodes(self, w: XWireHierarchyInfo, display: &XDisplay) -> bool {
        &&& self.device.id == w.deviceid
        &&& self.device.display == display
        &&& self.attachment == w.attachment
        &&& self.usage == w.usage
        &&& self.enabled == (w.enabled != 0)
        &&& self.flags.bits == w.flags
    }

    /// Converts one wire hierarchy entry.
    pub fn new(info: &XWireHierarchyInfo, display: &'a XDisplay) -> (r: Self)
        ensures
            r.decodes(*info, display),
    {
        XIHierarchyInfo {
            device: XInputDevice::from_id(info.deviceid, display),
            attachment: info.attachment,
            usage: info.usage,
            enabled: info.enabled != 0,
            flags: XIHierarchyChangeFlags::from_bits_retain(info.flags),
        }
    }

    /// Retrieves the device this info applies to.
    pub fn device(&self) -> (r: &XInputDevice<'a>)
        ensures
            *r == self.device,
    {
        &self.device
    }

    /// Retrieves the attachment of this info.
    pub fn attachment(&self) -> (r: i32)
        ensures
            r == self.attachment,
    {
        self.attachment
    }

    /// Retrieves the usage of this info.
    pub fn usage(&self) -> (r: i32)
        ensures
            r == self.usage,
    {
        self.usage
    }

    /// Determines whether the device is enabled.
    pub fn enabled(&self) -> (r: bool)
        ensures
            r == self.enabled,
    {
        self.enabled
    }

    /// Retrieves the flags of this info.
    pub fn flags(&self) -> (r: XIHierarchyChangeFlags)
        ensures
            r == self.flags,
    {
        self.flags
    }
}

/// A hierarchy-changed event.
#[derive(Debug)]
pub struct XIHierarchyEvent<'a> {
    pub time: u64,
    pub flags: XIHierarchyChangeFlags,
    pub info: Vec<XIHierarchyInfo<'a>>,
}

impl<'a> XIHierarchyEvent<'a> {
    /// How this event decodes its wire form.
    pub open spec fn decodes(self, w: XWireHierarchyEvent, display: &XDisplay) -> bool {
        &&& self.time == w.time
        &&& self.flags.bits == w.flags
        &&& self.info@.len() == w.info@.len()
        &&& forall|i: int|
            0 <= i < self.info@.len() ==> #[trigger] self.info@[i].decodes(w.info@[i], display)
    }

    /// Converts a wire hierarchy-changed event.
    pub fn new(event: &XWireHierarchyEvent, display: &'a XDisplay) -> (r: Self)
        ensures
            r.decodes(*event, display),
    {
        let n = event.info.len();
        let mut info: Vec<XIHierarchyInfo<'a>> = Vec::new();
        let mut i: usize = 0;
        while i < n
            invariant
                n == event.info@.len(),
                0 <= i <= n,
                info@.len() == i,
                forall|j: int|
                    0 <= j < i ==> #[trigger] info@[j].decodes(event.info@[j], display),
            decreases n - i,
        {
            info.push(XIHierarchyInfo::new(&event.info[i], display));
            i = i + 1;
        }
        XIHierarchyEvent {
            time: event.time,
            flags: XIHierarchyChangeFlags::from_bits_retain(event.flags),
            info,
        }
    }

    /// Retrieves the timestamp this event occurred at.
    pub fn time(&self) -> (r: u64)
        ensures
            r == self.time,
    {
        self.time
    }

    /// Retrieves the flags of this event.
    pub fn flags(&self) -> (r: XIHierarchyChangeFlags)
        ensures
            r == self.flags,
    {
        self.flags
    }

    /// Retrieves additional hierarchy info of this event.
    pub fn info(&self) -> (r: &Vec<XIHierarchyInfo<'a>>)
        ensures
            r == self.info,
    {
        &self.info
    }
}

/// One class description of an input device.
#[derive(Debug)]
pub enum XIClassInfo<'a> {
    Button { source: XInputDevice<'a>, labels: Vec<XAtom<'a>>, state: XIButtonState },
    Key { source: XInputDevice<'a>, key_codes: Vec<i32> },
    Valuator {
        source: XInputDevice<'a>,
        number: i32,
        label: Option<XAtom<'a>>,
        min: u64,
        max: u64,
        value: u64,
        resolution: i32,
        mode: XIValuatorMode,
    },
    Scroll {
        source: XInputDevice<'a>,
        number: i32,
        ty: XIScrollType,
        increment: u64,
        flags: XIScrollFlags,
    },
    Touch { source: XInputDevice<'a>, mode: XITouchMode, num_touches: u32 },
}

impl<'a> XIClassInfo<'a> {
    /// How this class decodes its wire form.
    pub open spec fn decodes(self, w: XWireClassInfo, display: &XDisplay) -> bool {
        match w {
            XWireClassInfo::Key { sourceid, keycodes } => {
                &&& self matches XIClassInfo::Key { source, key_codes }
                &&& source.id == sourceid
                &&& source.display == display
                &&& key_codes@ == keycodes@
            },
            XWireClassInfo::Button { sourceid, labels, state_mask } => {
                &&& self matches XIClassInfo::Button { source, labels: out_labels, state }
                &&& source.id == sourceid
                &&& source.display == display
                &&& out_labels@.len() == labels@.len()
                &&& forall|i: int|
                    0 <= i < labels@.len() ==> (#[trigger] out_labels@[i]).handle == labels@[i]
                        && out_labels@[i].display == display
                &&& state.mask@ == state_mask@
            },
            XWireClassInfo::Valuator {
                sourceid,
                number,
                label,
                min,
                max,
                value,
                resolution,
                mode,
            } => {
                &&& self matches XIClassInfo::Valuator {
                    source,
                    number: out_number,
                    label: out_label,
                    min: out_min,
                    max: out_max,
                    value: out_value,
                    resolution: out_resolution,
                    mode: out_mode,
                }
                &&& source.id == sourceid
                &&& source.display == display
                &&& out_number == number
                &&& (label == 0 ==> out_label is None)
                &&& (label != 0 ==> (out_label matches Some(a) && a.handle == label
                    && a.display == display))
                &&& out_min == min
                &&& out_max == max
                &&& out_value == value
                &&& out_resolution == resolution
                &&& (mode == 1 ==> out_mode == XIValuatorMode::Absolute)
                &&& (mode == 0 ==> out_mode == XIValuatorMode::Relative)
            },
            XWireClassInfo::Scroll { sourceid, number, scroll_type, increment, flags } => {
                &&& self matches XIClassInfo::Scroll {
                    source,
                    number: out_number,
                    ty,
                    increment: out_increment,
                    flags: out_flags,
                }
                &&& source.id == sourceid
                &&& source.display == display
                &&& out_number == number
                &&& (scroll_type == 1 ==> ty == XIScrollType::Vertical)
                &&& (scroll_type == 2 ==> ty == XIScrollType::Horizontal)
                &&& out_increment == increment
                &&& out_flags.bits == flags
            },
            XWireClassInfo::Touch { sourceid, mode, num_touches } => {
                &&& self matches XIClassInfo::Touch {
                    source,
                    mode: out_mode,
                    num_touches: out_num,
                }
                &&& source.id == sourceid
                &&& source.display == display
                &&& (mode == 1 ==> out_mode == XITouchMode::Direct)
                &&& (mode == 2 ==> out_mode == XITouchMode::Dependent)
                &&& out_num == num_touches as u32
            },
        }
    }

    /// Converts one wire class description.
    pub fn new(class: &XWireClassInfo, display: &'a XDisplay) -> (r: Self)
        requires
            class.wf(),
        ensures
            r.decodes(*class, display),
    {
        match class {
            XWireClassInfo::Key { sourceid, keycodes } => XIClassInfo::Key {
                source: XInputDevice::from_id(*sourceid, display),
                key_codes: copy_i32s(keycodes),
            },
            XWireClassInfo::Button { sourceid, labels, state_mask } => {
                let n = labels.len();
                let mut out_labels: Vec<XAtom<'a>> = Vec::new();
                let mut i: usize = 0;
                while i < n
                    invariant
                        n == labels@.len(),
                        0 <= i <= n,
                        out_labels@.len() == i,
                        forall|j: int|
                            0 <= j < i ==> (#[trigger] out_labels@[j]).handle == labels@[j]
                                && out_labels@[j].display == display,
                    decreases n - i,
                {
                    out_labels.push(XAtom::new(labels[i], display));
                    i = i + 1;
                }
                XIClassInfo::Button {
                    source: XInputDevice::from_id(*sourceid, display),
                    labels: out_labels,
                    state: XIButtonState::new(copy_bytes(state_mask)),
                }
            },
            XWireClassInfo::Valuator {
                sourceid,
                number,
                label,
                min,
                max,
                value,
                resolution,
                mode,
            } => XIClassInfo::Valuator {
                source: XInputDevice::from_id(*sourceid, display),
                number: *number,
                label: if *label == 0 {
                    None
                } else {
                    Some(XAtom::new(*label, display))
                },
                min: *min,
                max: *max,
                value: *value,
                resolution: *resolution,
                mode: XIValuatorMode::new(*mode),
            },
            XWireClassInfo::Scroll { sourceid, number, scroll_type, increment, flags } => {
                XIClassInfo::Scroll {
                    source: XInputDevice::from_id(*sourceid, display),
                    number: *number,
                    ty: XIScrollType::new(*scroll_type),
                    increment: *increment,
                    flags: XIScrollFlags::from_bits_retain(*flags),
                }
            },
            XWireClassInfo::Touch { sourceid, mode, num_touches } => XIClassInfo::Touch {
                source: XInputDevice::from_id(*sourceid, display),
                mode: XITouchMode::new(*mode),
                num_touches: *num_touches as u32,
            },
        }
    }
}

/// A device-changed event.
#[derive(Debug)]
pub struct XIDeviceChangedEvent<'a> {
    pub time: u64,
    pub device: XInputDevice<'a>,
    pub source: XInputDevice<'a>,
    pub reason: XIDeviceChangeReason,
    pub classes: Vec<XIClassInfo<'a>>,
}

impl<'a> XIDeviceChangedEvent<'a> {
    /// How this event decodes its wire form.
    pub open spec fn decodes(self, w: XWireDeviceChangedEvent, display: &XDisplay) -> bool {
        &&& self.time == w.time
        &&& self.device.id == w.deviceid
        &&& self.device.display == display
        &&& self.source.id == w.sourceid
        &&& self.source.display == display
        &&& (w.reason == 1 ==> self.reason == XIDeviceChangeReason::SlaveSwitch)
        &&& (w.reason == 2 ==> self.reason == XIDeviceChangeReason::DeviceChange)
        &&& self.classes@.len() == w.classes@.len()
        &&& forall|i: int|
            0 <= i < self.classes@.len() ==> #[trigger] self.classes@[i].decodes(
                w.classes@[i],
                display,
            )
    }

    /// Converts a wire device-changed event.
    pub fn new(event: &XWireDeviceChangedEvent, display: &'a XDisplay) -> (r: Self)
        requires
            event.wf(),
        ensures
            r.decodes(*event, display),
    {
        let n = event.classes.len();
        let mut classes: Vec<XIClassInfo<'a>> = Vec::new();
        let mut i: usize = 0;
        while i < n
            invariant
                n == event.classes@.len(),
                0 <= i <= n,
                event.wf(),
                classes@.len() == i,
                forall|j: int|
                    0 <= j < i ==> #[trigger] classes@[j].decodes(event.classes@[j], display),
            decreases n - i,
        {
            assert(event.classes@[i as int].wf());
            classes.push(XIClassInfo::new(&event.classes[i], display));
            i = i + 1;
        }
        XIDeviceChangedEvent {
            time: event.time,
            device: XInputDevice::from_id(event.deviceid, display),
            source: XInputDevice::from_id(event.sourceid, display),
            reason: XIDeviceChangeReason::new(event.reason),
            classes,
        }
    }

    /// Retrieves the timestamp this event occurred at.
    pub fn time(&self) -> (r: u64)
        ensures
            r == self.time,
    {
        self.time
    }

    /// Retrieves the device that changed.
    pub fn device(&self) -> (r: &XInputDevice<'a>)
        ensures
            *r == self.device,
    {
        &self.device
    }

    /// Retrieves the source of the new classes.
    pub fn source(&self) -> (r: &XInputDevice<'a>)
        ensures
            *r == self.source,
    {
        &self.source
    }

    /// Retrieves the reason the device changed.
    pub fn reason(&self) -> (r: XIDeviceChangeReason)
        ensures
            r == self.reason,
    {
        self.reason
    }

    /// Retrieves the new classes of the device.
    pub fn classes(&self) -> (r: &Vec<XIClassInfo<'a>>)
        ensures
            r == self.classes,
    {
        &self.classes
    }
}

/// An extension device event: a key, button, motion or touch report.
#[derive(Debug)]
pub struct XIDeviceEvent<'a> {
    pub time: u64,
    pub device: XInputDevice<'a>,
    pub source: XInputDevice<'a>,
    pub detail: i32,
    pub root: XWindow<'a>,
    pub event: XWindow<'a>,
    pub child: XWindow<'a>,
    pub root_x: u64,
    pub root_y: u64,
    pub event_x: u64,
    pub event_y: u64,
    pub flags: XIDeviceEventFlags,
    pub buttons: XIButtonState,
    pub valuators: XIValuatorState,
    pub modifiers: XIModifierState,
    pub group: XIModifierState,
}

impl<'a> XIDeviceEvent<'a> {
    /// Every window handle embedded in this event is foreign.
    pub open spec fn all_foreign(self) -> bool {
        &&& self.root.is_foreign()
        &&& self.event.is_foreign()
        &&& self.child.is_foreign()
    }

    /// How this event decodes its wire form: every fixed field is copied,
    /// every window handle is wrapped as foreign, and the valuator state
    /// pairs the axis mask with exactly one packed value per set bit.
    pub open spec fn decodes(self, w: XWireDeviceEvent, display: &XDisplay) -> bool {
        &&& self.time == w.time
        &&& self.device.id == w.deviceid
        &&& self.device.display == display
        &&& self.source.id == w.sourceid
        &&& self.source.display == display
        &&& self.detail == w.detail
        &&& self.root.handle == w.root
        &&& self.root.display == display
        &&& self.event.handle == w.event
        &&& self.event.display == display
        &&& self.child.handle == w.child
        &&& self.child.display == display
        &&& self.all_foreign()
        &&& self.root_x == w.root_x
        &&& self.root_y == w.root_y
        &&& self.event_x == w.event_x
        &&& self.event_y == w.event_y
        &&& self.flags.bits == w.flags
        &&& self.buttons.mask@ == w.buttons@
        &&& self.valuators.mask@ == w.valuators.mask@
        &&& self.valuators.values@ == w.valuators.values@.take(
            popcount(w.valuators.mask@) as int,
        )
        &&& self.modifiers.decodes(w.mods)
        &&& self.group.decodes(w.group)
    }

    /// Converts a wire device event, pairing the valuator mask with its
    /// packed values.
    pub fn new(event: &XWireDeviceEvent, display: &'a XDisplay) -> (r: Self)
        requires
            event.wf(),
        ensures
            r.decodes(*event, display),
            r.all_foreign(),
    {
        let valuator_values = extract_masked_values(&event.valuators.mask, &event.valuators.values);
        let valuators = XIValuatorState::new(copy_bytes(&event.valuators.mask), valuator_values);
        XIDeviceEvent {
            time: event.time,
            device: XInputDevice::from_id(event.deviceid, display),
            source: XInputDevice::from_id(event.sourceid, display),
            detail: event.detail,
            root: XWindow::new(event.root, display, WindowHandleOwnership::Foreign),
            event: XWindow::new(event.event, display, WindowHandleOwnership::Foreign),
            child: XWindow::new(event.child, display, WindowHandleOwnership::Foreign),
            root_x: event.root_x,
            root_y: event.root_y,
            event_x: event.event_x,
            event_y: event.event_y,
            flags: XIDeviceEventFlags::from_bits_retain(event.flags),
            buttons: XIButtonState::new(copy_bytes(&event.buttons)),
            valuators,
            modifiers: XIModifierState::new(&event.mods),
            group: XIModifierState::new(&event.group),
        }
    }

    /// Retrieves the timestamp this event occurred at.
    pub fn time(&self) -> (r: u64)
        ensures
            r == self.time,
    {
        self.time
    }

    /// Retrieves the device that sent the event.
    pub fn device(&self) -> (r: &XInputDevice<'a>)
        ensures
            *r == self.device,
    {
        &self.device
    }

    /// Retrieves the source device of the event.
    pub fn source(&self) -> (r: &XInputDevice<'a>)
        ensures
            *r == self.source,
    {
        &self.source
    }

    /// Retrieves the detail of this event.
    pub fn detail(&self) -> (r: i32)
        ensures
            r == self.detail,
    {
        self.detail
    }

    /// Retrieves the root window this event occurred in.
    pub fn root(&self) -> (r: &XWindow<'a>)
        ensures
            *r == self.root,
    {
        &self.root
    }

    /// Retrieves the window this event occurred in.
    pub fn event(&self) -> (r: &XWindow<'a>)
        ensures
            *r == self.event,
    {
        &self.event
    }

    /// Retrieves the window this event targeted.
    pub fn child(&self) -> (r: &XWindow<'a>)
        ensures
            *r == self.child,
    {
        &self.child
    }

    /// The x coordinate in the root window, as an IEEE-754 bit pattern.
    pub fn root_x(&self) -> (r: u64)
        ensures
            r == self.root_x,
    {
        self.root_x
    }

    /// The y coordinate in the root window, as an IEEE-754 bit pattern.
    pub fn root_y(&self) -> (r: u64)
        ensures
            r == self.root_y,
    {
        self.root_y
    }

    /// The x coordinate in the event window, as an IEEE-754 bit pattern.
    pub fn event_x(&self) -> (r: u64)
        ensures
            r == self.event_x,
    {
        self.event_x
    }

    /// The y coordinate in the event window, as an IEEE-754 bit pattern.
    pub fn event_y(&self) -> (r: u64)
        ensures
            r == self.event_y,
    {
        self.event_y
    }

    /// Retrieves the flags of this event.
    pub fn flags(&self) -> (r: XIDeviceEventFlags)
        ensures
            r == self.flags,
    {
        self.flags
    }

    /// Retrieves the buttons that triggered this event.
    pub fn buttons(&self) -> (r: &XIButtonState)
        ensures
            r == self.buttons,
    {
        &self.buttons
    }

    /// Retrieves the valuators that were active during this event.
    pub fn valuators(&self) -> (r: &XIValuatorState)
        ensures
            r == self.valuators,
    {
        &self.valuators
    }

    /// Retrieves the modifiers that were active during this event.
    pub fn modifiers(&self) -> (r: &XIModifierState)
        ensures
            *r == self.modifiers,
    {
        &self.modifiers
    }

    /// Retrieves the group modifiers that were active during this event.
    pub fn group(&self) -> (r: &XIModifierState)
        ensures
            *r == self.group,
    {
        &self.group
    }
}

/// A raw extension event: unprocessed device values, with both the
/// transformed and the raw value array paired against one axis mask.
#[derive(Debug)]
pub struct XIRawEvent<'a> {
    pub time: u64,
    pub device: XInputDevice<'a>,
    pub source: XInputDevice<'a>,
    pub detail: i32,
    pub flags: XIDeviceEventFlags,
    pub valuators: XIValuatorState,
    pub raw_values: Vec<u64>,
}

impl<'a> XIRawEvent<'a> {
    /// How this event decodes its wire form: both value arrays pair with
    /// the same mask, one entry per set bit in ascending bit order.
    pub open spec fn decodes(self, w: XWireRawDeviceEvent, display: &XDisplay) -> bool {
        &&& self.time == w.time
        &&& self.device.id == w.deviceid
        &&& self.device.display == display
        &&& self.source.id == w.sourceid
        &&& self.source.display == display
        &&& self.detail == w.detail
        &&& self.flags.bits == w.flags
        &&& self.valuators.mask@ == w.valuators.mask@
        &&& self.valuators.values@ == w.valuators.values@.take(
            popcount(w.valuators.mask@) as int,
        )
        &&& self.raw_values@ == w.raw_values@.take(popcount(w.valuators.mask@) as int)
    }

    /// Converts a wire raw event, pairing both value arrays with the mask.
    pub fn new(event: &XWireRawDeviceEvent, display: &'a XDisplay) -> (r: Self)
        requires
            event.wf(),
        ensures
            r.decodes(*event, display),
    {
        let valuator_values = extract_masked_values(&event.valuators.mask, &event.valuators.values);
        let raw_values = extract_masked_values(&event.valuators.mask, &event.raw_values);
        XIRawEvent {
            time: event.time,
            device: XInputDevice::from_id(event.deviceid, display),
            source: XInputDevice::from_id(event.sourceid, display),
            detail: event.detail,
            flags: XIDeviceEventFlags::from_bits_retain(event.flags),
            valuators: XIValuatorState::new(copy_bytes(&event.valuators.mask), valuator_values),
            raw_values,
        }
    }

    /// Retrieves the timestamp this event occurred at.
    pub fn time(&self) -> (r: u64)
        ensures
            r == self.time,
    {
        self.time
    }

    /// Retrieves the device that sent the event.
    pub fn device(&self) -> (r: &XInputDevice<'a>)
        ensures
            *r == self.device,
    {
        &self.device
    }

    /// Retrieves the source device of the event.
    pub fn source(&self) -> (r: &XInputDevice<'a>)
        ensures
            *r == self.source,
    {
        &self.source
    }

    /// Retrieves the detail of the event.
    pub fn detail(&self) -> (r: i32)
        ensures
            r == self.detail,
    {
        self.detail
    }

    /// Retrieves the flags of the event.
    pub fn flags(&self) -> (r: XIDeviceEventFlags)
        ensures
            r == self.flags,
    {
        self.flags
    }

    /// Retrieves the valuators of the event.
    pub fn valuators(&self) -> (r: &XIValuatorState)
        ensures
            r == self.valuators,
    {
        &self.valuators
    }

    /// Retrieves the raw values of the event, one per set mask bit.
    pub fn raw_values(&self) -> (r: &Vec<u64>)
        ensures
            r == self.raw_values,
    {
        &self.raw_values
    }
}

/// A touch ownership change.
#[derive(Debug)]
pub struct XITouchOwnershipEvent<'a> {
    pub time: u64,
    pub device: XInputDevice<'a>,
    pub source: XInputDevice<'a>,
    pub touch_id: u32,
    pub root: XWindow<'a>,
    pub event: XWindow<'a>,
    pub child: XWindow<'a>,
    pub flags: XITouchOwnershipEventFlags,
}

impl<'a> XITouchOwnershipEvent<'a> {
    /// Every window handle embedded in this event is foreign.
    pub open spec fn all_foreign(self) -> bool {
        &&& self.root.is_foreign()
        &&& self.event.is_foreign()
        &&& self.child.is_foreign()
    }

    /// How this event decodes its wire form.
    pub open spec fn decodes(self, w: XWireTouchOwnershipEvent, display: &XDisplay) -> bool {
        &&& self.time == w.time
        &&& self.device.id == w.deviceid
        &&& self.device.display == display
        &&& self.source.id == w.sourceid
        &&& self.source.display == display
        &&& self.touch_id == w.touchid
        &&& self.root.handle == w.root
        &&& self.root.display == display
        &&& self.event.handle == w.event
        &&& self.event.display == display
        &&& self.child.handle == w.child
        &&& self.child.display == display
        &&& self.all_foreign()
        &&& self.flags.bits == w.flags
    }

    /// Converts a wire touch ownership event.
    pub fn new(event: &XWireTouchOwnershipEvent, display: &'a XDisplay) -> (r: Self)
        ensures
            r.decodes(*event, display),
            r.all_foreign(),
    {
        XITouchOwnershipEvent {
            time: event.time,
            device: XInputDevice::from_id(event.deviceid, display),
            source: XInputDevice::from_id(event.sourceid, display),
            touch_id: event.touchid,
            root: XWindow::new(event.root, display, WindowHandleOwnership::Foreign),
            event: XWindow::new(event.event, display, WindowHandleOwnership::Foreign),
            child: XWindow::new(event.child, display, WindowHandleOwnership::Foreign),
            flags: XITouchOwnershipEventFlags::from_bits_retain(event.flags),
        }
    }

    /// Retrieves the timestamp this event occurred at.
    pub fn time(&self) -> (r: u64)
        ensures
            r == self.time,
    {
        self.time
    }

    /// Retrieves the device that sent the event.
    pub fn device(&self) -> (r: &XInputDevice<'a>)
        ensures
            *r == self.device,
    {
        &self.device
    }

    /// Retrieves the source device of the event.
    pub fn source(&self) -> (r: &XInputDevice<'a>)
        ensures
            *r == self.source,
    {
        &self.source
    }

    /// Retrieves the touch id of the event.
    pub fn touch_id(&self) -> (r: u32)
        ensures
            r == self.touch_id,
    {
        self.touch_id
    }

    /// Retrieves the root window this event occurred in.
    pub fn root(&self) -> (r: &XWindow<'a>)
        ensures
            *r == self.root,
    {
        &self.root
    }

    /// Retrieves the window this event occurred in.
    pub fn event(&self) -> (r: &XWindow<'a>)
        ensures
            *r == self.event,
    {
        &self.event
    }

    /// Retrieves the window this event targeted.
    pub fn child(&self) -> (r: &XWindow<'a>)
        ensures
            *r == self.child,
    {
        &self.child
    }

    /// Retrieves the flags of this event.
    pub fn flags(&self) -> (r: XITouchOwnershipEventFlags)
        ensures
            r == self.flags,
    {
        self.flags
    }
}

/// An extension focus or crossing notification.
#[derive(Debug)]
pub struct XIFocusEvent<'a> {
    pub time: u64,
    pub device: XInputDevice<'a>,
    pub source: XInputDevice<'a>,
    pub detail: XIFocusEventDetail,
    pub root: XWindow<'a>,
    pub event: XWindow<'a>,
    pub child: XWindow<'a>,
    pub root_x: u64,
    pub root_y: u64,
    pub event_x: u64,
    pub event_y: u64,
    pub mode: XIFocusEventMode,
    pub focus: bool,
    pub same_screen: bool,
    pub buttons: XIButtonState,
    pub modifiers: XIModifierState,
    pub group: XIModifierState,
}

impl<'a> XIFocusEvent<'a> {
    /// Every window handle embedded in this event is foreign.
    pub open spec fn all_foreign(self) -> bool {
        &&& self.root.is_foreign()
        &&& self.event.is_foreign()
        &&& self.child.is_foreign()
    }

    /// How this event decodes its wire form.
    pub open spec fn decodes(self, w: XWireEnterEvent, display: &XDisplay) -> bool {
        &&& self.time == w.time
        &&& self.device.id == w.deviceid
        &&& self.device.display == display
        &&& self.source.id == w.sourceid
        &&& self.source.display == display
        &&& (w.detail == 0 ==> self.detail == XIFocusEventDetail::Ancestor)
        &&& (w.detail == 1 ==> self.detail == XIFocusEventDetail::Virtual)
        &&& (w.detail == 2 ==> self.detail == XIFocusEventDetail::Inferior)
        &&& (w.detail == 3 ==> self.detail == XIFocusEventDetail::Nonlinear)
        &&& (w.detail == 4 ==> self.detail == XIFocusEventDetail::NonlinearVirtual)
        &&& (w.detail == 5 ==> self.detail == XIFocusEventDetail::Pointer)
        &&& (w.detail == 6 ==> self.detail == XIFocusEventDetail::PointerRoot)
        &&& (w.detail == 7 ==> self.detail == XIFocusEventDetail::NoDetail)
        &&& self.root.handle == w.root
        &&& self.root.display == display
        &&& self.event.handle == w.event
        &&& self.event.display == display
        &&& self.child.handle == w.child
        &&& self.child.display == display
        &&& self.all_foreign()
        &&& self.root_x == w.root_x
        &&& self.root_y == w.root_y
        &&& self.event_x == w.event_x
        &&& self.event_y == w.event_y
        &&& (w.mode == 0 ==> self.mode == XIFocusEventMode::Normal)
        &&& (w.mode == 1 ==> self.mode == XIFocusEventMode::Grab)
        &&& (w.mode == 2 ==> self.mode == XIFocusEventMode::Ungrab)
        &&& self.focus == (w.focus != 0)
        &&& self.same_screen == (w.same_screen != 0)
        &&& self.buttons.mask@ == w.buttons@
        &&& self.modifiers.decodes(w.mods)
        &&& self.group.decodes(w.group)
    }

    /// Converts a wire focus or crossing notification.
    pub fn new(event: &XWireEnterEvent, display: &'a XDisplay) -> (r: Self)
        requires
            event.wf(),
        ensures
            r.decodes(*event, display),
            r.all_foreign(),
    {
        XIFocusEvent {
            time: event.time,
            device: XInputDevice::from_id(event.deviceid, display),
            source: XInputDevice::from_id(event.sourceid, display),
            detail: XIFocusEventDetail::new(event.detail),
            root: XWindow::new(event.root, display, WindowHandleOwnership::Foreign),
            event: XWindow::new(event.event, display, WindowHandleOwnership::Foreign),
            child: XWindow::new(event.child, display, WindowHandleOwnership::Foreign),
            root_x: event.root_x,
            root_y: event.root_y,
            event_x: event.event_x,
            event_y: event.event_y,
            mode: XIFocusEventMode::new(event.mode),
            focus: event.focus != 0,
            same_screen: event.same_screen != 0,
            buttons: XIButtonState::new(copy_bytes(&event.buttons)),
            modifiers: XIModifierState::new(&event.mods),
            group: XIModifierState::new(&event.group),
        }
    }

    /// Retrieves the timestamp this event occurred at.
    pub fn time(&self) -> (r: u64)
        ensures
            r == self.time,
    {
        self.time
    }

    /// Retrieves the device that sent the event.
    pub fn device(&self) -> (r: &XInputDevice<'a>)
        ensures
            *r == self.device,
    {
        &self.device
    }

    /// Retrieves the source device of the event.
    pub fn source(&self) -> (r: &XInputDevice<'a>)
        ensures
            *r == self.source,
    {
        &self.source
    }

    /// Retrieves the detail of this event.
    pub fn detail(&self) -> (r: XIFocusEventDetail)
        ensures
            r == self.detail,
    {
        self.detail
    }

    /// Retrieves the root window this event occurred in.
    pub fn root(&self) -> (r: &XWindow<'a>)
        ensures
            *r == self.root,
    {
        &self.root
    }

    /// Retrieves the window this event occurred in.
    pub fn event(&self) -> (r: &XWindow<'a>)
        ensures
            *r == self.event,
    {
        &self.event
    }

    /// Retrieves the window this event targeted.
    pub fn child(&self) -> (r: &XWindow<'a>)
        ensures
            *r == self.child,
    {
        &self.child
    }

    /// The x coordinate in the root window, as an IEEE-754 bit pattern.
    pub fn root_x(&self) -> (r: u64)
        ensures
            r == self.root_x,
    {
        self.root_x
    }

    /// The y coordinate in the root window, as an IEEE-754 bit pattern.
    pub fn root_y(&self) -> (r: u64)
        ensures
            r == self.root_y,
    {
        self.root_y
    }

    /// The x coordinate in the event window, as an IEEE-754 bit pattern.
    pub fn event_x(&self) -> (r: u64)
        ensures
            r == self.event_x,
    {
        self.event_x
    }

    /// The y coordinate in the event window, as an IEEE-754 bit pattern.
    pub fn event_y(&self) -> (r: u64)
        ensures
            r == self.event_y,
    {
        self.event_y
    }

    /// Retrieves the mode of this event.
    pub fn mode(&self) -> (r: XIFocusEventMode)
        ensures
            r == self.mode,
    {
        self.mode
    }

    /// Determines whether the focus is now active.
    pub fn focus(&self) -> (r: bool)
        ensures
            r == self.focus,
    {
        self.focus
    }

    /// Determines whether the event occurred on the same screen.
    pub fn same_screen(&self) -> (r: bool)
        ensures
            r == self.same_screen,
    {
        self.same_screen
    }

    /// Retrieves the buttons that triggered this event.
    pub fn buttons(&self) -> (r: &XIButtonState)
        ensures
            r == self.buttons,
    {
        &self.buttons
    }

    /// Retrieves the modifiers that were active during this event.
    pub fn modifiers(&self) -> (r: &XIModifierState)
        ensures
            *r == self.modifiers,
    {
        &self.modifiers
    }

    /// Retrieves the group modifiers that were active during this event.
    pub fn group(&self) -> (r: &XIModifierState)
        ensures
            *r == self.group,
    {
        &self.group
    }
}

/// A pointer barrier notification.
#[derive(Debug)]
pub struct XIBarrierEvent<'a> {
    pub time: u64,
    pub device: XInputDevice<'a>,
    pub source: XInputDevice<'a>,
    pub event: XWindow<'a>,
    pub root: XWindow<'a>,
    pub root_x: u64,
    pub root_y: u64,
    pub dx: u64,
    pub dy: u64,
    pub dtime: i32,
    pub flags: XIBarrierEventFlags,
    pub barrier: u64,
    pub event_id: u32,
}

impl<'a> XIBarrierEvent<'a> {
    /// Every window handle embedded in this event is foreign.
    pub open spec fn all_foreign(self) -> bool {
        &&& self.event.is_foreign()
        &&& self.root.is_foreign()
    }

    /// How this event decodes its wire form.
    pub open spec fn decodes(self, w: XWireBarrierEvent, display: &XDisplay) -> bool {
        &&& self.time == w.time
        &&& self.device.id == w.deviceid
        &&& self.device.display == display
        &&& self.source.id == w.sourceid
        &&& self.source.display == display
        &&& self.event.handle == w.event
        &&& self.event.display == display
        &&& self.root.handle == w.root
        &&& self.root.display == display
        &&& self.all_foreign()
        &&& self.root_x == w.root_x
        &&& self.root_y == w.root_y
        &&& self.dx == w.dx
        &&& self.dy == w.dy
        &&& self.dtime == w.dtime
        &&& self.flags.bits == w.flags
        &&& self.barrier == w.barrier
        &&& self.event_id == w.eventid
    }

    /// Converts a wire barrier notification.
    pub fn new(event: &XWireBarrierEvent, display: &'a XDisplay) -> (r: Self)
        ensures
            r.decodes(*event, display),
            r.all_foreign(),
    {
        XIBarrierEvent {
            time: event.time,
            device: XInputDevice::from_id(event.deviceid, display),
            source: XInputDevice::from_id(event.sourceid, display),
            event: XWindow::new(event.event, display, WindowHandleOwnership::Foreign),
            root: XWindow::new(event.root, display, WindowHandleOwnership::Foreign),
            root_x: event.root_x,
            root_y: event.root_y,
            dx: event.dx,
            dy: event.dy,
            dtime: event.dtime,
            flags: XIBarrierEventFlags::from_bits_retain(event.flags),
            barrier: event.barrier,
            event_id: event.eventid,
        }
    }

    /// Retrieves the timestamp this event occurred at.
    pub fn time(&self) -> (r: u64)
        ensures
            r == self.time,
    {
        self.time
    }

    /// Retrieves the device that sent the event.
    pub fn device(&self) -> (r: &XInputDevice<'a>)
        ensures
            *r == self.device,
    {
        &self.device
    }

    /// Retrieves the source device of the event.
    pub fn source(&self) -> (r: &XInputDevice<'a>)
        ensures
            *r == self.source,
    {
        &self.source
    }

    /// Retrieves the root window this event occurred in.
    pub fn root(&self) -> (r: &XWindow<'a>)
        ensures
            *r == self.root,
    {
        &self.root
    }

    /// Retrieves the window this event occurred in.
    pub fn event(&self) -> (r: &XWindow<'a>)
        ensures
            *r == self.event,
    {
        &self.event
    }

    /// The x coordinate in the root window, as an IEEE-754 bit pattern.
    pub fn root_x(&self) -> (r: u64)
        ensures
            r == self.root_x,
    {
        self.root_x
    }

    /// The y coordinate in the root window, as an IEEE-754 bit pattern.
    pub fn root_y(&self) -> (r: u64)
        ensures
            r == self.root_y,
    {
        self.root_y
    }

    /// The x delta of this event, as an IEEE-754 bit pattern.
    pub fn dx(&self) -> (r: u64)
        ensures
            r == self.dx,
    {
        self.dx
    }

    /// The y delta of this event, as an IEEE-754 bit pattern.
    pub fn dy(&self) -> (r: u64)
        ensures
            r == self.dy,
    {
        self.dy
    }

    /// Retrieves the delta time of this event.
    pub fn dtime(&self) -> (r: i32)
        ensures
            r == self.dtime,
    {
        self.dtime
    }

    /// Retrieves the flags of this event.
    pub fn flags(&self) -> (r: XIBarrierEventFlags)
        ensures
            r == self.flags,
    {
        self.flags
    }

    /// Retrieves the barrier id which triggered this event.
    pub fn barrier(&self) -> (r: u64)
        ensures
            r == self.barrier,
    {
        self.barrier
    }

    /// Retrieves the barrier event id of this event.
    pub fn event_id(&self) -> (r: u32)
        ensures
            r == self.event_id,
    {
        self.event_id
    }
}

/// A device property change notification.
#[derive(Debug)]
pub struct XIPropertyEvent<'a> {
    pub time: u64,
    pub device: XInputDevice<'a>,
    pub property: XAtom<'a>,
    pub what: XIPropertyEventChange,
}

impl<'a> XIPropertyEvent<'a> {
    /// How this event decodes its wire form.
    pub open spec fn decodes(self, w: XWireXIPropertyEvent, display: &XDisplay) -> bool {
        &&& self.time == w.time
        &&& self.device.id == w.deviceid
        &&& self.device.display == display
        &&& self.property.handle == w.property
        &&& self.property.display == display
        &&& (w.what == 0 ==> self.what == XIPropertyEventChange::Deleted)
        &&& (w.what == 1 ==> self.what == XIPropertyEventChange::Created)
        &&& (w.what == 2 ==> self.what == XIPropertyEventChange::Modified)
    }

    /// Converts a wire device property notification.
    pub fn new(event: &XWireXIPropertyEvent, display: &'a XDisplay) -> (r: Self)
        requires
            0 <= event.what <= 2,
        ensures
            r.decodes(*event, display),
    {
        XIPropertyEvent {
            time: event.time,
            device: XInputDevice::from_id(event.deviceid, display),
            property: XAtom::new(event.property, display),
            what: XIPropertyEventChange::new(event.what),
        }
    }

    /// Retrieves the timestamp this event occurred at.
    pub fn time(&self) -> (r: u64)
        ensures
            r == self.time,
    {
        self.time
    }

    /// Retrieves the device whose property changed.
    pub fn device(&self) -> (r: &XInputDevice<'a>)
        ensures
            *r == self.device,
    {
        &self.device
    }

    /// Retrieves the property that changed.
    pub fn property(&self) -> (r: &XAtom<'a>)
        ensures
            *r == self.property,
    {
        &self.property
    }

    /// Retrieves what happened.
    pub fn what(&self) -> (r: XIPropertyEventChange)
        ensures
            r == self.what,
    {
        self.what
    }
}

} // verus!
