//! The per-frame input snapshot: a six-bit set of pointer buttons and
//! modifier keys.

use vstd::prelude::*;

verus! {

/// The bits that an input snapshot may hold.
pub const ALL_BITS: u8 = 0x3f;

pub const LEFT_CLICK: u8 = 0x01;

pub const RIGHT_CLICK: u8 = 0x02;

pub const MIDDLE_CLICK: u8 = 0x04;

pub const SHIFT: u8 = 0x08;

pub const CTRL: u8 = 0x10;

pub const ALT: u8 = 0x20;

pub const CLICKS: u8 = 0x07;

pub const MODIFIERS: u8 = 0x38;

/// A set of active pointer buttons and modifier keys.
#[derive(Clone, Copy, Debug, PartialEq, Eq, Structural)]
pub struct InputFlags {
    bits: u8,
}

/// The raw press state of the devices in one frame.
#[derive(Clone, Copy, Debug, PartialEq, Eq, Structural)]
pub struct RawInput {
    pub left: bool,
    pub right: bool,
    pub middle: bool,
    pub shift_left: bool,
    pub shift_right: bool,
    pub ctrl_left: bool,
    pub ctrl_right: bool,
    pub alt_left: bool,
    pub alt_right: bool,
}

pub open spec fn bit_if(on: bool, bit: u8) -> u8 {
    if on {
        bit
    } else {
        0
    }
}

/// The bits of the snapshot taken from `raw`: one for each button, and one for
/// each modifier whose left or right key is down.
pub open spec fn snapshot_bits(raw: RawInput) -> u8 {
    (bit_if(raw.left, 0x01) + bit_if(raw.right, 0x02) + bit_if(raw.middle, 0x04) + bit_if(
        raw.shift_left || raw.shift_right,
        0x08,
    ) + bit_if(raw.ctrl_left || raw.ctrl_right, 0x10) + bit_if(
        raw.alt_left || raw.alt_right,
        0x20,
    )) as u8
}

impl InputFlags {
    pub fn left_click() -> (r: InputFlags)
        ensures
            r@ == LEFT_CLICK,
            r.wf(),
    {
        assert(0x01u8 & !0x3fu8 == 0) by (bit_vector);
        InputFlags { bits: LEFT_CLICK }
    }

    pub fn right_click() -> (r: InputFlags)
        ensures
            r@ == RIGHT_CLICK,
            r.wf(),
    {
        assert(0x02u8 & !0x3fu8 == 0) by (bit_vector);
        InputFlags { bits: RIGHT_CLICK }
    }

    pub fn middle_click() -> (r: InputFlags)
        ensures
            r@ == MIDDLE_CLICK,
            r.wf(),
    {
        assert(0x04u8 & !0x3fu8 == 0) by (bit_vector);
        InputFlags { bits: MIDDLE_CLICK }
    }

    pub fn shift() -> (r: InputFlags)
        ensures
            r@ == SHIFT,
            r.wf(),
    {
        assert(0x08u8 & !0x3fu8 == 0) by (bit_vector);
        InputFlags { bits: SHIFT }
    }

    pub fn ctrl() -> (r: InputFlags)
        ensures
            r@ == CTRL,
            r.wf(),
    {
        assert(0x10u8 & !0x3fu8 == 0) by (bit_vector);
        InputFlags { bits: CTRL }
    }

    pub fn alt() -> (r: InputFlags)
        ensures
            r@ == ALT,
            r.wf(),
    {
        assert(0x20u8 & !0x3fu8 == 0) by (bit_vector);
        InputFlags { bits: ALT }
    }

    /// Any pointer button.
    pub fn clicks() -> (r: InputFlags)
        ensures
            r@ == CLICKS,
            r.wf(),
    {
        assert(0x07u8 & !0x3fu8 == 0) by (bit_vector);
        InputFlags { bits: CLICKS }
    }

    /// Any modifier key.
    pub fn modifiers() -> (r: InputFlags)
        ensures
            r@ == MODIFIERS,
            r.wf(),
    {
        assert(0x38u8 & !0x3fu8 == 0) by (bit_vector);
        InputFlags { bits: MODIFIERS }
    }

    /// The bits of the set, as a number.
    pub closed spec fn view(self) -> u8 {
        self.bits
    }

    /// Every set holds only the six defined bits.
    pub open spec fn wf(self) -> bool {
        self@ & !ALL_BITS == 0
    }

    pub fn bits(&self) -> (r: u8)
        ensures
            r == self@,
    {
        self.bits
    }

    /// The set of the defined bits among `bits`; the others are dropped.
    pub fn from_bits_truncate(bits: u8) -> (r: InputFlags)
        ensures
            r@ == bits & ALL_BITS,
            r.wf(),
    {
        let r = InputFlags { bits: bits & ALL_BITS };
        assert(bits & 0x3f & !0x3fu8 == 0) by (bit_vector);
        r
    }

    pub fn empty() -> (r: InputFlags)
        ensures
            r@ == 0,
            r.wf(),
    {
        let r = InputFlags { bits: 0 };
        assert(0u8 & !0x3fu8 == 0) by (bit_vector);
        r
    }

    pub fn all() -> (r: InputFlags)
        ensures
            r@ == ALL_BITS,
            r.wf(),
    {
        let r = InputFlags { bits: ALL_BITS };
        assert(0x3fu8 & !0x3fu8 == 0) by (bit_vector);
        r
    }

    pub fn is_empty(&self) -> (r: bool)
        ensures
            r == (self@ == 0),
    {
        self.bits == 0
    }

    /// Whether every bit of `other` is in this set.
    pub fn contains(&self, other: InputFlags) -> (r: bool)
        ensures
            r == (self@ & other@ == other@),
    {
        self.bits & other.bits == other.bits
    }

    /// Whether this set and `other` share a bit.
    pub fn intersects(&self, other: InputFlags) -> (r: bool)
        ensures
            r == (self@ & other@ != 0),
    {
        self.bits & other.bits != 0
    }

    pub fn union(self, other: InputFlags) -> (r: InputFlags)
        requires
            self.wf(),
            other.wf(),
        ensures
            r@ == self@ | other@,
            r.wf(),
    {
        let a = self.bits;
        let b = other.bits;
        assert(a & !0x3fu8 == 0 && b & !0x3fu8 == 0 ==> (a | b) & !0x3fu8 == 0) by (bit_vector);
        InputFlags { bits: a | b }
    }

    pub fn intersection(self, other: InputFlags) -> (r: InputFlags)
        requires
            self.wf(),
        ensures
            r@ == self@ & other@,
            r.wf(),
    {
        let a = self.bits;
        let b = other.bits;
        assert(a & !0x3fu8 == 0 ==> (a & b) & !0x3fu8 == 0) by (bit_vector);
        InputFlags { bits: a & b }
    }

    /// The bits of this set that are not in `other`.
    pub fn difference(self, other: InputFlags) -> (r: InputFlags)
        requires
            self.wf(),
        ensures
            r@ == self@ & !other@,
            r.wf(),
    {
        let a = self.bits;
        let b = other.bits;
        assert(a & !0x3fu8 == 0 ==> (a & !b) & !0x3fu8 == 0) by (bit_vector);
        InputFlags { bits: a & !b }
    }
}

/// The snapshot of one frame's raw input: a bit for each pressed button, and a
/// bit for each modifier of which either key is held.
pub fn get_inputs(raw: &RawInput) -> (r: InputFlags)
    ensures
        r@ == snapshot_bits(*raw),
        r.wf(),
{
    let mut bits: u8 = 0;
    if raw.left {
        bits = bits + 0x01;
    }
    if raw.right {
        bits = bits + 0x02;
    }
    if raw.middle {
        bits = bits + 0x04;
    }
    if raw.shift_left || raw.shift_right {
        bits = bits + 0x08;
    }
    if raw.ctrl_left || raw.ctrl_right {
        bits = bits + 0x10;
    }
    if raw.alt_left || raw.alt_right {
        bits = bits + 0x20;
    }
    assert(bits <= 0x3f);
    assert(bits <= 0x3f ==> bits & !0x3fu8 == 0) by (bit_vector);
    InputFlags { bits }
}

} // verus!
