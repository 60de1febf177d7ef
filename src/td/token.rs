//! Fields of a transfer descriptor's token
#![allow(non_camel_case_types)]
use vstd::prelude::*;
use crate::generic::{bit_of, outside_bit, read_bit_at, set_bit_at, BitReader, U16Reader};

verus! {

pub const TOTAL_BYTES_SHIFT: u32 = 16;
pub const TOTAL_BYTES_MASK: u32 = 0x7FFF;
pub const INTERRUPT_ON_COMPLETE_SHIFT: u32 = 15;
/// The largest transfer that one descriptor should describe: 16 KiB.
pub const TOTAL_BYTES_LIMIT: u16 = 0x4000;
/// Status flag: the controller owns the descriptor.
pub const STATUS_ACTIVE: u8 = 0x80;
/// Status flag: the endpoint is stalled.
pub const STATUS_HALTED: u8 = 0x40;
/// Status flag: a buffer overrun or underrun happened.
pub const STATUS_DATA_BUFFER_ERROR: u8 = 0x20;
/// Status flag: a transaction failed.
pub const STATUS_TRANSACTION_ERROR: u8 = 0x08;
/// Every defined status flag.
pub const STATUS_ALL: u8 = 0xE8;

/// The total-bytes field of a token.
pub open spec fn total_bytes_of(bits: u32) -> u32 {
    (bits >> 16u32) & 0x7FFFu32
}

/// The bits of a token outside of the total-bytes field.
pub open spec fn outside_total_bytes(bits: u32) -> u32 {
    bits & !(0x7FFFu32 << 16u32)
}

/// What a value becomes when it is written as a byte count.
pub open spec fn clamp_total_bytes(value: u16) -> u32 {
    if value > 0x4000 { 0x4000 } else { value as u32 }
}

/// The status byte of a token.
pub open spec fn status_of(bits: u32) -> u8 {
    (bits & 0xFFu32) as u8
}

/// A set of status flags: only the defined flags can be held.
#[derive(Clone, Copy, Debug, PartialEq, Eq)]
pub struct STATUS_A {
    bits: u8,
}

impl STATUS_A {
    pub closed spec fn view(&self) -> u8 {
        self.bits
    }

    #[verifier::type_invariant]
    spec fn defined(&self) -> bool {
        self.bits & !STATUS_ALL == 0
    }

    pub fn bits(&self) -> (r: u8)
        ensures
            r == self@,
            r & !STATUS_ALL == 0,
    {
        proof { use_type_invariant(self); }
        self.bits
    }

    pub fn empty() -> (r: STATUS_A)
        ensures
            r@ == 0,
            r@ & !STATUS_ALL == 0,
    {
        assert(0u8 & !0xE8u8 == 0) by (bit_vector);
        STATUS_A { bits: 0 }
    }

    pub fn all() -> (r: STATUS_A)
        ensures
            r@ == STATUS_ALL,
            r@ & !STATUS_ALL == 0,
    {
        assert(0xE8u8 & !0xE8u8 == 0) by (bit_vector);
        STATUS_A { bits: STATUS_ALL }
    }

    /// Keeps the defined flags of `bits` and drops the others.
    pub fn from_bits_truncate(bits: u8) -> (r: STATUS_A)
        ensures
            r@ == bits & STATUS_ALL,
            r@ & !STATUS_ALL == 0,
    {
        assert((bits & 0xE8u8) & !0xE8u8 == 0) by (bit_vector);
        STATUS_A { bits: bits & STATUS_ALL }
    }

    /// The flags of both sets.
    pub fn union(self, other: STATUS_A) -> (r: STATUS_A)
        ensures
            r@ == self@ | other@,
            r@ & !STATUS_ALL == 0,
    {
        proof {
            use_type_invariant(&self);
            use_type_invariant(&other);
        }
        let a = self.bits;
        let b = other.bits;
        assert((a | b) & !0xE8u8 == 0) by (bit_vector)
            requires
                a & !0xE8u8 == 0,
                b & !0xE8u8 == 0,
        ;
        STATUS_A { bits: a | b }
    }

    /// The flags of `self` without those of `other`.
    pub fn difference(self, other: STATUS_A) -> (r: STATUS_A)
        ensures
            r@ == self@ & !other@,
            r@ & !STATUS_ALL == 0,
    {
        proof { use_type_invariant(&self); }
        let a = self.bits;
        let b = other.bits;
        assert((a & !b) & !0xE8u8 == 0) by (bit_vector)
            requires
                a & !0xE8u8 == 0,
        ;
        STATUS_A { bits: a & !b }
    }

    /// Whether every flag of `other` is in `self`.
    pub fn contains(&self, other: STATUS_A) -> (r: bool)
        ensures
            r == (self@ & other@ == other@),
    {
        self.bits & other.bits == other.bits
    }
}

/// A token under construction.
#[derive(Clone, Copy, Debug, PartialEq, Eq)]
pub struct W {
    pub bits: u32,
}

/// A token as read back.
#[derive(Clone, Copy, Debug, PartialEq, Eq)]
pub struct R {
    pub bits: u32,
}

impl W {
    /// Starts from the reset value of a token.
    pub fn reset() -> (r: W)
        ensures
            r.bits == 0,
    {
        W { bits: 0 }
    }

    /// Starts from a token's current value, to change some of its fields.
    pub fn from_bits(bits: u32) -> (r: W)
        ensures
            r.bits == bits,
    {
        W { bits }
    }

    pub fn total_bytes(self) -> (r: TOTAL_BYTES_W)
        ensures
            r.w == self,
    {
        TOTAL_BYTES_W { w: self }
    }

    pub fn interrupt_on_complete(self) -> (r: INTERRUPT_ON_COMPLETE_W)
        ensures
            r.w == self,
    {
        INTERRUPT_ON_COMPLETE_W { w: self }
    }

    pub fn status(self) -> (r: STATUS_W)
        ensures
            r.w == self,
    {
        STATUS_W { w: self }
    }
}

/// Writer for the total-bytes field (bits 16 to 30).
pub struct TOTAL_BYTES_W {
    pub w: W,
}

impl TOTAL_BYTES_W {
    /// Sets the byte count. Values above 16384 are clamped to 16384.
    pub fn bits(self, value: u16) -> (r: W)
        ensures
            total_bytes_of(r.bits) == clamp_total_bytes(value),
            outside_total_bytes(r.bits) == outside_total_bytes(self.w.bits),
    {
        let value: u16 = if value > TOTAL_BYTES_LIMIT { TOTAL_BYTES_LIMIT } else { value };
        let v = value as u32;
        let prev = self.w.bits;
        let bits = (prev & !(TOTAL_BYTES_MASK << TOTAL_BYTES_SHIFT))
            | ((v & TOTAL_BYTES_MASK) << TOTAL_BYTES_SHIFT);
        assert((bits >> 16u32) & 0x7FFFu32 == v && bits & !(0x7FFFu32 << 16u32) == prev & !(0x7FFFu32 << 16u32))
            by (bit_vector)
            requires
                v <= 0x4000,
                bits == (prev & !(0x7FFFu32 << 16u32)) | ((v & 0x7FFFu32) << 16u32),
        ;
        W { bits }
    }
}

/// Writer for the interrupt-on-complete flag (bit 15).
pub struct INTERRUPT_ON_COMPLETE_W {
    pub w: W,
}

impl INTERRUPT_ON_COMPLETE_W {
    pub fn bit(self, value: bool) -> (r: W)
        ensures
            bit_of(r.bits, 15) == value,
            outside_bit(r.bits, 15) == outside_bit(self.w.bits, 15),
    {
        W { bits: set_bit_at(self.w.bits, INTERRUPT_ON_COMPLETE_SHIFT, value) }
    }

    pub fn set_bit(self) -> (r: W)
        ensures
            bit_of(r.bits, 15),
            outside_bit(r.bits, 15) == outside_bit(self.w.bits, 15),
    {
        self.bit(true)
    }

    pub fn clear_bit(self) -> (r: W)
        ensures
            !bit_of(r.bits, 15),
            outside_bit(r.bits, 15) == outside_bit(self.w.bits, 15),
    {
        self.bit(false)
    }
}

/// Writer for the status byte (bits 0 to 7).
pub struct STATUS_W {
    pub w: W,
}

impl STATUS_W {
    /// Replaces the status byte with `flags`.
    pub fn flags(self, flags: STATUS_A) -> (r: W)
        ensures
            status_of(r.bits) == flags@,
            status_of(r.bits) & STATUS_ALL == flags@,
            r.bits & !0xFFu32 == self.w.bits & !0xFFu32,
    {
        let prev = self.w.bits;
        let fb = flags.bits();
        assert(fb & !0xE8u8 == 0 ==> fb & 0xE8u8 == fb) by (bit_vector);
        let f = fb as u32;
        let bits = (prev & !0xFFu32) | f;
        assert((bits & 0xFFu32) as u8 == f as u8 && bits & !0xFFu32 == prev & !0xFFu32 && f < 256)
            by (bit_vector)
            requires
                f < 256,
                bits == (prev & !0xFFu32) | f,
        ;
        W { bits }
    }
}

pub type TOTAL_BYTES_R = U16Reader;

pub type INTERRUPT_ON_COMPLETE_R = BitReader;

/// The status byte as read back.
#[derive(Clone, Copy, Debug, PartialEq, Eq)]
pub struct STATUS_R {
    pub bits: u8,
}

impl STATUS_R {
    pub fn bits(&self) -> (r: u8)
        ensures
            r == self.bits,
    {
        self.bits
    }

    /// The defined flags of the status byte.
    pub fn flags(&self) -> (r: STATUS_A)
        ensures
            r@ == self.bits & STATUS_ALL,
    {
        STATUS_A::from_bits_truncate(self.bits)
    }
}

impl R {
    pub fn total_bytes(&self) -> (r: TOTAL_BYTES_R)
        ensures
            r.value() as u32 == total_bytes_of(self.bits),
    {
        let b = self.bits;
        let v = (b >> TOTAL_BYTES_SHIFT) & TOTAL_BYTES_MASK;
        assert(v <= 0x7FFF) by (bit_vector)
            requires
                v == (b >> 16u32) & 0x7FFFu32,
        ;
        U16Reader::new(v as u16)
    }

    pub fn interrupt_on_complete(&self) -> (r: INTERRUPT_ON_COMPLETE_R)
        ensures
            r.value() == bit_of(self.bits, 15),
    {
        BitReader::new(read_bit_at(self.bits, INTERRUPT_ON_COMPLETE_SHIFT))
    }

    pub fn status(&self) -> (r: STATUS_R)
        ensures
            r.bits == status_of(self.bits),
    {
        STATUS_R { bits: (self.bits & 0xFF) as u8 }
    }
}

} // verus!
