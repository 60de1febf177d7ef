//! Fields of a queue head's configuration word
#![allow(non_camel_case_types)]
use vstd::prelude::*;
use crate::generic::{bit_of, outside_bit, read_bit_at, set_bit_at, BitReader, U16Reader};

verus! {

pub const ZERO_LENGTH_TERMINATION_SHIFT: u32 = 29;
pub const MAX_PACKET_LENGTH_MASK: u32 = 0x7FF;
pub const MAX_PACKET_LENGTH_SHIFT: u32 = 16;
pub const INTERRUPT_ON_SETUP_SHIFT: u32 = 15;
/// The largest packet that the controller moves in one go.
pub const MAX_PACKET_LENGTH_LIMIT: u16 = 0x400;

/// The max-packet-length field of a configuration word.
pub open spec fn max_packet_length_of(bits: u32) -> u32 {
    (bits >> 16u32) & 0x7FFu32
}

/// The bits of a configuration word outside of the max-packet-length field.
pub open spec fn outside_max_packet_length(bits: u32) -> u32 {
    bits & !(0x7FFu32 << 16u32)
}

/// What a value becomes when it is written as a max packet length.
pub open spec fn clamp_packet_length(value: u16) -> u32 {
    if value > 0x400 { 0x400 } else { value as u32 }
}

/// A configuration word under construction.
#[derive(Clone, Copy, Debug, PartialEq, Eq)]
pub struct W {
    pub bits: u32,
}

/// A configuration word as read back.
#[derive(Clone, Copy, Debug, PartialEq, Eq)]
pub struct R {
    pub bits: u32,
}

impl W {
    /// Starts from the reset value of the configuration word.
    pub fn reset() -> (r: W)
        ensures
            r.bits == 0,
    {
        W { bits: 0 }
    }

    pub fn max_packet_length(self) -> (r: MAX_PACKET_LENGTH_W)
        ensures
            r.w == self,
    {
        MAX_PACKET_LENGTH_W { w: self }
    }

    pub fn interrupt_on_setup(self) -> (r: INTERRUPT_ON_SETUP_W)
        ensures
            r.w == self,
    {
        INTERRUPT_ON_SETUP_W { w: self }
    }

    pub fn zero_length_termination(self) -> (r: ZERO_LENGTH_TERMINATION_W)
        ensures
            r.w == self,
    {
        ZERO_LENGTH_TERMINATION_W { w: self }
    }
}

/// Writer for the max-packet-length field (bits 16 to 26).
pub struct MAX_PACKET_LENGTH_W {
    pub w: W,
}

impl MAX_PACKET_LENGTH_W {
    /// Sets the max packet length. Values above 1024 are clamped to 1024.
    pub fn bits(self, value: u16) -> (r: W)
        ensures
            max_packet_length_of(r.bits) == clamp_packet_length(value),
            outside_max_packet_length(r.bits) == outside_max_packet_length(self.w.bits),
    {
        let value: u16 = if value > MAX_PACKET_LENGTH_LIMIT { MAX_PACKET_LENGTH_LIMIT } else { value };
        let v = value as u32;
        let prev = self.w.bits;
        let bits = (prev & !(MAX_PACKET_LENGTH_MASK << MAX_PACKET_LENGTH_SHIFT))
            | ((v & MAX_PACKET_LENGTH_MASK) << MAX_PACKET_LENGTH_SHIFT);
        assert((bits >> 16u32) & 0x7FFu32 == v && bits & !(0x7FFu32 << 16u32) == prev & !(0x7FFu32 << 16u32))
            by (bit_vector)
            requires
                v <= 0x400,
                bits == (prev & !(0x7FFu32 << 16u32)) | ((v & 0x7FFu32) << 16u32),
        ;
        W { bits }
    }
}

/// Writer for the interrupt-on-setup flag (bit 15).
pub struct INTERRUPT_ON_SETUP_W {
    pub w: W,
}

impl INTERRUPT_ON_SETUP_W {
    pub fn bit(self, value: bool) -> (r: W)
        ensures
            bit_of(r.bits, 15) == value,
            outside_bit(r.bits, 15) == outside_bit(self.w.bits, 15),
    {
        W { bits: set_bit_at(self.w.bits, INTERRUPT_ON_SETUP_SHIFT, value) }
    }

    pub fn set_bit(self) -> (r: W)
        ensures
            bit_of(r.bits, 15),
            outside_bit(r.bits, 15) == outside_bit(self.w.bits, 15),
    {
        self.bit(true)
    }

    pub fn clear_bit(self) -> (r: W)
        ensures
            !bit_of(r.bits, 15),
            outside_bit(r.bits, 15) == outside_bit(self.w.bits, 15),
    {
        self.bit(false)
    }
}

/// Writer for the zero-length-termination flag (bit 29). The bit is inverted: a clear
/// bit enables termination.
pub struct ZERO_LENGTH_TERMINATION_W {
    pub w: W,
}

impl ZERO_LENGTH_TERMINATION_W {
    pub fn bit(self, value: bool) -> (r: W)
        ensures
            bit_of(r.bits, 29) == value,
            outside_bit(r.bits, 29) == outside_bit(self.w.bits, 29),
    {
        W { bits: set_bit_at(self.w.bits, ZERO_LENGTH_TERMINATION_SHIFT, value) }
    }

    pub fn set_bit(self) -> (r: W)
        ensures
            bit_of(r.bits, 29),
            outside_bit(r.bits, 29) == outside_bit(self.w.bits, 29),
    {
        self.bit(true)
    }

    pub fn clear_bit(self) -> (r: W)
        ensures
            !bit_of(r.bits, 29),
            outside_bit(r.bits, 29) == outside_bit(self.w.bits, 29),
    {
        self.bit(false)
    }

    /// Enables zero-length termination: clears the bit.
    pub fn enable(self) -> (r: W)
        ensures
            !bit_of(r.bits, 29),
            outside_bit(r.bits, 29) == outside_bit(self.w.bits, 29),
    {
        self.clear_bit()
    }

    /// Disables zero-length termination: sets the bit.
    pub fn disable(self) -> (r: W)
        ensures
            bit_of(r.bits, 29),
            outside_bit(r.bits, 29) == outside_bit(self.w.bits, 29),
    {
        self.set_bit()
    }
}

/// The zero-length-termination flag as read back.
#[derive(Clone, Copy, Debug, PartialEq, Eq)]
pub struct ZERO_LENGTH_TERMINATION_R {
    pub bit: bool,
}

impl ZERO_LENGTH_TERMINATION_R {
    pub fn bit_is_set(&self) -> (r: bool)
        ensures
            r == self.bit,
    {
        self.bit
    }

    pub fn bit_is_clear(&self) -> (r: bool)
        ensures
            r == !self.bit,
    {
        !self.bit
    }

    /// Termination is enabled when the bit is clear.
    pub fn is_enabled(&self) -> (r: bool)
        ensures
            r == !self.bit,
    {
        self.bit_is_clear()
    }

    pub fn is_disabled(&self) -> (r: bool)
        ensures
            r == self.bit,
    {
        self.bit_is_set()
    }
}

pub type MAX_PACKET_LENGTH_R = U16Reader;

pub type INTERRUPT_ON_SETUP_R = BitReader;

impl R {
    pub fn max_packet_length(&self) -> (r: MAX_PACKET_LENGTH_R)
        ensures
            r.value() as u32 == max_packet_length_of(self.bits),
    {
        let b = self.bits;
        let v = (b >> MAX_PACKET_LENGTH_SHIFT) & MAX_PACKET_LENGTH_MASK;
        assert(v <= 0x7FF) by (bit_vector)
            requires
                v == (b >> 16u32) & 0x7FFu32,
        ;
        U16Reader::new(v as u16)
    }

    pub fn interrupt_on_setup(&self) -> (r: INTERRUPT_ON_SETUP_R)
        ensures
            r.value() == bit_of(self.bits, 15),
    {
        BitReader::new(read_bit_at(self.bits, INTERRUPT_ON_SETUP_SHIFT))
    }

    pub fn zero_length_termination(&self) -> (r: ZERO_LENGTH_TERMINATION_R)
        ensures
            r.bit == bit_of(self.bits, 29),
    {
        ZERO_LENGTH_TERMINATION_R { bit: read_bit_at(self.bits, ZERO_LENGTH_TERMINATION_SHIFT) }
    }
}

} // verus!
