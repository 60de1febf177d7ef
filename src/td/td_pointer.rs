//! Fields of a transfer descriptor's link pointer
#![allow(non_camel_case_types)]
use vstd::prelude::*;
use crate::generic::{bit_of, outside_bit, set_bit_at};

verus! {

pub const NEXT_LINK_POINTER_SHIFT: u32 = 5;
pub const NEXT_LINK_POINTER_MASK: u32 = 0x7FFFFFF;
pub const TERMINATE_SHIFT: u32 = 0;

/// The address held by a link pointer: bits 5 to 31 of the word, as an address.
pub open spec fn link_address_of(bits: u32) -> u32 {
    bits & (0x7FFFFFFu32 << 5u32)
}

/// The bits of a link pointer outside of its address field.
pub open spec fn outside_link_address(bits: u32) -> u32 {
    bits & !(0x7FFFFFFu32 << 5u32)
}

/// A link pointer under construction.
#[derive(Clone, Copy, Debug, PartialEq, Eq)]
pub struct W {
    pub bits: u32,
}

impl W {
    /// Starts from the reset value of a link pointer.
    pub fn reset() -> (r: W)
        ensures
            r.bits == 0,
    {
        W { bits: 0 }
    }

    pub fn next_link_pointer(self) -> (r: NEXT_LINK_POINTER_W)
        ensures
            r.w == self,
    {
        NEXT_LINK_POINTER_W { w: self }
    }

    pub fn terminate(self) -> (r: TERMINATE_W)
        ensures
            r.w == self,
    {
        TERMINATE_W { w: self }
    }
}

/// Writer for the address of the next transfer descriptor (bits 5 to 31).
pub struct NEXT_LINK_POINTER_W {
    pub w: W,
}

impl NEXT_LINK_POINTER_W {
    /// Points the link at the descriptor at `address`, which must be 32-byte aligned.
    pub fn ptr(self, address: u32) -> (r: W)
        requires
            address % 32 == 0,
        ensures
            link_address_of(r.bits) == address,
            outside_link_address(r.bits) == outside_link_address(self.w.bits),
    {
        let prev = self.w.bits;
        let field = (address >> NEXT_LINK_POINTER_SHIFT) & NEXT_LINK_POINTER_MASK;
        let bits = (prev & !(NEXT_LINK_POINTER_MASK << NEXT_LINK_POINTER_SHIFT))
            | (field << NEXT_LINK_POINTER_SHIFT);
        assert(bits & (0x7FFFFFFu32 << 5u32) == address
            && bits & !(0x7FFFFFFu32 << 5u32) == prev & !(0x7FFFFFFu32 << 5u32))
            by (bit_vector)
            requires
                address % 32 == 0,
                field == (address >> 5u32) & 0x7FFFFFFu32,
                bits == (prev & !(0x7FFFFFFu32 << 5u32)) | (field << 5u32),
        ;
        W { bits }
    }
}

/// Writer for the terminate flag (bit 0): set means that no descriptor follows.
pub struct TERMINATE_W {
    pub w: W,
}

impl TERMINATE_W {
    pub fn bit(self, value: bool) -> (r: W)
        ensures
            bit_of(r.bits, 0) == value,
            outside_bit(r.bits, 0) == outside_bit(self.w.bits, 0),
    {
        W { bits: set_bit_at(self.w.bits, TERMINATE_SHIFT, value) }
    }

    /// Marks the link as the end of the chain.
    pub fn invalid(self) -> (r: W)
        ensures
            bit_of(r.bits, 0),
            outside_bit(r.bits, 0) == outside_bit(self.w.bits, 0),
    {
        self.bit(true)
    }

    /// Marks the link as pointing at a descriptor.
    pub fn valid(self) -> (r: W)
        ensures
            !bit_of(r.bits, 0),
            outside_bit(r.bits, 0) == outside_bit(self.w.bits, 0),
    {
        self.bit(false)
    }
}

} // verus!
