//! Bit helpers and field readers shared by the descriptor registers.
use vstd::prelude::*;

verus! {

/// Whether the bit at `shift` is set.
pub open spec fn bit_of(bits: u32, shift: u32) -> bool {
    bits & (1u32 << shift) != 0
}

/// The bits of a word outside of the one-bit field at `shift`.
pub open spec fn outside_bit(bits: u32, shift: u32) -> u32 {
    bits & !(1u32 << shift)
}

/// Sets or clears the bit at `shift`, keeping all others.
pub(crate) fn set_bit_at(bits: u32, shift: u32, value: bool) -> (r: u32)
    requires
        shift < 32,
    ensures
        bit_of(r, shift) == value,
        outside_bit(r, shift) == outside_bit(bits, shift),
{
    if value {
        let r = bits | (1u32 << shift);
        assert(r & (1u32 << shift) != 0 && r & !(1u32 << shift) == bits & !(1u32 << shift))
            by (bit_vector)
            requires
                r == bits | (1u32 << shift),
                shift < 32,
        ;
        r
    } else {
        let r = bits & !(1u32 << shift);
        assert(r & (1u32 << shift) == 0 && r & !(1u32 << shift) == bits & !(1u32 << shift))
            by (bit_vector)
            requires
                r == bits & !(1u32 << shift),
                shift < 32,
        ;
        r
    }
}

pub(crate) fn read_bit_at(bits: u32, shift: u32) -> (r: bool)
    requires
        shift < 32,
    ensures
        r == bit_of(bits, shift),
{
    bits & (1u32 << shift) != 0
}

/// The value of a one-bit field, as read out of a register.
#[derive(Clone, Copy, Debug, PartialEq, Eq)]
pub struct BitReader {
    pub bits: bool,
}

impl BitReader {
    pub fn new(bits: bool) -> (r: BitReader)
        ensures
            r.value() == bits,
    {
        BitReader { bits }
    }

    pub open spec fn value(&self) -> bool {
        self.bits
    }

    pub fn bit(&self) -> (r: bool)
        ensures
            r == self.value(),
    {
        self.bits
    }

    pub fn bit_is_set(&self) -> (r: bool)
        ensures
            r == self.value(),
    {
        self.bits
    }

    pub fn bit_is_clear(&self) -> (r: bool)
        ensures
            r == !self.value(),
    {
        !self.bits
    }
}

/// The value of a multi-bit field of up to sixteen bits, as read out of a register.
#[derive(Clone, Copy, Debug, PartialEq, Eq)]
pub struct U16Reader {
    pub bits: u16,
}

impl U16Reader {
    pub fn new(bits: u16) -> (r: U16Reader)
        ensures
            r.value() == bits,
    {
        U16Reader { bits }
    }

    pub open spec fn value(&self) -> u16 {
        self.bits
    }

    pub fn bits(&self) -> (r: u16)
        ensures
            r == self.value(),
    {
        self.bits
    }
}

} // verus!
