//! USB device transfer descriptors (TD)
#![allow(non_camel_case_types)]
use vstd::prelude::*;

pub mod td_pointer;
pub mod token;

verus! {

/// Number of buffer pointers in a transfer descriptor.
pub const TD_POINTERS: usize = 5;

/// A link-pointer word: the address of the next transfer descriptor and a terminate flag.
#[derive(Clone, Copy, Debug, PartialEq, Eq)]
pub struct TD_POINTER {
    pub bits: u32,
}

impl TD_POINTER {
    pub open spec fn view(&self) -> u32 {
        self.bits
    }

    pub fn new() -> (r: TD_POINTER)
        ensures
            r@ == 0,
    {
        TD_POINTER { bits: 0 }
    }

    pub fn bits(&self) -> (r: u32)
        ensures
            r == self@,
    {
        self.bits
    }

    /// Stores a whole word, built from the reset value with `td_pointer::W::reset`.
    pub fn write(&mut self, w: td_pointer::W)
        ensures
            final(self)@ == w.bits,
    {
        self.bits = w.bits;
    }
}

/// A token word: byte count, interrupt-on-complete flag and status flags.
#[derive(Clone, Copy, Debug, PartialEq, Eq)]
pub struct TOKEN {
    pub bits: u32,
}

impl TOKEN {
    pub open spec fn view(&self) -> u32 {
        self.bits
    }

    /// The value that a token holds out of reset.
    pub fn reset_value() -> (r: u32)
        ensures
            r == 0,
    {
        0
    }

    pub fn new() -> (r: TOKEN)
        ensures
            r@ == 0,
    {
        TOKEN { bits: 0 }
    }

    pub fn read(&self) -> (r: token::R)
        ensures
            r.bits == self@,
    {
        token::R { bits: self.bits }
    }

    /// Stores a whole word, built with `token::W::reset` or `token::W::from_bits`.
    pub fn write(&mut self, w: token::W)
        ensures
            final(self)@ == w.bits,
    {
        self.bits = w.bits;
    }
}

/// A transfer descriptor, read and written by the controller's DMA engine.
#[derive(Clone, Copy, Debug)]
pub struct TD {
    pub next_link_pointer: TD_POINTER,
    pub token: TOKEN,
    /// Addresses of the data buffers.
    pub pointers: [u32; TD_POINTERS],
}

impl TD {
    /// A transfer descriptor with every word at its reset value.
    pub fn new() -> (r: TD)
        ensures
            r.next_link_pointer@ == 0,
            r.token@ == 0,
    {
        TD { next_link_pointer: TD_POINTER::new(), token: TOKEN::new(), pointers: [0u32; TD_POINTERS] }
    }
}

} // verus!
