//! USB device endpoint queue head
#![allow(non_camel_case_types)]
use vstd::prelude::*;
use crate::td;

pub mod config;

verus! {

/// Number of reserved buffer pointer words in a queue head.
pub const QH_POINTERS: usize = 5;

/// The configuration word of a queue head: a 32-bit register image.
#[derive(Clone, Copy, Debug, PartialEq, Eq)]
pub struct CONFIG {
    pub bits: u32,
}

impl CONFIG {
    pub open spec fn view(&self) -> u32 {
        self.bits
    }

    /// The value that the configuration word holds out of reset.
    pub fn reset_value() -> (r: u32)
        ensures
            r == 0,
    {
        0
    }

    /// A configuration word that holds its reset value.
    pub fn new() -> (r: CONFIG)
        ensures
            r@ == 0,
    {
        CONFIG { bits: 0 }
    }

    pub fn read(&self) -> (r: config::R)
        ensures
            r.bits == self@,
    {
        config::R { bits: self.bits }
    }

    /// Stores a whole word, built from the reset value with `config::W::reset`.
    pub fn write(&mut self, w: config::W)
        ensures
            final(self)@ == w.bits,
    {
        self.bits = w.bits;
    }
}

/// A queue head: one per logical channel, read by the controller's DMA engine.
#[derive(Clone, Copy, Debug)]
pub struct QH {
    pub config: CONFIG,
    pub current: td::TD_POINTER,
    pub next: td::TD_POINTER,
    pub token: td::TOKEN,
    pub pointers: [u32; QH_POINTERS],
    pub reserved: u32,
    pub setup: [u8; 8],
}

impl QH {
    pub open spec fn is_reset(&self) -> bool {
        &&& self.config@ == 0
        &&& self.current@ == 0
        &&& self.next@ == 0
        &&& self.token@ == 0
    }

    /// A queue head with every word at its reset value.
    pub fn new() -> (r: QH)
        ensures
            r.is_reset(),
    {
        QH {
            config: CONFIG::new(),
            current: td::TD_POINTER::new(),
            next: td::TD_POINTER::new(),
            token: td::TOKEN::new(),
            pointers: [0u32; QH_POINTERS],
            reserved: 0,
            setup: [0u8; 8],
        }
    }
}

} // verus!
