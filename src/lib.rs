//! Verified core of a USB device-controller driver for the i.MX RT1062: descriptor
//! field layouts, the DMA buffer allocator, the endpoint table, endpoint allocation as
//! the bus offers it, and the decisions of the USB PLL bring-up.

pub mod buffer;
pub mod endpoint;
pub mod generic;
pub mod pll;
pub mod qh;
pub mod td;
pub mod usb;
