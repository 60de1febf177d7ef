use imxrt_usb::qh::{config, QH};
use imxrt_usb::td::token::{self, STATUS_A, STATUS_ACTIVE, STATUS_HALTED, STATUS_TRANSACTION_ERROR};
use imxrt_usb::td::{td_pointer, TD};

#[test]
fn max_packet_length_clamps_at_1024() {
    let mut qh = QH::new();
    qh.config.write(config::W::reset().max_packet_length().bits(2000));
    assert_eq!(qh.config.read().max_packet_length().bits(), 1024);
}

#[test]
fn max_packet_length_round_trips_below_limit() {
    let w = config::W::reset().max_packet_length().bits(64);
    assert_eq!(w.bits, 64 << 16);
    assert_eq!(config::R { bits: w.bits }.max_packet_length().bits(), 64);
    let w = config::W::reset().max_packet_length().bits(1024);
    assert_eq!(config::R { bits: w.bits }.max_packet_length().bits(), 1024);
}

#[test]
fn max_packet_length_keeps_other_bits() {
    let w = config::W { bits: 0xFFFF_FFFF }.max_packet_length().bits(0);
    assert_eq!(w.bits, 0xF800_FFFF);
}

#[test]
fn interrupt_on_setup_is_bit_15() {
    let w = config::W::reset().interrupt_on_setup().bit(true);
    assert_eq!(w.bits, 0x8000);
    assert!(config::R { bits: w.bits }.interrupt_on_setup().bit_is_set());
    let w = config::W { bits: 0xFFFF_FFFF }.interrupt_on_setup().clear_bit();
    assert_eq!(w.bits, 0xFFFF_7FFF);
}

#[test]
fn zero_length_termination_is_inverted_bit_29() {
    let w = config::W::reset().zero_length_termination().disable();
    assert_eq!(w.bits, 1 << 29);
    let r = config::R { bits: w.bits }.zero_length_termination();
    assert!(r.is_disabled());
    assert!(!r.is_enabled());
    let w = config::W { bits: 0xFFFF_FFFF }.zero_length_termination().enable();
    assert_eq!(w.bits, 0xDFFF_FFFF);
    assert!(config::R { bits: w.bits }.zero_length_termination().is_enabled());
}

#[test]
fn total_bytes_clamps_at_16384() {
    let mut td = TD::new();
    td.token.write(token::W::reset().total_bytes().bits(20000));
    assert_eq!(td.token.read().total_bytes().bits(), 16384);
}

#[test]
fn total_bytes_round_trips_below_limit() {
    let w = token::W::reset().total_bytes().bits(512);
    assert_eq!(w.bits, 512 << 16);
    assert_eq!(token::R { bits: w.bits }.total_bytes().bits(), 512);
    let w = token::W { bits: 0xFFFF_FFFF }.total_bytes().bits(0);
    assert_eq!(w.bits, 0x8000_FFFF);
}

#[test]
fn interrupt_on_complete_is_bit_15() {
    let w = token::W::reset().interrupt_on_complete().set_bit();
    assert_eq!(w.bits, 0x8000);
    assert!(token::R { bits: w.bits }.interrupt_on_complete().bit());
}

#[test]
fn status_flags_replace_low_byte() {
    let flags = STATUS_A::from_bits_truncate(STATUS_ACTIVE).union(STATUS_A::from_bits_truncate(STATUS_HALTED));
    let w = token::W { bits: 0x1234_56FF }.status().flags(flags);
    assert_eq!(w.bits, 0x1234_56C0);
    let r = token::R { bits: w.bits }.status();
    assert_eq!(r.bits(), 0xC0);
    assert!(r.flags().contains(STATUS_A::from_bits_truncate(STATUS_HALTED)));
    assert!(!r.flags().contains(STATUS_A::from_bits_truncate(STATUS_TRANSACTION_ERROR)));
}

#[test]
fn status_flags_drop_undefined_bits() {
    let r = token::R { bits: 0x17 }.status();
    assert_eq!(r.flags().bits(), 0x00);
    assert_eq!(STATUS_A::from_bits_truncate(0xFF).bits(), 0xE8);
    assert_eq!(STATUS_A::all().difference(STATUS_A::from_bits_truncate(STATUS_ACTIVE)).bits(), 0x68);
}

#[test]
fn status_flags_round_trip() {
    let flags = STATUS_A::from_bits_truncate(0x29);
    assert_eq!(flags.bits(), 0x28);
    let w = token::W::reset().status().flags(flags);
    assert_eq!(token::R { bits: w.bits }.status().flags(), flags);
}

#[test]
fn link_pointer_holds_aligned_address_and_terminate() {
    let w = td_pointer::W::reset().next_link_pointer().ptr(0x2000_0040);
    assert_eq!(w.bits, 0x2000_0040);
    let w = w.terminate().invalid();
    assert_eq!(w.bits, 0x2000_0041);
    let w = w.terminate().valid();
    assert_eq!(w.bits, 0x2000_0040);
    let mut td = TD::new();
    td.next_link_pointer.write(td_pointer::W::reset().terminate().invalid());
    assert_eq!(td.next_link_pointer.bits(), 1);
}

#[test]
fn reset_values_are_zero() {
    assert_eq!(imxrt_usb::qh::CONFIG::reset_value(), 0);
    assert_eq!(imxrt_usb::td::TOKEN::reset_value(), 0);
    let qh = QH::new();
    assert_eq!(qh.config.read().bits, 0);
    assert_eq!(qh.token.read().bits, 0);
}
