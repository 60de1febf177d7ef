use imxrt_usb::endpoint::{EndpointAddress, EndpointType, UsbDirection, UsbError};
use imxrt_usb::usb::UsbBus;

#[test]
fn stall_sets_and_clears_halted_flag() {
    let mut bus = UsbBus::new();
    let a = EndpointAddress::from_parts(2, UsbDirection::In);
    let b = EndpointAddress::from_parts(2, UsbDirection::Out);
    assert!(!bus.is_stalled(a));
    bus.set_stalled(a, true);
    assert!(bus.is_stalled(a));
    assert!(!bus.is_stalled(b));
    assert_eq!(bus.endpoints().queue_heads()[5].token.read().bits, 0x40);
    bus.set_stalled(a, false);
    assert!(!bus.is_stalled(a));
    assert_eq!(bus.endpoints().queue_heads()[5].token.read().bits, 0);
}

#[test]
fn stall_past_last_endpoint_is_ignored() {
    let mut bus = UsbBus::new();
    let a = EndpointAddress::from_parts(9, UsbDirection::In);
    bus.set_stalled(a, true);
    assert!(!bus.is_stalled(a));
}

#[test]
fn write_and_read_go_through_the_endpoint_buffer() {
    let mut bus = UsbBus::new();
    let a = bus.alloc_ep(UsbDirection::Out, None, EndpointType::Bulk, 4, 0).unwrap();
    assert_eq!(bus.write(a, &[10, 20, 30, 40, 50]), Ok(4));
    let mut out = [0u8; 3];
    assert_eq!(bus.read(a, &mut out), Ok(3));
    assert_eq!(out, [10, 20, 30]);
}

#[test]
fn write_and_read_need_an_allocated_endpoint() {
    let mut bus = UsbBus::new();
    let a = EndpointAddress::from_parts(1, UsbDirection::In);
    assert_eq!(bus.write(a, &[1]), Err(UsbError::InvalidEndpoint));
    let mut out = [5u8; 2];
    assert_eq!(bus.read(a, &mut out), Err(UsbError::InvalidEndpoint));
    assert_eq!(out, [5, 5]);
}

#[test]
fn device_address_waits_for_status_stage() {
    let mut bus = UsbBus::new();
    assert_eq!(bus.registers().deviceaddr(), 0);
    bus.set_device_address(5);
    assert_eq!(bus.registers().deviceaddr(), (5 << 25) | (1 << 24));
    bus.set_device_address(127);
    assert_eq!(bus.registers().deviceaddr(), 0xFF00_0000);
}

#[test]
fn endpoint_type_codes() {
    assert_eq!(EndpointType::Control.bits(), 0);
    assert_eq!(EndpointType::Isochronous.bits(), 1);
    assert_eq!(EndpointType::Bulk.bits(), 2);
    assert_eq!(EndpointType::Interrupt.bits(), 3);
}
