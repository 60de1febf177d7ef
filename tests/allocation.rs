use imxrt_usb::buffer::{rx_transfer_descriptors, tx_transfer_descriptors, Allocator};
use imxrt_usb::endpoint::{
    AllocationError, EndpointAddress, EndpointDefinition, EndpointType, Endpoints, UsbDirection, UsbError,
    UsbRegisters,
};
use imxrt_usb::usb::UsbBus;

fn addr(index: u8, direction: UsbDirection) -> EndpointAddress {
    EndpointAddress::from_parts(index, direction)
}

#[test]
fn end_to_end_out_bulk() {
    let mut bus = UsbBus::new();
    let first = bus.alloc_ep(UsbDirection::Out, None, EndpointType::Bulk, 64, 0);
    assert_eq!(first, Ok(addr(1, UsbDirection::Out)));
    let second = bus.alloc_ep(UsbDirection::Out, None, EndpointType::Bulk, 64, 0);
    assert_eq!(second, Ok(addr(2, UsbDirection::Out)));
    assert!(bus.is_allocated(&addr(1, UsbDirection::Out)));
    assert!(!bus.is_allocated(&addr(3, UsbDirection::Out)));
}

#[test]
fn explicit_address_twice_is_invalid() {
    for dir in [UsbDirection::In, UsbDirection::Out] {
        for index in 1u8..8 {
            let mut bus = UsbBus::new();
            let a = addr(index, dir);
            assert_eq!(bus.alloc_ep(dir, Some(a), EndpointType::Interrupt, 8, 0), Ok(a));
            assert_eq!(bus.alloc_ep(dir, Some(a), EndpointType::Interrupt, 8, 0), Err(UsbError::InvalidEndpoint));
        }
    }
}

#[test]
fn out_auto_allocation_ascends_then_overflows() {
    let mut bus = UsbBus::new();
    for index in 1u8..8 {
        assert_eq!(bus.alloc_ep(UsbDirection::Out, None, EndpointType::Bulk, 512, 0), Ok(addr(index, UsbDirection::Out)));
    }
    assert_eq!(bus.alloc_ep(UsbDirection::Out, None, EndpointType::Bulk, 512, 0), Err(UsbError::EndpointOverflow));
}

#[test]
fn in_auto_allocation_runs_out_of_pool_after_four() {
    let mut bus = UsbBus::new();
    for index in 1u8..5 {
        assert_eq!(bus.alloc_ep(UsbDirection::In, None, EndpointType::Bulk, 64, 0), Ok(addr(index, UsbDirection::In)));
    }
    assert_eq!(bus.alloc_ep(UsbDirection::In, None, EndpointType::Bulk, 64, 0), Err(UsbError::EndpointOverflow));
    assert!(!bus.is_allocated(&addr(5, UsbDirection::In)));
}

#[test]
fn in_auto_allocation_of_empty_buffers_takes_all_seven() {
    let mut bus = UsbBus::new();
    for index in 1u8..8 {
        assert_eq!(bus.alloc_ep(UsbDirection::In, None, EndpointType::Interrupt, 0, 0), Ok(addr(index, UsbDirection::In)));
    }
    assert_eq!(bus.alloc_ep(UsbDirection::In, None, EndpointType::Interrupt, 0, 0), Err(UsbError::EndpointOverflow));
}

#[test]
fn index_zero_is_control_only() {
    let mut bus = UsbBus::new();
    let ep0 = addr(0, UsbDirection::Out);
    assert_eq!(bus.alloc_ep(UsbDirection::Out, Some(ep0), EndpointType::Bulk, 64, 0), Err(UsbError::InvalidEndpoint));
    assert!(!bus.is_allocated(&ep0));
    assert_eq!(bus.alloc_ep(UsbDirection::Out, Some(ep0), EndpointType::Control, 64, 0), Ok(ep0));
    for i in 0..8 {
        assert_eq!(bus.registers().endptctrl(i), 0);
    }
    let qh = &bus.endpoints().queue_heads()[0];
    assert_eq!(qh.config.read().max_packet_length().bits(), 64);
    assert!(qh.config.read().interrupt_on_setup().bit());
}

#[test]
fn index_past_last_endpoint_overflows() {
    let mut bus = UsbBus::new();
    let a = addr(8, UsbDirection::In);
    assert_eq!(bus.alloc_ep(UsbDirection::In, Some(a), EndpointType::Bulk, 64, 0), Err(UsbError::EndpointOverflow));
    assert!(!bus.is_allocated(&a));
}

#[test]
fn allocation_programs_registers_and_queue_head() {
    let mut bus = UsbBus::new();
    let a = addr(3, UsbDirection::In);
    assert_eq!(bus.alloc_ep(UsbDirection::In, Some(a), EndpointType::Interrupt, 2000, 0), Ok(a));
    assert_eq!(bus.registers().endptctrl(3), 3 << 18);
    let qh = &bus.endpoints().queue_heads()[7];
    assert_eq!(qh.config.read().max_packet_length().bits(), 1024);
    assert!(!qh.config.read().interrupt_on_setup().bit());
    match bus.endpoints().buffer(7) {
        Some(b) => assert_eq!(b.capacity(), 2000),
        None => panic!("no buffer"),
    }
    let b = addr(2, UsbDirection::Out);
    assert_eq!(bus.alloc_ep(UsbDirection::Out, Some(b), EndpointType::Bulk, 64, 0), Ok(b));
    assert_eq!(bus.registers().endptctrl(2), 2 << 2);
}

#[test]
fn is_allocated_tracks_successes() {
    let mut bus = UsbBus::new();
    for dir in [UsbDirection::In, UsbDirection::Out] {
        for index in 0u8..8 {
            assert!(!bus.is_allocated(&addr(index, dir)));
        }
    }
    let _ = bus.alloc_ep(UsbDirection::In, Some(addr(5, UsbDirection::In)), EndpointType::Bulk, 64, 0);
    let _ = bus.alloc_ep(UsbDirection::Out, Some(addr(0, UsbDirection::Out)), EndpointType::Bulk, 64, 0);
    let _ = bus.alloc_ep(UsbDirection::Out, None, EndpointType::Bulk, 64, 0);
    for dir in [UsbDirection::In, UsbDirection::Out] {
        for index in 0u8..8 {
            let expected = (dir == UsbDirection::In && index == 5) || (dir == UsbDirection::Out && index == 1);
            assert_eq!(bus.is_allocated(&addr(index, dir)), expected);
        }
    }
}

#[test]
fn out_of_memory_maps_to_overflow() {
    let mut bus = UsbBus::new();
    let a = addr(1, UsbDirection::Out);
    assert_eq!(bus.alloc_ep(UsbDirection::Out, Some(a), EndpointType::Bulk, 5000, 0), Err(UsbError::EndpointOverflow));
    assert!(!bus.is_allocated(&a));
}

#[test]
fn endpoint_table_reports_fine_errors() {
    let mut eps = Endpoints::new();
    let mut regs = UsbRegisters::new();
    let def = |index: u8, ep_type: EndpointType, size: u16| EndpointDefinition {
        addr: addr(index, UsbDirection::In),
        max_packet_size: size,
        ep_type,
    };
    assert_eq!(eps.allocate(&mut regs, &def(0, EndpointType::Bulk, 8)), Err(AllocationError::ControlOnly));
    assert_eq!(eps.allocate(&mut regs, &def(9, EndpointType::Bulk, 8)), Err(AllocationError::OutOfBounds));
    assert_eq!(eps.allocate(&mut regs, &def(1, EndpointType::Bulk, 9000)), Err(AllocationError::OutOfMemory));
    assert_eq!(eps.allocate(&mut regs, &def(1, EndpointType::Bulk, 8)), Ok(()));
    assert!(eps.is_allocated(&addr(1, UsbDirection::In)));
    assert_eq!(eps.allocate(&mut regs, &def(1, EndpointType::Interrupt, 8)), Err(AllocationError::AlreadyAllocated));
    assert_eq!(regs.endptctrl(1), 2 << 18);
}

#[test]
fn both_directions_of_an_index_keep_their_types() {
    let mut bus = UsbBus::new();
    let out2 = addr(2, UsbDirection::Out);
    let in2 = addr(2, UsbDirection::In);
    assert_eq!(bus.alloc_ep(UsbDirection::Out, Some(out2), EndpointType::Bulk, 64, 0), Ok(out2));
    assert_eq!(bus.alloc_ep(UsbDirection::In, Some(in2), EndpointType::Interrupt, 64, 0), Ok(in2));
    assert_eq!(bus.registers().endptctrl(2), (3 << 18) | (2 << 2));
}

#[test]
fn allocation_errors_map_to_bus_errors() {
    assert_eq!(UsbError::from(AllocationError::ControlOnly), UsbError::InvalidEndpoint);
    assert_eq!(UsbError::from(AllocationError::OutOfBounds), UsbError::EndpointOverflow);
    assert_eq!(UsbError::from(AllocationError::OutOfMemory), UsbError::EndpointOverflow);
    assert_eq!(UsbError::from(AllocationError::AlreadyAllocated), UsbError::InvalidEndpoint);
}

#[test]
fn allocator_fails_on_overflowing_request() {
    let mut rx = Allocator::rx();
    let mut ranges = Vec::new();
    for _ in 0..8 {
        let b = rx.alloc_buffer(500).expect("fits");
        assert_eq!(b.start() % 512, 0);
        assert_eq!(b.capacity(), 500);
        ranges.push((b.start(), b.capacity()));
    }
    assert!(rx.alloc_buffer(1).is_none());
    for (i, a) in ranges.iter().enumerate() {
        assert!(a.0 + a.1 <= 4096);
        for b in ranges.iter().skip(i + 1) {
            assert!(a.0 + a.1 <= b.0 || b.0 + b.1 <= a.0);
        }
    }
}

#[test]
fn allocator_cursor_moves_down_and_aligns() {
    let mut tx = Allocator::tx();
    assert_eq!(tx.remaining(), 8192);
    let b = tx.alloc_buffer(64).unwrap();
    assert_eq!(b.start(), 6144);
    assert_eq!(tx.remaining(), 6144);
    let b = tx.alloc_buffer(4000).unwrap();
    assert_eq!(b.start(), 2048);
    assert!(tx.alloc_buffer(2049).is_none());
    assert_eq!(tx.remaining(), 2048);
    let b = tx.alloc_buffer(2048).unwrap();
    assert_eq!(b.start(), 0);
    assert!(tx.alloc_buffer(1).is_none());
    assert!(tx.alloc_buffer(0).is_some());
    let mut rx = Allocator::rx();
    assert!(rx.alloc_buffer(4097).is_none());
    assert_eq!(rx.remaining(), 4096);
}

#[test]
fn buffer_copies_up_to_the_shorter_length() {
    let mut rx = Allocator::rx();
    let mut b = rx.alloc_buffer(4).unwrap();
    assert_eq!(b.write(&[1, 2, 3, 4, 5, 6]), 4);
    let mut out = [0u8; 6];
    assert_eq!(b.read(&mut out), 4);
    assert_eq!(out, [1, 2, 3, 4, 0, 0]);
    assert_eq!(b.write(&[9]), 1);
    let mut small = [7u8; 2];
    assert_eq!(b.read(&mut small), 2);
    assert_eq!(small, [9, 2]);
}

#[test]
fn descriptor_pools_have_one_descriptor_per_slot() {
    let tx = tx_transfer_descriptors();
    let rx = rx_transfer_descriptors();
    assert_eq!(tx.len(), 4);
    assert_eq!(rx.len(), 8);
    assert_eq!(tx[0].token.read().bits, 0);
}
