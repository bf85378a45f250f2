//! Adapter tests: allocation policy, buffered read/write with
//! packet-size enforcement, stall handling and the poll latch.

use usbd_class_tester::adapter::{BusError, EmulatedUsbBus, PollResult};
use usbd_class_tester::bus::{EndpointAddress, UsbDirection};
use usbd_class_tester::endpoint::EndpointKind;

fn addr(index: usize, direction: UsbDirection) -> EndpointAddress {
    EndpointAddress { index, direction }
}

#[test]
fn alloc_requested_address_checks_kind() {
    let mut bus = EmulatedUsbBus::new();
    let a = addr(1, UsbDirection::In);
    assert_eq!(
        bus.alloc_ep(UsbDirection::In, Some(a), EndpointKind::Bulk, 16),
        Ok(a)
    );
    assert_eq!(
        bus.alloc_ep(UsbDirection::In, Some(a), EndpointKind::Interrupt, 16),
        Err(BusError::InvalidEndpoint)
    );
    // Re-allocating with the matching kind succeeds and resets state.
    bus.set_stalled(a, true);
    assert_eq!(
        bus.alloc_ep(UsbDirection::In, Some(a), EndpointKind::Bulk, 64),
        Ok(a)
    );
    assert!(!bus.is_stalled(a));
    assert_eq!(bus.bus.ep_max_size(a), 64);
}

#[test]
fn alloc_scan_skips_control_slot_and_overflows() {
    let mut bus = EmulatedUsbBus::new();
    // The scan skips slot 0, which is control-reserved.
    assert_eq!(
        bus.alloc_ep(UsbDirection::Out, None, EndpointKind::Bulk, 8),
        Ok(addr(1, UsbDirection::Out))
    );
    // Claim every numbered slot for Bulk.
    for i in 2..8usize {
        bus.alloc_ep(
            UsbDirection::Out,
            Some(addr(i, UsbDirection::Out)),
            EndpointKind::Bulk,
            8,
        )
        .expect("free slot");
    }
    // With every numbered slot a Bulk one, an Interrupt request finds
    // nothing.
    assert_eq!(
        bus.alloc_ep(UsbDirection::Out, None, EndpointKind::Interrupt, 8),
        Err(BusError::EndpointOverflow)
    );
    // A matching kind re-uses the first numbered slot.
    assert_eq!(
        bus.alloc_ep(UsbDirection::Out, None, EndpointKind::Bulk, 8),
        Ok(addr(1, UsbDirection::Out))
    );
}

#[test]
fn read_with_nothing_buffered_would_block() {
    let mut bus = EmulatedUsbBus::new();
    let o1 = addr(1, UsbDirection::Out);
    bus.alloc_ep(UsbDirection::Out, Some(o1), EndpointKind::Bulk, 8)
        .expect("alloc");
    assert_eq!(bus.read(o1, 64), Err(BusError::WouldBlock));
    // Staged bytes on an endpoint that was never allocated also block:
    // its maximum packet size is 0.
    let o2 = addr(2, UsbDirection::Out);
    bus.bus.set_read(o2, &[1, 2, 3], false);
    assert_eq!(bus.read(o2, 3), Err(BusError::WouldBlock));
}

#[test]
fn read_chunks_fifo_and_clears_setup_at_the_end() {
    let mut bus = EmulatedUsbBus::new();
    let o0 = addr(0, UsbDirection::Out);
    bus.alloc_ep(UsbDirection::Out, Some(o0), EndpointKind::Control, 8)
        .expect("alloc");
    let data: Vec<u8> = (0u8..20).collect();
    bus.bus.set_read(o0, &data, true);
    assert_eq!(bus.read(o0, 64), Ok((0u8..8).collect::<Vec<u8>>()));
    assert_eq!(bus.read(o0, 64), Ok((8u8..16).collect::<Vec<u8>>()));
    // A small caller buffer bounds the transfer as well.
    assert_eq!(bus.read(o0, 2), Ok(vec![16, 17]));
    assert_eq!(bus.read(o0, 64), Ok(vec![18, 19]));
    assert_eq!(bus.read(o0, 64), Err(BusError::WouldBlock));
}

#[test]
fn write_longer_than_max_packet_is_rejected_whole() {
    let mut bus = EmulatedUsbBus::new();
    let i1 = addr(1, UsbDirection::In);
    bus.alloc_ep(UsbDirection::In, Some(i1), EndpointKind::Bulk, 8)
        .expect("alloc");
    assert_eq!(bus.write(i1, &[1, 2, 3]), Ok(3));
    assert_eq!(bus.write(i1, &[0u8; 9]), Err(BusError::BufferOverflow));
    // The earlier bytes are still there, untouched.
    assert_eq!(bus.bus.get_write(i1), vec![1, 2, 3]);
}

#[test]
fn write_on_unallocated_endpoint_fails() {
    let mut bus = EmulatedUsbBus::new();
    let i1 = addr(1, UsbDirection::In);
    assert_eq!(bus.write(i1, &[0xaa]), Err(BusError::BufferOverflow));
}

#[test]
fn write_appends_and_resets_completion_latch() {
    let mut bus = EmulatedUsbBus::new();
    let i1 = addr(1, UsbDirection::In);
    bus.alloc_ep(UsbDirection::In, Some(i1), EndpointKind::Bulk, 8)
        .expect("alloc");
    bus.write(i1, &[1, 2]).expect("write");
    let _ = bus.bus.get_write(i1);
    // Draining latched completion; a new write clears the latch again,
    // so the poll sees nothing pending.
    bus.write(i1, &[3]).expect("write");
    assert_eq!(bus.poll(), PollResult::NoEvent);
    assert_eq!(bus.bus.get_write(i1), vec![3]);
}

#[test]
fn poll_consumes_the_completion_edge_once() {
    let mut bus = EmulatedUsbBus::new();
    let i1 = addr(1, UsbDirection::In);
    bus.alloc_ep(UsbDirection::In, Some(i1), EndpointKind::Interrupt, 8)
        .expect("alloc");
    bus.write(i1, &[1, 2]).expect("write");
    let _ = bus.bus.get_write(i1);
    assert_eq!(
        bus.poll(),
        PollResult::Data { ep_in_complete: 0b10, ep_out: 0, ep_setup: 0 }
    );
    // No state change in between: the second poll reports nothing.
    assert_eq!(bus.poll(), PollResult::NoEvent);
}

#[test]
fn poll_keeps_reporting_level_triggered_events() {
    let mut bus = EmulatedUsbBus::new();
    let o0 = addr(0, UsbDirection::Out);
    let setup = [0x80u8, 0, 0, 0, 0, 0, 2, 0];
    bus.bus.set_read(o0, &setup, true);
    let expected = PollResult::Data { ep_in_complete: 0, ep_out: 0b1, ep_setup: 0b1 };
    assert_eq!(bus.poll(), expected);
    assert_eq!(bus.poll(), expected);
}

#[test]
fn poll_reports_in_side_staging_on_the_out_mask() {
    // Staged bytes on the IN side raise the same "out" bit as OUT-side
    // ones: the masks model shared completion signalling.
    let mut bus = EmulatedUsbBus::new();
    let i2 = addr(2, UsbDirection::In);
    bus.bus.set_read(i2, &[7], false);
    assert_eq!(
        bus.poll(),
        PollResult::Data { ep_in_complete: 0, ep_out: 0b100, ep_setup: 0 }
    );
}

#[test]
fn poll_with_nothing_pending_reports_no_event() {
    let mut bus = EmulatedUsbBus::new();
    assert_eq!(bus.poll(), PollResult::NoEvent);
}

#[test]
fn device_address_latches() {
    let mut bus = EmulatedUsbBus::new();
    assert_eq!(bus.get_address(), 0);
    bus.set_device_address(55);
    assert_eq!(bus.get_address(), 55);
}

#[test]
fn force_reset_is_unsupported() {
    let bus = EmulatedUsbBus::new();
    assert_eq!(bus.force_reset(), Err(BusError::Unsupported));
}

#[test]
fn stall_flags_set_and_clear_per_direction() {
    let mut bus = EmulatedUsbBus::new();
    let o1 = addr(1, UsbDirection::Out);
    let i1 = addr(1, UsbDirection::In);
    bus.set_stalled(o1, true);
    assert!(bus.is_stalled(o1));
    assert!(!bus.is_stalled(i1));
    bus.set_stalled(o1, false);
    assert!(!bus.is_stalled(o1));
}
