//! Transaction driver tests: the control-transfer phases, short-packet
//! termination, the stall outcomes, the bounded DATA-OUT retry loop
//! and the hook verdicts.

use usbd_class_tester::adapter::EmulatedUsbBus;
use usbd_class_tester::bus::{EndpointAddress, UsbDirection};
use usbd_class_tester::driver::{
    resolve_poll, AnyUsbError, HookAction, HookWhen, PollVerdict, RWRes, Step, Transaction,
};
use usbd_class_tester::endpoint::EndpointKind;
use usbd_class_tester::usbdata::{CtrRequestType, SetupPacket};

fn addr(index: usize, direction: UsbDirection) -> EndpointAddress {
    EndpointAddress { index, direction }
}

/// A bus with endpoint 0 allocated in both directions as a control
/// endpoint of the given maximum packet size.
fn control_bus(mps: u16) -> EmulatedUsbBus {
    let mut bus = EmulatedUsbBus::new();
    bus.alloc_ep(
        UsbDirection::Out,
        Some(addr(0, UsbDirection::Out)),
        EndpointKind::Control,
        mps,
    )
    .expect("alloc out");
    bus.alloc_ep(
        UsbDirection::In,
        Some(addr(0, UsbDirection::In)),
        EndpointKind::Control,
        mps,
    )
    .expect("alloc in");
    bus
}

#[test]
fn control_read_returns_the_exact_reply() {
    // GET_STATUS-shaped scenario: SETUP asks for 2 bytes, the device
    // answers with exactly [0x01, 0x00] and no stall.
    let mut bus = control_bus(8);
    let setup = SetupPacket::new(CtrRequestType::to_host(), 0x00, 0, 0, 2).to_bytes();
    let o0 = addr(0, UsbDirection::Out);
    let i0 = addr(0, UsbDirection::In);

    let (mut tx, step) = Transaction::start(&mut bus, 0, Some(&setup), None);
    assert_eq!(step, Step::Poll(HookWhen::AfterSetup(o0)));

    // The device consumes the SETUP packet and stages its reply.
    assert_eq!(bus.read(o0, 8), Ok(setup.clone()));
    assert_eq!(bus.write(i0, &[0x01, 0x00]), Ok(2));

    let step = tx.polled(&mut bus, true);
    assert_eq!(step, Step::Poll(HookWhen::DataIn(i0)));
    let step = tx.polled(&mut bus, true);
    assert_eq!(
        step,
        Step::Done(RWRes { read: Some(2), wrote: None })
    );
    assert_eq!(tx.collected, vec![0x01, 0x00]);
    assert!(!bus.is_stalled(o0) && !bus.is_stalled(i0));
}

#[test]
fn short_packet_terminates_a_multi_packet_response() {
    // Two full 8-byte packets, then a 3-byte one: the driver returns
    // the concatenation of all three and stops at the short packet.
    let mut bus = control_bus(8);
    let i0 = addr(0, UsbDirection::In);
    bus.write(i0, &[0, 1, 2, 3, 4, 5, 6, 7]).expect("packet");

    let (mut tx, step) = Transaction::start(&mut bus, 0, None, None);
    assert_eq!(step, Step::Poll(HookWhen::DataIn(i0)));

    bus.write(i0, &[8, 9, 10, 11, 12, 13, 14, 15]).expect("packet");
    assert_eq!(tx.polled(&mut bus, true), Step::Poll(HookWhen::DataIn(i0)));

    bus.write(i0, &[16, 17, 18]).expect("packet");
    assert_eq!(tx.polled(&mut bus, true), Step::Poll(HookWhen::DataIn(i0)));

    // Nothing further staged: the 3-byte packet ends the transfer.
    assert_eq!(
        tx.polled(&mut bus, true),
        Step::Done(RWRes { read: Some(19), wrote: None })
    );
    assert_eq!(tx.collected, (0u8..19).collect::<Vec<u8>>());
}

#[test]
fn empty_packet_also_terminates() {
    let mut bus = control_bus(8);
    let i0 = addr(0, UsbDirection::In);
    bus.write(i0, &[0, 1, 2, 3, 4, 5, 6, 7]).expect("packet");
    let (mut tx, _) = Transaction::start(&mut bus, 0, None, None);
    // No more data: the next pull is empty, which is a short packet.
    assert_eq!(tx.polled(&mut bus, true), Step::Poll(HookWhen::DataIn(i0)));
    assert_eq!(
        tx.polled(&mut bus, true),
        Step::Done(RWRes { read: Some(8), wrote: None })
    );
    assert_eq!(tx.collected, vec![0, 1, 2, 3, 4, 5, 6, 7]);
}

#[test]
fn stall_after_setup_is_reported() {
    let mut bus = control_bus(8);
    let setup = SetupPacket::new(CtrRequestType::to_host(), 0x42, 0, 0, 0).to_bytes();
    let (mut tx, _) = Transaction::start(&mut bus, 0, Some(&setup), None);
    // The device rejects the request by stalling; it read nothing.
    bus.read(addr(0, UsbDirection::Out), 8).expect("setup");
    bus.set_stalled(addr(0, UsbDirection::In), true);
    assert_eq!(tx.polled(&mut bus, true), Step::Fail(AnyUsbError::EP0Stalled));
}

#[test]
fn unconsumed_setup_is_reported() {
    let mut bus = control_bus(8);
    let setup = SetupPacket::new(CtrRequestType::to_host(), 0x42, 0, 0, 0).to_bytes();
    let (mut tx, _) = Transaction::start(&mut bus, 0, Some(&setup), None);
    // The device neither stalls nor reads the SETUP packet.
    assert_eq!(
        tx.polled(&mut bus, true),
        Step::Fail(AnyUsbError::EP0NotEmptyAfterSetup)
    );
}

#[test]
fn fresh_setup_clears_stall_on_both_directions() {
    let mut bus = control_bus(8);
    let o0 = addr(0, UsbDirection::Out);
    let i0 = addr(0, UsbDirection::In);
    bus.set_stalled(o0, true);
    bus.set_stalled(i0, true);
    let setup = SetupPacket::new(CtrRequestType::to_host(), 0x00, 0, 0, 2).to_bytes();
    let (_tx, _) = Transaction::start(&mut bus, 0, Some(&setup), None);
    assert!(!bus.is_stalled(o0));
    assert!(!bus.is_stalled(i0));
}

#[test]
fn payload_is_appended_after_the_setup_check() {
    let mut bus = control_bus(8);
    let o0 = addr(0, UsbDirection::Out);
    let setup = SetupPacket::new(CtrRequestType::to_device(), 0x07, 0, 0, 4).to_bytes();
    let (mut tx, _) = Transaction::start(&mut bus, 0, Some(&setup), Some(&[9, 8, 7, 6]));

    bus.read(o0, 8).expect("setup consumed");
    let step = tx.polled(&mut bus, true);
    assert_eq!(step, Step::Poll(HookWhen::DataOut(o0)));

    // The device consumes the whole payload before the next poll.
    assert_eq!(bus.read(o0, 8), Ok(vec![9, 8, 7, 6]));
    let step = tx.polled(&mut bus, true);
    assert_eq!(step, Step::Poll(HookWhen::DataIn(addr(0, UsbDirection::In))));
    assert_eq!(
        tx.polled(&mut bus, true),
        Step::Done(RWRes { read: Some(0), wrote: Some(4) })
    );
}

#[test]
fn data_loop_stops_when_the_device_stands_still() {
    let mut bus = control_bus(8);
    let o0 = addr(0, UsbDirection::Out);
    let setup = SetupPacket::new(CtrRequestType::to_device(), 0x07, 0, 0, 4).to_bytes();
    let (mut tx, _) = Transaction::start(&mut bus, 0, Some(&setup), Some(&[9, 8, 7, 6]));
    bus.read(o0, 8).expect("setup consumed");
    assert_eq!(tx.polled(&mut bus, true), Step::Poll(HookWhen::DataOut(o0)));
    // The device consumes nothing: the loop ends without an error and
    // the transaction moves on to the drain phase.
    let step = tx.polled(&mut bus, true);
    assert_eq!(step, Step::Poll(HookWhen::DataIn(addr(0, UsbDirection::In))));
    assert_eq!(
        tx.polled(&mut bus, true),
        Step::Done(RWRes { read: Some(0), wrote: Some(4) })
    );
}

#[test]
fn data_loop_stops_when_no_work_is_reported() {
    let mut bus = control_bus(8);
    let o0 = addr(0, UsbDirection::Out);
    let setup = SetupPacket::new(CtrRequestType::to_device(), 0x07, 0, 0, 2).to_bytes();
    let (mut tx, _) = Transaction::start(&mut bus, 0, Some(&setup), Some(&[1, 2]));
    bus.read(o0, 8).expect("setup consumed");
    assert_eq!(tx.polled(&mut bus, true), Step::Poll(HookWhen::DataOut(o0)));
    // Progress was made, but the settled poll reported no work.
    bus.read(o0, 1).expect("one byte");
    let step = tx.polled(&mut bus, false);
    assert_eq!(step, Step::Poll(HookWhen::DataIn(addr(0, UsbDirection::In))));
}

#[test]
fn stall_during_data_phase_is_reported() {
    let mut bus = control_bus(8);
    let o0 = addr(0, UsbDirection::Out);
    let setup = SetupPacket::new(CtrRequestType::to_device(), 0x07, 0, 0, 2).to_bytes();
    let (mut tx, _) = Transaction::start(&mut bus, 0, Some(&setup), Some(&[1, 2]));
    bus.read(o0, 8).expect("setup consumed");
    assert_eq!(tx.polled(&mut bus, true), Step::Poll(HookWhen::DataOut(o0)));
    // The device rejects the payload.
    bus.set_stalled(o0, true);
    assert_eq!(tx.polled(&mut bus, true), Step::Fail(AnyUsbError::EPStalled));
}

#[test]
fn never_draining_payload_exhausts_the_retry_bound() {
    // A 20-byte payload against a device that never finishes draining
    // the buffer: the driver must give up after its 128 polls with the
    // bounded-retry failure instead of hanging. The host keeps the
    // buffer length changing so every poll still looks like progress.
    let mut bus = control_bus(8);
    let o0 = addr(0, UsbDirection::Out);
    let setup = SetupPacket::new(CtrRequestType::to_device(), 0x07, 0, 0, 20).to_bytes();
    let payload = [0xabu8; 20];
    let (mut tx, _) = Transaction::start(&mut bus, 0, Some(&setup), Some(&payload));
    bus.read(o0, 8).expect("setup consumed");
    let mut step = tx.polled(&mut bus, true);
    assert_eq!(step, Step::Poll(HookWhen::DataOut(o0)));
    for _ in 0..127 {
        // One byte leaves, two fresh ones arrive: never empty, never
        // standing still.
        bus.read(o0, 1).expect("device nibbles");
        bus.bus.append_read(o0, &[0, 0]);
        step = tx.polled(&mut bus, true);
        assert_eq!(step, Step::Poll(HookWhen::DataOut(o0)));
    }
    bus.read(o0, 1).expect("device nibbles");
    bus.bus.append_read(o0, &[0, 0]);
    step = tx.polled(&mut bus, true);
    assert_eq!(step, Step::Fail(AnyUsbError::EPReadFailed));
}

#[test]
fn bare_write_transaction_reports_loaded_bytes() {
    let mut bus = control_bus(8);
    let o1 = addr(1, UsbDirection::Out);
    let i1 = addr(1, UsbDirection::In);
    bus.alloc_ep(UsbDirection::Out, Some(o1), EndpointKind::Interrupt, 8)
        .expect("alloc");
    bus.alloc_ep(UsbDirection::In, Some(i1), EndpointKind::Interrupt, 8)
        .expect("alloc");
    let (mut tx, step) = Transaction::start(&mut bus, 1, None, Some(&[5, 4, 3]));
    assert_eq!(step, Step::Poll(HookWhen::DataOut(o1)));
    assert_eq!(bus.read(o1, 8), Ok(vec![5, 4, 3]));
    assert_eq!(tx.polled(&mut bus, true), Step::Poll(HookWhen::DataIn(i1)));
    assert_eq!(
        tx.polled(&mut bus, true),
        Step::Done(RWRes { read: Some(0), wrote: Some(3) })
    );
}

#[test]
fn hook_verdicts_follow_the_action() {
    assert_eq!(resolve_poll(HookAction::Default, true), PollVerdict::Settled(true));
    assert_eq!(resolve_poll(HookAction::Default, false), PollVerdict::Settled(false));
    assert_eq!(resolve_poll(HookAction::ForcePoll, true), PollVerdict::PollAgain);
    assert_eq!(resolve_poll(HookAction::ForcePoll, false), PollVerdict::PollAgain);
    assert_eq!(resolve_poll(HookAction::Stop, true), PollVerdict::Settled(false));
    assert_eq!(resolve_poll(HookAction::Stop, false), PollVerdict::Settled(false));
}
