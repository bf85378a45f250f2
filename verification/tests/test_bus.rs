//! Endpoint buffer and bus state tests: staging, draining, the SETUP
//! stall-clear rule and the aggregate queries.

use usbd_class_tester::bus::{BusState, EndpointAddress, UsbDirection};
use usbd_class_tester::endpoint::EndpointBuffer;

fn out0() -> EndpointAddress {
    EndpointAddress { index: 0, direction: UsbDirection::Out }
}

fn in0() -> EndpointAddress {
    EndpointAddress { index: 0, direction: UsbDirection::In }
}

#[test]
fn endpoint_set_read_overwrites_and_marks_ready() {
    let mut e = EndpointBuffer::new();
    assert_eq!(e.set_read(&[1, 2, 3], true), 3);
    assert_eq!(e.read, vec![1, 2, 3]);
    assert!(e.read_ready);
    assert!(e.setup);
    assert_eq!(e.set_read(&[9, 9], false), 2);
    assert_eq!(e.read, vec![9, 9]);
    assert!(!e.setup);
}

#[test]
fn endpoint_set_read_empty_is_a_no_op() {
    let mut e = EndpointBuffer::new();
    e.set_read(&[1, 2, 3], true);
    assert_eq!(e.set_read(&[], false), 0);
    assert_eq!(e.read, vec![1, 2, 3]);
    assert!(e.read_ready);
    assert!(e.setup);
}

#[test]
fn endpoint_append_read_appends() {
    let mut e = EndpointBuffer::new();
    e.set_read(&[1, 2], false);
    assert_eq!(e.append_read(&[3, 4]), 2);
    assert_eq!(e.read, vec![1, 2, 3, 4]);
}

#[test]
fn endpoint_get_write_drains_and_latches() {
    let mut e = EndpointBuffer::new();
    e.write_packet(&[5, 6, 7]);
    assert!(!e.write_done);
    let drained = e.get_write();
    assert_eq!(drained, vec![5, 6, 7]);
    assert!(e.write.is_empty());
    assert!(e.write_done);
    assert_eq!(e.get_write(), Vec::<u8>::new());
}

#[test]
fn endpoint_write_packet_truncates_at_capacity() {
    let mut e = EndpointBuffer::new();
    assert_eq!(e.write_packet(&[0u8; 1000]), 1000);
    assert_eq!(e.write_packet(&[1u8; 100]), 24);
    assert_eq!(e.write.len(), 1024);
    assert_eq!(e.write_packet(&[2u8; 8]), 0);
}

#[test]
fn setup_on_out_clears_stall_both_directions() {
    let mut b = BusState::new();
    b.ep_mut(in0()).stall = true;
    b.ep_mut(out0()).stall = true;
    assert!(b.stalled(0));
    let setup = [0x80u8, 0x00, 0, 0, 0, 0, 0x02, 0];
    assert_eq!(b.set_read(out0(), &setup, true), 8);
    assert!(!b.stalled(0));
    assert_eq!(b.ep_data_len(out0()), 8);
}

#[test]
fn setup_clears_stall_on_higher_endpoints_too() {
    let mut b = BusState::new();
    let o3 = EndpointAddress { index: 3, direction: UsbDirection::Out };
    let i3 = EndpointAddress { index: 3, direction: UsbDirection::In };
    b.ep_mut(i3).stall = true;
    b.ep_mut(o3).stall = true;
    b.set_read(o3, &[1, 2], true);
    assert!(!b.stalled(3));
}

#[test]
fn plain_staging_leaves_stall_alone() {
    let mut b = BusState::new();
    b.ep_mut(out0()).stall = true;
    b.set_read(out0(), &[1, 2], false);
    assert!(b.stalled(0));
    let mut c = BusState::new();
    c.ep_mut(in0()).stall = true;
    c.set_read(in0(), &[1, 2], true);
    assert!(c.stalled(0));
}

#[test]
fn emptiness_and_length_follow_direction() {
    let mut b = BusState::new();
    assert!(b.ep_is_empty(out0()));
    assert!(!b.ep_is_empty(in0()));
    b.set_read(out0(), &[1, 2, 3], false);
    assert!(!b.ep_is_empty(out0()));
    assert_eq!(b.ep_data_len(out0()), 3);
    let ep = b.ep_mut(in0());
    ep.write_packet(&[9; 5]);
    assert_eq!(b.ep_data_len(in0()), 5);
    let _ = b.get_write(in0());
    assert!(b.ep_is_empty(in0()));
    assert_eq!(b.ep_data_len(in0()), 0);
}

#[test]
fn stalled_ors_both_directions() {
    let mut b = BusState::new();
    assert!(!b.stalled(2));
    let i2 = EndpointAddress { index: 2, direction: UsbDirection::In };
    b.ep_mut(i2).stall = true;
    assert!(b.stalled(2));
}
