//! Field isolation: setting any declared field re-reads as the same value
//! and leaves every other field's last-set value unchanged.

use xhci::ring::trb::command::AddressDevice;
use xhci::ring::trb::command::ConfigureEndpoint;
use xhci::ring::trb::command::DisableSlot;
use xhci::ring::trb::command::EnableSlot;
use xhci::ring::trb::command::EvaluateContext;
use xhci::ring::trb::command::Noop;
use xhci::ring::trb::command::ResetEndpoint;
use xhci::ring::trb::command::SetTrDequeuePointer;
use xhci::ring::trb::command::StopEndpoint;
use xhci::ring::trb::Link;

#[test]
fn noop_starts_zeroed_with_type_preset() {
    let t = Noop::new();
    assert!(!t.cycle_bit());
    assert_eq!(t.into_raw(), [0, 0, 0, 23 << 10]);
}

#[test]
fn enable_slot_slot_type_round_trips() {
    let mut t = EnableSlot::new();
    assert_eq!(t.slot_type(), 0);
    t.set_slot_type(5);
    assert_eq!(t.slot_type(), 5);
    t.set_slot_type(31);
    assert_eq!(t.slot_type(), 31);
    t.set_slot_type(0);
    assert_eq!(t.slot_type(), 0);
}

#[test]
fn disable_slot_slot_id_round_trips() {
    let mut t = DisableSlot::new();
    t.set_slot_id(0xAB);
    assert_eq!(t.slot_id(), 0xAB);
    assert_eq!(t.into_raw()[3], (10 << 10) | (0xAB << 24));
}

#[test]
fn address_device_fields_are_isolated() {
    let mut t = AddressDevice::new();
    t.set_input_context_pointer(0x1234_5678_0000_FFF0)
        .set_block_set_address_request(true)
        .set_slot_id(7);
    assert_eq!(t.input_context_pointer(), 0x1234_5678_0000_FFF0);
    assert!(t.block_set_address_request());
    assert_eq!(t.slot_id(), 7);
    // Rewriting one field must leave the other two as last set.
    t.set_slot_id(9);
    assert_eq!(t.input_context_pointer(), 0x1234_5678_0000_FFF0);
    assert!(t.block_set_address_request());
    assert_eq!(t.slot_id(), 9);
    t.set_block_set_address_request(false);
    assert_eq!(t.input_context_pointer(), 0x1234_5678_0000_FFF0);
    assert!(!t.block_set_address_request());
    assert_eq!(t.slot_id(), 9);
    t.set_input_context_pointer(0x10);
    assert_eq!(t.input_context_pointer(), 0x10);
    assert!(!t.block_set_address_request());
    assert_eq!(t.slot_id(), 9);
}

#[test]
fn configure_endpoint_fields_are_isolated() {
    let mut t = ConfigureEndpoint::new();
    t.set_input_context_pointer(0x4000).set_deconfigure(true).set_slot_id(4);
    assert_eq!(t.input_context_pointer(), 0x4000);
    assert!(t.deconfigure());
    assert_eq!(t.slot_id(), 4);
    t.set_deconfigure(false);
    assert_eq!(t.input_context_pointer(), 0x4000);
    assert!(!t.deconfigure());
    assert_eq!(t.slot_id(), 4);
}

#[test]
fn evaluate_context_fields_are_isolated() {
    let mut t = EvaluateContext::new();
    t.set_input_context_pointer(0xFFFF_FFFF_FFFF_FFF0).set_slot_id(255);
    assert_eq!(t.input_context_pointer(), 0xFFFF_FFFF_FFFF_FFF0);
    assert_eq!(t.slot_id(), 255);
    t.set_slot_id(0);
    assert_eq!(t.input_context_pointer(), 0xFFFF_FFFF_FFFF_FFF0);
    assert_eq!(t.slot_id(), 0);
}

#[test]
fn reset_endpoint_fields_are_isolated() {
    let mut t = ResetEndpoint::new();
    t.set_transfer_state_preserve(true).set_endpoint_id(17).set_slot_id(3);
    assert!(t.transfer_state_preserve());
    assert_eq!(t.endpoint_id(), 17);
    assert_eq!(t.slot_id(), 3);
    t.set_endpoint_id(2);
    assert!(t.transfer_state_preserve());
    assert_eq!(t.endpoint_id(), 2);
    assert_eq!(t.slot_id(), 3);
}

#[test]
fn stop_endpoint_fields_are_isolated() {
    let mut t = StopEndpoint::new();
    t.set_endpoint_id(31).set_suspend(true).set_slot_id(200);
    assert_eq!(t.endpoint_id(), 31);
    assert!(t.suspend());
    assert_eq!(t.slot_id(), 200);
    t.set_suspend(false);
    assert_eq!(t.endpoint_id(), 31);
    assert!(!t.suspend());
    assert_eq!(t.slot_id(), 200);
}

#[test]
fn set_tr_dequeue_pointer_stream_id_keeps_slot_id() {
    // Setting Stream ID to 0x1234 must not alter a previously set Slot ID of 7.
    let mut t = SetTrDequeuePointer::new();
    t.set_slot_id(7);
    t.set_stream_id(0x1234);
    assert_eq!(t.slot_id(), 7);
    assert_eq!(t.stream_id(), 0x1234);
}

#[test]
fn set_tr_dequeue_pointer_fields_are_isolated() {
    let mut t = SetTrDequeuePointer::new();
    t.set_dequeue_cycle_state(true)
        .set_stream_context_type(5)
        .set_new_tr_dequeue_pointer(0xAAAA_BBBB_CCCC_0DD0)
        .set_stream_id(0xFFFF)
        .set_endpoint_id(21)
        .set_slot_id(0x80);
    assert!(t.dequeue_cycle_state());
    assert_eq!(t.stream_context_type(), 5);
    assert_eq!(t.new_tr_dequeue_pointer(), 0xAAAA_BBBB_CCCC_0DD0);
    assert_eq!(t.stream_id(), 0xFFFF);
    assert_eq!(t.endpoint_id(), 21);
    assert_eq!(t.slot_id(), 0x80);
    // The pointer shares word 0 with the two flag fields: writing it must
    // keep them, and writing them must keep it.
    t.set_new_tr_dequeue_pointer(0x10);
    assert!(t.dequeue_cycle_state());
    assert_eq!(t.stream_context_type(), 5);
    assert_eq!(t.new_tr_dequeue_pointer(), 0x10);
    t.set_dequeue_cycle_state(false);
    t.set_stream_context_type(0);
    assert_eq!(t.new_tr_dequeue_pointer(), 0x10);
    assert!(!t.dequeue_cycle_state());
    assert_eq!(t.stream_context_type(), 0);
    assert_eq!(t.stream_id(), 0xFFFF);
}

#[test]
fn link_fields_are_isolated() {
    let mut t = Link::new();
    t.set_ring_segment_pointer(0x9000_0000_0000_1230).set_toggle_cycle(true);
    assert_eq!(t.ring_segment_pointer(), 0x9000_0000_0000_1230);
    assert!(t.toggle_cycle());
    assert!(!t.cycle_bit());
    t.set_cycle_bit(true);
    assert_eq!(t.ring_segment_pointer(), 0x9000_0000_0000_1230);
    assert!(t.toggle_cycle());
    assert!(t.cycle_bit());
    assert_eq!(t.into_raw()[3], (6 << 10) | 2 | 1);
}

#[test]
fn cycle_bit_toggles_without_touching_fields() {
    let mut t = AddressDevice::new();
    t.set_slot_id(5).set_block_set_address_request(true);
    t.set_cycle_bit(true);
    assert!(t.cycle_bit());
    assert_eq!(t.slot_id(), 5);
    assert!(t.block_set_address_request());
    t.set_cycle_bit(false);
    assert!(!t.cycle_bit());
    assert_eq!(t.slot_id(), 5);
    assert!(t.block_set_address_request());
}

#[test]
fn defaults_match_new() {
    assert_eq!(Noop::default().into_raw(), Noop::new().into_raw());
    assert_eq!(EnableSlot::default().into_raw(), EnableSlot::new().into_raw());
    assert_eq!(Link::default().into_raw(), Link::new().into_raw());
}
