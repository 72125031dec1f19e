//! Round-trip idempotence and the checked-cast boundary: serializing a
//! descriptor and decoding it recovers every field; a record whose Type
//! discriminator does not match is rejected, never reinterpreted.

use xhci::ring::trb::command::AddressDevice;
use xhci::ring::trb::command::Allowed;
use xhci::ring::trb::command::DisableSlot;
use xhci::ring::trb::command::EnableSlot;
use xhci::ring::trb::command::Noop;
use xhci::ring::trb::command::SetTrDequeuePointer;
use xhci::ring::trb::Link;

#[test]
fn address_device_round_trip() {
    // Fully populated: context pointer 0x2000, Block Set Address Request
    // true, Slot ID 3.
    let mut t = AddressDevice::new();
    t.set_input_context_pointer(0x2000).set_block_set_address_request(true).set_slot_id(3);
    let raw = t.into_raw();
    let decoded = AddressDevice::try_from_raw(raw).unwrap();
    assert_eq!(decoded.input_context_pointer(), 0x2000);
    assert!(decoded.block_set_address_request());
    assert_eq!(decoded.slot_id(), 3);
    assert_eq!(decoded.into_raw(), raw);
}

#[test]
fn address_device_exact_wire_form() {
    // Bit-exact layout: words 0 and 1 hold the pointer, word 3 holds
    // Type 11 at bits 10..=15, the request flag at bit 9, Slot ID at 24..=31.
    let mut t = AddressDevice::new();
    t.set_input_context_pointer(0x2000).set_block_set_address_request(true).set_slot_id(3);
    assert_eq!(t.into_raw(), [0x2000, 0, 0, (11 << 10) | (1 << 9) | (3 << 24)]);
}

#[test]
fn mismatched_type_is_rejected_with_words_returned() {
    let raw = Noop::new().into_raw();
    assert_eq!(AddressDevice::try_from_raw(raw), Err(raw));
    assert_eq!(Link::try_from_raw(raw), Err(raw));
    assert_eq!(Noop::try_from_raw(Link::new().into_raw()), Err(Link::new().into_raw()));
}

#[test]
fn set_tr_dequeue_pointer_round_trip() {
    let mut t = SetTrDequeuePointer::new();
    t.set_dequeue_cycle_state(true)
        .set_stream_context_type(3)
        .set_new_tr_dequeue_pointer(0x7777_0000_1230)
        .set_stream_id(0x1234)
        .set_endpoint_id(7)
        .set_slot_id(7);
    let decoded = SetTrDequeuePointer::try_from_raw(t.into_raw()).unwrap();
    assert!(decoded.dequeue_cycle_state());
    assert_eq!(decoded.stream_context_type(), 3);
    assert_eq!(decoded.new_tr_dequeue_pointer(), 0x7777_0000_1230);
    assert_eq!(decoded.stream_id(), 0x1234);
    assert_eq!(decoded.endpoint_id(), 7);
    assert_eq!(decoded.slot_id(), 7);
}

#[test]
fn link_round_trip() {
    let mut t = Link::new();
    t.set_ring_segment_pointer(0xDEAD_BEE0).set_toggle_cycle(true);
    let decoded = Link::try_from_raw(t.into_raw()).unwrap();
    assert_eq!(decoded.ring_segment_pointer(), 0xDEAD_BEE0);
    assert!(decoded.toggle_cycle());
}

#[test]
fn allowed_dispatches_on_type() {
    assert!(matches!(Allowed::try_from_raw(Link::new().into_raw()), Ok(Allowed::Link(_))));
    assert!(matches!(
        Allowed::try_from_raw(EnableSlot::new().into_raw()),
        Ok(Allowed::EnableSlot(_))
    ));
    assert!(matches!(
        Allowed::try_from_raw(DisableSlot::new().into_raw()),
        Ok(Allowed::DisableSlot(_))
    ));
    assert!(matches!(
        Allowed::try_from_raw(AddressDevice::new().into_raw()),
        Ok(Allowed::AddressDevice(_))
    ));
    assert!(matches!(
        Allowed::try_from_raw(SetTrDequeuePointer::new().into_raw()),
        Ok(Allowed::SetTrDequeuePointer(_))
    ));
    assert!(matches!(Allowed::try_from_raw(Noop::new().into_raw()), Ok(Allowed::Noop(_))));
}

#[test]
fn allowed_rejects_foreign_trb_kinds() {
    // Type 1 is a Normal (transfer) TRB; type 32 a Transfer Event; type 0
    // reserved. None belongs on a Command Ring.
    for code in [0u32, 1, 2, 8, 32, 33, 63] {
        let raw = [0, 0, 0, code << 10];
        assert_eq!(Allowed::try_from_raw(raw), Err(raw));
    }
}

#[test]
fn allowed_round_trips_payload() {
    let mut d = DisableSlot::new();
    d.set_slot_id(9);
    let a = Allowed::DisableSlot(d);
    let raw = a.into_raw();
    match Allowed::try_from_raw(raw) {
        Ok(Allowed::DisableSlot(got)) => assert_eq!(got.slot_id(), 9),
        other => panic!("wrong decode: {:?}", other),
    }
}

#[test]
fn allowed_cycle_bit_stamp() {
    let mut a = Allowed::Noop(Noop::new());
    assert!(!a.cycle_bit());
    a.set_cycle_bit(true);
    assert!(a.cycle_bit());
    assert_eq!(a.into_raw()[3], (23 << 10) | 1);
}
