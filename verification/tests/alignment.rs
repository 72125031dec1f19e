//! Alignment enforcement: the checked pointer mutators reject every address
//! that is not 16-byte aligned and apply no part of their effect.

use xhci::error::Error;
use xhci::ring::trb::command::AddressDevice;
use xhci::ring::trb::Link;
use xhci::ring::trb::command::ConfigureEndpoint;
use xhci::ring::trb::command::EvaluateContext;
use xhci::ring::trb::command::SetTrDequeuePointer;

#[test]
fn misaligned_input_context_pointer_is_rejected() {
    let mut t = AddressDevice::new();
    for p in [0x1001u64, 0x1002, 0x1007, 0x1008, 0x100F, 1, 15] {
        assert_eq!(t.try_set_input_context_pointer(p), Err(Error::NotAligned));
    }
    // No partial application: the descriptor is still all-fresh.
    assert_eq!(t.into_raw(), AddressDevice::new().into_raw());
}

#[test]
fn aligned_input_context_pointer_is_accepted() {
    let mut t = AddressDevice::new();
    assert_eq!(t.try_set_input_context_pointer(0x1000), Ok(()));
    assert_eq!(t.input_context_pointer(), 0x1000);
    assert_eq!(t.try_set_input_context_pointer(0), Ok(()));
    assert_eq!(t.input_context_pointer(), 0);
    assert_eq!(t.try_set_input_context_pointer(0xFFFF_FFFF_FFFF_FFF0), Ok(()));
    assert_eq!(t.input_context_pointer(), 0xFFFF_FFFF_FFFF_FFF0);
}

#[test]
fn rejection_keeps_previously_set_fields() {
    let mut t = AddressDevice::new();
    t.set_input_context_pointer(0x2000).set_slot_id(3);
    assert_eq!(t.try_set_input_context_pointer(0x1001), Err(Error::NotAligned));
    assert_eq!(t.input_context_pointer(), 0x2000);
    assert_eq!(t.slot_id(), 3);
}

#[test]
fn configure_endpoint_checked_pointer() {
    let mut t = ConfigureEndpoint::new();
    assert_eq!(t.try_set_input_context_pointer(0x1001), Err(Error::NotAligned));
    assert_eq!(t.try_set_input_context_pointer(0x1000), Ok(()));
    assert_eq!(t.input_context_pointer(), 0x1000);
}

#[test]
fn evaluate_context_checked_pointer() {
    let mut t = EvaluateContext::new();
    assert_eq!(t.try_set_input_context_pointer(0x123), Err(Error::NotAligned));
    assert_eq!(t.try_set_input_context_pointer(0x120), Ok(()));
    assert_eq!(t.input_context_pointer(), 0x120);
}

#[test]
fn new_tr_dequeue_pointer_checked() {
    let mut t = SetTrDequeuePointer::new();
    t.set_dequeue_cycle_state(true);
    assert_eq!(t.try_set_new_tr_dequeue_pointer(0x1001), Err(Error::NotAligned));
    assert!(t.dequeue_cycle_state());
    assert_eq!(t.new_tr_dequeue_pointer(), 0);
    assert_eq!(t.try_set_new_tr_dequeue_pointer(0x1000), Ok(()));
    assert_eq!(t.new_tr_dequeue_pointer(), 0x1000);
    assert!(t.dequeue_cycle_state());
}

#[test]
fn link_ring_segment_pointer_checked() {
    let mut t = Link::new();
    t.set_toggle_cycle(true);
    assert_eq!(t.try_set_ring_segment_pointer(0x1008), Err(Error::NotAligned));
    assert_eq!(t.ring_segment_pointer(), 0);
    assert!(t.toggle_cycle());
    assert_eq!(t.try_set_ring_segment_pointer(0x1010), Ok(()));
    assert_eq!(t.ring_segment_pointer(), 0x1010);
    assert!(t.toggle_cycle());
}
