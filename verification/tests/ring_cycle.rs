//! Cycle-bit wraparound: for a ring of capacity `C`, `C - 1` enqueues fill
//! the usable slots without a Link TRB; the `C`-th enqueue writes a Link TRB
//! with Toggle Cycle set into the final slot and flips the logical cycle
//! state; the next command TRB placed on the ring carries the flipped cycle
//! bit and lands at index 0.

use xhci::ring::trb::command::Allowed;
use xhci::ring::trb::command::DisableSlot;
use xhci::ring::trb::command::Noop;
use xhci::ring::trb::Link;
use xhci::ring::Ring;

const BASE: u64 = 0x10_0000;

fn noop() -> Allowed {
    Allowed::Noop(Noop::new())
}

#[test]
fn fresh_ring_is_zeroed() {
    let r = Ring::new(BASE, 4);
    assert_eq!(r.capacity(), 4);
    assert_eq!(r.enqueue_index(), 0);
    assert!(r.cycle_state());
    assert_eq!(r.base(), BASE);
    for i in 0..4 {
        assert_eq!(r.read_slot(i), [0, 0, 0, 0]);
    }
}

#[test]
fn filling_writes_no_link_and_keeps_cycle() {
    // Capacity 4: three usable slots, the final slot reserved for the Link.
    let mut r = Ring::new(BASE, 4);
    for i in 0..3u64 {
        let addr = r.enqueue(noop());
        assert_eq!(addr, BASE + 16 * i);
        assert!(r.cycle_state());
    }
    assert_eq!(r.enqueue_index(), 3);
    // Every written slot carries a No Op with the cycle bit stamped true.
    for i in 0..3 {
        let slot = r.read_slot(i);
        assert_eq!(slot[3], (23 << 10) | 1);
    }
    // The reserved final slot is untouched: no Link TRB yet.
    assert_eq!(r.read_slot(3), [0, 0, 0, 0]);
}

#[test]
fn wrapping_enqueue_writes_link_flips_cycle_and_lands_at_zero() {
    let mut r = Ring::new(BASE, 4);
    for _ in 0..3 {
        r.enqueue(noop());
    }
    // The fourth enqueue reaches the reserved slot: Link first, then the
    // command at index 0 with the new cycle state.
    let addr = r.enqueue(noop());
    assert_eq!(addr, BASE);
    assert_eq!(r.enqueue_index(), 1);
    assert!(!r.cycle_state());
    let link = Link::try_from_raw(r.read_slot(3)).unwrap();
    assert_eq!(link.ring_segment_pointer(), BASE);
    assert!(link.toggle_cycle());
    // The Link carries the producer's cycle state at the time of the wrap.
    assert!(link.cycle_bit());
    // The command written by the wrapping enqueue sits at index 0 and is the
    // first TRB after the Link: it carries the flipped cycle bit.
    let first = r.read_slot(0);
    assert_eq!(first[3], 23 << 10);
    let decoded = Noop::try_from_raw(first).unwrap();
    assert!(!decoded.cycle_bit());
}

#[test]
fn second_wrap_restores_cycle_state() {
    let mut r = Ring::new(BASE, 4);
    for _ in 0..6 {
        r.enqueue(noop());
    }
    // 4 enqueues wrapped once (cycle false), 2 more reach the reserved slot.
    assert_eq!(r.enqueue_index(), 3);
    assert!(!r.cycle_state());
    let addr = r.enqueue(noop());
    assert_eq!(addr, BASE);
    assert!(r.cycle_state());
    let link = Link::try_from_raw(r.read_slot(3)).unwrap();
    // This Link was stamped with the pre-flip state of the second traversal.
    assert!(!link.cycle_bit());
    assert!(link.toggle_cycle());
}

#[test]
fn smallest_ring_alternates() {
    // Capacity 2: one usable slot, one reserved; every enqueue after the
    // first wraps.
    let mut r = Ring::new(BASE, 2);
    let a0 = r.enqueue(noop());
    assert_eq!(a0, BASE);
    assert_eq!(r.enqueue_index(), 1);
    assert!(r.cycle_state());
    let a1 = r.enqueue(noop());
    assert_eq!(a1, BASE);
    assert_eq!(r.enqueue_index(), 1);
    assert!(!r.cycle_state());
}

#[test]
fn enqueue_stamps_payload_fields_unchanged() {
    let mut r = Ring::new(BASE, 8);
    let mut d = DisableSlot::new();
    d.set_slot_id(0x42);
    let addr = r.enqueue(Allowed::DisableSlot(d));
    assert_eq!(addr, BASE);
    let got = DisableSlot::try_from_raw(r.read_slot(0)).unwrap();
    assert_eq!(got.slot_id(), 0x42);
    assert!(got.cycle_bit());
}
