//! Rings: fixed-capacity circular buffers of TRB slots shared with the
//! controller.
//!
//! Software is the only producer; the controller is the only consumer. The
//! two synchronize through nothing but the per-slot Cycle bit: a slot whose
//! Cycle bit matches the consumer's expected parity holds a produced,
//! not-yet-consumed descriptor. The last slot of the ring is reserved: when
//! the producer reaches it, the slot is overwritten with a Link TRB that
//! carries the current cycle state, points back at the ring's base, and has
//! its Toggle Cycle flag set, telling the consumer to flip its expected
//! parity and jump; the producer then flips its own logical cycle state and
//! wraps to index 0.
//!
//! The ring is a data structure in memory owned by the producer. When its
//! slots are mirrored into memory the controller reads over DMA, the writer
//! must make a slot's words 0..=2 and the non-cycle bits of word 3 visible
//! to the device before the Cycle bit's write becomes visible, and both
//! before ringing a doorbell; that store ordering belongs to the memory
//! layer, outside this data structure.

use vstd::prelude::*;

pub mod trb;

verus! {

use crate::bits::field_set;
use crate::bits::flag_get;
use crate::bits::join32;
use crate::bits::lemma_field_set_get;
use crate::bits::lemma_field_set_other;
use crate::bits::lemma_fits;
use crate::bits::lemma_join_split;
use crate::bits::lemma_mask_values;
use crate::ring::trb::command::Allowed;
use crate::ring::trb::spec_type_of;
use crate::ring::trb::spec_with_cycle;
use crate::ring::trb::Link;
use crate::ring::trb::TYPE_LINK;

/// The mathematical model of a ring: its slot contents, base address,
/// enqueue cursor and logical cycle state.
#[verifier::ext_equal]
pub struct RingView {
    /// The four words of each slot.
    pub slots: Seq<Seq<u32>>,
    /// The address of slot 0; slot `i` lives at `base + 16 * i`.
    pub base: u64,
    /// The slot the next enqueue writes to.
    pub index: nat,
    /// The logical cycle state stamped into enqueued TRBs.
    pub cycle: bool,
}

impl RingView {
    /// Well-formedness: at least one usable slot plus the reserved Link
    /// slot, the cursor inside the ring, the base 16-byte aligned, and every
    /// slot address representable.
    pub open spec fn wf(self) -> bool {
        &&& 2 <= self.slots.len()
        &&& self.index < self.slots.len()
        &&& self.base % 16 == 0
        &&& self.base + 16 * self.slots.len() <= u64::MAX
        &&& forall|i: int| 0 <= i < self.slots.len() ==> (#[trigger] self.slots[i]).len() == 4
    }
}

/// The four words of the Link TRB the ring writes into its reserved final
/// slot: target address `base`, Toggle Cycle set, Cycle bit `c`.
pub open spec fn spec_link_words(base: u64, c: bool) -> Seq<u32> {
    seq![
        base as u32,
        (base >> 32) as u32,
        0u32,
        field_set(field_set(field_set(0u32, 10, 6, TYPE_LINK), 1, 1, 1u32), 0, 1, if c {
            1u32
        } else {
            0u32
        }),
    ]
}

/// One enqueue step. With the cursor below the reserved final slot, the
/// stamped TRB lands at the cursor and the cursor advances. With the cursor
/// at the reserved final slot, that slot takes the Link TRB, the cycle state
/// flips, and the stamped TRB lands at index 0 carrying the new state.
pub open spec fn spec_enqueue(v: RingView, words: Seq<u32>) -> RingView {
    if v.index == v.slots.len() - 1 {
        RingView {
            slots: v.slots.update(v.slots.len() - 1, spec_link_words(v.base, v.cycle)).update(
                0,
                spec_with_cycle(words, !v.cycle),
            ),
            base: v.base,
            index: 1,
            cycle: !v.cycle,
        }
    } else {
        RingView {
            slots: v.slots.update(v.index as int, spec_with_cycle(words, v.cycle)),
            base: v.base,
            index: v.index + 1,
            cycle: v.cycle,
        }
    }
}

/// The address at which one enqueue step writes its command TRB.
pub open spec fn spec_enqueue_addr(v: RingView) -> u64 {
    if v.index == v.slots.len() - 1 {
        v.base
    } else {
        (v.base + 16 * v.index) as u64
    }
}

/// The ring view after enqueuing each element of `ts` in order.
pub open spec fn spec_enqueue_all(v: RingView, ts: Seq<Seq<u32>>) -> RingView
    decreases ts.len(),
{
    if ts.len() == 0 {
        v
    } else {
        spec_enqueue_all(spec_enqueue(v, ts[0]), ts.subrange(1, ts.len() as int))
    }
}

/// Law: as long as the cursor stays below the reserved final slot, a run of
/// enqueues writes each TRB in order at consecutive slots, stamped with the
/// unchanged cycle state, and touches no other slot — in particular not the
/// reserved final slot.
pub proof fn lemma_fill_keeps_cycle(v: RingView, ts: Seq<Seq<u32>>)
    requires
        v.wf(),
        v.index + ts.len() <= v.slots.len() - 1,
        forall|j: int| 0 <= j < ts.len() ==> (#[trigger] ts[j]).len() == 4,
    ensures
        ({
            let r = spec_enqueue_all(v, ts);
            &&& r.wf()
            &&& r.slots.len() == v.slots.len()
            &&& r.base == v.base
            &&& r.cycle == v.cycle
            &&& r.index == v.index + ts.len()
            &&& forall|j: int|
                0 <= j < ts.len() ==> r.slots[v.index + j] == spec_with_cycle(#[trigger] ts[j], v.cycle)
            &&& forall|j: int|
                0 <= j < v.slots.len() && !(v.index <= j < v.index + ts.len())
                    ==> #[trigger] r.slots[j] == v.slots[j]
        }),
    decreases ts.len(),
{
    if ts.len() > 0 {
        let v1 = spec_enqueue(v, ts[0]);
        let rest = ts.subrange(1, ts.len() as int);
        assert(v1.slots.len() == v.slots.len());
        assert(spec_with_cycle(ts[0], v.cycle).len() == 4);
        lemma_fill_keeps_cycle(v1, rest);
        let r = spec_enqueue_all(v, ts);
        assert(r == spec_enqueue_all(v1, rest));
        assert forall|j: int|
            0 <= j < ts.len() implies r.slots[v.index + j] == spec_with_cycle(
            #[trigger] ts[j],
            v.cycle,
        ) by {
            if j == 0 {
                assert(r.slots[v.index as int] == v1.slots[v.index as int]);
            } else {
                assert(ts[j] == rest[j - 1]);
            }
        }
    }
}

/// Law (cycle-bit wraparound): from a fresh ring of capacity `C`, the first
/// `C - 1` enqueues fill the usable slots in order, every one stamped with
/// the initial cycle state, and write no Link TRB; the `C`-th enqueue writes
/// a Link TRB carrying the old cycle state, the Toggle Cycle flag and the
/// ring's base into the reserved final slot, flips the logical cycle state,
/// and lands its command TRB at index 0 stamped with the new state, so the
/// next TRB placed on the ring after the Link carries the flipped cycle bit
/// and sits at index 0.
pub proof fn lemma_cycle_bit_wraparound(v: RingView, ts: Seq<Seq<u32>>, w: Seq<u32>)
    requires
        v.wf(),
        v.index == 0,
        ts.len() == v.slots.len() - 1,
        forall|j: int| 0 <= j < ts.len() ==> (#[trigger] ts[j]).len() == 4,
    ensures
        ({
            let f = spec_enqueue_all(v, ts);
            let r = spec_enqueue(f, w);
            &&& f.cycle == v.cycle
            &&& f.index == v.slots.len() - 1
            &&& f.slots[v.slots.len() - 1] == v.slots[v.slots.len() - 1]
            &&& forall|j: int|
                0 <= j < ts.len() ==> f.slots[j] == spec_with_cycle(#[trigger] ts[j], v.cycle)
            &&& r.slots[v.slots.len() - 1] == spec_link_words(v.base, v.cycle)
            &&& r.cycle == !v.cycle
            &&& r.slots[0] == spec_with_cycle(w, !v.cycle)
            &&& r.index == 1
        }),
{
    lemma_fill_keeps_cycle(v, ts);
}

/// The Link TRB the ring writes into the reserved final slot decodes as a
/// Link: it carries the Link Type discriminator, the Toggle Cycle flag, the
/// given cycle bit, and the ring's base as its target address.
pub proof fn lemma_link_words_fields(base: u64, c: bool)
    ensures
        spec_type_of(spec_link_words(base, c)) == TYPE_LINK,
        flag_get(spec_link_words(base, c)[3], 1),
        flag_get(spec_link_words(base, c)[3], 0) == c,
        join32(spec_link_words(base, c)[1], spec_link_words(base, c)[0]) == base,
{
    lemma_mask_values();
    let w1 = field_set(0u32, 10, 6, TYPE_LINK);
    let w2 = field_set(w1, 1, 1, 1u32);
    let v: u32 = if c {
        1
    } else {
        0
    };
    lemma_fits(TYPE_LINK, 6);
    lemma_fits(1u32, 1);
    lemma_fits(v, 1);
    lemma_field_set_get(0u32, 10, 6, TYPE_LINK);
    lemma_field_set_get(w1, 1, 1, 1u32);
    lemma_field_set_get(w2, 0, 1, v);
    lemma_field_set_other(w1, 1, 1, 1u32, 10, 6);
    lemma_field_set_other(w2, 0, 1, v, 10, 6);
    lemma_field_set_other(w2, 0, 1, v, 1, 1);
    lemma_join_split(base);
}

/// A Command Ring: a fixed-length sequence of TRB slots, an enqueue cursor,
/// and a software-tracked cycle state, with automatic Link-TRB insertion at
/// wraparound.
///
/// The ring has exactly one software writer for its whole operational
/// lifetime, and its capacity is fixed at creation.
pub struct Ring {
    slots: Vec<[u32; 4]>,
    base: u64,
    enqueue_index: usize,
    cycle_state: bool,
}

impl View for Ring {
    type V = RingView;

    closed spec fn view(&self) -> RingView {
        RingView {
            slots: self.slots@.map_values(|a: [u32; 4]| a@),
            base: self.base,
            index: self.enqueue_index as nat,
            cycle: self.cycle_state,
        }
    }
}

impl Ring {
    /// Well-formedness of the ring's model.
    pub open spec fn wf(self) -> bool {
        self@.wf()
    }

    /// Creates a ring of `capacity` zeroed slots whose slot 0 lives at
    /// `base`. The base must be 16-byte aligned, there must be room for at
    /// least one usable slot plus the reserved Link slot, and every slot
    /// address must be representable. The initial cycle state is `true`,
    /// matching the consumer's initial expectation.
    pub fn new(base: u64, capacity: usize) -> (r: Ring)
        requires
            base % 16 == 0,
            2 <= capacity,
            base + 16 * capacity <= u64::MAX,
        ensures
            r.wf(),
            r@.slots.len() == capacity,
            forall|i: int|
                0 <= i < capacity ==> #[trigger] r@.slots[i] == seq![0u32, 0u32, 0u32, 0u32],
            r@.base == base,
            r@.index == 0,
            r@.cycle == true,
    {
        let mut slots: Vec<[u32; 4]> = Vec::new();
        let mut k: usize = 0;
        while k < capacity
            invariant
                k <= capacity,
                slots@.len() == k,
                forall|i: int| 0 <= i < k ==> #[trigger] slots@[i]@ == seq![0u32, 0u32, 0u32, 0u32],
            decreases capacity - k,
        {
            let z: [u32; 4] = [0, 0, 0, 0];
            proof {
                assert(z@ =~= seq![0u32, 0u32, 0u32, 0u32]);
            }
            slots.push(z);
            k += 1;
        }
        Ring { slots, base, enqueue_index: 0, cycle_state: true }
    }

    /// The number of slots, fixed at creation.
    pub fn capacity(&self) -> (r: usize)
        ensures
            r == self@.slots.len(),
    {
        self.slots.len()
    }

    /// The slot the next enqueue writes to.
    pub fn enqueue_index(&self) -> (r: usize)
        ensures
            r == self@.index,
    {
        self.enqueue_index
    }

    /// The current logical cycle state.
    pub fn cycle_state(&self) -> (r: bool)
        ensures
            r == self@.cycle,
    {
        self.cycle_state
    }

    /// The address of slot 0.
    pub fn base(&self) -> (r: u64)
        ensures
            r == self@.base,
    {
        self.base
    }

    /// Reads the raw contents of slot `i`.
    pub fn read_slot(&self, i: usize) -> (r: [u32; 4])
        requires
            i < self@.slots.len(),
        ensures
            r@ == self@.slots[i as int],
    {
        self.slots[i]
    }

    /// Enqueues a TRB: stamps it with the current cycle state, writes it
    /// into the slot at the cursor, and advances, inserting the Link TRB and
    /// flipping the cycle state when the cursor has reached the reserved
    /// final slot. Returns the address at which the command TRB was written,
    /// which a later completion on the Event Ring references.
    pub fn enqueue(&mut self, block: Allowed) -> (addr: u64)
        requires
            old(self).wf(),
        ensures
            final(self).wf(),
            final(self)@ == spec_enqueue(old(self)@, block.spec_words()),
            addr == spec_enqueue_addr(old(self)@),
    {
        if self.enqueue_index == self.slots.len() - 1 {
            let last = self.enqueue_index;
            let mut link = Link::new();
            link.set_ring_segment_pointer(self.base);
            link.set_toggle_cycle(true);
            link.set_cycle_bit(self.cycle_state);
            let lraw = link.into_raw();
            proof {
                assert(lraw@ =~= spec_link_words(self.base, self.cycle_state));
            }
            self.slots[last] = lraw;
            self.cycle_state = !self.cycle_state;
            let mut t = block;
            t.set_cycle_bit(self.cycle_state);
            let raw = t.into_raw();
            self.slots[0] = raw;
            self.enqueue_index = 1;
            proof {
                assert(self@ =~~= spec_enqueue(old(self)@, block.spec_words()));
            }
            self.base
        } else {
            let i = self.enqueue_index;
            let mut t = block;
            t.set_cycle_bit(self.cycle_state);
            let raw = t.into_raw();
            self.slots[i] = raw;
            self.enqueue_index = i + 1;
            proof {
                assert(self@ =~~= spec_enqueue(old(self)@, block.spec_words()));
            }
            self.base + 16 * (i as u64)
        }
    }
}

} // verus!
