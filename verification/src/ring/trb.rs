//! Transfer Request Blocks.
//!
//! A TRB is a fixed 16-byte descriptor, modeled as four 32-bit words. Bits
//! 10..=15 of word 3 hold the TRB Type discriminator; bit 0 of word 3 is the
//! Cycle bit, the per-slot ownership flag of the ring protocol. Each TRB kind
//! is a typed view over the four words: its constructor yields an all-zero
//! descriptor with only the Type field preset, and its accessors never touch
//! bits outside their declared range.

use vstd::prelude::*;

pub mod command;

verus! {

use crate::bits::field_get;
use crate::bits::field_set;
use crate::bits::flag_get;
use crate::bits::get_field;
use crate::bits::join32;
use crate::bits::lemma_field_get_zero;
use crate::bits::lemma_field_set_get;
use crate::bits::lemma_field_set_other;
use crate::bits::lemma_fits;
use crate::bits::lemma_join_split;
use crate::bits::lemma_mask_values;
use crate::bits::set_field;

/// TRB Type of a Link TRB.
pub const TYPE_LINK: u32 = 6;
/// TRB Type of an Enable Slot Command TRB.
pub const TYPE_ENABLE_SLOT: u32 = 9;
/// TRB Type of a Disable Slot Command TRB.
pub const TYPE_DISABLE_SLOT: u32 = 10;
/// TRB Type of an Address Device Command TRB.
pub const TYPE_ADDRESS_DEVICE: u32 = 11;
/// TRB Type of a Configure Endpoint Command TRB.
pub const TYPE_CONFIGURE_ENDPOINT: u32 = 12;
/// TRB Type of an Evaluate Context Command TRB.
pub const TYPE_EVALUATE_CONTEXT: u32 = 13;
/// TRB Type of a Reset Endpoint Command TRB.
pub const TYPE_RESET_ENDPOINT: u32 = 14;
/// TRB Type of a Stop Endpoint Command TRB.
pub const TYPE_STOP_ENDPOINT: u32 = 15;
/// TRB Type of a Set TR Dequeue Pointer Command TRB.
pub const TYPE_SET_TR_DEQUEUE_POINTER: u32 = 16;
/// TRB Type of a No Op Command TRB.
pub const TYPE_NOOP_COMMAND: u32 = 23;

/// The four words of a freshly constructed TRB of the given Type: all zero
/// except the Type discriminator.
pub open spec fn spec_new_words(code: u32) -> Seq<u32> {
    seq![0u32, 0u32, 0u32, field_set(0u32, 10, 6, code)]
}

/// `words` with the Cycle bit (bit 0 of word 3) set to `c`.
pub open spec fn spec_with_cycle(words: Seq<u32>, c: bool) -> Seq<u32> {
    words.update(3, field_set(words[3], 0, 1, if c { 1u32 } else { 0u32 }))
}

/// The TRB Type discriminator of `words`.
pub open spec fn spec_type_of(words: Seq<u32>) -> u32 {
    field_get(words[3], 10, 6)
}

/// Link TRB: marks ring-segment wraparound, pointing the consumer at the
/// next segment and optionally toggling its expected cycle parity.
#[derive(Clone, Copy, Debug, PartialEq, Eq, Structural)]
pub struct Link {
    w0: u32,
    w1: u32,
    w2: u32,
    w3: u32,
}

impl Link {
    /// The four words of this descriptor.
    pub closed spec fn spec_words(self) -> Seq<u32> {
        seq![self.w0, self.w1, self.w2, self.w3]
    }

    /// The TRB Type discriminator.
    pub open spec fn spec_trb_type(self) -> u32 {
        spec_type_of(self.spec_words())
    }

    /// The Cycle bit.
    pub open spec fn spec_cycle_bit(self) -> bool {
        flag_get(self.spec_words()[3], 0)
    }

    /// The Toggle Cycle flag (bit 1 of word 3).
    pub open spec fn spec_toggle_cycle(self) -> bool {
        flag_get(self.spec_words()[3], 1)
    }

    /// The Ring Segment Pointer (words 0 and 1).
    pub open spec fn spec_ring_segment_pointer(self) -> u64 {
        join32(self.spec_words()[1], self.spec_words()[0])
    }

    /// A Link TRB carries the Link Type discriminator.
    pub open spec fn wf(self) -> bool {
        self.spec_trb_type() == TYPE_LINK
    }

    /// Creates a Link TRB: all words zero except the Type field.
    pub fn new() -> (t: Self)
        ensures
            t.spec_words() == spec_new_words(TYPE_LINK),
            t.wf(),
            !t.spec_cycle_bit(),
            !t.spec_toggle_cycle(),
            t.spec_ring_segment_pointer() == 0,
    {
        proof {
            lemma_mask_values();
            lemma_fits(TYPE_LINK, 6);
            lemma_field_set_get(0, 10, 6, TYPE_LINK);
            lemma_field_set_other(0, 10, 6, TYPE_LINK, 0, 1);
            lemma_field_set_other(0, 10, 6, TYPE_LINK, 1, 1);
            lemma_field_get_zero(0, 1);
            lemma_field_get_zero(1, 1);
        }
        let w3 = set_field(0, 10, 6, 0x3f, TYPE_LINK);
        let t = Link { w0: 0, w1: 0, w2: 0, w3 };
        proof {
            assert(t.spec_words() =~= spec_new_words(TYPE_LINK));
        }
        t
    }

    /// Serializes the descriptor into its raw 16-byte form.
    pub fn into_raw(self) -> (r: [u32; 4])
        ensures
            r@ == self.spec_words(),
    {
        let r = [self.w0, self.w1, self.w2, self.w3];
        proof {
            assert(r@ =~= self.spec_words());
        }
        r
    }

    /// Checked cast from the raw form: accepted exactly when the Type
    /// discriminator is the Link Type; a mismatch returns the words back.
    pub fn try_from_raw(raw: [u32; 4]) -> (r: Result<Self, [u32; 4]>)
        ensures
            r is Ok <==> spec_type_of(raw@) == TYPE_LINK,
            r matches Ok(t) ==> t.spec_words() == raw@ && t.wf(),
            r matches Err(e) ==> e == raw,
    {
        proof {
            lemma_mask_values();
        }
        let ty = get_field(raw[3], 10, 6, 0x3f);
        if ty == TYPE_LINK {
            let t = Link { w0: raw[0], w1: raw[1], w2: raw[2], w3: raw[3] };
            proof {
                assert(t.spec_words() =~= raw@);
            }
            Ok(t)
        } else {
            Err(raw)
        }
    }

    /// Returns the value of the Cycle Bit field.
    pub fn cycle_bit(&self) -> (r: bool)
        ensures
            r == self.spec_cycle_bit(),
    {
        proof {
            lemma_mask_values();
        }
        get_field(self.w3, 0, 1, 1) == 1
    }

    /// Sets the value of the Cycle Bit field.
    pub fn set_cycle_bit(&mut self, c: bool) -> (r: &mut Self)
        ensures
            r.spec_words() == spec_with_cycle(old(self).spec_words(), c),
            r.spec_cycle_bit() == c,
            r.spec_trb_type() == old(self).spec_trb_type(),
            r.spec_toggle_cycle() == old(self).spec_toggle_cycle(),
            r.spec_ring_segment_pointer() == old(self).spec_ring_segment_pointer(),
            *final(self) == *final(r),
    {
        let v: u32 = if c {
            1
        } else {
            0
        };
        proof {
            lemma_mask_values();
            lemma_fits(v, 1);
            lemma_field_set_get(self.w3, 0, 1, v);
            lemma_field_set_other(self.w3, 0, 1, v, 10, 6);
            lemma_field_set_other(self.w3, 0, 1, v, 1, 1);
        }
        self.w3 = set_field(self.w3, 0, 1, 1, v);
        proof {
            assert(self.spec_words() =~= spec_with_cycle(old(self).spec_words(), c));
        }
        self
    }

    /// Returns the value of the Toggle Cycle field.
    pub fn toggle_cycle(&self) -> (r: bool)
        ensures
            r == self.spec_toggle_cycle(),
    {
        proof {
            lemma_mask_values();
        }
        get_field(self.w3, 1, 1, 1) == 1
    }

    /// Sets the value of the Toggle Cycle field.
    pub fn set_toggle_cycle(&mut self, t: bool) -> (r: &mut Self)
        ensures
            r.spec_words() == old(self).spec_words().update(
                3,
                field_set(old(self).spec_words()[3], 1, 1, if t { 1u32 } else { 0u32 }),
            ),
            r.spec_toggle_cycle() == t,
            r.spec_trb_type() == old(self).spec_trb_type(),
            r.spec_cycle_bit() == old(self).spec_cycle_bit(),
            r.spec_ring_segment_pointer() == old(self).spec_ring_segment_pointer(),
            *final(self) == *final(r),
    {
        let v: u32 = if t {
            1
        } else {
            0
        };
        proof {
            lemma_mask_values();
            lemma_fits(v, 1);
            lemma_field_set_get(self.w3, 1, 1, v);
            lemma_field_set_other(self.w3, 1, 1, v, 10, 6);
            lemma_field_set_other(self.w3, 1, 1, v, 0, 1);
        }
        self.w3 = set_field(self.w3, 1, 1, 1, v);
        proof {
            assert(self.spec_words() =~= old(self).spec_words().update(
                3,
                field_set(old(self).spec_words()[3], 1, 1, v),
            ));
        }
        self
    }

    /// Returns the value of the Ring Segment Pointer field.
    pub fn ring_segment_pointer(&self) -> (r: u64)
        ensures
            r == self.spec_ring_segment_pointer(),
    {
        ((self.w1 as u64) << 32) | (self.w0 as u64)
    }

    /// Sets the value of the Ring Segment Pointer field.
    ///
    /// The pointer must be 16-byte aligned: its low 4 bits are reserved and
    /// never treated as address bits.
    pub fn set_ring_segment_pointer(&mut self, p: u64) -> (r: &mut Self)
        requires
            p % 16 == 0,
        ensures
            r.spec_words() == old(self).spec_words().update(0, p as u32).update(
                1,
                (p >> 32) as u32,
            ),
            r.spec_ring_segment_pointer() == p,
            r.spec_trb_type() == old(self).spec_trb_type(),
            r.spec_cycle_bit() == old(self).spec_cycle_bit(),
            r.spec_toggle_cycle() == old(self).spec_toggle_cycle(),
            *final(self) == *final(r),
    {
        self.w0 = #[verifier::truncate] (p as u32);
        self.w1 = (p >> 32) as u32;
        proof {
            lemma_join_split(p);
            assert(self.spec_words() =~= old(self).spec_words().update(0, p as u32).update(
                1,
                (p >> 32) as u32,
            ));
        }
        self
    }

    /// Checked variant of `set_ring_segment_pointer`: a pointer that is not
    /// 16-byte aligned is rejected and the descriptor is left unchanged — the
    /// operation does not partially apply.
    pub fn try_set_ring_segment_pointer(&mut self, p: u64) -> (r: Result<(), crate::error::Error>)
        ensures
            r is Ok <==> p % 16 == 0,
            p % 16 == 0 ==> final(self).spec_ring_segment_pointer() == p && final(self).spec_trb_type() == old(self).spec_trb_type() && final(self).spec_cycle_bit() == old(self).spec_cycle_bit() && final(self).spec_toggle_cycle() == old(self).spec_toggle_cycle(),
            p % 16 != 0 ==> *final(self) == *old(self) && r == Result::<
                (),
                crate::error::Error,
            >::Err(crate::error::Error::NotAligned),
    {
        if p % 16 == 0 {
            self.set_ring_segment_pointer(p);
            Ok(())
        } else {
            Err(crate::error::Error::NotAligned)
        }
    }
}

impl Default for Link {
    /// Same as `Link::new`.
    fn default() -> (t: Self)
        ensures
            t.spec_words() == spec_new_words(TYPE_LINK),
            t.wf(),
    {
        Link::new()
    }
}

} // verus!
