//! Command TRBs.
//!
//! Each command kind is a typed view over the generic 16-byte descriptor,
//! with paired accessor/mutator operations per field. Mutators return the
//! same handle so several field assignments can be chained before enqueue.
//! Every mutator's contract states both the new value of its own field and
//! that every other field keeps its last-set value (field isolation).

use vstd::prelude::*;

verus! {

use crate::bits::field_get;
use crate::bits::field_set;
use crate::bits::flag_get;
use crate::bits::get_field;
use crate::bits::join32;
use crate::bits::lemma_field_get_bound;
use crate::bits::lemma_field_get_zero;
use crate::bits::lemma_field_set_get;
use crate::bits::lemma_field_set_other;
use crate::bits::lemma_fits;
use crate::bits::lemma_join_split;
use crate::bits::lemma_low_bits_keep_pointer;
use crate::bits::lemma_mask_values;
use crate::bits::lemma_set_pointer_keep_low;
use crate::bits::mask_of;
use crate::bits::set_field;
use crate::error::Error;
use crate::ring::trb::spec_new_words;
use crate::ring::trb::spec_type_of;
use crate::ring::trb::spec_with_cycle;
use crate::ring::trb::Link;
use crate::ring::trb::TYPE_ADDRESS_DEVICE;
use crate::ring::trb::TYPE_CONFIGURE_ENDPOINT;
use crate::ring::trb::TYPE_DISABLE_SLOT;
use crate::ring::trb::TYPE_ENABLE_SLOT;
use crate::ring::trb::TYPE_EVALUATE_CONTEXT;
use crate::ring::trb::TYPE_LINK;
use crate::ring::trb::TYPE_NOOP_COMMAND;
use crate::ring::trb::TYPE_RESET_ENDPOINT;
use crate::ring::trb::TYPE_SET_TR_DEQUEUE_POINTER;
use crate::ring::trb::TYPE_STOP_ENDPOINT;

/// The generic 16-byte descriptor the command kinds are views over.
///
/// Its operations carry the field-isolation contracts once, so that every
/// command kind inherits them.
#[derive(Clone, Copy, Debug, PartialEq, Eq, Structural)]
pub(crate) struct RawTrb {
    w0: u32,
    w1: u32,
    w2: u32,
    w3: u32,
}

impl RawTrb {
    /// The four words of the descriptor.
    pub(crate) closed spec fn spec_words(self) -> Seq<u32> {
        seq![self.w0, self.w1, self.w2, self.w3]
    }

    /// An all-zero descriptor with only the Type field preset.
    pub(crate) fn new(code: u32) -> (t: Self)
        requires
            code <= 63,
        ensures
            t.spec_words() == spec_new_words(code),
            spec_type_of(t.spec_words()) == code,
            forall|lo2: u32, width2: u32|
                lo2 < 32 && 0 < width2 && lo2 + width2 <= 32 && (lo2 + width2 <= 10 || 16 <= lo2)
                    ==> #[trigger] field_get(t.spec_words()[3], lo2, width2) == 0,
            forall|lo2: u32, width2: u32|
                lo2 < 32 && 0 < width2 && lo2 + width2 <= 32 ==> #[trigger] field_get(
                    0u32,
                    lo2,
                    width2,
                ) == 0,
    {
        proof {
            lemma_mask_values();
            lemma_fits(code, 6);
            lemma_field_set_get(0u32, 10, 6, code);
        }
        let w3 = set_field(0, 10, 6, 0x3f, code);
        let t = RawTrb { w0: 0, w1: 0, w2: 0, w3 };
        proof {
            assert(t.spec_words() =~= spec_new_words(code));
            assert forall|lo2: u32, width2: u32|
                lo2 < 32 && 0 < width2 && lo2 + width2 <= 32 && (lo2 + width2 <= 10 || 16
                    <= lo2) implies #[trigger] field_get(t.spec_words()[3], lo2, width2) == 0 by {
                lemma_field_set_other(0u32, 10, 6, code, lo2, width2);
                lemma_field_get_zero(lo2, width2);
            }
            assert forall|lo2: u32, width2: u32|
                lo2 < 32 && 0 < width2 && lo2 + width2 <= 32 implies #[trigger] field_get(
                0u32,
                lo2,
                width2,
            ) == 0 by {
                lemma_field_get_zero(lo2, width2);
            }
        }
        t
    }

    /// The raw 16-byte form.
    pub(crate) fn into_raw(self) -> (r: [u32; 4])
        ensures
            r@ == self.spec_words(),
    {
        let r = [self.w0, self.w1, self.w2, self.w3];
        proof {
            assert(r@ =~= self.spec_words());
        }
        r
    }

    /// The descriptor holding the given raw words.
    pub(crate) fn from_raw(raw: [u32; 4]) -> (t: Self)
        ensures
            t.spec_words() == raw@,
    {
        let t = RawTrb { w0: raw[0], w1: raw[1], w2: raw[2], w3: raw[3] };
        proof {
            assert(t.spec_words() =~= raw@);
        }
        t
    }

    /// Reads the `width`-bit field at bit `lo` of word 3.
    pub(crate) fn get_w3(&self, lo: u32, width: u32, mask: u32) -> (r: u32)
        requires
            lo < 32,
            mask == mask_of(width),
        ensures
            r == field_get(self.spec_words()[3], lo, width),
            r <= mask_of(width),
    {
        proof {
            lemma_field_get_bound(self.w3, lo, width);
        }
        get_field(self.w3, lo, width, mask)
    }

    /// Writes `v` into the `width`-bit field at bit `lo` of word 3; every
    /// disjoint field of the descriptor is unchanged.
    pub(crate) fn set_w3(&mut self, lo: u32, width: u32, mask: u32, v: u32)
        requires
            lo < 32,
            0 < width < 32,
            lo + width <= 32,
            mask == mask_of(width),
            v <= mask_of(width),
        ensures
            final(self).spec_words() == old(self).spec_words().update(
                3,
                field_set(old(self).spec_words()[3], lo, width, v),
            ),
            field_get(final(self).spec_words()[3], lo, width) == v,
            forall|lo2: u32, width2: u32|
                lo2 < 32 && 0 < width2 && lo2 + width2 <= 32 && (lo + width <= lo2 || lo2 + width2
                    <= lo) ==> #[trigger] field_get(final(self).spec_words()[3], lo2, width2)
                    == field_get(old(self).spec_words()[3], lo2, width2),
    {
        proof {
            lemma_fits(v, width);
            lemma_field_set_get(self.w3, lo, width, v);
        }
        let w3old = self.w3;
        self.w3 = set_field(self.w3, lo, width, mask, v);
        proof {
            assert forall|lo2: u32, width2: u32|
                lo2 < 32 && 0 < width2 && lo2 + width2 <= 32 && (lo + width <= lo2 || lo2 + width2
                    <= lo) implies #[trigger] field_get(self.spec_words()[3], lo2, width2)
                == field_get(w3old, lo2, width2) by {
                lemma_field_set_other(w3old, lo, width, v, lo2, width2);
            }
            assert(self.spec_words() =~= old(self).spec_words().update(
                3,
                field_set(old(self).spec_words()[3], lo, width, v),
            ));
        }
    }

    /// Reads the `width`-bit field at bit `lo` of word 0.
    pub(crate) fn get_w0(&self, lo: u32, width: u32, mask: u32) -> (r: u32)
        requires
            lo < 32,
            mask == mask_of(width),
        ensures
            r == field_get(self.spec_words()[0], lo, width),
            r <= mask_of(width),
    {
        proof {
            lemma_field_get_bound(self.w0, lo, width);
        }
        get_field(self.w0, lo, width, mask)
    }

    /// Writes `v` into the `width`-bit field at bit `lo` of word 0; every
    /// disjoint field is unchanged, and a field confined to the low 4 bits
    /// leaves the aligned pointer held in the remaining bits intact.
    pub(crate) fn set_w0(&mut self, lo: u32, width: u32, mask: u32, v: u32)
        requires
            lo < 32,
            0 < width < 32,
            lo + width <= 32,
            mask == mask_of(width),
            v <= mask_of(width),
        ensures
            final(self).spec_words() == old(self).spec_words().update(
                0,
                field_set(old(self).spec_words()[0], lo, width, v),
            ),
            field_get(final(self).spec_words()[0], lo, width) == v,
            forall|lo2: u32, width2: u32|
                lo2 < 32 && 0 < width2 && lo2 + width2 <= 32 && (lo + width <= lo2 || lo2 + width2
                    <= lo) ==> #[trigger] field_get(final(self).spec_words()[0], lo2, width2)
                    == field_get(old(self).spec_words()[0], lo2, width2),
            lo + width <= 4 ==> join32(final(self).spec_words()[1], final(self).spec_words()[0])
                & 0xffff_ffff_ffff_fff0u64 == join32(
                old(self).spec_words()[1],
                old(self).spec_words()[0],
            ) & 0xffff_ffff_ffff_fff0u64,
    {
        proof {
            lemma_fits(v, width);
            lemma_field_set_get(self.w0, lo, width, v);
            if lo + width <= 4 {
                lemma_low_bits_keep_pointer(self.w1, self.w0, lo, width, v);
            }
        }
        let w0old = self.w0;
        self.w0 = set_field(self.w0, lo, width, mask, v);
        proof {
            assert forall|lo2: u32, width2: u32|
                lo2 < 32 && 0 < width2 && lo2 + width2 <= 32 && (lo + width <= lo2 || lo2 + width2
                    <= lo) implies #[trigger] field_get(self.spec_words()[0], lo2, width2)
                == field_get(w0old, lo2, width2) by {
                lemma_field_set_other(w0old, lo, width, v, lo2, width2);
            }
            assert(self.spec_words() =~= old(self).spec_words().update(
                0,
                field_set(old(self).spec_words()[0], lo, width, v),
            ));
        }
    }

    /// Reads the `width`-bit field at bit `lo` of word 2.
    pub(crate) fn get_w2(&self, lo: u32, width: u32, mask: u32) -> (r: u32)
        requires
            lo < 32,
            mask == mask_of(width),
        ensures
            r == field_get(self.spec_words()[2], lo, width),
            r <= mask_of(width),
    {
        proof {
            lemma_field_get_bound(self.w2, lo, width);
        }
        get_field(self.w2, lo, width, mask)
    }

    /// Writes `v` into the `width`-bit field at bit `lo` of word 2.
    pub(crate) fn set_w2(&mut self, lo: u32, width: u32, mask: u32, v: u32)
        requires
            lo < 32,
            0 < width < 32,
            lo + width <= 32,
            mask == mask_of(width),
            v <= mask_of(width),
        ensures
            final(self).spec_words() == old(self).spec_words().update(
                2,
                field_set(old(self).spec_words()[2], lo, width, v),
            ),
            field_get(final(self).spec_words()[2], lo, width) == v,
    {
        proof {
            lemma_fits(v, width);
            lemma_field_set_get(self.w2, lo, width, v);
        }
        self.w2 = set_field(self.w2, lo, width, mask, v);
        proof {
            assert(self.spec_words() =~= old(self).spec_words().update(
                2,
                field_set(old(self).spec_words()[2], lo, width, v),
            ));
        }
    }

    /// The 64-bit pointer held in words 0 and 1.
    pub(crate) fn pointer(&self) -> (r: u64)
        ensures
            r == join32(self.spec_words()[1], self.spec_words()[0]),
    {
        ((self.w1 as u64) << 32) | (self.w0 as u64)
    }

    /// Stores an aligned 64-bit pointer into words 0 and 1 whole.
    pub(crate) fn set_pointer(&mut self, p: u64)
        ensures
            final(self).spec_words() == old(self).spec_words().update(0, p as u32).update(
                1,
                (p >> 32) as u32,
            ),
            join32(final(self).spec_words()[1], final(self).spec_words()[0]) == p,
    {
        self.w0 = #[verifier::truncate] (p as u32);
        self.w1 = (p >> 32) as u32;
        proof {
            lemma_join_split(p);
            assert(self.spec_words() =~= old(self).spec_words().update(0, p as u32).update(
                1,
                (p >> 32) as u32,
            ));
        }
    }

    /// The 64-bit pointer held in words 0 and 1 with the low 4 flag bits
    /// masked off.
    pub(crate) fn pointer_masked(&self) -> (r: u64)
        ensures
            r == join32(self.spec_words()[1], self.spec_words()[0]) & 0xffff_ffff_ffff_fff0u64,
    {
        (((self.w1 as u64) << 32) | (self.w0 as u64)) & 0xffff_ffff_ffff_fff0u64
    }

    /// Stores the address bits of an aligned 64-bit pointer into bits 4..=31
    /// of word 0 and all of word 1, keeping the low 4 flag bits of word 0.
    pub(crate) fn set_pointer_keep_low(&mut self, p: u64)
        requires
            p % 16 == 0,
        ensures
            final(self).spec_words() == old(self).spec_words().update(
                0,
                field_set(old(self).spec_words()[0], 4, 28, field_get(p as u32, 4, 28)),
            ).update(1, (p >> 32) as u32),
            join32(final(self).spec_words()[1], final(self).spec_words()[0])
                & 0xffff_ffff_ffff_fff0u64 == p,
            field_get(final(self).spec_words()[0], 0, 1) == field_get(
                old(self).spec_words()[0],
                0,
                1,
            ),
            field_get(final(self).spec_words()[0], 1, 3) == field_get(
                old(self).spec_words()[0],
                1,
                3,
            ),
    {
        proof {
            lemma_mask_values();
            lemma_set_pointer_keep_low(self.w0, p);
            lemma_field_get_bound(#[verifier::truncate] (p as u32), 4, 28);
        }
        let lw = #[verifier::truncate] (p as u32);
        let v = get_field(lw, 4, 28, 0xfff_ffff);
        self.w0 = set_field(self.w0, 4, 28, 0xfff_ffff, v);
        self.w1 = (p >> 32) as u32;
        proof {
            assert(self.spec_words() =~= old(self).spec_words().update(
                0,
                field_set(old(self).spec_words()[0], 4, 28, field_get(p as u32, 4, 28)),
            ).update(1, (p >> 32) as u32));
        }
    }
}

/// No Op Command TRB.
#[derive(Clone, Copy, Debug, PartialEq, Eq, Structural)]
pub struct Noop(RawTrb);

impl Noop {
    /// The four words of this descriptor.
    pub closed spec fn spec_words(self) -> Seq<u32> {
        self.0.spec_words()
    }

    /// The TRB Type discriminator.
    pub open spec fn spec_trb_type(self) -> u32 {
        spec_type_of(self.spec_words())
    }

    /// The Cycle bit.
    pub open spec fn spec_cycle_bit(self) -> bool {
        flag_get(self.spec_words()[3], 0)
    }

    /// The descriptor carries the No Op Command Type discriminator.
    pub open spec fn wf(self) -> bool {
        self.spec_trb_type() == TYPE_NOOP_COMMAND
    }

    /// Creates a No Op Command TRB: all words zero except the Type field.
    pub fn new() -> (t: Self)
        ensures
            t.spec_words() == spec_new_words(TYPE_NOOP_COMMAND),
            t.wf(),
            !t.spec_cycle_bit(),
    {
        Noop(RawTrb::new(TYPE_NOOP_COMMAND))
    }

    /// Serializes the descriptor into its raw 16-byte form.
    pub fn into_raw(self) -> (r: [u32; 4])
        ensures
            r@ == self.spec_words(),
    {
        self.0.into_raw()
    }

    /// Checked cast from the raw form: accepted exactly when the Type
    /// discriminator matches; a mismatch returns the words back.
    pub fn try_from_raw(raw: [u32; 4]) -> (r: Result<Self, [u32; 4]>)
        ensures
            r is Ok <==> spec_type_of(raw@) == TYPE_NOOP_COMMAND,
            r matches Ok(t) ==> t.spec_words() == raw@ && t.wf(),
            r matches Err(e) ==> e == raw,
    {
        proof {
            lemma_mask_values();
        }
        let ty = get_field(raw[3], 10, 6, 0x3f);
        if ty == TYPE_NOOP_COMMAND {
            Ok(Noop(RawTrb::from_raw(raw)))
        } else {
            Err(raw)
        }
    }

    /// Returns the value of the Cycle Bit field.
    pub fn cycle_bit(&self) -> (r: bool)
        ensures
            r == self.spec_cycle_bit(),
    {
        proof {
            lemma_mask_values();
        }
        self.0.get_w3(0, 1, 1) == 1
    }

    /// Sets the value of the Cycle Bit field.
    pub fn set_cycle_bit(&mut self, c: bool) -> (r: &mut Self)
        ensures
            r.spec_words() == spec_with_cycle(old(self).spec_words(), c),
            r.spec_cycle_bit() == c,
            r.spec_trb_type() == old(self).spec_trb_type(),
            *final(self) == *final(r),
    {
        proof {
            lemma_mask_values();
        }
        self.0.set_w3(0, 1, 1, if c { 1 } else { 0 });
        self
    }
}

impl Default for Noop {
    /// Same as `Noop::new`.
    fn default() -> (t: Self)
        ensures
            t.spec_words() == spec_new_words(TYPE_NOOP_COMMAND),
            t.wf(),
    {
        Noop::new()
    }
}

/// Enable Slot Command TRB.
#[derive(Clone, Copy, Debug, PartialEq, Eq, Structural)]
pub struct EnableSlot(RawTrb);

impl EnableSlot {
    /// The four words of this descriptor.
    pub closed spec fn spec_words(self) -> Seq<u32> {
        self.0.spec_words()
    }

    /// The TRB Type discriminator.
    pub open spec fn spec_trb_type(self) -> u32 {
        spec_type_of(self.spec_words())
    }

    /// The Cycle bit.
    pub open spec fn spec_cycle_bit(self) -> bool {
        flag_get(self.spec_words()[3], 0)
    }

    /// The Slot Type field (bits 16..=20 of word 3).
    pub open spec fn spec_slot_type(self) -> u8 {
        field_get(self.spec_words()[3], 16, 5) as u8
    }

    /// The descriptor carries the Enable Slot Type discriminator.
    pub open spec fn wf(self) -> bool {
        self.spec_trb_type() == TYPE_ENABLE_SLOT
    }

    /// Creates an Enable Slot Command TRB: all words zero except the Type
    /// field.
    pub fn new() -> (t: Self)
        ensures
            t.spec_words() == spec_new_words(TYPE_ENABLE_SLOT),
            t.wf(),
            !t.spec_cycle_bit(),
            t.spec_slot_type() == 0,
    {
        EnableSlot(RawTrb::new(TYPE_ENABLE_SLOT))
    }

    /// Serializes the descriptor into its raw 16-byte form.
    pub fn into_raw(self) -> (r: [u32; 4])
        ensures
            r@ == self.spec_words(),
    {
        self.0.into_raw()
    }

    /// Checked cast from the raw form: accepted exactly when the Type
    /// discriminator matches; a mismatch returns the words back.
    pub fn try_from_raw(raw: [u32; 4]) -> (r: Result<Self, [u32; 4]>)
        ensures
            r is Ok <==> spec_type_of(raw@) == TYPE_ENABLE_SLOT,
            r matches Ok(t) ==> t.spec_words() == raw@ && t.wf(),
            r matches Err(e) ==> e == raw,
    {
        proof {
            lemma_mask_values();
        }
        let ty = get_field(raw[3], 10, 6, 0x3f);
        if ty == TYPE_ENABLE_SLOT {
            Ok(EnableSlot(RawTrb::from_raw(raw)))
        } else {
            Err(raw)
        }
    }

    /// Returns the value of the Cycle Bit field.
    pub fn cycle_bit(&self) -> (r: bool)
        ensures
            r == self.spec_cycle_bit(),
    {
        proof {
            lemma_mask_values();
        }
        self.0.get_w3(0, 1, 1) == 1
    }

    /// Sets the value of the Cycle Bit field.
    pub fn set_cycle_bit(&mut self, c: bool) -> (r: &mut Self)
        ensures
            r.spec_words() == spec_with_cycle(old(self).spec_words(), c),
            r.spec_cycle_bit() == c,
            r.spec_trb_type() == old(self).spec_trb_type(),
            r.spec_slot_type() == old(self).spec_slot_type(),
            *final(self) == *final(r),
    {
        proof {
            lemma_mask_values();
        }
        self.0.set_w3(0, 1, 1, if c { 1 } else { 0 });
        self
    }

    /// Sets the value of the Slot Type field.
    pub fn set_slot_type(&mut self, t: u8) -> (r: &mut Self)
        requires
            t < 32,
        ensures
            r.spec_slot_type() == t,
            r.spec_trb_type() == old(self).spec_trb_type(),
            r.spec_cycle_bit() == old(self).spec_cycle_bit(),
            r.spec_words() == old(self).spec_words().update(
                3,
                field_set(old(self).spec_words()[3], 16, 5, t as u32),
            ),
            *final(self) == *final(r),
    {
        proof {
            lemma_mask_values();
        }
        self.0.set_w3(16, 5, 0x1f, t as u32);
        self
    }

    /// Returns the value of the Slot Type field.
    pub fn slot_type(&self) -> (r: u8)
        ensures
            r == self.spec_slot_type(),
    {
        proof {
            lemma_mask_values();
        }
        self.0.get_w3(16, 5, 0x1f) as u8
    }
}

impl Default for EnableSlot {
    /// Same as `EnableSlot::new`.
    fn default() -> (t: Self)
        ensures
            t.spec_words() == spec_new_words(TYPE_ENABLE_SLOT),
            t.wf(),
    {
        EnableSlot::new()
    }
}

/// Disable Slot Command TRB.
#[derive(Clone, Copy, Debug, PartialEq, Eq, Structural)]
pub struct DisableSlot(RawTrb);

impl DisableSlot {
    /// The four words of this descriptor.
    pub closed spec fn spec_words(self) -> Seq<u32> {
        self.0.spec_words()
    }

    /// The TRB Type discriminator.
    pub open spec fn spec_trb_type(self) -> u32 {
        spec_type_of(self.spec_words())
    }

    /// The Cycle bit.
    pub open spec fn spec_cycle_bit(self) -> bool {
        flag_get(self.spec_words()[3], 0)
    }

    /// The Slot ID field (bits 24..=31 of word 3).
    pub open spec fn spec_slot_id(self) -> u8 {
        field_get(self.spec_words()[3], 24, 8) as u8
    }

    /// The descriptor carries the Disable Slot Type discriminator.
    pub open spec fn wf(self) -> bool {
        self.spec_trb_type() == TYPE_DISABLE_SLOT
    }

    /// Creates a Disable Slot Command TRB: all words zero except the Type
    /// field.
    pub fn new() -> (t: Self)
        ensures
            t.spec_words() == spec_new_words(TYPE_DISABLE_SLOT),
            t.wf(),
            !t.spec_cycle_bit(),
            t.spec_slot_id() == 0,
    {
        DisableSlot(RawTrb::new(TYPE_DISABLE_SLOT))
    }

    /// Serializes the descriptor into its raw 16-byte form.
    pub fn into_raw(self) -> (r: [u32; 4])
        ensures
            r@ == self.spec_words(),
    {
        self.0.into_raw()
    }

    /// Checked cast from the raw form: accepted exactly when the Type
    /// discriminator matches; a mismatch returns the words back.
    pub fn try_from_raw(raw: [u32; 4]) -> (r: Result<Self, [u32; 4]>)
        ensures
            r is Ok <==> spec_type_of(raw@) == TYPE_DISABLE_SLOT,
            r matches Ok(t) ==> t.spec_words() == raw@ && t.wf(),
            r matches Err(e) ==> e == raw,
    {
        proof {
            lemma_mask_values();
        }
        let ty = get_field(raw[3], 10, 6, 0x3f);
        if ty == TYPE_DISABLE_SLOT {
            Ok(DisableSlot(RawTrb::from_raw(raw)))
        } else {
            Err(raw)
        }
    }

    /// Returns the value of the Cycle Bit field.
    pub fn cycle_bit(&self) -> (r: bool)
        ensures
            r == self.spec_cycle_bit(),
    {
        proof {
            lemma_mask_values();
        }
        self.0.get_w3(0, 1, 1) == 1
    }

    /// Sets the value of the Cycle Bit field.
    pub fn set_cycle_bit(&mut self, c: bool) -> (r: &mut Self)
        ensures
            r.spec_words() == spec_with_cycle(old(self).spec_words(), c),
            r.spec_cycle_bit() == c,
            r.spec_trb_type() == old(self).spec_trb_type(),
            r.spec_slot_id() == old(self).spec_slot_id(),
            *final(self) == *final(r),
    {
        proof {
            lemma_mask_values();
        }
        self.0.set_w3(0, 1, 1, if c { 1 } else { 0 });
        self
    }

    /// Sets the value of the Slot ID field.
    pub fn set_slot_id(&mut self, i: u8) -> (r: &mut Self)
        ensures
            r.spec_slot_id() == i,
            r.spec_trb_type() == old(self).spec_trb_type(),
            r.spec_cycle_bit() == old(self).spec_cycle_bit(),
            r.spec_words() == old(self).spec_words().update(
                3,
                field_set(old(self).spec_words()[3], 24, 8, i as u32),
            ),
            *final(self) == *final(r),
    {
        proof {
            lemma_mask_values();
        }
        self.0.set_w3(24, 8, 0xff, i as u32);
        self
    }

    /// Returns the value of the Slot ID field.
    pub fn slot_id(&self) -> (r: u8)
        ensures
            r == self.spec_slot_id(),
    {
        proof {
            lemma_mask_values();
        }
        self.0.get_w3(24, 8, 0xff) as u8
    }
}

impl Default for DisableSlot {
    /// Same as `DisableSlot::new`.
    fn default() -> (t: Self)
        ensures
            t.spec_words() == spec_new_words(TYPE_DISABLE_SLOT),
            t.wf(),
    {
        DisableSlot::new()
    }
}

/// Address Device Command TRB.
#[derive(Clone, Copy, Debug, PartialEq, Eq, Structural)]
pub struct AddressDevice(RawTrb);

impl AddressDevice {
    /// The four words of this descriptor.
    pub closed spec fn spec_words(self) -> Seq<u32> {
        self.0.spec_words()
    }

    /// The TRB Type discriminator.
    pub open spec fn spec_trb_type(self) -> u32 {
        spec_type_of(self.spec_words())
    }

    /// The Cycle bit.
    pub open spec fn spec_cycle_bit(self) -> bool {
        flag_get(self.spec_words()[3], 0)
    }

    /// The Input Context Pointer field (words 0 and 1).
    pub open spec fn spec_input_context_pointer(self) -> u64 {
        join32(self.spec_words()[1], self.spec_words()[0])
    }

    /// The Block Set Address Request field (bit 9 of word 3).
    pub open spec fn spec_block_set_address_request(self) -> bool {
        flag_get(self.spec_words()[3], 9)
    }

    /// The Slot ID field (bits 24..=31 of word 3).
    pub open spec fn spec_slot_id(self) -> u8 {
        field_get(self.spec_words()[3], 24, 8) as u8
    }

    /// The descriptor carries the Address Device Type discriminator.
    pub open spec fn wf(self) -> bool {
        self.spec_trb_type() == TYPE_ADDRESS_DEVICE
    }

    /// Creates an Address Device Command TRB: all words zero except the Type
    /// field.
    pub fn new() -> (t: Self)
        ensures
            t.spec_words() == spec_new_words(TYPE_ADDRESS_DEVICE),
            t.wf(),
            !t.spec_cycle_bit(),
            t.spec_input_context_pointer() == 0,
            !t.spec_block_set_address_request(),
            t.spec_slot_id() == 0,
    {
        proof {
            lemma_mask_values();
        }
        AddressDevice(RawTrb::new(TYPE_ADDRESS_DEVICE))
    }

    /// Serializes the descriptor into its raw 16-byte form.
    pub fn into_raw(self) -> (r: [u32; 4])
        ensures
            r@ == self.spec_words(),
    {
        self.0.into_raw()
    }

    /// Checked cast from the raw form: accepted exactly when the Type
    /// discriminator matches; a mismatch returns the words back.
    pub fn try_from_raw(raw: [u32; 4]) -> (r: Result<Self, [u32; 4]>)
        ensures
            r is Ok <==> spec_type_of(raw@) == TYPE_ADDRESS_DEVICE,
            r matches Ok(t) ==> t.spec_words() == raw@ && t.wf(),
            r matches Err(e) ==> e == raw,
    {
        proof {
            lemma_mask_values();
        }
        let ty = get_field(raw[3], 10, 6, 0x3f);
        if ty == TYPE_ADDRESS_DEVICE {
            Ok(AddressDevice(RawTrb::from_raw(raw)))
        } else {
            Err(raw)
        }
    }

    /// Returns the value of the Cycle Bit field.
    pub fn cycle_bit(&self) -> (r: bool)
        ensures
            r == self.spec_cycle_bit(),
    {
        proof {
            lemma_mask_values();
        }
        self.0.get_w3(0, 1, 1) == 1
    }

    /// Sets the value of the Cycle Bit field.
    pub fn set_cycle_bit(&mut self, c: bool) -> (r: &mut Self)
        ensures
            r.spec_words() == spec_with_cycle(old(self).spec_words(), c),
            r.spec_cycle_bit() == c,
            r.spec_trb_type() == old(self).spec_trb_type(),
            r.spec_input_context_pointer() == old(self).spec_input_context_pointer(),
            r.spec_block_set_address_request() == old(self).spec_block_set_address_request(),
            r.spec_slot_id() == old(self).spec_slot_id(),
            *final(self) == *final(r),
    {
        proof {
            lemma_mask_values();
        }
        self.0.set_w3(0, 1, 1, if c { 1 } else { 0 });
        self
    }

    /// Sets the value of the Input Context Pointer field.
    ///
    /// The pointer must be 16-byte aligned: its low 4 bits are reserved for
    /// flags and are never treated as address bits.
    pub fn set_input_context_pointer(&mut self, p: u64) -> (r: &mut Self)
        requires
            p % 16 == 0,
        ensures
            r.spec_input_context_pointer() == p,
            r.spec_trb_type() == old(self).spec_trb_type(),
            r.spec_cycle_bit() == old(self).spec_cycle_bit(),
            r.spec_block_set_address_request() == old(self).spec_block_set_address_request(),
            r.spec_slot_id() == old(self).spec_slot_id(),
            r.spec_words() == old(self).spec_words().update(0, p as u32).update(
                1,
                (p >> 32) as u32,
            ),
            *final(self) == *final(r),
    {
        self.0.set_pointer(p);
        self
    }

    /// Returns the value of the Input Context Pointer field.
    pub fn input_context_pointer(&self) -> (r: u64)
        ensures
            r == self.spec_input_context_pointer(),
    {
        self.0.pointer()
    }

    /// Checked variant of `set_input_context_pointer`: a pointer that is not
    /// 16-byte aligned is rejected and the descriptor is left unchanged — the
    /// operation does not partially apply.
    pub fn try_set_input_context_pointer(&mut self, p: u64) -> (r: Result<(), Error>)
        ensures
            r is Ok <==> p % 16 == 0,
            p % 16 == 0 ==> final(self).spec_input_context_pointer() == p && final(self).spec_trb_type() == old(self).spec_trb_type() && final(self).spec_cycle_bit() == old(self).spec_cycle_bit() && final(self).spec_block_set_address_request() == old(self).spec_block_set_address_request() && final(self).spec_slot_id() == old(self).spec_slot_id(),
            p % 16 != 0 ==> *final(self) == *old(self) && r == Result::<(), Error>::Err(
                Error::NotAligned,
            ),
    {
        if p % 16 == 0 {
            self.set_input_context_pointer(p);
            Ok(())
        } else {
            Err(Error::NotAligned)
        }
    }

    /// Sets the value of the Block Set Address Request field.
    pub fn set_block_set_address_request(&mut self, b: bool) -> (r: &mut Self)
        ensures
            r.spec_block_set_address_request() == b,
            r.spec_trb_type() == old(self).spec_trb_type(),
            r.spec_cycle_bit() == old(self).spec_cycle_bit(),
            r.spec_input_context_pointer() == old(self).spec_input_context_pointer(),
            r.spec_slot_id() == old(self).spec_slot_id(),
            r.spec_words() == old(self).spec_words().update(
                3,
                field_set(old(self).spec_words()[3], 9, 1, if b { 1u32 } else { 0u32 }),
            ),
            *final(self) == *final(r),
    {
        proof {
            lemma_mask_values();
        }
        self.0.set_w3(9, 1, 1, if b { 1 } else { 0 });
        self
    }

    /// Returns the value of the Block Set Address Request field.
    pub fn block_set_address_request(&self) -> (r: bool)
        ensures
            r == self.spec_block_set_address_request(),
    {
        proof {
            lemma_mask_values();
        }
        self.0.get_w3(9, 1, 1) == 1
    }

    /// Sets the value of the Slot ID field.
    pub fn set_slot_id(&mut self, i: u8) -> (r: &mut Self)
        ensures
            r.spec_slot_id() == i,
            r.spec_trb_type() == old(self).spec_trb_type(),
            r.spec_cycle_bit() == old(self).spec_cycle_bit(),
            r.spec_input_context_pointer() == old(self).spec_input_context_pointer(),
            r.spec_block_set_address_request() == old(self).spec_block_set_address_request(),
            r.spec_words() == old(self).spec_words().update(
                3,
                field_set(old(self).spec_words()[3], 24, 8, i as u32),
            ),
            *final(self) == *final(r),
    {
        proof {
            lemma_mask_values();
        }
        self.0.set_w3(24, 8, 0xff, i as u32);
        self
    }

    /// Returns the value of the Slot ID field.
    pub fn slot_id(&self) -> (r: u8)
        ensures
            r == self.spec_slot_id(),
    {
        proof {
            lemma_mask_values();
        }
        self.0.get_w3(24, 8, 0xff) as u8
    }
}

impl Default for AddressDevice {
    /// Same as `AddressDevice::new`.
    fn default() -> (t: Self)
        ensures
            t.spec_words() == spec_new_words(TYPE_ADDRESS_DEVICE),
            t.wf(),
    {
        AddressDevice::new()
    }
}

/// Configure Endpoint Command TRB.
#[derive(Clone, Copy, Debug, PartialEq, Eq, Structural)]
pub struct ConfigureEndpoint(RawTrb);

impl ConfigureEndpoint {
    /// The four words of this descriptor.
    pub closed spec fn spec_words(self) -> Seq<u32> {
        self.0.spec_words()
    }

    /// The TRB Type discriminator.
    pub open spec fn spec_trb_type(self) -> u32 {
        spec_type_of(self.spec_words())
    }

    /// The Cycle bit.
    pub open spec fn spec_cycle_bit(self) -> bool {
        flag_get(self.spec_words()[3], 0)
    }

    /// The Input Context Pointer field (words 0 and 1).
    pub open spec fn spec_input_context_pointer(self) -> u64 {
        join32(self.spec_words()[1], self.spec_words()[0])
    }

    /// The Deconfigure field (bit 9 of word 3).
    pub open spec fn spec_deconfigure(self) -> bool {
        flag_get(self.spec_words()[3], 9)
    }

    /// The Slot ID field (bits 24..=31 of word 3).
    pub open spec fn spec_slot_id(self) -> u8 {
        field_get(self.spec_words()[3], 24, 8) as u8
    }

    /// The descriptor carries the Configure Endpoint Type discriminator.
    pub open spec fn wf(self) -> bool {
        self.spec_trb_type() == TYPE_CONFIGURE_ENDPOINT
    }

    /// Creates a Configure Endpoint Command TRB: all words zero except the
    /// Type field.
    pub fn new() -> (t: Self)
        ensures
            t.spec_words() == spec_new_words(TYPE_CONFIGURE_ENDPOINT),
            t.wf(),
            !t.spec_cycle_bit(),
            t.spec_input_context_pointer() == 0,
            !t.spec_deconfigure(),
            t.spec_slot_id() == 0,
    {
        proof {
            lemma_mask_values();
        }
        ConfigureEndpoint(RawTrb::new(TYPE_CONFIGURE_ENDPOINT))
    }

    /// Serializes the descriptor into its raw 16-byte form.
    pub fn into_raw(self) -> (r: [u32; 4])
        ensures
            r@ == self.spec_words(),
    {
        self.0.into_raw()
    }

    /// Checked cast from the raw form: accepted exactly when the Type
    /// discriminator matches; a mismatch returns the words back.
    pub fn try_from_raw(raw: [u32; 4]) -> (r: Result<Self, [u32; 4]>)
        ensures
            r is Ok <==> spec_type_of(raw@) == TYPE_CONFIGURE_ENDPOINT,
            r matches Ok(t) ==> t.spec_words() == raw@ && t.wf(),
            r matches Err(e) ==> e == raw,
    {
        proof {
            lemma_mask_values();
        }
        let ty = get_field(raw[3], 10, 6, 0x3f);
        if ty == TYPE_CONFIGURE_ENDPOINT {
            Ok(ConfigureEndpoint(RawTrb::from_raw(raw)))
        } else {
            Err(raw)
        }
    }

    /// Returns the value of the Cycle Bit field.
    pub fn cycle_bit(&self) -> (r: bool)
        ensures
            r == self.spec_cycle_bit(),
    {
        proof {
            lemma_mask_values();
        }
        self.0.get_w3(0, 1, 1) == 1
    }

    /// Sets the value of the Cycle Bit field.
    pub fn set_cycle_bit(&mut self, c: bool) -> (r: &mut Self)
        ensures
            r.spec_words() == spec_with_cycle(old(self).spec_words(), c),
            r.spec_cycle_bit() == c,
            r.spec_trb_type() == old(self).spec_trb_type(),
            r.spec_input_context_pointer() == old(self).spec_input_context_pointer(),
            r.spec_deconfigure() == old(self).spec_deconfigure(),
            r.spec_slot_id() == old(self).spec_slot_id(),
            *final(self) == *final(r),
    {
        proof {
            lemma_mask_values();
        }
        self.0.set_w3(0, 1, 1, if c { 1 } else { 0 });
        self
    }

    /// Sets the value of the Input Context Pointer field.
    ///
    /// The pointer must be 16-byte aligned: its low 4 bits are reserved for
    /// flags and are never treated as address bits.
    pub fn set_input_context_pointer(&mut self, p: u64) -> (r: &mut Self)
        requires
            p % 16 == 0,
        ensures
            r.spec_input_context_pointer() == p,
            r.spec_trb_type() == old(self).spec_trb_type(),
            r.spec_cycle_bit() == old(self).spec_cycle_bit(),
            r.spec_deconfigure() == old(self).spec_deconfigure(),
            r.spec_slot_id() == old(self).spec_slot_id(),
            r.spec_words() == old(self).spec_words().update(0, p as u32).update(
                1,
                (p >> 32) as u32,
            ),
            *final(self) == *final(r),
    {
        self.0.set_pointer(p);
        self
    }

    /// Returns the value of the Input Context Pointer field.
    pub fn input_context_pointer(&self) -> (r: u64)
        ensures
            r == self.spec_input_context_pointer(),
    {
        self.0.pointer()
    }

    /// Checked variant of `set_input_context_pointer`: a pointer that is not
    /// 16-byte aligned is rejected and the descriptor is left unchanged — the
    /// operation does not partially apply.
    pub fn try_set_input_context_pointer(&mut self, p: u64) -> (r: Result<(), Error>)
        ensures
            r is Ok <==> p % 16 == 0,
            p % 16 == 0 ==> final(self).spec_input_context_pointer() == p && final(self).spec_trb_type() == old(self).spec_trb_type() && final(self).spec_cycle_bit() == old(self).spec_cycle_bit() && final(self).spec_deconfigure() == old(self).spec_deconfigure()
                && final(self).spec_slot_id() == old(self).spec_slot_id(),
            p % 16 != 0 ==> *final(self) == *old(self) && r == Result::<(), Error>::Err(
                Error::NotAligned,
            ),
    {
        if p % 16 == 0 {
            self.set_input_context_pointer(p);
            Ok(())
        } else {
            Err(Error::NotAligned)
        }
    }

    /// Sets the value of the Deconfigure field.
    pub fn set_deconfigure(&mut self, d: bool) -> (r: &mut Self)
        ensures
            r.spec_deconfigure() == d,
            r.spec_trb_type() == old(self).spec_trb_type(),
            r.spec_cycle_bit() == old(self).spec_cycle_bit(),
            r.spec_input_context_pointer() == old(self).spec_input_context_pointer(),
            r.spec_slot_id() == old(self).spec_slot_id(),
            r.spec_words() == old(self).spec_words().update(
                3,
                field_set(old(self).spec_words()[3], 9, 1, if d { 1u32 } else { 0u32 }),
            ),
            *final(self) == *final(r),
    {
        proof {
            lemma_mask_values();
        }
        self.0.set_w3(9, 1, 1, if d { 1 } else { 0 });
        self
    }

    /// Returns the value of the Deconfigure field.
    pub fn deconfigure(&self) -> (r: bool)
        ensures
            r == self.spec_deconfigure(),
    {
        proof {
            lemma_mask_values();
        }
        self.0.get_w3(9, 1, 1) == 1
    }

    /// Sets the value of the Slot ID field.
    pub fn set_slot_id(&mut self, i: u8) -> (r: &mut Self)
        ensures
            r.spec_slot_id() == i,
            r.spec_trb_type() == old(self).spec_trb_type(),
            r.spec_cycle_bit() == old(self).spec_cycle_bit(),
            r.spec_input_context_pointer() == old(self).spec_input_context_pointer(),
            r.spec_deconfigure() == old(self).spec_deconfigure(),
            r.spec_words() == old(self).spec_words().update(
                3,
                field_set(old(self).spec_words()[3], 24, 8, i as u32),
            ),
            *final(self) == *final(r),
    {
        proof {
            lemma_mask_values();
        }
        self.0.set_w3(24, 8, 0xff, i as u32);
        self
    }

    /// Returns the value of the Slot ID field.
    pub fn slot_id(&self) -> (r: u8)
        ensures
            r == self.spec_slot_id(),
    {
        proof {
            lemma_mask_values();
        }
        self.0.get_w3(24, 8, 0xff) as u8
    }
}

impl Default for ConfigureEndpoint {
    /// Same as `ConfigureEndpoint::new`.
    fn default() -> (t: Self)
        ensures
            t.spec_words() == spec_new_words(TYPE_CONFIGURE_ENDPOINT),
            t.wf(),
    {
        ConfigureEndpoint::new()
    }
}

/// Evaluate Context Command TRB.
#[derive(Clone, Copy, Debug, PartialEq, Eq, Structural)]
pub struct EvaluateContext(RawTrb);

impl EvaluateContext {
    /// The four words of this descriptor.
    pub closed spec fn spec_words(self) -> Seq<u32> {
        self.0.spec_words()
    }

    /// The TRB Type discriminator.
    pub open spec fn spec_trb_type(self) -> u32 {
        spec_type_of(self.spec_words())
    }

    /// The Cycle bit.
    pub open spec fn spec_cycle_bit(self) -> bool {
        flag_get(self.spec_words()[3], 0)
    }

    /// The Input Context Pointer field (words 0 and 1).
    pub open spec fn spec_input_context_pointer(self) -> u64 {
        join32(self.spec_words()[1], self.spec_words()[0])
    }

    /// The Slot ID field (bits 24..=31 of word 3).
    pub open spec fn spec_slot_id(self) -> u8 {
        field_get(self.spec_words()[3], 24, 8) as u8
    }

    /// The descriptor carries the Evaluate Context Type discriminator.
    pub open spec fn wf(self) -> bool {
        self.spec_trb_type() == TYPE_EVALUATE_CONTEXT
    }

    /// Creates an Evaluate Context Command TRB: all words zero except the
    /// Type field.
    pub fn new() -> (t: Self)
        ensures
            t.spec_words() == spec_new_words(TYPE_EVALUATE_CONTEXT),
            t.wf(),
            !t.spec_cycle_bit(),
            t.spec_input_context_pointer() == 0,
            t.spec_slot_id() == 0,
    {
        proof {
            lemma_mask_values();
        }
        EvaluateContext(RawTrb::new(TYPE_EVALUATE_CONTEXT))
    }

    /// Serializes the descriptor into its raw 16-byte form.
    pub fn into_raw(self) -> (r: [u32; 4])
        ensures
            r@ == self.spec_words(),
    {
        self.0.into_raw()
    }

    /// Checked cast from the raw form: accepted exactly when the Type
    /// discriminator matches; a mismatch returns the words back.
    pub fn try_from_raw(raw: [u32; 4]) -> (r: Result<Self, [u32; 4]>)
        ensures
            r is Ok <==> spec_type_of(raw@) == TYPE_EVALUATE_CONTEXT,
            r matches Ok(t) ==> t.spec_words() == raw@ && t.wf(),
            r matches Err(e) ==> e == raw,
    {
        proof {
            lemma_mask_values();
        }
        let ty = get_field(raw[3], 10, 6, 0x3f);
        if ty == TYPE_EVALUATE_CONTEXT {
            Ok(EvaluateContext(RawTrb::from_raw(raw)))
        } else {
            Err(raw)
        }
    }

    /// Returns the value of the Cycle Bit field.
    pub fn cycle_bit(&self) -> (r: bool)
        ensures
            r == self.spec_cycle_bit(),
    {
        proof {
            lemma_mask_values();
        }
        self.0.get_w3(0, 1, 1) == 1
    }

    /// Sets the value of the Cycle Bit field.
    pub fn set_cycle_bit(&mut self, c: bool) -> (r: &mut Self)
        ensures
            r.spec_words() == spec_with_cycle(old(self).spec_words(), c),
            r.spec_cycle_bit() == c,
            r.spec_trb_type() == old(self).spec_trb_type(),
            r.spec_input_context_pointer() == old(self).spec_input_context_pointer(),
            r.spec_slot_id() == old(self).spec_slot_id(),
            *final(self) == *final(r),
    {
        proof {
            lemma_mask_values();
        }
        self.0.set_w3(0, 1, 1, if c { 1 } else { 0 });
        self
    }

    /// Sets the value of the Input Context Pointer field.
    ///
    /// The pointer must be 16-byte aligned: its low 4 bits are reserved for
    /// flags and are never treated as address bits.
    pub fn set_input_context_pointer(&mut self, p: u64) -> (r: &mut Self)
        requires
            p % 16 == 0,
        ensures
            r.spec_input_context_pointer() == p,
            r.spec_trb_type() == old(self).spec_trb_type(),
            r.spec_cycle_bit() == old(self).spec_cycle_bit(),
            r.spec_slot_id() == old(self).spec_slot_id(),
            r.spec_words() == old(self).spec_words().update(0, p as u32).update(
                1,
                (p >> 32) as u32,
            ),
            *final(self) == *final(r),
    {
        self.0.set_pointer(p);
        self
    }

    /// Returns the value of the Input Context Pointer field.
    pub fn input_context_pointer(&self) -> (r: u64)
        ensures
            r == self.spec_input_context_pointer(),
    {
        self.0.pointer()
    }

    /// Checked variant of `set_input_context_pointer`: a pointer that is not
    /// 16-byte aligned is rejected and the descriptor is left unchanged — the
    /// operation does not partially apply.
    pub fn try_set_input_context_pointer(&mut self, p: u64) -> (r: Result<(), Error>)
        ensures
            r is Ok <==> p % 16 == 0,
            p % 16 == 0 ==> final(self).spec_input_context_pointer() == p && final(self).spec_trb_type() == old(self).spec_trb_type() && final(self).spec_cycle_bit() == old(self).spec_cycle_bit() && final(self).spec_slot_id() == old(self).spec_slot_id(),
            p % 16 != 0 ==> *final(self) == *old(self) && r == Result::<(), Error>::Err(
                Error::NotAligned,
            ),
    {
        if p % 16 == 0 {
            self.set_input_context_pointer(p);
            Ok(())
        } else {
            Err(Error::NotAligned)
        }
    }

    /// Sets the value of the Slot ID field.
    pub fn set_slot_id(&mut self, i: u8) -> (r: &mut Self)
        ensures
            r.spec_slot_id() == i,
            r.spec_trb_type() == old(self).spec_trb_type(),
            r.spec_cycle_bit() == old(self).spec_cycle_bit(),
            r.spec_input_context_pointer() == old(self).spec_input_context_pointer(),
            r.spec_words() == old(self).spec_words().update(
                3,
                field_set(old(self).spec_words()[3], 24, 8, i as u32),
            ),
            *final(self) == *final(r),
    {
        proof {
            lemma_mask_values();
        }
        self.0.set_w3(24, 8, 0xff, i as u32);
        self
    }

    /// Returns the value of the Slot ID field.
    pub fn slot_id(&self) -> (r: u8)
        ensures
            r == self.spec_slot_id(),
    {
        proof {
            lemma_mask_values();
        }
        self.0.get_w3(24, 8, 0xff) as u8
    }
}

impl Default for EvaluateContext {
    /// Same as `EvaluateContext::new`.
    fn default() -> (t: Self)
        ensures
            t.spec_words() == spec_new_words(TYPE_EVALUATE_CONTEXT),
            t.wf(),
    {
        EvaluateContext::new()
    }
}

/// Reset Endpoint Command TRB.
#[derive(Clone, Copy, Debug, PartialEq, Eq, Structural)]
pub struct ResetEndpoint(RawTrb);

impl ResetEndpoint {
    /// The four words of this descriptor.
    pub closed spec fn spec_words(self) -> Seq<u32> {
        self.0.spec_words()
    }

    /// The TRB Type discriminator.
    pub open spec fn spec_trb_type(self) -> u32 {
        spec_type_of(self.spec_words())
    }

    /// The Cycle bit.
    pub open spec fn spec_cycle_bit(self) -> bool {
        flag_get(self.spec_words()[3], 0)
    }

    /// The Transfer State Preserve field (bit 9 of word 3).
    pub open spec fn spec_transfer_state_preserve(self) -> bool {
        flag_get(self.spec_words()[3], 9)
    }

    /// The Endpoint ID field (bits 16..=20 of word 3).
    pub open spec fn spec_endpoint_id(self) -> u8 {
        field_get(self.spec_words()[3], 16, 5) as u8
    }

    /// The Slot ID field (bits 24..=31 of word 3).
    pub open spec fn spec_slot_id(self) -> u8 {
        field_get(self.spec_words()[3], 24, 8) as u8
    }

    /// The descriptor carries the Reset Endpoint Type discriminator.
    pub open spec fn wf(self) -> bool {
        self.spec_trb_type() == TYPE_RESET_ENDPOINT
    }

    /// Creates a Reset Endpoint Command TRB: all words zero except the Type
    /// field.
    pub fn new() -> (t: Self)
        ensures
            t.spec_words() == spec_new_words(TYPE_RESET_ENDPOINT),
            t.wf(),
            !t.spec_cycle_bit(),
            !t.spec_transfer_state_preserve(),
            t.spec_endpoint_id() == 0,
            t.spec_slot_id() == 0,
    {
        ResetEndpoint(RawTrb::new(TYPE_RESET_ENDPOINT))
    }

    /// Serializes the descriptor into its raw 16-byte form.
    pub fn into_raw(self) -> (r: [u32; 4])
        ensures
            r@ == self.spec_words(),
    {
        self.0.into_raw()
    }

    /// Checked cast from the raw form: accepted exactly when the Type
    /// discriminator matches; a mismatch returns the words back.
    pub fn try_from_raw(raw: [u32; 4]) -> (r: Result<Self, [u32; 4]>)
        ensures
            r is Ok <==> spec_type_of(raw@) == TYPE_RESET_ENDPOINT,
            r matches Ok(t) ==> t.spec_words() == raw@ && t.wf(),
            r matches Err(e) ==> e == raw,
    {
        proof {
            lemma_mask_values();
        }
        let ty = get_field(raw[3], 10, 6, 0x3f);
        if ty == TYPE_RESET_ENDPOINT {
            Ok(ResetEndpoint(RawTrb::from_raw(raw)))
        } else {
            Err(raw)
        }
    }

    /// Returns the value of the Cycle Bit field.
    pub fn cycle_bit(&self) -> (r: bool)
        ensures
            r == self.spec_cycle_bit(),
    {
        proof {
            lemma_mask_values();
        }
        self.0.get_w3(0, 1, 1) == 1
    }

    /// Sets the value of the Cycle Bit field.
    pub fn set_cycle_bit(&mut self, c: bool) -> (r: &mut Self)
        ensures
            r.spec_words() == spec_with_cycle(old(self).spec_words(), c),
            r.spec_cycle_bit() == c,
            r.spec_trb_type() == old(self).spec_trb_type(),
            r.spec_transfer_state_preserve() == old(self).spec_transfer_state_preserve(),
            r.spec_endpoint_id() == old(self).spec_endpoint_id(),
            r.spec_slot_id() == old(self).spec_slot_id(),
            *final(self) == *final(r),
    {
        proof {
            lemma_mask_values();
        }
        self.0.set_w3(0, 1, 1, if c { 1 } else { 0 });
        self
    }

    /// Sets the value of the Transfer State Preserve field.
    pub fn set_transfer_state_preserve(&mut self, tsp: bool) -> (r: &mut Self)
        ensures
            r.spec_transfer_state_preserve() == tsp,
            r.spec_trb_type() == old(self).spec_trb_type(),
            r.spec_cycle_bit() == old(self).spec_cycle_bit(),
            r.spec_endpoint_id() == old(self).spec_endpoint_id(),
            r.spec_slot_id() == old(self).spec_slot_id(),
            r.spec_words() == old(self).spec_words().update(
                3,
                field_set(old(self).spec_words()[3], 9, 1, if tsp { 1u32 } else { 0u32 }),
            ),
            *final(self) == *final(r),
    {
        proof {
            lemma_mask_values();
        }
        self.0.set_w3(9, 1, 1, if tsp { 1 } else { 0 });
        self
    }

    /// Returns the value of the Transfer State Preserve field.
    pub fn transfer_state_preserve(&self) -> (r: bool)
        ensures
            r == self.spec_transfer_state_preserve(),
    {
        proof {
            lemma_mask_values();
        }
        self.0.get_w3(9, 1, 1) == 1
    }

    /// Sets the value of the Endpoint ID field.
    pub fn set_endpoint_id(&mut self, i: u8) -> (r: &mut Self)
        requires
            i < 32,
        ensures
            r.spec_endpoint_id() == i,
            r.spec_trb_type() == old(self).spec_trb_type(),
            r.spec_cycle_bit() == old(self).spec_cycle_bit(),
            r.spec_transfer_state_preserve() == old(self).spec_transfer_state_preserve(),
            r.spec_slot_id() == old(self).spec_slot_id(),
            r.spec_words() == old(self).spec_words().update(
                3,
                field_set(old(self).spec_words()[3], 16, 5, i as u32),
            ),
            *final(self) == *final(r),
    {
        proof {
            lemma_mask_values();
        }
        self.0.set_w3(16, 5, 0x1f, i as u32);
        self
    }

    /// Returns the value of the Endpoint ID field.
    pub fn endpoint_id(&self) -> (r: u8)
        ensures
            r == self.spec_endpoint_id(),
    {
        proof {
            lemma_mask_values();
        }
        self.0.get_w3(16, 5, 0x1f) as u8
    }

    /// Sets the value of the Slot ID field.
    pub fn set_slot_id(&mut self, i: u8) -> (r: &mut Self)
        ensures
            r.spec_slot_id() == i,
            r.spec_trb_type() == old(self).spec_trb_type(),
            r.spec_cycle_bit() == old(self).spec_cycle_bit(),
            r.spec_transfer_state_preserve() == old(self).spec_transfer_state_preserve(),
            r.spec_endpoint_id() == old(self).spec_endpoint_id(),
            r.spec_words() == old(self).spec_words().update(
                3,
                field_set(old(self).spec_words()[3], 24, 8, i as u32),
            ),
            *final(self) == *final(r),
    {
        proof {
            lemma_mask_values();
        }
        self.0.set_w3(24, 8, 0xff, i as u32);
        self
    }

    /// Returns the value of the Slot ID field.
    pub fn slot_id(&self) -> (r: u8)
        ensures
            r == self.spec_slot_id(),
    {
        proof {
            lemma_mask_values();
        }
        self.0.get_w3(24, 8, 0xff) as u8
    }
}

impl Default for ResetEndpoint {
    /// Same as `ResetEndpoint::new`.
    fn default() -> (t: Self)
        ensures
            t.spec_words() == spec_new_words(TYPE_RESET_ENDPOINT),
            t.wf(),
    {
        ResetEndpoint::new()
    }
}

/// Stop Endpoint Command TRB.
#[derive(Clone, Copy, Debug, PartialEq, Eq, Structural)]
pub struct StopEndpoint(RawTrb);

impl StopEndpoint {
    /// The four words of this descriptor.
    pub closed spec fn spec_words(self) -> Seq<u32> {
        self.0.spec_words()
    }

    /// The TRB Type discriminator.
    pub open spec fn spec_trb_type(self) -> u32 {
        spec_type_of(self.spec_words())
    }

    /// The Cycle bit.
    pub open spec fn spec_cycle_bit(self) -> bool {
        flag_get(self.spec_words()[3], 0)
    }

    /// The Endpoint ID field (bits 16..=20 of word 3).
    pub open spec fn spec_endpoint_id(self) -> u8 {
        field_get(self.spec_words()[3], 16, 5) as u8
    }

    /// The Suspend field (bit 23 of word 3).
    pub open spec fn spec_suspend(self) -> bool {
        flag_get(self.spec_words()[3], 23)
    }

    /// The Slot ID field (bits 24..=31 of word 3).
    pub open spec fn spec_slot_id(self) -> u8 {
        field_get(self.spec_words()[3], 24, 8) as u8
    }

    /// The descriptor carries the Stop Endpoint Type discriminator.
    pub open spec fn wf(self) -> bool {
        self.spec_trb_type() == TYPE_STOP_ENDPOINT
    }

    /// Creates a Stop Endpoint Command TRB: all words zero except the Type
    /// field.
    pub fn new() -> (t: Self)
        ensures
            t.spec_words() == spec_new_words(TYPE_STOP_ENDPOINT),
            t.wf(),
            !t.spec_cycle_bit(),
            t.spec_endpoint_id() == 0,
            !t.spec_suspend(),
            t.spec_slot_id() == 0,
    {
        StopEndpoint(RawTrb::new(TYPE_STOP_ENDPOINT))
    }

    /// Serializes the descriptor into its raw 16-byte form.
    pub fn into_raw(self) -> (r: [u32; 4])
        ensures
            r@ == self.spec_words(),
    {
        self.0.into_raw()
    }

    /// Checked cast from the raw form: accepted exactly when the Type
    /// discriminator matches; a mismatch returns the words back.
    pub fn try_from_raw(raw: [u32; 4]) -> (r: Result<Self, [u32; 4]>)
        ensures
            r is Ok <==> spec_type_of(raw@) == TYPE_STOP_ENDPOINT,
            r matches Ok(t) ==> t.spec_words() == raw@ && t.wf(),
            r matches Err(e) ==> e == raw,
    {
        proof {
            lemma_mask_values();
        }
        let ty = get_field(raw[3], 10, 6, 0x3f);
        if ty == TYPE_STOP_ENDPOINT {
            Ok(StopEndpoint(RawTrb::from_raw(raw)))
        } else {
            Err(raw)
        }
    }

    /// Returns the value of the Cycle Bit field.
    pub fn cycle_bit(&self) -> (r: bool)
        ensures
            r == self.spec_cycle_bit(),
    {
        proof {
            lemma_mask_values();
        }
        self.0.get_w3(0, 1, 1) == 1
    }

    /// Sets the value of the Cycle Bit field.
    pub fn set_cycle_bit(&mut self, c: bool) -> (r: &mut Self)
        ensures
            r.spec_words() == spec_with_cycle(old(self).spec_words(), c),
            r.spec_cycle_bit() == c,
            r.spec_trb_type() == old(self).spec_trb_type(),
            r.spec_endpoint_id() == old(self).spec_endpoint_id(),
            r.spec_suspend() == old(self).spec_suspend(),
            r.spec_slot_id() == old(self).spec_slot_id(),
            *final(self) == *final(r),
    {
        proof {
            lemma_mask_values();
        }
        self.0.set_w3(0, 1, 1, if c { 1 } else { 0 });
        self
    }

    /// Sets the value of the Endpoint ID field.
    pub fn set_endpoint_id(&mut self, i: u8) -> (r: &mut Self)
        requires
            i < 32,
        ensures
            r.spec_endpoint_id() == i,
            r.spec_trb_type() == old(self).spec_trb_type(),
            r.spec_cycle_bit() == old(self).spec_cycle_bit(),
            r.spec_suspend() == old(self).spec_suspend(),
            r.spec_slot_id() == old(self).spec_slot_id(),
            r.spec_words() == old(self).spec_words().update(
                3,
                field_set(old(self).spec_words()[3], 16, 5, i as u32),
            ),
            *final(self) == *final(r),
    {
        proof {
            lemma_mask_values();
        }
        self.0.set_w3(16, 5, 0x1f, i as u32);
        self
    }

    /// Returns the value of the Endpoint ID field.
    pub fn endpoint_id(&self) -> (r: u8)
        ensures
            r == self.spec_endpoint_id(),
    {
        proof {
            lemma_mask_values();
        }
        self.0.get_w3(16, 5, 0x1f) as u8
    }

    /// Sets the value of the Suspend field.
    pub fn set_suspend(&mut self, s: bool) -> (r: &mut Self)
        ensures
            r.spec_suspend() == s,
            r.spec_trb_type() == old(self).spec_trb_type(),
            r.spec_cycle_bit() == old(self).spec_cycle_bit(),
            r.spec_endpoint_id() == old(self).spec_endpoint_id(),
            r.spec_slot_id() == old(self).spec_slot_id(),
            r.spec_words() == old(self).spec_words().update(
                3,
                field_set(old(self).spec_words()[3], 23, 1, if s { 1u32 } else { 0u32 }),
            ),
            *final(self) == *final(r),
    {
        proof {
            lemma_mask_values();
        }
        self.0.set_w3(23, 1, 1, if s { 1 } else { 0 });
        self
    }

    /// Returns the value of the Suspend field.
    pub fn suspend(&self) -> (r: bool)
        ensures
            r == self.spec_suspend(),
    {
        proof {
            lemma_mask_values();
        }
        self.0.get_w3(23, 1, 1) == 1
    }

    /// Sets the value of the Slot ID field.
    pub fn set_slot_id(&mut self, i: u8) -> (r: &mut Self)
        ensures
            r.spec_slot_id() == i,
            r.spec_trb_type() == old(self).spec_trb_type(),
            r.spec_cycle_bit() == old(self).spec_cycle_bit(),
            r.spec_endpoint_id() == old(self).spec_endpoint_id(),
            r.spec_suspend() == old(self).spec_suspend(),
            r.spec_words() == old(self).spec_words().update(
                3,
                field_set(old(self).spec_words()[3], 24, 8, i as u32),
            ),
            *final(self) == *final(r),
    {
        proof {
            lemma_mask_values();
        }
        self.0.set_w3(24, 8, 0xff, i as u32);
        self
    }

    /// Returns the value of the Slot ID field.
    pub fn slot_id(&self) -> (r: u8)
        ensures
            r == self.spec_slot_id(),
    {
        proof {
            lemma_mask_values();
        }
        self.0.get_w3(24, 8, 0xff) as u8
    }
}

impl Default for StopEndpoint {
    /// Same as `StopEndpoint::new`.
    fn default() -> (t: Self)
        ensures
            t.spec_words() == spec_new_words(TYPE_STOP_ENDPOINT),
            t.wf(),
    {
        StopEndpoint::new()
    }
}

/// Set TR Dequeue Pointer Command TRB.
#[derive(Clone, Copy, Debug, PartialEq, Eq, Structural)]
pub struct SetTrDequeuePointer(RawTrb);

impl SetTrDequeuePointer {
    /// The four words of this descriptor.
    pub closed spec fn spec_words(self) -> Seq<u32> {
        self.0.spec_words()
    }

    /// The TRB Type discriminator.
    pub open spec fn spec_trb_type(self) -> u32 {
        spec_type_of(self.spec_words())
    }

    /// The Cycle bit.
    pub open spec fn spec_cycle_bit(self) -> bool {
        flag_get(self.spec_words()[3], 0)
    }

    /// The Dequeue Cycle State field (bit 0 of word 0).
    pub open spec fn spec_dequeue_cycle_state(self) -> bool {
        flag_get(self.spec_words()[0], 0)
    }

    /// The Stream Context Type field (bits 1..=3 of word 0).
    pub open spec fn spec_stream_context_type(self) -> u8 {
        field_get(self.spec_words()[0], 1, 3) as u8
    }

    /// The New TR Dequeue Pointer field (bits 4..=31 of word 0 and all of
    /// word 1); its low 4 bits are flag bits, never address bits.
    pub open spec fn spec_new_tr_dequeue_pointer(self) -> u64 {
        join32(self.spec_words()[1], self.spec_words()[0]) & 0xffff_ffff_ffff_fff0u64
    }

    /// The Stream ID field (bits 16..=31 of word 2).
    pub open spec fn spec_stream_id(self) -> u16 {
        field_get(self.spec_words()[2], 16, 16) as u16
    }

    /// The Endpoint ID field (bits 16..=20 of word 3).
    pub open spec fn spec_endpoint_id(self) -> u8 {
        field_get(self.spec_words()[3], 16, 5) as u8
    }

    /// The Slot ID field (bits 24..=31 of word 3).
    pub open spec fn spec_slot_id(self) -> u8 {
        field_get(self.spec_words()[3], 24, 8) as u8
    }

    /// The descriptor carries the Set TR Dequeue Pointer Type discriminator.
    pub open spec fn wf(self) -> bool {
        self.spec_trb_type() == TYPE_SET_TR_DEQUEUE_POINTER
    }

    /// Creates a Set TR Dequeue Pointer Command TRB: all words zero except
    /// the Type field.
    pub fn new() -> (t: Self)
        ensures
            t.spec_words() == spec_new_words(TYPE_SET_TR_DEQUEUE_POINTER),
            t.wf(),
            !t.spec_cycle_bit(),
            !t.spec_dequeue_cycle_state(),
            t.spec_stream_context_type() == 0,
            t.spec_new_tr_dequeue_pointer() == 0,
            t.spec_stream_id() == 0,
            t.spec_endpoint_id() == 0,
            t.spec_slot_id() == 0,
    {
        proof {
            lemma_mask_values();
        }
        SetTrDequeuePointer(RawTrb::new(TYPE_SET_TR_DEQUEUE_POINTER))
    }

    /// Serializes the descriptor into its raw 16-byte form.
    pub fn into_raw(self) -> (r: [u32; 4])
        ensures
            r@ == self.spec_words(),
    {
        self.0.into_raw()
    }

    /// Checked cast from the raw form: accepted exactly when the Type
    /// discriminator matches; a mismatch returns the words back.
    pub fn try_from_raw(raw: [u32; 4]) -> (r: Result<Self, [u32; 4]>)
        ensures
            r is Ok <==> spec_type_of(raw@) == TYPE_SET_TR_DEQUEUE_POINTER,
            r matches Ok(t) ==> t.spec_words() == raw@ && t.wf(),
            r matches Err(e) ==> e == raw,
    {
        proof {
            lemma_mask_values();
        }
        let ty = get_field(raw[3], 10, 6, 0x3f);
        if ty == TYPE_SET_TR_DEQUEUE_POINTER {
            Ok(SetTrDequeuePointer(RawTrb::from_raw(raw)))
        } else {
            Err(raw)
        }
    }

    /// Returns the value of the Cycle Bit field.
    pub fn cycle_bit(&self) -> (r: bool)
        ensures
            r == self.spec_cycle_bit(),
    {
        proof {
            lemma_mask_values();
        }
        self.0.get_w3(0, 1, 1) == 1
    }

    /// Sets the value of the Cycle Bit field.
    pub fn set_cycle_bit(&mut self, c: bool) -> (r: &mut Self)
        ensures
            r.spec_words() == spec_with_cycle(old(self).spec_words(), c),
            r.spec_cycle_bit() == c,
            r.spec_trb_type() == old(self).spec_trb_type(),
            r.spec_dequeue_cycle_state() == old(self).spec_dequeue_cycle_state(),
            r.spec_stream_context_type() == old(self).spec_stream_context_type(),
            r.spec_new_tr_dequeue_pointer() == old(self).spec_new_tr_dequeue_pointer(),
            r.spec_stream_id() == old(self).spec_stream_id(),
            r.spec_endpoint_id() == old(self).spec_endpoint_id(),
            r.spec_slot_id() == old(self).spec_slot_id(),
            *final(self) == *final(r),
    {
        proof {
            lemma_mask_values();
        }
        self.0.set_w3(0, 1, 1, if c { 1 } else { 0 });
        self
    }

    /// Sets the value of the Dequeue Cycle State field.
    pub fn set_dequeue_cycle_state(&mut self, s: bool) -> (r: &mut Self)
        ensures
            r.spec_dequeue_cycle_state() == s,
            r.spec_trb_type() == old(self).spec_trb_type(),
            r.spec_cycle_bit() == old(self).spec_cycle_bit(),
            r.spec_stream_context_type() == old(self).spec_stream_context_type(),
            r.spec_new_tr_dequeue_pointer() == old(self).spec_new_tr_dequeue_pointer(),
            r.spec_stream_id() == old(self).spec_stream_id(),
            r.spec_endpoint_id() == old(self).spec_endpoint_id(),
            r.spec_slot_id() == old(self).spec_slot_id(),
            r.spec_words() == old(self).spec_words().update(
                0,
                field_set(old(self).spec_words()[0], 0, 1, if s { 1u32 } else { 0u32 }),
            ),
            *final(self) == *final(r),
    {
        proof {
            lemma_mask_values();
        }
        self.0.set_w0(0, 1, 1, if s { 1 } else { 0 });
        self
    }

    /// Returns the value of the Dequeue Cycle State field.
    pub fn dequeue_cycle_state(&self) -> (r: bool)
        ensures
            r == self.spec_dequeue_cycle_state(),
    {
        proof {
            lemma_mask_values();
        }
        self.0.get_w0(0, 1, 1) == 1
    }

    /// Sets the value of the Stream Context Type field.
    pub fn set_stream_context_type(&mut self, t: u8) -> (r: &mut Self)
        requires
            t < 8,
        ensures
            r.spec_stream_context_type() == t,
            r.spec_trb_type() == old(self).spec_trb_type(),
            r.spec_cycle_bit() == old(self).spec_cycle_bit(),
            r.spec_dequeue_cycle_state() == old(self).spec_dequeue_cycle_state(),
            r.spec_new_tr_dequeue_pointer() == old(self).spec_new_tr_dequeue_pointer(),
            r.spec_stream_id() == old(self).spec_stream_id(),
            r.spec_endpoint_id() == old(self).spec_endpoint_id(),
            r.spec_slot_id() == old(self).spec_slot_id(),
            r.spec_words() == old(self).spec_words().update(
                0,
                field_set(old(self).spec_words()[0], 1, 3, t as u32),
            ),
            *final(self) == *final(r),
    {
        proof {
            lemma_mask_values();
        }
        self.0.set_w0(1, 3, 0x7, t as u32);
        self
    }

    /// Returns the value of the Stream Context Type field.
    pub fn stream_context_type(&self) -> (r: u8)
        ensures
            r == self.spec_stream_context_type(),
    {
        proof {
            lemma_mask_values();
        }
        self.0.get_w0(1, 3, 0x7) as u8
    }

    /// Sets the value of the New TR Dequeue Pointer field.
    ///
    /// The pointer must be 16-byte aligned: its low 4 bits are reserved for
    /// flags and are never treated as address bits.
    pub fn set_new_tr_dequeue_pointer(&mut self, p: u64) -> (r: &mut Self)
        requires
            p % 16 == 0,
        ensures
            r.spec_new_tr_dequeue_pointer() == p,
            r.spec_trb_type() == old(self).spec_trb_type(),
            r.spec_cycle_bit() == old(self).spec_cycle_bit(),
            r.spec_dequeue_cycle_state() == old(self).spec_dequeue_cycle_state(),
            r.spec_stream_context_type() == old(self).spec_stream_context_type(),
            r.spec_stream_id() == old(self).spec_stream_id(),
            r.spec_endpoint_id() == old(self).spec_endpoint_id(),
            r.spec_slot_id() == old(self).spec_slot_id(),
            r.spec_words() == old(self).spec_words().update(
                0,
                field_set(old(self).spec_words()[0], 4, 28, field_get(p as u32, 4, 28)),
            ).update(1, (p >> 32) as u32),
            *final(self) == *final(r),
    {
        self.0.set_pointer_keep_low(p);
        self
    }

    /// Returns the value of the New TR Dequeue Pointer field.
    pub fn new_tr_dequeue_pointer(&self) -> (r: u64)
        ensures
            r == self.spec_new_tr_dequeue_pointer(),
    {
        self.0.pointer_masked()
    }

    /// Checked variant of `set_new_tr_dequeue_pointer`: a pointer that is not
    /// 16-byte aligned is rejected and the descriptor is left unchanged — the
    /// operation does not partially apply.
    pub fn try_set_new_tr_dequeue_pointer(&mut self, p: u64) -> (r: Result<(), Error>)
        ensures
            r is Ok <==> p % 16 == 0,
            p % 16 == 0 ==> final(self).spec_new_tr_dequeue_pointer() == p && final(self).spec_trb_type() == old(self).spec_trb_type() && final(self).spec_cycle_bit() == old(self).spec_cycle_bit() && final(self).spec_dequeue_cycle_state() == old(self).spec_dequeue_cycle_state() && final(self).spec_stream_context_type() == old(self).spec_stream_context_type() && final(self).spec_stream_id() == old(self).spec_stream_id() && final(self).spec_endpoint_id() == old(self).spec_endpoint_id()
                && final(self).spec_slot_id() == old(self).spec_slot_id(),
            p % 16 != 0 ==> *final(self) == *old(self) && r == Result::<(), Error>::Err(
                Error::NotAligned,
            ),
    {
        if p % 16 == 0 {
            self.set_new_tr_dequeue_pointer(p);
            Ok(())
        } else {
            Err(Error::NotAligned)
        }
    }

    /// Sets the value of the Stream ID field.
    pub fn set_stream_id(&mut self, i: u16) -> (r: &mut Self)
        ensures
            r.spec_stream_id() == i,
            r.spec_trb_type() == old(self).spec_trb_type(),
            r.spec_cycle_bit() == old(self).spec_cycle_bit(),
            r.spec_dequeue_cycle_state() == old(self).spec_dequeue_cycle_state(),
            r.spec_stream_context_type() == old(self).spec_stream_context_type(),
            r.spec_new_tr_dequeue_pointer() == old(self).spec_new_tr_dequeue_pointer(),
            r.spec_endpoint_id() == old(self).spec_endpoint_id(),
            r.spec_slot_id() == old(self).spec_slot_id(),
            r.spec_words() == old(self).spec_words().update(
                2,
                field_set(old(self).spec_words()[2], 16, 16, i as u32),
            ),
            *final(self) == *final(r),
    {
        proof {
            lemma_mask_values();
        }
        self.0.set_w2(16, 16, 0xffff, i as u32);
        self
    }

    /// Returns the value of the Stream ID field.
    pub fn stream_id(&self) -> (r: u16)
        ensures
            r == self.spec_stream_id(),
    {
        proof {
            lemma_mask_values();
        }
        self.0.get_w2(16, 16, 0xffff) as u16
    }

    /// Sets the value of the Endpoint ID field.
    pub fn set_endpoint_id(&mut self, i: u8) -> (r: &mut Self)
        requires
            i < 32,
        ensures
            r.spec_endpoint_id() == i,
            r.spec_trb_type() == old(self).spec_trb_type(),
            r.spec_cycle_bit() == old(self).spec_cycle_bit(),
            r.spec_dequeue_cycle_state() == old(self).spec_dequeue_cycle_state(),
            r.spec_stream_context_type() == old(self).spec_stream_context_type(),
            r.spec_new_tr_dequeue_pointer() == old(self).spec_new_tr_dequeue_pointer(),
            r.spec_stream_id() == old(self).spec_stream_id(),
            r.spec_slot_id() == old(self).spec_slot_id(),
            r.spec_words() == old(self).spec_words().update(
                3,
                field_set(old(self).spec_words()[3], 16, 5, i as u32),
            ),
            *final(self) == *final(r),
    {
        proof {
            lemma_mask_values();
        }
        self.0.set_w3(16, 5, 0x1f, i as u32);
        self
    }

    /// Returns the value of the Endpoint ID field.
    pub fn endpoint_id(&self) -> (r: u8)
        ensures
            r == self.spec_endpoint_id(),
    {
        proof {
            lemma_mask_values();
        }
        self.0.get_w3(16, 5, 0x1f) as u8
    }

    /// Sets the value of the Slot ID field.
    pub fn set_slot_id(&mut self, i: u8) -> (r: &mut Self)
        ensures
            r.spec_slot_id() == i,
            r.spec_trb_type() == old(self).spec_trb_type(),
            r.spec_cycle_bit() == old(self).spec_cycle_bit(),
            r.spec_dequeue_cycle_state() == old(self).spec_dequeue_cycle_state(),
            r.spec_stream_context_type() == old(self).spec_stream_context_type(),
            r.spec_new_tr_dequeue_pointer() == old(self).spec_new_tr_dequeue_pointer(),
            r.spec_stream_id() == old(self).spec_stream_id(),
            r.spec_endpoint_id() == old(self).spec_endpoint_id(),
            r.spec_words() == old(self).spec_words().update(
                3,
                field_set(old(self).spec_words()[3], 24, 8, i as u32),
            ),
            *final(self) == *final(r),
    {
        proof {
            lemma_mask_values();
        }
        self.0.set_w3(24, 8, 0xff, i as u32);
        self
    }

    /// Returns the value of the Slot ID field.
    pub fn slot_id(&self) -> (r: u8)
        ensures
            r == self.spec_slot_id(),
    {
        proof {
            lemma_mask_values();
        }
        self.0.get_w3(24, 8, 0xff) as u8
    }
}

impl Default for SetTrDequeuePointer {
    /// Same as `SetTrDequeuePointer::new`.
    fn default() -> (t: Self)
        ensures
            t.spec_words() == spec_new_words(TYPE_SET_TR_DEQUEUE_POINTER),
            t.wf(),
    {
        SetTrDequeuePointer::new()
    }
}

/// Whether a TRB Type discriminator names a kind that may be pushed to the
/// Command Ring: the closed command-class set plus Link.
pub open spec fn spec_allowed_type(code: u32) -> bool {
    ||| code == TYPE_LINK
    ||| code == TYPE_ENABLE_SLOT
    ||| code == TYPE_DISABLE_SLOT
    ||| code == TYPE_ADDRESS_DEVICE
    ||| code == TYPE_CONFIGURE_ENDPOINT
    ||| code == TYPE_EVALUATE_CONTEXT
    ||| code == TYPE_RESET_ENDPOINT
    ||| code == TYPE_STOP_ENDPOINT
    ||| code == TYPE_SET_TR_DEQUEUE_POINTER
    ||| code == TYPE_NOOP_COMMAND
}

/// TRBs which are allowed to be pushed to the Command Ring.
///
/// Every other TRB kind is rejected at this construction boundary and never
/// reaches the enqueue algorithm.
#[derive(Clone, Copy, Debug, PartialEq, Eq, Structural)]
pub enum Allowed {
    /// Link TRB
    Link(Link),
    /// Enable Slot Command TRB
    EnableSlot(EnableSlot),
    /// Disable Slot Command TRB
    DisableSlot(DisableSlot),
    /// Address Device Command TRB
    AddressDevice(AddressDevice),
    /// Configure Endpoint Command TRB
    ConfigureEndpoint(ConfigureEndpoint),
    /// Evaluate Context Command TRB
    EvaluateContext(EvaluateContext),
    /// Reset Endpoint Command TRB
    ResetEndpoint(ResetEndpoint),
    /// Stop Endpoint Command TRB
    StopEndpoint(StopEndpoint),
    /// Set TR Dequeue Pointer Command TRB
    SetTrDequeuePointer(SetTrDequeuePointer),
    /// No Op Command TRB
    Noop(Noop),
}

impl Allowed {
    /// The four words of the wrapped descriptor.
    pub open spec fn spec_words(self) -> Seq<u32> {
        match self {
            Allowed::Link(t) => t.spec_words(),
            Allowed::EnableSlot(t) => t.spec_words(),
            Allowed::DisableSlot(t) => t.spec_words(),
            Allowed::AddressDevice(t) => t.spec_words(),
            Allowed::ConfigureEndpoint(t) => t.spec_words(),
            Allowed::EvaluateContext(t) => t.spec_words(),
            Allowed::ResetEndpoint(t) => t.spec_words(),
            Allowed::StopEndpoint(t) => t.spec_words(),
            Allowed::SetTrDequeuePointer(t) => t.spec_words(),
            Allowed::Noop(t) => t.spec_words(),
        }
    }

    /// The TRB Type discriminator.
    pub open spec fn spec_trb_type(self) -> u32 {
        spec_type_of(self.spec_words())
    }

    /// The Cycle bit.
    pub open spec fn spec_cycle_bit(self) -> bool {
        flag_get(self.spec_words()[3], 0)
    }

    /// The wrapped descriptor carries the Type discriminator of its kind.
    pub open spec fn wf(self) -> bool {
        match self {
            Allowed::Link(t) => t.wf(),
            Allowed::EnableSlot(t) => t.wf(),
            Allowed::DisableSlot(t) => t.wf(),
            Allowed::AddressDevice(t) => t.wf(),
            Allowed::ConfigureEndpoint(t) => t.wf(),
            Allowed::EvaluateContext(t) => t.wf(),
            Allowed::ResetEndpoint(t) => t.wf(),
            Allowed::StopEndpoint(t) => t.wf(),
            Allowed::SetTrDequeuePointer(t) => t.wf(),
            Allowed::Noop(t) => t.wf(),
        }
    }

    /// Serializes the wrapped descriptor into its raw 16-byte form.
    pub fn into_raw(self) -> (r: [u32; 4])
        ensures
            r@ == self.spec_words(),
    {
        match self {
            Allowed::Link(t) => t.into_raw(),
            Allowed::EnableSlot(t) => t.into_raw(),
            Allowed::DisableSlot(t) => t.into_raw(),
            Allowed::AddressDevice(t) => t.into_raw(),
            Allowed::ConfigureEndpoint(t) => t.into_raw(),
            Allowed::EvaluateContext(t) => t.into_raw(),
            Allowed::ResetEndpoint(t) => t.into_raw(),
            Allowed::StopEndpoint(t) => t.into_raw(),
            Allowed::SetTrDequeuePointer(t) => t.into_raw(),
            Allowed::Noop(t) => t.into_raw(),
        }
    }

    /// Checked cast from the raw form: accepted exactly when the Type
    /// discriminator names an allowed kind, which then selects the variant;
    /// any other kind is rejected with the words returned.
    pub fn try_from_raw(raw: [u32; 4]) -> (r: Result<Allowed, [u32; 4]>)
        ensures
            r is Ok <==> spec_allowed_type(spec_type_of(raw@)),
            r matches Ok(t) ==> t.spec_words() == raw@ && t.wf(),
            r matches Ok(t) ==> (t is Link <==> spec_type_of(raw@) == TYPE_LINK) && (t
                is EnableSlot <==> spec_type_of(raw@) == TYPE_ENABLE_SLOT) && (t
                is DisableSlot <==> spec_type_of(raw@) == TYPE_DISABLE_SLOT) && (t
                is AddressDevice <==> spec_type_of(raw@) == TYPE_ADDRESS_DEVICE) && (t
                is ConfigureEndpoint <==> spec_type_of(raw@) == TYPE_CONFIGURE_ENDPOINT) && (t
                is EvaluateContext <==> spec_type_of(raw@) == TYPE_EVALUATE_CONTEXT) && (t
                is ResetEndpoint <==> spec_type_of(raw@) == TYPE_RESET_ENDPOINT) && (t
                is StopEndpoint <==> spec_type_of(raw@) == TYPE_STOP_ENDPOINT) && (t
                is SetTrDequeuePointer <==> spec_type_of(raw@) == TYPE_SET_TR_DEQUEUE_POINTER) && (
            t is Noop <==> spec_type_of(raw@) == TYPE_NOOP_COMMAND),
            r matches Err(e) ==> e == raw,
    {
        proof {
            lemma_mask_values();
        }
        let ty = get_field(raw[3], 10, 6, 0x3f);
        if ty == TYPE_LINK {
            match Link::try_from_raw(raw) {
                Ok(t) => Ok(Allowed::Link(t)),
                Err(e) => Err(e),
            }
        } else if ty == TYPE_ENABLE_SLOT {
            match EnableSlot::try_from_raw(raw) {
                Ok(t) => Ok(Allowed::EnableSlot(t)),
                Err(e) => Err(e),
            }
        } else if ty == TYPE_DISABLE_SLOT {
            match DisableSlot::try_from_raw(raw) {
                Ok(t) => Ok(Allowed::DisableSlot(t)),
                Err(e) => Err(e),
            }
        } else if ty == TYPE_ADDRESS_DEVICE {
            match AddressDevice::try_from_raw(raw) {
                Ok(t) => Ok(Allowed::AddressDevice(t)),
                Err(e) => Err(e),
            }
        } else if ty == TYPE_CONFIGURE_ENDPOINT {
            match ConfigureEndpoint::try_from_raw(raw) {
                Ok(t) => Ok(Allowed::ConfigureEndpoint(t)),
                Err(e) => Err(e),
            }
        } else if ty == TYPE_EVALUATE_CONTEXT {
            match EvaluateContext::try_from_raw(raw) {
                Ok(t) => Ok(Allowed::EvaluateContext(t)),
                Err(e) => Err(e),
            }
        } else if ty == TYPE_RESET_ENDPOINT {
            match ResetEndpoint::try_from_raw(raw) {
                Ok(t) => Ok(Allowed::ResetEndpoint(t)),
                Err(e) => Err(e),
            }
        } else if ty == TYPE_STOP_ENDPOINT {
            match StopEndpoint::try_from_raw(raw) {
                Ok(t) => Ok(Allowed::StopEndpoint(t)),
                Err(e) => Err(e),
            }
        } else if ty == TYPE_SET_TR_DEQUEUE_POINTER {
            match SetTrDequeuePointer::try_from_raw(raw) {
                Ok(t) => Ok(Allowed::SetTrDequeuePointer(t)),
                Err(e) => Err(e),
            }
        } else if ty == TYPE_NOOP_COMMAND {
            match Noop::try_from_raw(raw) {
                Ok(t) => Ok(Allowed::Noop(t)),
                Err(e) => Err(e),
            }
        } else {
            Err(raw)
        }
    }

    /// Returns the value of the Cycle Bit field.
    pub fn cycle_bit(&self) -> (r: bool)
        ensures
            r == self.spec_cycle_bit(),
    {
        match self {
            Allowed::Link(t) => t.cycle_bit(),
            Allowed::EnableSlot(t) => t.cycle_bit(),
            Allowed::DisableSlot(t) => t.cycle_bit(),
            Allowed::AddressDevice(t) => t.cycle_bit(),
            Allowed::ConfigureEndpoint(t) => t.cycle_bit(),
            Allowed::EvaluateContext(t) => t.cycle_bit(),
            Allowed::ResetEndpoint(t) => t.cycle_bit(),
            Allowed::StopEndpoint(t) => t.cycle_bit(),
            Allowed::SetTrDequeuePointer(t) => t.cycle_bit(),
            Allowed::Noop(t) => t.cycle_bit(),
        }
    }

    /// Sets the value of the Cycle Bit field, keeping the kind and every
    /// other field of the wrapped descriptor.
    pub fn set_cycle_bit(&mut self, c: bool)
        ensures
            final(self).spec_words() == spec_with_cycle(old(self).spec_words(), c),
            final(self).spec_cycle_bit() == c,
            final(self).spec_trb_type() == old(self).spec_trb_type(),
            final(self).wf() == old(self).wf(),
    {
        match self {
            Allowed::Link(t) => {
                t.set_cycle_bit(c);
            },
            Allowed::EnableSlot(t) => {
                t.set_cycle_bit(c);
            },
            Allowed::DisableSlot(t) => {
                t.set_cycle_bit(c);
            },
            Allowed::AddressDevice(t) => {
                t.set_cycle_bit(c);
            },
            Allowed::ConfigureEndpoint(t) => {
                t.set_cycle_bit(c);
            },
            Allowed::EvaluateContext(t) => {
                t.set_cycle_bit(c);
            },
            Allowed::ResetEndpoint(t) => {
                t.set_cycle_bit(c);
            },
            Allowed::StopEndpoint(t) => {
                t.set_cycle_bit(c);
            },
            Allowed::SetTrDequeuePointer(t) => {
                t.set_cycle_bit(c);
            },
            Allowed::Noop(t) => {
                t.set_cycle_bit(c);
            },
        }
    }
}


/// Law (round-trip idempotence): an Address Device descriptor is determined
/// exactly by its four words. Serializing with `into_raw` yields its words;
/// `try_from_raw` accepts them, since a well-formed descriptor carries its
/// Type discriminator, and returns a descriptor with the same words — by this
/// law, the very same descriptor, every field recovered exactly.
pub proof fn lemma_address_device_words_injective(a: AddressDevice, b: AddressDevice)
    requires
        a.spec_words() == b.spec_words(),
    ensures
        a == b,
{
    assert(a.spec_words()[0] == b.spec_words()[0]);
    assert(a.spec_words()[1] == b.spec_words()[1]);
    assert(a.spec_words()[2] == b.spec_words()[2]);
    assert(a.spec_words()[3] == b.spec_words()[3]);
}

} // verus!
