//! Bit-field access over 32-bit register and descriptor words.
//!
//! Every TRB field and every capability-register field is a contiguous range
//! of bits within one 32-bit word. `field_get` and `field_set` are the
//! mathematical model of such a range; `get_field` and `set_field` are their
//! executable counterparts, and the lemmas below give the isolation facts
//! that the descriptor contracts are built from: reading a range returns the
//! value last written to it, and writing a range leaves every disjoint range
//! untouched.

use vstd::prelude::*;

verus! {

/// The mask with the low `width` bits set, as a 32-bit word.
pub open spec fn mask_of(width: u32) -> u32 {
    ((1u64 << width) - 1) as u32
}

/// The value of the `width`-bit field that starts at bit `lo` of `w`.
pub open spec fn field_get(w: u32, lo: u32, width: u32) -> u32 {
    (w >> lo) & mask_of(width)
}

/// `w` with the `width`-bit field starting at bit `lo` replaced by `v`.
pub open spec fn field_set(w: u32, lo: u32, width: u32, v: u32) -> u32 {
    (w & !(mask_of(width) << lo)) | ((v & mask_of(width)) << lo)
}

/// Whether the single bit `b` of `w` is set.
pub open spec fn flag_get(w: u32, b: u32) -> bool {
    field_get(w, b, 1) == 1
}

/// The 64-bit value whose high word is `hi` and whose low word is `lo`.
pub open spec fn join32(hi: u32, lo: u32) -> u64 {
    ((hi as u64) << 32) | (lo as u64)
}

/// The concrete masks of every field width this crate uses.
pub proof fn lemma_mask_values()
    by (bit_vector)
    ensures
        mask_of(1) == 1u32,
        mask_of(3) == 0x7u32,
        mask_of(4) == 0xfu32,
        mask_of(5) == 0x1fu32,
        mask_of(6) == 0x3fu32,
        mask_of(8) == 0xffu32,
        mask_of(16) == 0xffffu32,
        mask_of(28) == 0xfff_ffffu32,
        join32(0u32, 0u32) == 0u64,
        0u64 & 0xffff_ffff_ffff_fff0u64 == 0u64,
{
}

/// A value no greater than the field mask is untouched by it.
pub proof fn lemma_fits(v: u32, width: u32)
    by (bit_vector)
    requires
        0 < width < 32,
        v <= mask_of(width),
    ensures
        v & mask_of(width) == v,
{
}

/// Reading a field back returns exactly the value written into it.
pub proof fn lemma_field_set_get(w: u32, lo: u32, width: u32, v: u32)
    by (bit_vector)
    requires
        lo < 32,
        0 < width,
        lo + width <= 32,
        v & mask_of(width) == v,
    ensures
        field_get(field_set(w, lo, width, v), lo, width) == v,
{
}

/// Writing one field leaves every disjoint field unchanged.
pub proof fn lemma_field_set_other(w: u32, lo: u32, width: u32, v: u32, lo2: u32, width2: u32)
    by (bit_vector)
    requires
        lo < 32,
        0 < width,
        lo + width <= 32,
        lo2 < 32,
        0 < width2,
        lo2 + width2 <= 32,
        lo + width <= lo2 || lo2 + width2 <= lo,
    ensures
        field_get(field_set(w, lo, width, v), lo2, width2) == field_get(w, lo2, width2),
{
}

/// Every field of an all-zero word is zero.
pub proof fn lemma_field_get_zero(lo: u32, width: u32)
    by (bit_vector)
    requires
        lo < 32,
        0 < width,
        lo + width <= 32,
    ensures
        field_get(0u32, lo, width) == 0,
{
}

/// A field value is bounded by its mask.
pub proof fn lemma_field_get_bound(w: u32, lo: u32, width: u32)
    by (bit_vector)
    ensures
        field_get(w, lo, width) <= mask_of(width),
{
}

/// Splitting a 64-bit value into its two words and joining them restores it.
pub proof fn lemma_join_split(p: u64)
    by (bit_vector)
    ensures
        join32((p >> 32) as u32, p as u32) == p,
{
}

/// Writing a field confined to the low 4 bits of the low word leaves the
/// 16-byte-aligned pointer held in the remaining 60 bits unchanged.
pub proof fn lemma_low_bits_keep_pointer(w1: u32, w0: u32, lo: u32, width: u32, v: u32)
    by (bit_vector)
    requires
        0 < width,
        lo + width <= 4,
    ensures
        join32(w1, field_set(w0, lo, width, v)) & 0xffff_ffff_ffff_fff0u64 == join32(w1, w0)
            & 0xffff_ffff_ffff_fff0u64,
{
}

/// Storing an aligned pointer's words while keeping the low 4 bits of the low
/// word lets the pointer be read back exactly.
pub proof fn lemma_set_pointer_keep_low(w0: u32, p: u64)
    by (bit_vector)
    requires
        p % 16 == 0,
    ensures
        ({
            let w0n = field_set(w0, 4, 28, field_get(p as u32, 4, 28));
            &&& join32((p >> 32) as u32, w0n) & 0xffff_ffff_ffff_fff0u64 == p
            &&& field_get(w0n, 0, 1) == field_get(w0, 0, 1)
            &&& field_get(w0n, 1, 3) == field_get(w0, 1, 3)
        }),
{
}

/// Executable read of the `width`-bit field at bit `lo` of `w`.
///
/// `mask` must be the literal value of `mask_of(width)`.
#[inline]
pub fn get_field(w: u32, lo: u32, width: u32, mask: u32) -> (r: u32)
    requires
        lo < 32,
        mask == mask_of(width),
    ensures
        r == field_get(w, lo, width),
{
    (w >> lo) & mask
}

/// Executable write of `v` into the `width`-bit field at bit `lo` of `w`.
///
/// `mask` must be the literal value of `mask_of(width)`.
#[inline]
pub fn set_field(w: u32, lo: u32, width: u32, mask: u32, v: u32) -> (r: u32)
    requires
        lo < 32,
        mask == mask_of(width),
    ensures
        r == field_set(w, lo, width, v),
{
    (w & !(mask << lo)) | ((v & mask) << lo)
}

} // verus!
