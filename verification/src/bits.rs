//! Bit-level view of hardware register bytes and words.
//!
//! Registers are read and written through explicit bit-range operations.
//! The specification models a register value by its individual bits
//! (`u8_bit`, `u32_bit`) and by the numeric value of a contiguous bit
//! field (`u8_field`, `u32_field`); the executable operations come from
//! the `bit_field` crate behind trusted wrappers whose contracts are
//! stated over that model.

use vstd::prelude::*;
use bit_field::BitField;

verus! {

/// 2^w.
pub open spec fn two_pow(w: nat) -> nat
    decreases w,
{
    if w == 0 {
        1
    } else {
        2 * two_pow((w - 1) as nat)
    }
}

/// The small powers of two the register fields use.
pub proof fn lemma_two_pow_small()
    ensures
        two_pow(1) == 2,
        two_pow(2) == 4,
        two_pow(3) == 8,
        two_pow(4) == 16,
        two_pow(5) == 32,
{
    assert(two_pow(0) == 1);
    assert(two_pow(1) == 2);
    assert(two_pow(2) == 4);
    assert(two_pow(3) == 8);
    assert(two_pow(4) == 16);
    assert(two_pow(5) == 32);
}

/// The bit of `v` at index `i`; index 0 is the least significant bit.
pub open spec fn u8_bit(v: u8, i: usize) -> bool {
    (v >> i) & 1u8 == 1u8
}

/// The value of the `width`-bit field of `v` that starts at bit `lo`.
pub open spec fn u8_field(v: u8, lo: usize, width: nat) -> nat
    decreases width,
{
    if width == 0 {
        0
    } else {
        (if u8_bit(v, lo) { 1nat } else { 0nat }) + 2 * u8_field(v, (lo + 1) as usize, (width - 1) as nat)
    }
}

/// The bit of `v` at index `i`; index 0 is the least significant bit.
pub open spec fn u32_bit(v: u32, i: usize) -> bool {
    (v >> i) & 1u32 == 1u32
}

/// The value of the `width`-bit field of `v` that starts at bit `lo`.
pub open spec fn u32_field(v: u32, lo: usize, width: nat) -> nat
    decreases width,
{
    if width == 0 {
        0
    } else {
        (if u32_bit(v, lo) { 1nat } else { 0nat }) + 2 * u32_field(v, (lo + 1) as usize, (width - 1) as nat)
    }
}

/// A bit field only depends on the bits it covers.
pub proof fn lemma_u8_field_congruence(x: u8, y: u8, lo: usize, width: nat)
    requires
        lo + width <= 8,
        forall|j: usize| lo <= j < lo + width ==> u8_bit(x, j) == u8_bit(y, j),
    ensures
        u8_field(x, lo, width) == u8_field(y, lo, width),
    decreases width,
{
    if width > 0 {
        assert(u8_bit(x, lo) == u8_bit(y, lo));
        lemma_u8_field_congruence(x, y, (lo + 1) as usize, (width - 1) as nat);
    }
}

/// A bit field only depends on the bits it covers.
pub proof fn lemma_u32_field_congruence(x: u32, y: u32, lo: usize, width: nat)
    requires
        lo + width <= 32,
        forall|j: usize| lo <= j < lo + width ==> u32_bit(x, j) == u32_bit(y, j),
    ensures
        u32_field(x, lo, width) == u32_field(y, lo, width),
    decreases width,
{
    if width > 0 {
        assert(u32_bit(x, lo) == u32_bit(y, lo));
        lemma_u32_field_congruence(x, y, (lo + 1) as usize, (width - 1) as nat);
    }
}

/// A `width`-bit field is below 2^width.
pub proof fn lemma_u8_field_bound(v: u8, lo: usize, width: nat)
    ensures
        u8_field(v, lo, width) < two_pow(width),
    decreases width,
{
    if width > 0 {
        lemma_u8_field_bound(v, (lo + 1) as usize, (width - 1) as nat);
    }
}

/// Every bit of a zero word is clear.
pub proof fn lemma_u32_zero_bit(j: usize)
    ensures
        !u32_bit(0u32, j),
{
    assert((0u32 >> j) & 1u32 != 1u32) by (bit_vector);
}

/// Relies on `bit_field::BitField::get_bit` for `u8`: returns the bit of
/// `v` at index `bit`.
#[verifier::external_body]
pub(crate) fn u8_get_bit(v: u8, bit: usize) -> (r: bool)
    requires
        bit < 8,
    ensures
        r == u8_bit(v, bit),
{
    v.get_bit(bit)
}

/// Relies on `bit_field::BitField::get_bits` for `u8`: returns the value
/// of bits `lo..hi` of `v`.
#[verifier::external_body]
pub(crate) fn u8_get_bits(v: u8, lo: usize, hi: usize) -> (r: u8)
    requires
        lo < hi,
        hi <= 8,
    ensures
        r as nat == u8_field(v, lo, (hi - lo) as nat),
{
    v.get_bits(lo..hi)
}

/// Relies on `bit_field::BitField::set_bit` for `u8`: returns `v` with the
/// bit at index `bit` set to `value` and every other bit unchanged.
#[verifier::external_body]
pub(crate) fn u8_set_bit(v: u8, bit: usize, value: bool) -> (r: u8)
    requires
        bit < 8,
    ensures
        u8_bit(r, bit) == value,
        forall|j: usize| j < 8 && j != bit ==> u8_bit(r, j) == u8_bit(v, j),
{
    let mut x = v;
    x.set_bit(bit, value);
    x
}

/// Relies on `bit_field::BitField::set_bits` for `u8`: returns `v` with
/// bits `lo..hi` holding `value` and every other bit unchanged.
#[verifier::external_body]
pub(crate) fn u8_set_bits(v: u8, lo: usize, hi: usize, value: u8) -> (r: u8)
    requires
        lo < hi,
        hi <= 8,
        (value as nat) < two_pow((hi - lo) as nat),
    ensures
        u8_field(r, lo, (hi - lo) as nat) == value as nat,
        forall|j: usize| j < 8 && !(lo <= j < hi) ==> u8_bit(r, j) == u8_bit(v, j),
{
    let mut x = v;
    x.set_bits(lo..hi, value);
    x
}

/// Relies on `bit_field::BitField::set_bits` for `u32`: returns `v` with
/// bits `lo..hi` holding `value` and every other bit unchanged.
#[verifier::external_body]
pub(crate) fn u32_set_bits(v: u32, lo: usize, hi: usize, value: u32) -> (r: u32)
    requires
        lo < hi,
        hi <= 32,
        (value as nat) < two_pow((hi - lo) as nat),
    ensures
        u32_field(r, lo, (hi - lo) as nat) == value as nat,
        forall|j: usize| j < 32 && !(lo <= j < hi) ==> u32_bit(r, j) == u32_bit(v, j),
{
    let mut x = v;
    x.set_bits(lo..hi, value);
    x
}

} // verus!
