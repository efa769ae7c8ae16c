//! Comparisons on the bit patterns of double-precision floats.
//!
//! Host values arrive as IEEE-754 doubles. The few decisions taken on them
//! here compare a value with zero or with one half, and those comparisons can
//! be read off the bit pattern: for a pattern with a clear sign bit that is
//! not a NaN, the order of the patterns is the order of the numbers.

use vstd::prelude::*;

verus! {

/// The bit pattern of `0.0`.
pub const F64_ZERO: u64 = 0;

/// The bit pattern of `0.5`.
pub const F64_HALF: u64 = 0x3FE0_0000_0000_0000;

/// The bit pattern of `1.0`.
pub const F64_ONE: u64 = 0x3FF0_0000_0000_0000;

/// The bit pattern of positive infinity, the largest pattern that is a number.
pub const F64_INFINITY: u64 = 0x7FF0_0000_0000_0000;

/// The pattern without its sign bit.
pub open spec fn magnitude(bits: u64) -> u64 {
    bits & 0x7FFF_FFFF_FFFF_FFFF
}

/// Whether the sign bit is set.
pub open spec fn sign_set(bits: u64) -> bool {
    bits & 0x8000_0000_0000_0000 != 0
}

/// Whether the pattern is a NaN: all exponent bits set and a fraction that is
/// not zero.
pub open spec fn is_nan(bits: u64) -> bool {
    magnitude(bits) > F64_INFINITY
}

/// Whether the value is a number greater than zero.
pub open spec fn gt_zero(bits: u64) -> bool {
    !sign_set(bits) && magnitude(bits) != 0 && !is_nan(bits)
}

/// Whether the value is a number less than zero.
pub open spec fn lt_zero(bits: u64) -> bool {
    sign_set(bits) && magnitude(bits) != 0 && !is_nan(bits)
}

/// Whether the value is a number greater than or equal to one half.
pub open spec fn ge_half(bits: u64) -> bool {
    !sign_set(bits) && F64_HALF <= magnitude(bits) && !is_nan(bits)
}

/// Whether the value is a number greater than one half.
pub open spec fn gt_half(bits: u64) -> bool {
    !sign_set(bits) && F64_HALF < magnitude(bits) && !is_nan(bits)
}

/// Tells whether a double is greater than zero.
pub fn is_gt_zero(bits: u64) -> (r: bool)
    ensures
        r == gt_zero(bits),
{
    assert(gt_zero(bits) == (0 < bits && bits <= 0x7FF0_0000_0000_0000)) by (bit_vector)
        requires
            gt_zero(bits) == (!(bits & 0x8000_0000_0000_0000 != 0) && (bits
                & 0x7FFF_FFFF_FFFF_FFFF) != 0 && !((bits & 0x7FFF_FFFF_FFFF_FFFF)
                > 0x7FF0_0000_0000_0000)),
    ;
    0 < bits && bits <= F64_INFINITY
}

/// Tells whether a double is less than zero.
pub fn is_lt_zero(bits: u64) -> (r: bool)
    ensures
        r == lt_zero(bits),
{
    assert(lt_zero(bits) == (0x8000_0000_0000_0000 < bits && bits <= 0xFFF0_0000_0000_0000))
        by (bit_vector)
        requires
            lt_zero(bits) == ((bits & 0x8000_0000_0000_0000 != 0) && (bits
                & 0x7FFF_FFFF_FFFF_FFFF) != 0 && !((bits & 0x7FFF_FFFF_FFFF_FFFF)
                > 0x7FF0_0000_0000_0000)),
    ;
    0x8000_0000_0000_0000 < bits && bits <= 0xFFF0_0000_0000_0000
}

/// Tells whether a double is at least one half.
pub fn is_ge_half(bits: u64) -> (r: bool)
    ensures
        r == ge_half(bits),
{
    assert(ge_half(bits) == (0x3FE0_0000_0000_0000 <= bits && bits <= 0x7FF0_0000_0000_0000))
        by (bit_vector)
        requires
            ge_half(bits) == (!(bits & 0x8000_0000_0000_0000 != 0) && 0x3FE0_0000_0000_0000 <= (
            bits & 0x7FFF_FFFF_FFFF_FFFF) && !((bits & 0x7FFF_FFFF_FFFF_FFFF)
                > 0x7FF0_0000_0000_0000)),
    ;
    F64_HALF <= bits && bits <= F64_INFINITY
}

/// Tells whether a double is greater than one half.
pub fn is_gt_half(bits: u64) -> (r: bool)
    ensures
        r == gt_half(bits),
{
    assert(gt_half(bits) == (0x3FE0_0000_0000_0000 < bits && bits <= 0x7FF0_0000_0000_0000))
        by (bit_vector)
        requires
            gt_half(bits) == (!(bits & 0x8000_0000_0000_0000 != 0) && 0x3FE0_0000_0000_0000 < (
            bits & 0x7FFF_FFFF_FFFF_FFFF) && !((bits & 0x7FFF_FFFF_FFFF_FFFF)
                > 0x7FF0_0000_0000_0000)),
    ;
    F64_HALF < bits && bits <= F64_INFINITY
}

/// A value is never both above and below zero; both zeros and every NaN are
/// neither. A value above one half is at least one half and above zero.
pub proof fn lemma_comparisons_agree(bits: u64)
    ensures
        !(gt_zero(bits) && lt_zero(bits)),
        magnitude(bits) == 0 || is_nan(bits) ==> !gt_zero(bits) && !lt_zero(bits),
        gt_half(bits) ==> ge_half(bits),
        ge_half(bits) ==> gt_zero(bits),
        ge_half(F64_HALF) && !gt_half(F64_HALF),
        gt_half(F64_ONE) && !gt_zero(F64_ZERO) && !lt_zero(F64_ZERO),
{
    assert(0x3FE0_0000_0000_0000u64 & 0x7FFF_FFFF_FFFF_FFFF == 0x3FE0_0000_0000_0000) by (bit_vector);
    assert(0x3FE0_0000_0000_0000u64 & 0x8000_0000_0000_0000 == 0) by (bit_vector);
    assert(0x3FF0_0000_0000_0000u64 & 0x7FFF_FFFF_FFFF_FFFF == 0x3FF0_0000_0000_0000) by (bit_vector);
    assert(0x3FF0_0000_0000_0000u64 & 0x8000_0000_0000_0000 == 0) by (bit_vector);
    assert(0u64 & 0x7FFF_FFFF_FFFF_FFFF == 0) by (bit_vector);
    assert(0u64 & 0x8000_0000_0000_0000 == 0) by (bit_vector);
}

} // verus!
