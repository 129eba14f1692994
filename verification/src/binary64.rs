//! Facts about IEEE 754 binary64 bit patterns.

use vstd::prelude::*;

verus! {

/// The bit pattern of positive zero.
pub const POSITIVE_ZERO: u64 = 0;

/// The bit pattern of positive infinity: exponent field all ones, fraction
/// field zero.
pub const POSITIVE_INFINITY: u64 = 0x7ff0_0000_0000_0000;

/// The sign bit of a pattern.
pub open spec fn sign_bit(bits: u64) -> u64 {
    bits >> 63
}

/// The eleven-bit biased exponent field of a pattern.
pub open spec fn exponent_field(bits: u64) -> u64 {
    (bits >> 52) & 0x7ff
}

/// The fifty-two-bit fraction field of a pattern.
pub open spec fn fraction_field(bits: u64) -> u64 {
    bits & 0x000f_ffff_ffff_ffff
}

/// The pattern is a NaN: exponent field all ones and a non-zero fraction.
pub open spec fn is_nan(bits: u64) -> bool {
    exponent_field(bits) == 0x7ff && fraction_field(bits) != 0
}

/// The pattern is one of the two zeros.
pub open spec fn is_zero(bits: u64) -> bool {
    exponent_field(bits) == 0 && fraction_field(bits) == 0
}

/// The number that the pattern denotes compares greater than zero: it is
/// not a NaN, not a zero, and its sign bit is clear. Positive infinity
/// counts.
pub open spec fn greater_than_zero(bits: u64) -> bool {
    sign_bit(bits) == 0 && !is_nan(bits) && !is_zero(bits)
}

/// The patterns that compare greater than zero are exactly those from the
/// smallest positive subnormal up to positive infinity.
pub proof fn lemma_greater_than_zero_range(bits: u64)
    ensures
        greater_than_zero(bits) <==> 0 < bits <= POSITIVE_INFINITY,
{
    assert((bits >> 63 == 0 && !(((bits >> 52) & 0x7ff) == 0x7ff && (bits
        & 0x000f_ffff_ffff_ffff) != 0) && !(((bits >> 52) & 0x7ff) == 0 && (bits
        & 0x000f_ffff_ffff_ffff) == 0)) <==> (0 < bits && bits <= 0x7ff0_0000_0000_0000))
        by (bit_vector);
}

/// Tells whether the number that `bits` denotes is greater than zero.
pub fn is_greater_than_zero(bits: u64) -> (positive: bool)
    ensures
        positive == greater_than_zero(bits),
{
    proof {
        lemma_greater_than_zero_range(bits);
    }
    0 < bits && bits <= POSITIVE_INFINITY
}

} // verus!
