//! Classification of IEEE-754 binary64 values given as their raw bit pattern.

use vstd::prelude::*;

verus! {

/// Bit pattern of positive infinity: the largest pattern that compares
/// greater than zero.
pub const POSITIVE_INFINITY: u64 = 0x7ff0_0000_0000_0000;

/// The sign bit.
pub open spec fn sign_bit(bits: u64) -> u64 {
    bits >> 63u64
}

/// The 11-bit biased exponent field.
pub open spec fn exponent_field(bits: u64) -> u64 {
    (bits >> 52u64) & 0x7ffu64
}

/// The 52-bit fraction field.
pub open spec fn fraction_field(bits: u64) -> u64 {
    bits & 0x000f_ffff_ffff_ffffu64
}

/// The pattern encodes positive or negative zero.
pub open spec fn is_zero(bits: u64) -> bool {
    exponent_field(bits) == 0 && fraction_field(bits) == 0
}

/// The pattern encodes a NaN: all exponent bits set and a non-zero fraction.
pub open spec fn is_nan(bits: u64) -> bool {
    exponent_field(bits) == 0x7ff && fraction_field(bits) != 0
}

/// The encoded value compares greater than zero: its sign is clear and it is
/// neither a zero nor a NaN (positive infinity qualifies).
pub open spec fn greater_than_zero(bits: u64) -> bool {
    sign_bit(bits) == 0 && !is_zero(bits) && !is_nan(bits)
}

/// The patterns that compare greater than zero are exactly those from the
/// smallest positive subnormal up to positive infinity.
pub proof fn lemma_greater_than_zero_range(bits: u64)
    ensures
        greater_than_zero(bits) == (0 < bits && bits <= POSITIVE_INFINITY),
{
    assert((0 < bits && bits <= 0x7ff0_0000_0000_0000u64) == ((bits >> 63u64) == 0 && !(((bits
        >> 52u64) & 0x7ffu64) == 0 && (bits & 0x000f_ffff_ffff_ffffu64) == 0) && !(((bits >> 52u64)
        & 0x7ffu64) == 0x7ff && (bits & 0x000f_ffff_ffff_ffffu64) != 0))) by (bit_vector);
}

/// Whether the value encoded by `bits` compares greater than zero.
pub fn is_positive(bits: u64) -> (r: bool)
    ensures
        r == greater_than_zero(bits),
{
    proof {
        lemma_greater_than_zero_range(bits);
    }
    0 < bits && bits <= POSITIVE_INFINITY
}

} // verus!
