//! The numeric order of `f64` and `f32` values, read from their IEEE 754 bit
//! patterns.
use vstd::prelude::*;

verus! {

/// The sign bit of an `f64` bit pattern.
pub const SIGN_BIT: u64 = 0x8000_0000_0000_0000;

/// The bit pattern of positive infinity; a larger magnitude is a NaN.
pub const INFINITY_BITS: u64 = 0x7FF0_0000_0000_0000;

/// The magnitude of a bit pattern: every bit but the sign.
pub open spec fn magnitude(bits: u64) -> int {
    if bits >= SIGN_BIT {
        bits - SIGN_BIT
    } else {
        bits as int
    }
}

/// Whether the pattern encodes a NaN (all exponent bits set, nonzero fraction).
pub open spec fn is_nan(bits: u64) -> bool {
    magnitude(bits) > INFINITY_BITS
}

/// Whether the pattern encodes a value below zero (negative zero is not).
pub open spec fn is_negative(bits: u64) -> bool {
    bits > SIGN_BIT && !is_nan(bits)
}

/// A rank that orders every non-NaN pattern as its value: for two such
/// patterns `a < b` as numbers exactly when `rank(a) < rank(b)`, and both
/// zeros have rank 0.
pub open spec fn rank(bits: u64) -> int {
    if bits >= SIGN_BIT {
        -magnitude(bits)
    } else {
        magnitude(bits)
    }
}

/// IEEE `<` on two patterns: false whenever either one is a NaN.
pub open spec fn less(a: u64, b: u64) -> bool {
    !is_nan(a) && !is_nan(b) && rank(a) < rank(b)
}

/// Tells whether `bits` encodes a NaN.
pub fn is_nan_bits(bits: u64) -> (r: bool)
    ensures
        r == is_nan(bits),
{
    let m: u64 = if bits >= SIGN_BIT { bits - SIGN_BIT } else { bits };
    m > INFINITY_BITS
}

/// The rank of `bits` as a machine integer.
pub fn rank_of(bits: u64) -> (r: i64)
    ensures
        r as int == rank(bits),
{
    if bits >= SIGN_BIT {
        -((bits - SIGN_BIT) as i64)
    } else {
        bits as i64
    }
}

/// The sign bit of an `f32` bit pattern.
pub const SIGN_BIT_32: u32 = 0x8000_0000;

/// The bit pattern of `f32` positive infinity.
pub const INFINITY_BITS_32: u32 = 0x7F80_0000;

/// The magnitude of an `f32` bit pattern: every bit but the sign.
pub open spec fn magnitude32(bits: u32) -> int {
    if bits >= SIGN_BIT_32 {
        bits - SIGN_BIT_32
    } else {
        bits as int
    }
}

/// Whether the `f32` pattern encodes a NaN.
pub open spec fn is_nan32(bits: u32) -> bool {
    magnitude32(bits) > INFINITY_BITS_32
}

/// The rank of an `f32` pattern, ordering non-NaN patterns as their values.
pub open spec fn rank32(bits: u32) -> int {
    if bits >= SIGN_BIT_32 {
        -magnitude32(bits)
    } else {
        magnitude32(bits)
    }
}

/// Tells whether the `f32` pattern `bits` encodes a NaN.
pub fn is_nan_bits32(bits: u32) -> (r: bool)
    ensures
        r == is_nan32(bits),
{
    let m: u32 = if bits >= SIGN_BIT_32 { bits - SIGN_BIT_32 } else { bits };
    m > INFINITY_BITS_32
}

/// The rank of the `f32` pattern `bits` as a machine integer.
pub fn rank_of32(bits: u32) -> (r: i64)
    ensures
        r as int == rank32(bits),
{
    if bits >= SIGN_BIT_32 {
        -((bits - SIGN_BIT_32) as i64)
    } else {
        bits as i64
    }
}

/// IEEE `<` on two bit patterns.
pub fn less_than(a: u64, b: u64) -> (r: bool)
    ensures
        r == less(a, b),
{
    !is_nan_bits(a) && !is_nan_bits(b) && rank_of(a) < rank_of(b)
}

} // verus!
