//! Saturating a color channel (an `f32`, given as its bit pattern) to the
//! displayable range `[0, 1]`.
use vstd::prelude::*;
use crate::float_order::{is_nan32, rank32, is_nan_bits32, rank_of32};

verus! {

/// The bit pattern of `0.0_f32`.
pub const ZERO_32: u32 = 0;

/// The bit pattern of `1.0_f32`.
pub const ONE_32: u32 = 0x3F80_0000;

/// A channel in the displayable range: a number from zero to one.
pub open spec fn in_display_range(bits: u32) -> bool {
    !is_nan32(bits) && 0 <= rank32(bits) <= ONE_32
}

/// The channel saturated to `[0, 1]`: values below zero become zero, values
/// above one become one, and the rest (NaN included) are kept.
pub open spec fn clamped(bits: u32) -> u32 {
    if is_nan32(bits) {
        bits
    } else if rank32(bits) < 0 {
        ZERO_32
    } else if rank32(bits) > ONE_32 {
        ONE_32
    } else {
        bits
    }
}

/// Saturates one channel to `[0, 1]`.
pub fn clamp_channel(bits: u32) -> (r: u32)
    ensures
        r == clamped(bits),
{
    if is_nan_bits32(bits) {
        return bits;
    }
    let k = rank_of32(bits);
    if k < 0 {
        ZERO_32
    } else if k > ONE_32 as i64 {
        ONE_32
    } else {
        bits
    }
}

/// Clamping lands every number in the displayable range, keeps a channel
/// that is already there, and clamping twice is clamping once.
pub proof fn clamp_saturates(bits: u32)
    ensures
        !is_nan32(bits) ==> in_display_range(clamped(bits)),
        in_display_range(bits) ==> clamped(bits) == bits,
        clamped(clamped(bits)) == clamped(bits),
{
}

} // verus!
