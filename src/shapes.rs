//! The hit decisions of the two primitives, taken on the `f64` quantities that
//! the ray geometry produces (each given as its bit pattern).
use vstd::prelude::*;
use crate::float_order::{is_nan, is_negative, less, magnitude, rank, is_nan_bits, less_than, rank_of, SIGN_BIT};

verus! {

/// The bit pattern of `1e-6`: a plane whose normal meets the ray direction
/// with a dot product no larger than this in magnitude is taken as parallel.
pub const PARALLEL_TOLERANCE: u64 = 0x3EB0_C6F7_A0B5_ED8D;

/// What a sphere reports, given the squared distance `d2` from its center to
/// the ray's line, its squared radius, and the two roots `t0 = adj - thc`,
/// `t1 = adj + thc` along the ray.
pub open spec fn sphere_result(d2: u64, radius2: u64, t0: u64, t1: u64) -> Option<u64> {
    if less(radius2, d2) {
        None
    } else if is_negative(t0) && is_negative(t1) {
        None
    } else if less(t0, t1) {
        Some(t0)
    } else {
        Some(t1)
    }
}

/// Whether the dot product of the plane normal and the ray direction is
/// larger than the tolerance in magnitude (a NaN never is).
pub open spec fn crosses_plane(denom: u64) -> bool {
    !is_nan(denom) && magnitude(denom) > PARALLEL_TOLERANCE
}

/// Whether a distance is a number no smaller than zero.
pub open spec fn not_behind(distance: u64) -> bool {
    !is_nan(distance) && rank(distance) >= 0
}

/// What a plane reports, given the dot product `denom` of its normal and the
/// ray direction, and the quotient `distance` along the ray.
pub open spec fn plane_result(denom: u64, distance: u64) -> Option<u64> {
    if crosses_plane(denom) && not_behind(distance) {
        Some(distance)
    } else {
        None
    }
}

/// Decides a ray-sphere hit. The line misses when `d2 > radius2`; the sphere
/// lies behind the ray when both roots are below zero; otherwise the smaller
/// root is the distance, even when it alone is below zero (the ray starts
/// inside the sphere).
pub fn sphere_distance(d2: u64, radius2: u64, t0: u64, t1: u64) -> (r: Option<u64>)
    ensures
        r == sphere_result(d2, radius2, t0, t1),
{
    if less_than(radius2, d2) {
        return None;
    }
    if less_than(t0, 0) && less_than(t1, 0) {
        return None;
    }
    if less_than(t0, t1) {
        Some(t0)
    } else {
        Some(t1)
    }
}

/// Decides a ray-plane hit: a ray parallel to the plane misses, and so does a
/// plane behind the ray; otherwise `distance` is reported.
pub fn plane_distance(denom: u64, distance: u64) -> (r: Option<u64>)
    ensures
        r == plane_result(denom, distance),
{
    let m: u64 = if denom >= SIGN_BIT { denom - SIGN_BIT } else { denom };
    if !is_nan_bits(denom) && m > PARALLEL_TOLERANCE {
        if !is_nan_bits(distance) && rank_of(distance) >= 0 {
            return Some(distance);
        }
    }
    None
}

/// When the ray's line passes within the radius and the near root lies
/// ahead of the origin and below the far root, the sphere is hit at the near
/// root: a ray from outside aimed at the sphere meets its near surface.
pub proof fn outside_ray_hits_near_root(d2: u64, radius2: u64, t0: u64, t1: u64)
    requires
        !less(radius2, d2),
        not_behind(t0),
        less(t0, t1),
    ensures
        sphere_result(d2, radius2, t0, t1) == Some(t0),
{
}

/// A ray whose direction makes a dot product with the plane normal of at
/// most the tolerance in magnitude never hits the plane, whatever distance
/// the division gave.
pub proof fn parallel_ray_misses(denom: u64, distance: u64)
    requires
        magnitude(denom) <= PARALLEL_TOLERANCE,
    ensures
        plane_result(denom, distance) is None,
{
}

} // verus!
