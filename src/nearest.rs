//! Choosing the nearest hit among the distances that each primitive of a
//! scene reports for one ray.
use vstd::prelude::*;
use crate::float_order::{is_nan, rank, is_nan_bits, rank_of};

verus! {

/// A reported distance takes part in the search when it is a hit whose
/// distance is a number; a NaN distance counts as no hit.
pub open spec fn is_candidate(d: Option<u64>) -> bool {
    match d {
        Some(bits) => !is_nan(bits),
        None => false,
    }
}

/// The distance of a candidate, as a rank in the numeric order.
pub open spec fn distance_rank(d: Option<u64>) -> int {
    match d {
        Some(bits) => rank(bits),
        None => 0,
    }
}

/// Index `i` holds the smallest candidate distance, and no earlier index
/// holds one as small.
pub open spec fn is_nearest(ds: Seq<Option<u64>>, i: int) -> bool {
    &&& 0 <= i < ds.len()
    &&& is_candidate(ds[i])
    &&& forall|j: int|
        0 <= j < ds.len() && is_candidate(ds[j]) ==> distance_rank(ds[i]) <= distance_rank(ds[j])
    &&& forall|j: int|
        0 <= j < i && is_candidate(ds[j]) ==> distance_rank(ds[i]) < distance_rank(ds[j])
}

/// Whether no reported distance is a candidate.
pub open spec fn all_miss(ds: Seq<Option<u64>>) -> bool {
    forall|j: int| 0 <= j < ds.len() ==> !is_candidate(ds[j])
}

/// Given, for each primitive in scene order, the bit pattern of the `f64`
/// distance at which the ray meets it (or `None`), returns the index of the
/// nearest hit: the first one with the smallest distance. NaN distances are
/// passed over.
pub fn nearest_hit(distances: &Vec<Option<u64>>) -> (r: Option<usize>)
    ensures
        match r {
            Some(i) => is_nearest(distances@, i as int),
            None => all_miss(distances@),
        },
{
    let mut best: Option<usize> = None;
    let mut best_rank: i64 = 0;
    let mut i: usize = 0;
    while i < distances.len()
        invariant
            i <= distances.len(),
            match best {
                None => forall|j: int| 0 <= j < i ==> !is_candidate(distances@[j]),
                Some(b) => {
                    &&& b < i
                    &&& is_candidate(distances@[b as int])
                    &&& best_rank as int == distance_rank(distances@[b as int])
                    &&& forall|j: int|
                        0 <= j < i && is_candidate(distances@[j]) ==> best_rank
                            <= distance_rank(distances@[j])
                    &&& forall|j: int|
                        0 <= j < b && is_candidate(distances@[j]) ==> best_rank
                            < distance_rank(distances@[j])
                },
            },
        decreases distances.len() - i,
    {
        if let Some(bits) = distances[i] {
            if !is_nan_bits(bits) {
                let k = rank_of(bits);
                if best.is_none() || k < best_rank {
                    best = Some(i);
                    best_rank = k;
                }
            }
        }
        i += 1;
    }
    best
}

/// The first index below `n` that holds the smallest candidate distance
/// among the first `n` entries.
proof fn first_smallest(ds: Seq<Option<u64>>, n: int) -> (m: int)
    requires
        0 <= n <= ds.len(),
        exists|j: int| 0 <= j < n && is_candidate(ds[j]),
    ensures
        0 <= m < n,
        is_candidate(ds[m]),
        forall|l: int| 0 <= l < n && is_candidate(ds[l]) ==> distance_rank(ds[m]) <= distance_rank(ds[l]),
        forall|l: int| 0 <= l < m && is_candidate(ds[l]) ==> distance_rank(ds[m]) < distance_rank(ds[l]),
    decreases n,
{
    if exists|j: int| 0 <= j < n - 1 && is_candidate(ds[j]) {
        let m0 = first_smallest(ds, n - 1);
        if is_candidate(ds[n - 1]) && distance_rank(ds[n - 1]) < distance_rank(ds[m0]) {
            n - 1
        } else {
            m0
        }
    } else {
        n - 1
    }
}

/// A ray misses the scene exactly when no primitive reports a candidate
/// distance: then there is no nearest hit, and otherwise there is exactly one.
pub proof fn miss_has_no_nearest(ds: Seq<Option<u64>>)
    ensures
        all_miss(ds) <==> !(exists|i: int| is_nearest(ds, i)),
        forall|i: int, k: int| is_nearest(ds, i) && is_nearest(ds, k) ==> i == k,
{
    if !all_miss(ds) {
        let m = first_smallest(ds, ds.len() as int);
        assert(is_nearest(ds, m));
    }
    assert forall|i: int, k: int| is_nearest(ds, i) && is_nearest(ds, k) implies i == k by {
        if i < k {
            assert(distance_rank(ds[k]) < distance_rank(ds[i]));
        } else if k < i {
            assert(distance_rank(ds[i]) < distance_rank(ds[k]));
        }
    }
}

} // verus!
