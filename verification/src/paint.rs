//! Which object a pixel is painted with.
//!
//! Objects are painted in scene order and nothing compares depths, so of
//! all the objects that a pixel's ray hits, the one that comes last in the
//! scene is the one that shows. A pixel whose ray hits nothing is left
//! alone.

use vstd::prelude::*;

verus! {

/// Whether `k` is the position of the last set flag.
pub open spec fn is_last_hit(hits: Seq<bool>, k: int) -> bool {
    &&& 0 <= k < hits.len()
    &&& hits[k]
    &&& forall|j: int| k < j < hits.len() ==> !hits[j]
}

/// The position of the object that shows at a pixel, from one flag per
/// object of the scene that says whether the pixel's ray hits it.
///
/// Returns the position of the last set flag, and `None` exactly when no
/// flag is set.
pub fn last_hit(hits: &Vec<bool>) -> (shown: Option<usize>)
    ensures
        shown.is_none() <==> !hits@.contains(true),
        shown.is_some() ==> is_last_hit(hits@, shown.unwrap() as int),
{
    let mut i: usize = hits.len();
    while i > 0
        invariant
            i <= hits.len(),
            forall|j: int| i <= j < hits.len() ==> !hits@[j],
        decreases i,
    {
        i -= 1;
        if hits[i] {
            return Some(i);
        }
    }
    None
}

/// At most one position is the last hit.
pub proof fn lemma_last_hit_unique(hits: Seq<bool>, k: int, m: int)
    requires
        is_last_hit(hits, k),
        is_last_hit(hits, m),
    ensures
        k == m,
{
    if k < m {
        assert(!hits[m]);
    } else if m < k {
        assert(!hits[k]);
    }
}

/// An object painted later covers every object painted before it: once an
/// object is hit, whatever was hit earlier in the scene no longer shows.
pub proof fn lemma_later_hit_covers(hits: Seq<bool>, hit: bool, k: int)
    requires
        is_last_hit(hits.push(hit), k),
    ensures
        hit ==> k == hits.len(),
        !hit ==> is_last_hit(hits, k),
{
    let more = hits.push(hit);
    if hit {
        assert(more[hits.len() as int]);
    } else {
        assert forall|j: int| k < j < hits.len() implies !hits[j] by {
            assert(hits[j] == more[j]);
        }
    }
}

} // verus!
