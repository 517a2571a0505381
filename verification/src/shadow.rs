//! The hard-shadow rule.
//!
//! A point is in shadow when the ray from it towards the light hits any
//! other object of the scene, however far away. The caller tests each
//! occluder and hands over one flag per occluder.

use vstd::prelude::*;

verus! {

/// Whether any occluder was hit.
pub open spec fn occluded(hits: Seq<bool>) -> bool {
    hits.contains(true)
}

/// Decides whether a point is in shadow from the flags of its occluders:
/// `true` exactly when at least one flag is set.
pub fn shadowed(hits: &Vec<bool>) -> (dark: bool)
    ensures
        dark == occluded(hits@),
{
    let mut i: usize = 0;
    while i < hits.len()
        invariant
            i <= hits.len(),
            forall|j: int| 0 <= j < i ==> !hits@[j],
        decreases hits.len() - i,
    {
        if hits[i] {
            return true;
        }
        i += 1;
    }
    false
}

/// A scene without occluders casts no shadow.
pub proof fn lemma_no_occluders_lit()
    ensures
        !occluded(Seq::<bool>::empty()),
{
}

/// One more occluder can only add shadow: the point is in shadow exactly
/// when it was before or the new occluder is hit.
pub proof fn lemma_occluded_push(hits: Seq<bool>, hit: bool)
    ensures
        occluded(hits.push(hit)) <==> occluded(hits) || hit,
{
    let more = hits.push(hit);
    if occluded(hits) {
        let i = choose|i: int| 0 <= i < hits.len() && hits[i] == true;
        assert(more[i] == true);
    }
    if hit {
        assert(more[hits.len() as int] == true);
    }
    if occluded(more) {
        let i = choose|i: int| 0 <= i < more.len() && more[i] == true;
        if i < hits.len() {
            assert(hits[i] == true);
        }
    }
}

/// The order in which the occluders are tested does not matter: two
/// sequences with the same flags, each as often, give the same answer.
pub proof fn lemma_occluded_any_order(hits: Seq<bool>, shuffled: Seq<bool>)
    requires
        hits.to_multiset() == shuffled.to_multiset(),
    ensures
        occluded(hits) == occluded(shuffled),
{
    hits.to_multiset_ensures();
    shuffled.to_multiset_ensures();
    assert(hits.contains(true) <==> hits.to_multiset().count(true) > 0);
}

} // verus!
