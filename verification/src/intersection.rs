//! Which root of the ray-sphere quadratic counts as the hit.
//!
//! A ray meets a sphere where `a*t*t + b*t + c = 0`. When the discriminant
//! is not negative the quadratic has two real roots (possibly equal); the
//! hit is the nearest root strictly in front of the ray's origin. A root at
//! zero, where the origin sits on the surface, is not in front of it.

use vstd::prelude::*;

verus! {

/// One of the two roots of the quadratic, by the order in which the caller
/// computed them.
#[derive(Debug, Clone, Copy, PartialEq, Eq, Structural)]
pub enum Root {
    First,
    Second,
}

/// The root that is the hit, if any.
///
/// `real_roots` says that the discriminant is not negative,
/// `first_positive` and `second_positive` that the root is strictly greater
/// than zero, and `second_smaller` that the second root is strictly less
/// than the first.
pub open spec fn nearest_root(
    real_roots: bool,
    first_positive: bool,
    second_positive: bool,
    second_smaller: bool,
) -> Option<Root> {
    if !real_roots {
        None
    } else if first_positive && second_positive {
        if second_smaller {
            Some(Root::Second)
        } else {
            Some(Root::First)
        }
    } else if first_positive {
        Some(Root::First)
    } else if second_positive {
        Some(Root::Second)
    } else {
        None
    }
}

/// Picks the root at which a ray hits a sphere.
///
/// Returns `None` when the ray misses: the discriminant is negative, or no
/// root is strictly positive. Otherwise returns the smaller of the strictly
/// positive roots, the first one on a tie.
pub fn select_root(
    real_roots: bool,
    first_positive: bool,
    second_positive: bool,
    second_smaller: bool,
) -> (hit: Option<Root>)
    ensures
        hit == nearest_root(real_roots, first_positive, second_positive, second_smaller),
        hit.is_some() <==> real_roots && (first_positive || second_positive),
{
    if !real_roots {
        None
    } else if first_positive && second_positive {
        if second_smaller {
            Some(Root::Second)
        } else {
            Some(Root::First)
        }
    } else if first_positive {
        Some(Root::First)
    } else if second_positive {
        Some(Root::Second)
    } else {
        None
    }
}

/// The value of the chosen root, given the values of both.
pub open spec fn root_value(root: Root, first: int, second: int) -> int {
    match root {
        Root::First => first,
        Root::Second => second,
    }
}

/// The hit for two real roots with the given values, on any scale that
/// keeps their order and their sign.
pub open spec fn nearest_of(first: int, second: int) -> Option<Root> {
    nearest_root(true, first > 0, second > 0, second < first)
}

/// A negative discriminant is a miss, whatever is said of the roots.
pub proof fn lemma_no_real_roots_miss(
    first_positive: bool,
    second_positive: bool,
    second_smaller: bool,
)
    ensures
        nearest_root(false, first_positive, second_positive, second_smaller).is_none(),
{
}

/// With real roots, the ray hits exactly when some root is strictly
/// positive.
pub proof fn lemma_hit_iff_positive_root(first: int, second: int)
    ensures
        nearest_of(first, second).is_some() <==> first > 0 || second > 0,
{
}

/// The chosen root is strictly positive, and no strictly positive root is
/// smaller.
pub proof fn lemma_hit_is_least_positive(first: int, second: int)
    requires
        nearest_of(first, second).is_some(),
    ensures
        ({
            let t = root_value(nearest_of(first, second).unwrap(), first, second);
            &&& t > 0
            &&& first > 0 ==> t <= first
            &&& second > 0 ==> t <= second
        }),
{
}

/// An origin outside the sphere that looks at it has both roots in front
/// of it, and the hit is the near one.
pub proof fn lemma_outside_hits_near_root(first: int, second: int)
    requires
        first > 0,
        second > 0,
    ensures
        nearest_of(first, second).is_some(),
        root_value(nearest_of(first, second).unwrap(), first, second) == if first <= second {
            first
        } else {
            second
        },
{
}

/// An origin inside the sphere has one root behind it and one in front,
/// and the hit is the one in front.
pub proof fn lemma_inside_hits_front_root(first: int, second: int)
    requires
        (first > 0) != (second > 0),
    ensures
        nearest_of(first, second) == Some(
            if first > 0 {
                Root::First
            } else {
                Root::Second
            },
        ),
{
}

/// An origin on the surface that looks away from the sphere has one root
/// at zero and none in front: no hit.
pub proof fn lemma_surface_origin_misses(first: int, second: int)
    requires
        first <= 0,
        second <= 0,
    ensures
        nearest_of(first, second).is_none(),
{
}

/// Which root is called first does not change the value of the hit.
pub proof fn lemma_root_order_irrelevant(first: int, second: int)
    ensures
        nearest_of(first, second).is_some() <==> nearest_of(second, first).is_some(),
        nearest_of(first, second).is_some() ==> root_value(
            nearest_of(first, second).unwrap(),
            first,
            second,
        ) == root_value(nearest_of(second, first).unwrap(), second, first),
{
}

} // verus!
