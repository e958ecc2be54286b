//! Which root of a ray–sphere quadratic is the hit: the nearer of the two unless it lies behind
//! the ray's origin, then the farther, and no hit when both lie behind. Comparing roots is
//! handed in as functions: `greater(a, b)` tells whether `a` is strictly greater than `b`, and
//! `negative(t)` whether `t` lies behind the origin.
use vstd::prelude::*;

verus! {

/// Whether `r` is the hit that the policy chooses from the ordered roots `near <= far`: the
/// nearer unless it lies behind the origin, else the farther, else none.
pub open spec fn chosen_root<D>(negative: spec_fn(D, bool) -> bool, near: D, far: D, r: Option<D>) -> bool {
    exists|near_behind: bool|
        #![trigger negative(near, near_behind)]
        negative(near, near_behind) && if !near_behind {
            r == Some(near)
        } else {
            exists|far_behind: bool|
                #![trigger negative(far, far_behind)]
                negative(far, far_behind) && r == if far_behind {
                    None
                } else {
                    Some(far)
                }
        }
}

/// Whether `r` is a hit that the root policy can choose for roots `t0` and `t1`, given what
/// `greater` and `negative` may report: the roots are put in order first.
pub open spec fn forward_root_of<D>(
    greater: spec_fn(D, D, bool) -> bool,
    negative: spec_fn(D, bool) -> bool,
    t0: D,
    t1: D,
    r: Option<D>,
) -> bool {
    exists|swap: bool|
        #![trigger greater(t0, t1, swap)]
        greater(t0, t1, swap) && if swap {
            chosen_root(negative, t1, t0, r)
        } else {
            chosen_root(negative, t0, t1, r)
        }
}

/// What a comparison `greater(a, b)` may return.
pub open spec fn greater_results<D, Greater: Fn(D, D) -> bool>(greater: Greater) -> spec_fn(
    D,
    D,
    bool,
) -> bool {
    |a: D, b: D, g: bool| greater.ensures((a, b), g)
}

/// What a test `negative(t)` may return.
pub open spec fn negative_results<D, Negative: Fn(D) -> bool>(negative: Negative) -> spec_fn(
    D,
    bool,
) -> bool {
    |t: D, n: bool| negative.ensures((t,), n)
}

/// The root that a ray hits of the two roots `t0` and `t1`: order them, take the nearer one
/// unless it lies behind the origin, else the farther one, and `None` when both lie behind.
pub fn forward_root<D: Copy, Greater: Fn(D, D) -> bool, Negative: Fn(D) -> bool>(
    t0: D,
    t1: D,
    greater: &Greater,
    negative: &Negative,
) -> (r: Option<D>)
    requires
        greater.requires((t0, t1)),
        forall|t: D| negative.requires((t,)),
    ensures
        forward_root_of(
            greater_results(*greater),
            negative_results(*negative),
            t0,
            t1,
            r,
        ),
{
    let swap = greater(t0, t1);
    assert(greater_results(*greater)(t0, t1, swap));
    let (near, far) = if swap {
        (t1, t0)
    } else {
        (t0, t1)
    };
    let near_behind = negative(near);
    assert(negative_results(*negative)(near, near_behind));
    if !near_behind {
        Some(near)
    } else {
        let far_behind = negative(far);
        assert(negative_results(*negative)(far, far_behind));
        if far_behind {
            None
        } else {
            Some(far)
        }
    }
}

} // verus!
