//! The nearest-hit scan over a scene's primitives: every sphere, then every plane, keeping a
//! running best that a later candidate replaces only when strictly nearer. Distances and their
//! comparison are handed in as functions: `sphere_distance(i)` and `plane_distance(i)` give the
//! distance along the ray to sphere or plane `i`, or `None` on a miss, and `closer(a, b)` tells
//! whether distance `a` is strictly nearer than `b`.
use vstd::prelude::*;
use crate::scene::ObjectType;

verus! {

/// The nearest hit of a scan: which kind of primitive, its position in its own list, and the
/// distance at which the ray meets it.
pub struct NearestHit<D> {
    pub kind: ObjectType,
    pub index: usize,
    pub distance: D,
}

impl<D> NearestHit<D> {
    /// The hit's position in the joint list of `n_spheres` spheres followed by the planes.
    pub open spec fn candidate(self, n_spheres: usize) -> usize {
        if self.kind == ObjectType::Sphere {
            self.index
        } else {
            (n_spheres + self.index) as usize
        }
    }
}

/// What the distance functions may return for candidate `k` of the joint list of
/// `n_spheres` spheres followed by the planes: `distance_results(..)(k, d)` where `d` is a
/// possible result.
pub open spec fn distance_results<D, SDist: Fn(usize) -> Option<D>, PDist: Fn(usize) -> Option<D>>(
    sphere_distance: SDist,
    plane_distance: PDist,
    n_spheres: usize,
) -> spec_fn(usize, Option<D>) -> bool {
    |k: usize, d: Option<D>|
        if k < n_spheres {
            sphere_distance.ensures((k,), d)
        } else {
            plane_distance.ensures(((k - n_spheres) as usize,), d)
        }
}

/// What a comparison may return: `closer_results(closer)(a, b, nearer)`.
pub open spec fn closer_results<D, Closer: Fn(D, D) -> bool>(closer: Closer) -> spec_fn(
    D,
    D,
    bool,
) -> bool {
    |a: D, b: D, nearer: bool| closer.ensures((a, b), nearer)
}

/// One step of the scan at candidate `j`, reported at distance `dj`, from running best `prev`
/// to `best`: a miss leaves the best as it is, the first hit becomes the best, and a later hit
/// replaces it only where `closer` reports it strictly nearer.
pub open spec fn scan_step<D>(
    closer: spec_fn(D, D, bool) -> bool,
    j: usize,
    prev: Option<(usize, D)>,
    dj: Option<D>,
    best: Option<(usize, D)>,
) -> bool {
    match dj {
        None => best == prev,
        Some(d) => match prev {
            None => best == Some((j, d)),
            Some((_, bd)) => exists|nearer: bool|
                #![trigger closer(d, bd, nearer)]
                closer(d, bd, nearer) && best == if nearer {
                    Some((j, d))
                } else {
                    prev
                },
        },
    }
}

/// Whether scanning candidates `0 .. k` in order can end with running best `best` (a
/// candidate and its distance).
pub open spec fn scanned<D>(
    distance: spec_fn(usize, Option<D>) -> bool,
    closer: spec_fn(D, D, bool) -> bool,
    k: nat,
    best: Option<(usize, D)>,
) -> bool
    decreases k,
{
    if k == 0 {
        best is None
    } else {
        exists|prev: Option<(usize, D)>, dj: Option<D>|
            #![trigger scan_step(closer, (k - 1) as usize, prev, dj, best)]
            scanned(distance, closer, (k - 1) as nat, prev) && distance((k - 1) as usize, dj)
                && scan_step(closer, (k - 1) as usize, prev, dj, best)
    }
}

/// Where each candidate has one reported distance and `closer` reports a strict order `lt`
/// (irreflexive and transitive), the scan finds the nearest hit: `None` only when every candidate misses, and else a
/// candidate that hit, with no hit strictly nearer than it.
pub proof fn lemma_scan_is_nearest<D>(
    distance: spec_fn(usize, Option<D>) -> bool,
    closer: spec_fn(D, D, bool) -> bool,
    lt: spec_fn(D, D) -> bool,
    k: nat,
    best: Option<(usize, D)>,
)
    requires
        forall|j: usize, a: Option<D>, b: Option<D>|
            #![trigger distance(j, a), distance(j, b)]
            distance(j, a) && distance(j, b) ==> a == b,
        forall|a: D, b: D, n: bool| #[trigger] closer(a, b, n) ==> n == lt(a, b),
        forall|a: D| !#[trigger] lt(a, a),
        forall|a: D, b: D, c: D| #[trigger] lt(a, b) && #[trigger] lt(b, c) ==> lt(a, c),
        scanned(distance, closer, k, best),
    ensures
        best is None ==> forall|j: usize, d: Option<D>|
            j < k && #[trigger] distance(j, d) ==> d is None,
        best matches Some((i, d)) ==> i < k && distance(i, Some(d)) && forall|j: usize, dj: D|
            j < k && #[trigger] distance(j, Some(dj)) ==> !lt(dj, d),
    decreases k,
{
    if k > 0 {
        let (prev, dj) = choose|prev: Option<(usize, D)>, dj: Option<D>|
            #![trigger scan_step(closer, (k - 1) as usize, prev, dj, best)]
            scanned(distance, closer, (k - 1) as nat, prev) && distance((k - 1) as usize, dj)
                && scan_step(closer, (k - 1) as usize, prev, dj, best);
        lemma_scan_is_nearest(distance, closer, lt, (k - 1) as nat, prev);
        let last = (k - 1) as usize;
        match dj {
            None => {},
            Some(d) => {
                match prev {
                    None => {},
                    Some((i, bd)) => {
                        let nearer = choose|nearer: bool|
                            #![trigger closer(d, bd, nearer)]
                            closer(d, bd, nearer) && best == if nearer {
                                Some((last, d))
                            } else {
                                prev
                            };
                        if nearer {
                            assert forall|j: usize, dx: D|
                                j < k && #[trigger] distance(j, Some(dx)) implies !lt(dx, d) by {
                                if j < last {
                                    if lt(dx, d) {
                                        assert(lt(dx, bd));
                                    }
                                } else {
                                    assert(Some(dx) == dj);
                                }
                            }
                        }
                    },
                }
            },
        }
    }
}

/// The nearest hit among `n_spheres` spheres followed by `n_planes` planes: candidate `k` of the
/// joint list is sphere `k` where `k < n_spheres`, else plane `k - n_spheres`. The result is
/// the running best at the end of the scan, `None` where every candidate misses; a tie keeps
/// the earlier candidate, so a sphere wins a tie with a plane.
pub fn nearest_hit<D: Copy, SDist, PDist, Closer>(
    n_spheres: usize,
    n_planes: usize,
    sphere_distance: &SDist,
    plane_distance: &PDist,
    closer: &Closer,
) -> (r: Option<NearestHit<D>>) where
    SDist: Fn(usize) -> Option<D>,
    PDist: Fn(usize) -> Option<D>,
    Closer: Fn(D, D) -> bool,

    requires
        n_spheres + n_planes <= usize::MAX,
        forall|i: usize| sphere_distance.requires((i,)),
        forall|i: usize| plane_distance.requires((i,)),
        forall|a: D, b: D| closer.requires((a, b)),
    ensures
        r matches Some(hit) ==> (hit.kind == ObjectType::Sphere && hit.index < n_spheres) || (
        hit.kind == ObjectType::Plane && hit.index < n_planes),
        scanned(
            distance_results(*sphere_distance, *plane_distance, n_spheres),
            closer_results(*closer),
            (n_spheres + n_planes) as nat,
            match r {
                None => None,
                Some(hit) => Some((hit.candidate(n_spheres), hit.distance)),
            },
        ),
{
    let n = n_spheres + n_planes;
    let mut best: Option<(usize, D)> = None;
    let mut k: usize = 0;
    while k < n
        invariant
            n == n_spheres + n_planes,
            k <= n,
            forall|i: usize| sphere_distance.requires((i,)),
            forall|i: usize| plane_distance.requires((i,)),
            forall|a: D, b: D| closer.requires((a, b)),
            scanned(
                distance_results(*sphere_distance, *plane_distance, n_spheres),
                closer_results(*closer),
                k as nat,
                best,
            ),
            best matches Some((i, _)) ==> i < k,
        decreases n - k,
    {
        let ghost prev = best;
        let dk = if k < n_spheres {
            sphere_distance(k)
        } else {
            plane_distance(k - n_spheres)
        };
        match dk {
            None => {},
            Some(d) => {
                match best {
                    None => {
                        best = Some((k, d));
                    },
                    Some((_, bd)) => {
                        let nearer = closer(d, bd);
                        if nearer {
                            best = Some((k, d));
                        }
                        assert(closer_results(*closer)(d, bd, nearer));
                    },
                }
            },
        }
        proof {
            let next = (k + 1) as nat;
            assert(((next - 1) as nat) == k as nat);
            assert(((next - 1) as usize) == k);
            let dist = distance_results(*sphere_distance, *plane_distance, n_spheres);
            assert(dist(k, dk));
            assert(scan_step(closer_results(*closer), k, prev, dk, best));
            assert(scanned(dist, closer_results(*closer), next, best));
        }
        k = k + 1;
    }
    match best {
        None => None,
        Some((i, d)) => {
            if i < n_spheres {
                Some(NearestHit { kind: ObjectType::Sphere, index: i, distance: d })
            } else {
                Some(NearestHit { kind: ObjectType::Plane, index: i - n_spheres, distance: d })
            }
        },
    }
}

} // verus!
