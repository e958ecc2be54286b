//! Recursive colour resolution of a ray, with the surface work handed in as functions: `cast`
//! finds the nearest hit, `reflective` tells whether a hit surface mirrors, `shade` gives its
//! local illumination, `bounce` the mirrored ray, and `mix` combines the local colour with the
//! colour seen in the mirror. The recursion stops at the bounce limit.
//!
//! What those functions may return is given to the specifications below as relations: for
//! example `cast(q, hit)` holds where `hit` is a result that the cast may give for ray `q`.
use vstd::prelude::*;
use crate::renderer::bounce::{reflection_depth, traces, MAX_BOUNCES};

verus! {

/// Whether `colour` is a colour that tracing `ray` at `depth` can give: the sky at the bounce
/// limit or on a miss; otherwise the hit's local shading, combined with what is traced from
/// the mirrored ray one level deeper where the surface reflects.
pub open spec fn traced<R, H, C>(
    cast: spec_fn(R, Option<H>) -> bool,
    reflective: spec_fn(H, bool) -> bool,
    shade: spec_fn(R, H, C) -> bool,
    bounce: spec_fn(R, H, R) -> bool,
    mix: spec_fn(R, H, C, C, C) -> bool,
    sky: C,
    ray: R,
    depth: u32,
    colour: C,
) -> bool
    decreases MAX_BOUNCES - depth,
{
    if depth >= MAX_BOUNCES {
        colour == sky
    } else {
        exists|hit: Option<H>|
            #![trigger cast(ray, hit)]
            cast(ray, hit) && match hit {
                None => colour == sky,
                Some(h) => exists|refl: bool|
                    #![trigger reflective(h, refl)]
                    reflective(h, refl) && if !refl {
                        shade(ray, h, colour)
                    } else {
                        exists|local: C, next: R, reflected: C|
                            #![trigger shade(ray, h, local), bounce(ray, h, next), mix(ray, h, local, reflected, colour)]
                            shade(ray, h, local) && bounce(ray, h, next) && traced(
                                cast,
                                reflective,
                                shade,
                                bounce,
                                mix,
                                sky,
                                next,
                                (depth + 1) as u32,
                                reflected,
                            ) && mix(ray, h, local, reflected, colour)
                    },
            }
    }
}

/// A ray whose nearest-hit search reports no surface resolves to exactly the sky colour, at
/// any depth.
pub proof fn lemma_miss_is_sky<R, H, C>(
    cast: spec_fn(R, Option<H>) -> bool,
    reflective: spec_fn(H, bool) -> bool,
    shade: spec_fn(R, H, C) -> bool,
    bounce: spec_fn(R, H, R) -> bool,
    mix: spec_fn(R, H, C, C, C) -> bool,
    sky: C,
    ray: R,
    depth: u32,
    colour: C,
)
    requires
        forall|hit: Option<H>| #[trigger] cast(ray, hit) ==> hit is None,
        traced(cast, reflective, shade, bounce, mix, sky, ray, depth, colour),
    ensures
        colour == sky,
{
}

/// A ray that hits a surface that does not reflect resolves to that surface's local shading
/// alone: what could only be seen in a mirror plays no part, and no further ray is traced.
pub proof fn lemma_matte_is_local<R, H, C>(
    cast: spec_fn(R, Option<H>) -> bool,
    reflective: spec_fn(H, bool) -> bool,
    shade: spec_fn(R, H, C) -> bool,
    bounce: spec_fn(R, H, R) -> bool,
    mix: spec_fn(R, H, C, C, C) -> bool,
    sky: C,
    ray: R,
    depth: u32,
    h: H,
    colour: C,
)
    requires
        depth < MAX_BOUNCES,
        forall|hit: Option<H>| #[trigger] cast(ray, hit) ==> hit == Some(h),
        forall|refl: bool| #[trigger] reflective(h, refl) ==> !refl,
        traced(cast, reflective, shade, bounce, mix, sky, ray, depth, colour),
    ensures
        shade(ray, h, colour),
{
}

/// The colour of a ray at `depth` between mirrors that all look alike: each level combines the
/// same local colour with the colour of the level below, and the level at the bounce limit is
/// the sky.
pub open spec fn mirror_colour<C>(local: C, combine: spec_fn(C, C) -> C, sky: C, depth: u32) -> C
    decreases MAX_BOUNCES - depth,
{
    if depth >= MAX_BOUNCES {
        sky
    } else {
        combine(local, mirror_colour(local, combine, sky, (depth + 1) as u32))
    }
}

/// Between facing mirrors, where every ray hits a reflective surface, tracing still ends: the
/// colour is the local colour combined `MAX_BOUNCES - depth` times, the sky innermost.
pub proof fn lemma_mirror_corridor<R, H, C>(
    cast: spec_fn(R, Option<H>) -> bool,
    reflective: spec_fn(H, bool) -> bool,
    shade: spec_fn(R, H, C) -> bool,
    bounce: spec_fn(R, H, R) -> bool,
    mix: spec_fn(R, H, C, C, C) -> bool,
    sky: C,
    ray: R,
    depth: u32,
    h: H,
    local: C,
    combine: spec_fn(C, C) -> C,
    colour: C,
)
    requires
        forall|q: R, hit: Option<H>| #[trigger] cast(q, hit) ==> hit == Some(h),
        forall|refl: bool| #[trigger] reflective(h, refl) ==> refl,
        forall|q: R, c: C| #[trigger] shade(q, h, c) ==> c == local,
        forall|q: R, a: C, b: C, c: C| #[trigger] mix(q, h, a, b, c) ==> c == combine(a, b),
        traced(cast, reflective, shade, bounce, mix, sky, ray, depth, colour),
    ensures
        colour == mirror_colour(local, combine, sky, depth),
    decreases MAX_BOUNCES - depth,
{
    if depth < MAX_BOUNCES {
        let (l, next, reflected) = choose|l: C, next: R, reflected: C|
            #![trigger shade(ray, h, l), bounce(ray, h, next), mix(ray, h, l, reflected, colour)]
            shade(ray, h, l) && bounce(ray, h, next) && traced(
                cast,
                reflective,
                shade,
                bounce,
                mix,
                sky,
                next,
                (depth + 1) as u32,
                reflected,
            ) && mix(ray, h, l, reflected, colour);
        lemma_mirror_corridor(
            cast,
            reflective,
            shade,
            bounce,
            mix,
            sky,
            next,
            (depth + 1) as u32,
            h,
            local,
            combine,
            reflected,
        );
    }
}

/// What a cast function may return: `cast_results(cast)(q, hit)` where `hit` is a possible
/// result for ray `q`.
pub open spec fn cast_results<R, H, Cast: Fn(R) -> Option<H>>(cast: Cast) -> spec_fn(
    R,
    Option<H>,
) -> bool {
    |q: R, hit: Option<H>| cast.ensures((q,), hit)
}

/// What a reflectivity test may return for a hit.
pub open spec fn reflective_results<H, Refl: Fn(H) -> bool>(reflective: Refl) -> spec_fn(
    H,
    bool,
) -> bool {
    |h: H, refl: bool| reflective.ensures((h,), refl)
}

/// What a shading function may return for a ray and its hit.
pub open spec fn shade_results<R, H, C, Shade: Fn(R, H) -> C>(shade: Shade) -> spec_fn(
    R,
    H,
    C,
) -> bool {
    |q: R, h: H, c: C| shade.ensures((q, h), c)
}

/// What a bounce function may return for a ray and its hit.
pub open spec fn bounce_results<R, H, Bounce: Fn(R, H) -> R>(bounce: Bounce) -> spec_fn(
    R,
    H,
    R,
) -> bool {
    |q: R, h: H, next: R| bounce.ensures((q, h), next)
}

/// What a mixing function may return for a ray, its hit, a local and a reflected colour.
pub open spec fn mix_results<R, H, C, Mix: Fn(R, H, C, C) -> C>(mix: Mix) -> spec_fn(
    R,
    H,
    C,
    C,
    C,
) -> bool {
    |q: R, h: H, a: C, b: C, c: C| mix.ensures((q, h, a, b), c)
}

/// The colour seen along `ray` at `depth` reflections.
pub fn trace<R: Copy, H: Copy, C: Copy, Cast, Refl, Shade, Bounce, Mix>(
    cast: &Cast,
    reflective: &Refl,
    shade: &Shade,
    bounce: &Bounce,
    mix: &Mix,
    sky: C,
    ray: R,
    depth: u32,
) -> (r: C) where
    Cast: Fn(R) -> Option<H>,
    Refl: Fn(H) -> bool,
    Shade: Fn(R, H) -> C,
    Bounce: Fn(R, H) -> R,
    Mix: Fn(R, H, C, C) -> C,

    requires
        forall|q: R| cast.requires((q,)),
        forall|h: H| reflective.requires((h,)),
        forall|q: R, h: H| shade.requires((q, h)),
        forall|q: R, h: H| bounce.requires((q, h)),
        forall|q: R, h: H, a: C, b: C| mix.requires((q, h, a, b)),
    ensures
        traced(
            cast_results(*cast),
            reflective_results(*reflective),
            shade_results(*shade),
            bounce_results(*bounce),
            mix_results(*mix),
            sky,
            ray,
            depth,
            r,
        ),
    decreases MAX_BOUNCES - depth,
{
    if !traces(depth) {
        return sky;
    }
    let hit = cast(ray);
    assert(cast_results(*cast)(ray, hit));
    match hit {
        None => sky,
        Some(h) => {
            let refl = reflective(h);
            let local = shade(ray, h);
            assert(reflective_results(*reflective)(h, refl));
            assert(shade_results(*shade)(ray, h, local));
            match reflection_depth(depth, refl) {
                Some(next_depth) => {
                    let next = bounce(ray, h);
                    let reflected = trace(cast, reflective, shade, bounce, mix, sky, next, next_depth);
                    let colour = mix(ray, h, local, reflected);
                    assert(bounce_results(*bounce)(ray, h, next));
                    assert(mix_results(*mix)(ray, h, local, reflected, colour));
                    colour
                },
                None => local,
            }
        },
    }
}

} // verus!
