//! The shadow test of a shaded point: a ray is cast from the point towards the light, and the
//! point is in shadow where that ray hits something that is not beyond the light. Whether a hit
//! lies beyond the light is handed in as a function.
use vstd::prelude::*;

verus! {

/// How much of the light's direct contribution reaches a point.
#[derive(Clone, Copy, PartialEq, Eq, Structural, Debug)]
pub enum LightShare {
    /// Nothing stands between the point and the light.
    Lit,
    /// Something stands between the point and the light: only the shadow factor of the direct
    /// light is kept, so that ambient light stays visible.
    Shadowed,
}

/// The share of direct light at a point whose shadow ray hit `occluder` (or nothing), where
/// `beyond_light(o)` tells whether a hit `o` lies strictly farther than the light.
pub fn light_share<O: Copy, Beyond: Fn(O) -> bool>(occluder: Option<O>, beyond_light: &Beyond) -> (r:
    LightShare)
    requires
        forall|o: O| beyond_light.requires((o,)),
    ensures
        occluder is None ==> r == LightShare::Lit,
        occluder matches Some(o) ==> exists|beyond: bool|
            #![trigger beyond_light.ensures((o,), beyond)]
            beyond_light.ensures((o,), beyond) && r == if beyond {
                LightShare::Lit
            } else {
                LightShare::Shadowed
            },
{
    match occluder {
        None => LightShare::Lit,
        Some(o) => {
            if beyond_light(o) {
                LightShare::Lit
            } else {
                LightShare::Shadowed
            }
        },
    }
}

} // verus!
