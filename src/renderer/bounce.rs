//! The bounce limit of recursive shading. A ray at depth `MAX_BOUNCES` or deeper is not
//! traced and resolves to the sky; a reflective surface sends a new ray one level deeper.
use vstd::prelude::*;

verus! {

/// The depth at which rays stop being traced.
pub const MAX_BOUNCES: u32 = 4;

/// Whether a ray at `depth` is traced at all; one that is not resolves to the sky.
pub fn traces(depth: u32) -> (r: bool)
    ensures
        r == (depth < MAX_BOUNCES),
{
    depth < MAX_BOUNCES
}

/// The depth of the mirrored ray sent from a surface hit at `depth`, `None` where the surface
/// does not reflect.
pub fn reflection_depth(depth: u32, reflective: bool) -> (r: Option<u32>)
    requires
        depth < MAX_BOUNCES,
    ensures
        r == (if reflective {
            Some((depth + 1) as u32)
        } else {
            None
        }),
{
    if reflective {
        Some(depth + 1)
    } else {
        None
    }
}

} // verus!
