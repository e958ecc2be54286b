//! A ray: an origin and a direction.
use vstd::prelude::*;
use glam::Vec3;

verus! {

/// A half-line from `origin` along `direction`; the direction need not be of unit length.
#[derive(Clone, Copy)]
pub struct Ray {
    pub origin: Vec3,
    pub direction: Vec3,
}

impl Ray {
    /// A ray from `origin` along `direction`.
    pub fn new(origin: Vec3, direction: Vec3) -> (r: Ray)
        ensures
            r.origin == origin,
            r.direction == direction,
    {
        Ray { origin, direction }
    }
}

} // verus!
