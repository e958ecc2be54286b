//! A ray of the streaming engine, which also records what it hit.
use vstd::prelude::*;
use glam::Vec3A;

verus! {

/// The value of `hit` while a ray has hit nothing.
pub const NO_HIT_ID: u32 = 0xffff_ffff;

/// A ray from `position` along `direction`, with the id of the object it hit.
#[derive(Clone, Copy)]
pub struct Ray {
    pub position: Vec3A,
    pub direction: Vec3A,
    pub hit: u32,
}

impl Ray {
    /// A ray from `position` along `direction` that has hit nothing yet.
    pub fn new(position: Vec3A, direction: Vec3A) -> (r: Ray)
        ensures
            r.position == position,
            r.direction == direction,
            r.hit == u32::MAX,
    {
        Ray { position, direction, hit: NO_HIT_ID }
    }
}

} // verus!
