//! Components that the scene attaches to its entities and the renderer reads.
use vstd::prelude::*;
use glam::Vec3;

verus! {

/// Where an entity stands in the world.
#[derive(Clone, Copy)]
pub struct TransformComponent {
    pub position: Vec3,
}

/// An infinite plane through its entity's position: its unit normal and two unit vectors in
/// the plane, used to lay a texture on it.
#[derive(Clone, Copy)]
pub struct PlaneRenderComponent {
    pub normal: Vec3,
    pub tangent: Vec3,
    pub bitangent: Vec3,
}

/// Marks the entity that holds the scene's sky box.
#[derive(Clone, Copy, PartialEq, Eq, Structural, Debug)]
pub struct SkyBoxComponent {}

} // verus!
