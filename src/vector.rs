//! Vector types of `glam`, declared so that the library's structs can hold them. Verified code
//! never reads inside them: it only stores and hands them back.
use vstd::prelude::*;

verus! {

/// Declares `glam::Vec3` (three `f32` components) as an opaque type, for positions, normals
/// and directions.
#[verifier::external_type_specification]
#[verifier::external_body]
pub struct ExVec3(glam::Vec3);

/// Declares `glam::Vec3A` (the 16-byte aligned `Vec3`) as an opaque type, for the streaming
/// engine's rays.
#[verifier::external_type_specification]
#[verifier::external_body]
pub struct ExVec3A(glam::Vec3A);

/// Declares `glam::Vec2` (two `f32` components) as an opaque type, for texture coordinates.
#[verifier::external_type_specification]
#[verifier::external_body]
pub struct ExVec2(glam::Vec2);

} // verus!
