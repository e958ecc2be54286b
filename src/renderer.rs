//! The renderer's value types and the decisions it makes per pixel and per ray.
pub mod bounce;
pub mod components;
pub mod frame;
pub mod mesh;
pub mod nearest;
pub mod ray;
pub mod roots;
pub mod shadow;
pub mod texel;
pub mod trace;
pub mod texture_key;
