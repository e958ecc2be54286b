//! The verified core of a recursive CPU ray tracer. The library holds the structure of the
//! renderer: the frame buffer's layout and the per-row pixel loop, the nearest-hit scan over a
//! scene's spheres and planes, the choice among a sphere's two roots, the shadow test, the
//! recursive colour resolution with its bounce limit, lookup of primitives by entity id and
//! the snapshot check, texture keys and texel addressing, and mesh assembly. The
//! floating-point work (intersection distances, shading, vector maths) is passed in as
//! functions by the program around it; the scene's vectors are carried as `glam` values.
pub mod dispatch;
pub mod engine;
pub mod renderer;
pub mod scene;
pub mod vector;
