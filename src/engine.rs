//! Types of the streaming ray engine.
pub mod ray;
