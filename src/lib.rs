//! Decision core of a stochastic path tracer.
//!
//! Every real number the renderer works with is an IEEE-754 binary32 value.
//! This library carries such values as their bit patterns ([`Binary32`]) and
//! decides, exactly as IEEE-754 orders them, every comparison the renderer
//! branches on: which sphere root is taken, whether the slab intervals of a
//! box overlap, which face of a box was struck, which entity is nearest,
//! whether a material scatters, when a path ends, how a channel is quantized
//! and where each row lands in the frame buffer.

pub mod binary32;
pub mod config;
pub mod geometry;
pub mod integrator;
pub mod material;
pub mod render;
pub mod vector;
pub mod world;

pub use binary32::Binary32;
pub use vector::Vector3;
