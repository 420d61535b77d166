//! The verified core of a Monte Carlo path tracer: the row-major pixel pass
//! and its per-pixel random streams, the path tracer's bounce decisions, the
//! triangle topology of loaded meshes, the material table, the display
//! colour clamp, and the viewer's response to input.

pub mod color;
pub mod input;
pub mod integrator;
pub mod material;
pub mod mesh;
pub mod render;
