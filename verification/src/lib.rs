//! A deferred-shading renderer core.
//!
//! The library models the multi-pass pipeline of a small 3D renderer:
//! a geometry pass fills an off-screen geometry buffer with per-pixel
//! surface samples, a light pass accumulates the contribution of ambient
//! and shadow-casting spot lights into an output buffer, and a mirror
//! compositor renders the scene a second time through a mirrored camera
//! and blends the result onto the primary frame.
//!
//! All coordinates, intensities and colour channels are fixed-point
//! integers in thousandths of a unit, so every formula in the contracts
//! is exact.

pub mod math;
pub mod screen;
pub mod camera;
pub mod state;
pub mod gbuffer;
pub mod traits;
pub mod light;
pub mod pipeline;
pub mod mirror;
