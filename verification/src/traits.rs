//! The renderer's error taxonomy and the capability interfaces the
//! pipeline consumes: scene objects that reflect light into a geometry
//! pass, and lights that emit it during a light pass.

use vstd::prelude::*;
use crate::camera::Camera;
use crate::gbuffer::{Fragment, Sample};
use crate::math::Color;

verus! {

/// What can go wrong in the rendering core.
#[derive(Clone, Copy, PartialEq, Eq, Structural, Debug)]
pub enum Error {
    /// A render target or shadow map could not be allocated, or was
    /// asked for with unsupported extents.
    Resource,
    /// A pass was invoked out of order, or a texture was read before
    /// the pass that produces it had run.
    State,
    /// A shader input did not match what the pass binds.
    Shader,
}

/// Everything a draw call sees: the camera the pass runs under, the
/// surface sample being shaded when one exists, and the depth bias the
/// shadow comparison applies.
#[derive(Clone, Copy, PartialEq, Eq, Structural, Debug)]
pub struct DrawInput {
    pub camera: Camera,
    pub sample: Option<Sample>,
    pub shadow_bias: i64,
}

/// A scene object that reflects light: it can be rasterized from any
/// camera into a geometry buffer or a shadow map. The pipeline invokes
/// it once per shadow caster and once per geometry pass in a frame, so
/// an implementation must tolerate repeated calls with no side effects
/// carried across them.
pub trait Reflecting {
    /// Rasterizes the object from the given camera, producing the
    /// fragments to write into the active target.
    fn reflect(&self, input: &DrawInput) -> Result<Vec<Fragment>, Error>;
}

/// A light source: given a draw input holding one surface sample, it
/// yields the colour it contributes to that pixel.
pub trait Emitting {
    /// The contribution the light makes to the given draw input, as a
    /// mathematical value.
    spec fn emitted(&self, input: DrawInput) -> Color;

    /// Shades one draw input, returning exactly the modelled
    /// contribution, always a valid colour.
    fn shine(&self, input: &DrawInput) -> (r: Result<Color, Error>)
        ensures
            r matches Ok(c) && c == self.emitted(*input) && c.wf(),
    ;
}

} // verus!
