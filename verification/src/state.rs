//! The render state a pass runs under: blending, depth handling and
//! face culling. Each pass sets the whole state explicitly, and the
//! compositor restores the default before the frame ends.

use vstd::prelude::*;

verus! {

/// How a drawn colour is combined with the colour already in the target.
#[derive(Clone, Copy, PartialEq, Eq, Structural, Debug)]
pub enum BlendType {
    /// The drawn colour replaces the stored one.
    Disabled,
    /// The drawn colour is added to the stored one, saturating.
    Additive,
    /// The drawn colour is mixed with the stored one by its alpha.
    SrcAlphaOneMinusSrcAlpha,
}

/// Whether and how a fragment's depth is tested against the stored depth.
#[derive(Clone, Copy, PartialEq, Eq, Structural, Debug)]
pub enum DepthTestType {
    /// Every fragment passes.
    Disabled,
    /// A fragment passes when its depth is below the stored depth.
    Less,
}

/// Which faces are discarded before rasterization.
#[derive(Clone, Copy, PartialEq, Eq, Structural, Debug)]
pub enum CullType {
    /// No face is discarded.
    Disabled,
    /// Back faces are discarded.
    Back,
}

/// The full pipeline state a pass runs under.
#[derive(Clone, Copy, PartialEq, Eq, Structural, Debug)]
pub struct RenderState {
    pub blend: BlendType,
    pub depth_test: DepthTestType,
    pub depth_write: bool,
    pub cull: CullType,
}

impl RenderState {
    /// The state between frames: no blending, depth tested and written,
    /// back faces culled.
    pub open spec fn default_spec() -> RenderState {
        RenderState {
            blend: BlendType::Disabled,
            depth_test: DepthTestType::Less,
            depth_write: true,
            cull: CullType::Back,
        }
    }

    /// The state a geometry pass runs under: opaque geometry with depth
    /// testing and writing, no blending.
    pub open spec fn geometry_spec() -> RenderState {
        RenderState {
            blend: BlendType::Disabled,
            depth_test: DepthTestType::Less,
            depth_write: true,
            cull: CullType::Back,
        }
    }

    /// The state a light pass runs under: full-screen quads with
    /// additive blending and no depth handling.
    pub open spec fn light_spec() -> RenderState {
        RenderState {
            blend: BlendType::Additive,
            depth_test: DepthTestType::Disabled,
            depth_write: false,
            cull: CullType::Back,
        }
    }

    /// The state the mirror composite runs under: alpha blending over
    /// the finished frame, no depth handling.
    pub open spec fn composite_spec() -> RenderState {
        RenderState {
            blend: BlendType::SrcAlphaOneMinusSrcAlpha,
            depth_test: DepthTestType::Disabled,
            depth_write: false,
            cull: CullType::Back,
        }
    }

    /// Builds the geometry-pass state.
    pub fn geometry() -> (s: RenderState)
        ensures
            s == RenderState::geometry_spec(),
    {
        RenderState {
            blend: BlendType::Disabled,
            depth_test: DepthTestType::Less,
            depth_write: true,
            cull: CullType::Back,
        }
    }

    /// Builds the light-pass state.
    pub fn light() -> (s: RenderState)
        ensures
            s == RenderState::light_spec(),
    {
        RenderState {
            blend: BlendType::Additive,
            depth_test: DepthTestType::Disabled,
            depth_write: false,
            cull: CullType::Back,
        }
    }

    /// Builds the composite state.
    pub fn composite() -> (s: RenderState)
        ensures
            s == RenderState::composite_spec(),
    {
        RenderState {
            blend: BlendType::SrcAlphaOneMinusSrcAlpha,
            depth_test: DepthTestType::Disabled,
            depth_write: false,
            cull: CullType::Back,
        }
    }
}

impl Default for RenderState {
    /// Builds the between-frames state.
    fn default() -> (s: RenderState)
        ensures
            s == RenderState::default_spec(),
    {
        RenderState {
            blend: BlendType::Disabled,
            depth_test: DepthTestType::Less,
            depth_write: true,
            cull: CullType::Back,
        }
    }
}

} // verus!
