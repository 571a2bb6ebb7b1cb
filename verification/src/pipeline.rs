//! The deferred pipeline: a geometry pass rasterizes the scene into
//! the geometry buffer, then a light pass accumulates every light's
//! contribution into the output buffer, one full-screen pass per
//! light. The passes follow a strict order, and a pass begun out of
//! order fails loudly with a state error.

use vstd::prelude::*;
use crate::camera::Camera;
use crate::gbuffer::{rasterized, Fragment, RenderTarget, Sample};
use crate::light::{AmbientLight, SpotLight, SHADOW_BIAS_DEFAULT};
use crate::math::{Color, MAX_DIM};
use crate::screen::Screen;
use crate::state::RenderState;
use crate::traits::{DrawInput, Emitting, Error};

verus! {

/// Where a pipeline stands in its pass order.
#[derive(Clone, Copy, PartialEq, Eq, Structural, Debug)]
pub enum Phase {
    /// No pass has begun, or the last frame is finished.
    Idle,
    /// A geometry pass is filling the geometry buffer.
    GeometryPass,
    /// A light pass is accumulating into the output buffer.
    LightPass,
}

/// One pixel of `out` after light `light` shines on it: where the
/// geometry buffer holds a sample, the light's contribution is added
/// with saturation; elsewhere the pixel keeps its colour.
pub open spec fn shaded_seq<L: Emitting>(
    out: Seq<Color>,
    g: Seq<Option<Sample>>,
    light: L,
    cam: Camera,
    bias: i64,
) -> Seq<Color> {
    Seq::new(
        out.len(),
        |i: int|
            match g[i] {
                Option::Some(s) => out[i].add_clamped_spec(
                    light.emitted(
                        DrawInput { camera: cam, sample: Option::Some(s), shadow_bias: bias },
                    ),
                ),
                Option::None => out[i],
            },
    )
}

/// Ambient-only shading: on a freshly cleared output, an ambient light
/// of strength `I` within `[0, SCALE]` leaves, at every pixel the
/// geometry buffer holds a well-formed sample `s` for, exactly
/// `I * s.diffuse / SCALE` — no specular term and no attenuation — and
/// leaves every unsampled pixel black.
pub proof fn lemma_ambient_only_shading(
    out: Seq<Color>,
    g: Seq<Option<Sample>>,
    light: AmbientLight,
    cam: Camera,
    bias: i64,
    i: int,
)
    requires
        0 <= i < out.len(),
        out[i] == Color::black_spec(),
        0 <= light.base.intensity <= crate::math::SCALE,
    ensures
        g[i] is Some && g[i]->Some_0.wf() ==> shaded_seq(out, g, light, cam, bias)[i] == (Color {
            r: ((light.base.intensity as int) * (g[i]->Some_0.diffuse.r as int) / (crate::math::SCALE as int)) as i64,
            g: ((light.base.intensity as int) * (g[i]->Some_0.diffuse.g as int) / (crate::math::SCALE as int)) as i64,
            b: ((light.base.intensity as int) * (g[i]->Some_0.diffuse.b as int) / (crate::math::SCALE as int)) as i64,
        }),
        g[i] is None ==> shaded_seq(out, g, light, cam, bias)[i] == Color::black_spec(),
{
    if g[i] is Some && g[i]->Some_0.wf() {
        let s = g[i]->Some_0;
        let eff = light.base.intensity as int;
        assert(0 <= eff * s.diffuse.r <= crate::math::SCALE * crate::math::SCALE)
            by (nonlinear_arith)
            requires
                0 <= eff <= crate::math::SCALE,
                0 <= s.diffuse.r <= crate::math::SCALE,
        ;
        assert(0 <= eff * s.diffuse.g <= crate::math::SCALE * crate::math::SCALE)
            by (nonlinear_arith)
            requires
                0 <= eff <= crate::math::SCALE,
                0 <= s.diffuse.g <= crate::math::SCALE,
        ;
        assert(0 <= eff * s.diffuse.b <= crate::math::SCALE * crate::math::SCALE)
            by (nonlinear_arith)
            requires
                0 <= eff <= crate::math::SCALE,
                0 <= s.diffuse.b <= crate::math::SCALE,
        ;
    }
}

/// A deferred pipeline: the geometry buffer it owns, the output buffer
/// its light passes accumulate into, the pass it currently stands in,
/// and the render state the active pass runs under.
pub struct DeferredPipeline {
    pub target: RenderTarget,
    pub output: Vec<Color>,
    pub phase: Phase,
    pub camera: Option<Camera>,
    pub light_pass_done: bool,
    pub render_state: RenderState,
    pub shadow_bias: i64,
}

impl DeferredPipeline {
    /// A valid target, one output pixel per target pixel holding valid
    /// colours, and a camera present whenever a light pass is active.
    pub open spec fn wf(self) -> bool {
        &&& self.target.wf()
        &&& self.output@.len() == self.target.pixel_count()
        &&& forall|i: int| 0 <= i < self.output@.len() ==> (#[trigger] self.output@[i]).wf()
        &&& (self.phase == Phase::LightPass ==> self.camera is Some)
    }

    /// Allocates a pipeline with a geometry buffer of the given
    /// extents; `no_color_target` omits the final colour attachment,
    /// for an intermediate target whose light-pass texture alone is
    /// consumed downstream. Fails with a resource error exactly when an
    /// extent is zero or above the largest supported size.
    pub fn new(width: usize, height: usize, no_color_target: bool) -> (r: Result<
        DeferredPipeline,
        Error,
    >)
        ensures
            r.is_ok() <==> (0 < width <= MAX_DIM && 0 < height <= MAX_DIM),
            r matches Err(e) ==> e == Error::Resource,
            r matches Ok(p) ==> {
                &&& p.wf()
                &&& p.target.width == width
                &&& p.target.height == height
                &&& p.target.has_color == !no_color_target
                &&& forall|i: int| 0 <= i < p.target.samples@.len() ==> p.target.samples@[i] is None
                &&& forall|i: int|
                    0 <= i < p.output@.len() ==> p.output@[i] == Color::black_spec()
                &&& p.phase == Phase::Idle
                &&& p.camera is None
                &&& p.light_pass_done == false
                &&& p.render_state == RenderState::default_spec()
                &&& p.shadow_bias == SHADOW_BIAS_DEFAULT
            },
    {
        let target = match RenderTarget::new(width, height, !no_color_target) {
            Ok(t) => t,
            Err(e) => {
                return Err(e);
            },
        };
        let n: usize = target.samples.len();
        let mut output: Vec<Color> = Vec::new();
        let mut i: usize = 0;
        while i < n
            invariant
                i <= n,
                output@.len() == i,
                forall|j: int| 0 <= j < i ==> output@[j] == Color::black_spec(),
            decreases n - i,
        {
            output.push(Color::black());
            i = i + 1;
        }
        Ok(
            DeferredPipeline {
                target,
                output,
                phase: Phase::Idle,
                camera: Option::None,
                light_pass_done: false,
                render_state: RenderState::default(),
                shadow_bias: SHADOW_BIAS_DEFAULT,
            },
        )
    }

    /// Allocates a pipeline sized to a whole screen.
    pub fn create(screen: &Screen, no_color_target: bool) -> (r: Result<DeferredPipeline, Error>)
        ensures
            r.is_ok() <==> screen.wf(),
            r matches Err(e) ==> e == Error::Resource,
            r matches Ok(p) ==> {
                &&& p.wf()
                &&& p.target.width == screen.width
                &&& p.target.height == screen.height
                &&& p.target.has_color == !no_color_target
                &&& p.phase == Phase::Idle
                &&& p.light_pass_done == false
                &&& p.render_state == RenderState::default_spec()
                &&& p.shadow_bias == SHADOW_BIAS_DEFAULT
            },
    {
        DeferredPipeline::new(screen.width, screen.height, no_color_target)
    }

    /// Begins a geometry pass: clears the geometry buffer and sets the
    /// opaque-geometry render state. Always succeeds on a live
    /// pipeline, from any phase — each geometry pass starts a new
    /// frame for this pipeline.
    pub fn geometry_pass_begin(&mut self) -> (r: Result<(), Error>)
        requires
            old(self).wf(),
        ensures
            r.is_ok(),
            final(self).wf(),
            final(self).phase == Phase::GeometryPass,
            final(self).render_state == RenderState::geometry_spec(),
            final(self).target.width == old(self).target.width,
            final(self).target.height == old(self).target.height,
            final(self).target.has_color == old(self).target.has_color,
            forall|i: int|
                0 <= i < final(self).target.samples@.len() ==> final(self).target.samples@[i]
                    is None,
            final(self).output@ == old(self).output@,
            final(self).camera == old(self).camera,
            final(self).light_pass_done == old(self).light_pass_done,
            final(self).shadow_bias == old(self).shadow_bias,
    {
        self.target.clear();
        self.phase = Phase::GeometryPass;
        self.render_state = RenderState::geometry();
        Ok(())
    }

    /// Rasterizes a batch of scene fragments into the geometry buffer.
    /// Fails with a state error when no geometry pass is active.
    pub fn draw(&mut self, fragments: &Vec<Fragment>) -> (r: Result<(), Error>)
        requires
            old(self).wf(),
        ensures
            final(self).wf(),
            r.is_ok() <==> old(self).phase == Phase::GeometryPass,
            r matches Err(e) ==> e == Error::State && *final(self) == *old(self),
            r.is_ok() ==> {
                &&& final(self).target.samples@ == rasterized(
                    old(self).target.samples@,
                    fragments@,
                    fragments@.len() as int,
                )
                &&& final(self).target.width == old(self).target.width
                &&& final(self).target.height == old(self).target.height
                &&& final(self).target.has_color == old(self).target.has_color
                &&& final(self).output@ == old(self).output@
                &&& final(self).phase == old(self).phase
                &&& final(self).camera == old(self).camera
                &&& final(self).light_pass_done == old(self).light_pass_done
                &&& final(self).render_state == old(self).render_state
                &&& final(self).shadow_bias == old(self).shadow_bias
            },
    {
        if !(self.phase == Phase::GeometryPass) {
            return Err(Error::State);
        }
        self.target.draw(fragments);
        Ok(())
    }

    /// Begins a light pass under the given camera: switches to the
    /// output buffer, clears it, binds the geometry buffer for
    /// reading, and sets the additive light render state. Fails with a
    /// state error unless exactly one geometry pass has begun since
    /// the last light pass — in particular, before any geometry pass
    /// in the pipeline's lifetime.
    pub fn light_pass_begin(&mut self, camera: &Camera) -> (r: Result<(), Error>)
        requires
            old(self).wf(),
        ensures
            final(self).wf(),
            r.is_ok() <==> old(self).phase == Phase::GeometryPass,
            r matches Err(e) ==> e == Error::State && *final(self) == *old(self),
            r.is_ok() ==> {
                &&& final(self).phase == Phase::LightPass
                &&& final(self).camera == Option::Some(*camera)
                &&& final(self).light_pass_done == true
                &&& forall|i: int|
                    0 <= i < final(self).output@.len() ==> final(self).output@[i]
                        == Color::black_spec()
                &&& final(self).output@.len() == old(self).output@.len()
                &&& final(self).render_state == RenderState::light_spec()
                &&& final(self).target == old(self).target
                &&& final(self).shadow_bias == old(self).shadow_bias
            },
    {
        if !(self.phase == Phase::GeometryPass) {
            return Err(Error::State);
        }
        let n: usize = self.output.len();
        let mut i: usize = 0;
        while i < n
            invariant
                i <= n,
                self.output@.len() == n,
                self.target == old(self).target,
                self.phase == old(self).phase,
                self.camera == old(self).camera,
                self.light_pass_done == old(self).light_pass_done,
                self.render_state == old(self).render_state,
                self.shadow_bias == old(self).shadow_bias,
                forall|j: int| 0 <= j < i ==> self.output@[j] == Color::black_spec(),
            decreases n - i,
        {
            self.output[i] = Color::black();
            i = i + 1;
        }
        self.phase = Phase::LightPass;
        self.camera = Option::Some(*camera);
        self.light_pass_done = true;
        self.render_state = RenderState::light();
        Ok(())
    }

    /// Shines one light over the whole output buffer: a full-screen
    /// pass that adds the light's contribution to every pixel the
    /// geometry buffer holds a sample for, with additive blending.
    /// Fails with a state error when no light pass is active.
    pub fn shine_light<L: Emitting>(&mut self, light: &L) -> (r: Result<(), Error>)
        requires
            old(self).wf(),
        ensures
            final(self).wf(),
            r.is_ok() <==> old(self).phase == Phase::LightPass,
            r matches Err(e) ==> e == Error::State && *final(self) == *old(self),
            r.is_ok() ==> {
                &&& old(self).camera matches Option::Some(cam) && final(self).output@
                    == shaded_seq(
                    old(self).output@,
                    old(self).target.samples@,
                    *light,
                    cam,
                    old(self).shadow_bias,
                )
                &&& final(self).target == old(self).target
                &&& final(self).phase == old(self).phase
                &&& final(self).camera == old(self).camera
                &&& final(self).light_pass_done == old(self).light_pass_done
                &&& final(self).render_state == RenderState::light_spec()
                &&& final(self).shadow_bias == old(self).shadow_bias
            },
    {
        if !(self.phase == Phase::LightPass) {
            return Err(Error::State);
        }
        let cam: Camera = match &self.camera {
            Option::Some(c) => *c,
            Option::None => {
                return Err(Error::State);
            },
        };
        self.render_state = RenderState::light();
        let n: usize = self.output.len();
        let ghost shaded = shaded_seq(
            old(self).output@,
            old(self).target.samples@,
            *light,
            cam,
            old(self).shadow_bias,
        );
        let mut i: usize = 0;
        while i < n
            invariant
                i <= n,
                n == self.output@.len(),
                old(self).wf(),
                old(self).phase == Phase::LightPass,
                self.target == old(self).target,
                self.phase == old(self).phase,
                self.camera == old(self).camera,
                self.light_pass_done == old(self).light_pass_done,
                self.shadow_bias == old(self).shadow_bias,
                self.render_state == RenderState::light_spec(),
                shaded == shaded_seq(
                    old(self).output@,
                    old(self).target.samples@,
                    *light,
                    cam,
                    old(self).shadow_bias,
                ),
                shaded.len() == n,
                forall|j: int| 0 <= j < i ==> self.output@[j] == shaded[j],
                forall|j: int| i <= j < n ==> self.output@[j] == old(self).output@[j],
                forall|j: int| 0 <= j < n ==> (#[trigger] self.output@[j]).wf(),
            decreases n - i,
        {
            let gi: Option<Sample> = self.target.samples[i];
            match gi {
                Option::Some(s) => {
                    let input = DrawInput {
                        camera: cam,
                        sample: Option::Some(s),
                        shadow_bias: self.shadow_bias,
                    };
                    match light.shine(&input) {
                        Ok(c) => {
                            self.output[i] = self.output[i].add_clamped(c);
                        },
                        Err(e) => {
                            return Err(e);
                        },
                    }
                },
                Option::None => {},
            }
            i = i + 1;
        }
        proof {
            assert(self.output@ =~= shaded);
        }
        Ok(())
    }

    /// Shines an ambient light: every sampled pixel gains the light's
    /// strength times its diffuse colour.
    pub fn shine_ambient_light(&mut self, light: &AmbientLight) -> (r: Result<(), Error>)
        requires
            old(self).wf(),
        ensures
            final(self).wf(),
            r.is_ok() <==> old(self).phase == Phase::LightPass,
            r matches Err(e) ==> e == Error::State && *final(self) == *old(self),
            r.is_ok() ==> {
                &&& old(self).camera matches Option::Some(cam) && final(self).output@
                    == shaded_seq(
                    old(self).output@,
                    old(self).target.samples@,
                    *light,
                    cam,
                    old(self).shadow_bias,
                )
                &&& final(self).target == old(self).target
                &&& final(self).phase == old(self).phase
                &&& final(self).camera == old(self).camera
                &&& final(self).light_pass_done == old(self).light_pass_done
                &&& final(self).render_state == RenderState::light_spec()
                &&& final(self).shadow_bias == old(self).shadow_bias
            },
    {
        self.shine_light(light)
    }

    /// Shines a spot light: every sampled pixel it does not occlude
    /// gains its attenuated, direction-weighted contribution.
    pub fn shine_spot_light(&mut self, light: &SpotLight) -> (r: Result<(), Error>)
        requires
            old(self).wf(),
        ensures
            final(self).wf(),
            r.is_ok() <==> old(self).phase == Phase::LightPass,
            r matches Err(e) ==> e == Error::State && *final(self) == *old(self),
            r.is_ok() ==> {
                &&& old(self).camera matches Option::Some(cam) && final(self).output@
                    == shaded_seq(
                    old(self).output@,
                    old(self).target.samples@,
                    *light,
                    cam,
                    old(self).shadow_bias,
                )
                &&& final(self).target == old(self).target
                &&& final(self).phase == old(self).phase
                &&& final(self).camera == old(self).camera
                &&& final(self).light_pass_done == old(self).light_pass_done
                &&& final(self).render_state == RenderState::light_spec()
                &&& final(self).shadow_bias == old(self).shadow_bias
            },
    {
        self.shine_light(light)
    }

    /// The output texture the light passes accumulated into, for a
    /// downstream consumer such as the mirror composite. Fails with a
    /// state error before any light pass has begun in the pipeline's
    /// lifetime.
    pub fn light_pass_color_texture(&self) -> (r: Result<&Vec<Color>, Error>)
        ensures
            r.is_ok() <==> self.light_pass_done,
            r matches Err(e) ==> e == Error::State,
            r matches Ok(v) ==> v@ == self.output@,
    {
        if self.light_pass_done {
            Ok(&self.output)
        } else {
            Err(Error::State)
        }
    }
}

} // verus!
