//! The mirror compositor and the full frame: the scene is rendered a
//! second time through a mirrored camera into a secondary pipeline,
//! and that pipeline's light-pass output is blended onto the primary
//! frame with alpha blending over a full-screen quad.

use vstd::prelude::*;
use crate::camera::{lemma_mirror_involution, Camera};
use crate::gbuffer::Fragment;
use crate::light::{AmbientLight, SpotLight};
use crate::math::{clamp_i64, clamped, Color, MAX_DIM, SCALE};
use crate::pipeline::{DeferredPipeline, Phase};
use crate::state::RenderState;
use crate::traits::{DrawInput, Error, Reflecting};

verus! {

/// Opacity the mirror image is blended onto the frame with by
/// default, in fixed-point thousandths.
pub const MIRROR_ALPHA_DEFAULT: i64 = 500;

/// The texel of the mirror texture (extents `mw` by `mh`) that pixel
/// `j` of the primary output (extents `pw` by `ph`) samples: the
/// pixel's row and column scaled linearly into the mirror's grid.
pub open spec fn sample_index_spec(j: int, pw: int, ph: int, mw: int, mh: int) -> int {
    let row = j / pw;
    let col = j % pw;
    let mrow = clamped(row * mh / ph, 0, mh - 1);
    let mcol = clamped(col * mw / pw, 0, mw - 1);
    mrow * mw + mcol
}

/// One pixel after the composite: the mirror colour `src` laid over
/// the frame colour `dst` with opacity `alpha`.
pub open spec fn blend_pixel_spec(dst: Color, src: Color, alpha: int) -> Color {
    let a = clamped(alpha, 0, SCALE as int);
    Color {
        r: ((a * clamped(src.r as int, 0, SCALE as int) + (SCALE - a) * clamped(
            dst.r as int,
            0,
            SCALE as int,
        )) / (SCALE as int)) as i64,
        g: ((a * clamped(src.g as int, 0, SCALE as int) + (SCALE - a) * clamped(
            dst.g as int,
            0,
            SCALE as int,
        )) / (SCALE as int)) as i64,
        b: ((a * clamped(src.b as int, 0, SCALE as int) + (SCALE - a) * clamped(
            dst.b as int,
            0,
            SCALE as int,
        )) / (SCALE as int)) as i64,
    }
}

/// Computes `blend_pixel_spec`.
pub fn blend_pixel(dst: Color, src: Color, alpha: i64) -> (c: Color)
    ensures
        c == blend_pixel_spec(dst, src, alpha as int),
        c.wf(),
{
    let a = clamp_i64(alpha, 0, SCALE);
    let sr = clamp_i64(src.r, 0, SCALE);
    let sg = clamp_i64(src.g, 0, SCALE);
    let sb = clamp_i64(src.b, 0, SCALE);
    let dr = clamp_i64(dst.r, 0, SCALE);
    let dg = clamp_i64(dst.g, 0, SCALE);
    let db = clamp_i64(dst.b, 0, SCALE);
    proof {
        assert(0 <= a * sr + (SCALE - a) * dr <= SCALE * SCALE) by (nonlinear_arith)
            requires
                0 <= a <= SCALE,
                0 <= sr <= SCALE,
                0 <= dr <= SCALE,
        ;
        assert(0 <= a * sg + (SCALE - a) * dg <= SCALE * SCALE) by (nonlinear_arith)
            requires
                0 <= a <= SCALE,
                0 <= sg <= SCALE,
                0 <= dg <= SCALE,
        ;
        assert(0 <= a * sb + (SCALE - a) * db <= SCALE * SCALE) by (nonlinear_arith)
            requires
                0 <= a <= SCALE,
                0 <= sb <= SCALE,
                0 <= db <= SCALE,
        ;
    }
    Color {
        r: (a * sr + (SCALE - a) * dr) / SCALE,
        g: (a * sg + (SCALE - a) * dg) / SCALE,
        b: (a * sb + (SCALE - a) * db) / SCALE,
    }
}

/// The primary output after the composite: where the mirror texture
/// has a texel for a pixel, the pixel is blended with it; dimensions
/// that cannot be sampled leave the frame unchanged.
pub open spec fn blended_seq(
    dst: Seq<Color>,
    src: Seq<Color>,
    pw: int,
    ph: int,
    mw: int,
    mh: int,
    alpha: int,
) -> Seq<Color> {
    Seq::new(
        dst.len(),
        |j: int|
            if 1 <= pw && 1 <= ph && 1 <= mw && 1 <= mh && 0 <= sample_index_spec(j, pw, ph, mw, mh)
                < src.len() {
                blend_pixel_spec(dst[j], src[sample_index_spec(j, pw, ph, mw, mh)], alpha)
            } else {
                dst[j]
            },
    )
}

/// How many of the lights have shadows enabled: one depth pass is run
/// for each of them in a frame.
pub open spec fn count_shadowed(lights: Seq<SpotLight>) -> int
    decreases lights.len(),
{
    if lights.len() == 0 {
        0
    } else {
        count_shadowed(lights.drop_last()) + if lights.last().shadow is Some {
            1int
        } else {
            0int
        }
    }
}

/// Extending a prefix by one light extends its shadow count by that
/// light's enablement.
pub proof fn lemma_count_shadowed_take(s: Seq<SpotLight>, n: int)
    requires
        0 <= n < s.len(),
    ensures
        count_shadowed(s.take(n + 1)) == count_shadowed(s.take(n)) + if s[n].shadow is Some {
            1int
        } else {
            0int
        },
{
    assert(s.take(n + 1).drop_last() =~= s.take(n));
    assert(s.take(n + 1).last() == s[n]);
}

/// What a frame leaves of each spot light: the light itself and its
/// shadow enablement are kept; only the contents of an enabled shadow
/// map change.
pub open spec fn light_kept(a: SpotLight, b: SpotLight) -> bool {
    &&& b.base == a.base
    &&& b.position == a.position
    &&& b.direction == a.direction
    &&& b.cutoff == a.cutoff
    &&& (b.shadow is Some <==> a.shadow is Some)
}

/// How many passes of each kind one frame executed.
#[derive(Clone, Copy, PartialEq, Eq, Structural, Debug)]
pub struct FrameReport {
    pub shadow_passes: usize,
    pub geometry_passes: usize,
    pub light_passes: usize,
    pub blend_composites: usize,
}

/// A secondary pipeline the mirrored scene is rendered through, and
/// the opacity its output is blended onto the primary frame with.
pub struct MirrorCompositor {
    pub pipeline: DeferredPipeline,
    pub alpha: i64,
}

impl MirrorCompositor {
    /// Allocates the mirror pipeline at the given resolution, without
    /// a final colour attachment: only its light-pass texture is
    /// consumed. Fails with a resource error exactly when an extent is
    /// unsupported.
    pub fn create(width: usize, height: usize) -> (r: Result<MirrorCompositor, Error>)
        ensures
            r.is_ok() <==> (0 < width <= MAX_DIM && 0 < height <= MAX_DIM),
            r matches Err(e) ==> e == Error::Resource,
            r matches Ok(m) ==> {
                &&& m.pipeline.wf()
                &&& m.pipeline.target.width == width
                &&& m.pipeline.target.height == height
                &&& m.pipeline.target.has_color == false
                &&& m.pipeline.phase == Phase::Idle
                &&& m.pipeline.light_pass_done == false
                &&& m.alpha == MIRROR_ALPHA_DEFAULT
            },
    {
        match DeferredPipeline::new(width, height, true) {
            Ok(pipeline) => Ok(MirrorCompositor { pipeline, alpha: MIRROR_ALPHA_DEFAULT }),
            Err(e) => Err(e),
        }
    }

    /// Blends the mirror pipeline's light-pass texture onto the
    /// primary output over a full-screen quad, then restores the
    /// default render state for the next frame. Fails with a state
    /// error when the mirror texture does not exist yet or the primary
    /// pipeline is not in its light pass, and then changes nothing.
    pub fn composite(&self, primary: &mut DeferredPipeline) -> (r: Result<(), Error>)
        requires
            old(primary).wf(),
            self.pipeline.wf(),
        ensures
            final(primary).wf(),
            r.is_ok() <==> (self.pipeline.light_pass_done && old(primary).phase
                == Phase::LightPass),
            r matches Err(e) ==> e == Error::State && *final(primary) == *old(primary),
            r.is_ok() ==> {
                &&& final(primary).output@ == blended_seq(
                    old(primary).output@,
                    self.pipeline.output@,
                    old(primary).target.width as int,
                    old(primary).target.height as int,
                    self.pipeline.target.width as int,
                    self.pipeline.target.height as int,
                    self.alpha as int,
                )
                &&& final(primary).render_state == RenderState::default_spec()
                &&& final(primary).target == old(primary).target
                &&& final(primary).phase == old(primary).phase
                &&& final(primary).camera == old(primary).camera
                &&& final(primary).light_pass_done == old(primary).light_pass_done
                &&& final(primary).shadow_bias == old(primary).shadow_bias
            },
    {
        let tex: &Vec<Color> = match self.pipeline.light_pass_color_texture() {
            Ok(t) => t,
            Err(_) => {
                return Err(Error::State);
            },
        };
        if !(primary.phase == Phase::LightPass) {
            return Err(Error::State);
        }
        primary.render_state = RenderState::composite();
        let pw: usize = primary.target.width;
        let ph: usize = primary.target.height;
        let mw: usize = self.pipeline.target.width;
        let mh: usize = self.pipeline.target.height;
        let n: usize = primary.output.len();
        let ghost blended = blended_seq(
            old(primary).output@,
            self.pipeline.output@,
            pw as int,
            ph as int,
            mw as int,
            mh as int,
            self.alpha as int,
        );
        let mut j: usize = 0;
        while j < n
            invariant
                j <= n,
                n == primary.output@.len(),
                n == (pw as int) * (ph as int),
                old(primary).wf(),
                pw == primary.target.width,
                ph == primary.target.height,
                mw == self.pipeline.target.width,
                mh == self.pipeline.target.height,
                1 <= pw <= MAX_DIM,
                1 <= ph <= MAX_DIM,
                1 <= mw <= MAX_DIM,
                1 <= mh <= MAX_DIM,
                primary.target == old(primary).target,
                primary.phase == old(primary).phase,
                primary.camera == old(primary).camera,
                primary.light_pass_done == old(primary).light_pass_done,
                primary.shadow_bias == old(primary).shadow_bias,
                primary.render_state == RenderState::composite_spec(),
                tex@ == self.pipeline.output@,
                blended == blended_seq(
                    old(primary).output@,
                    self.pipeline.output@,
                    pw as int,
                    ph as int,
                    mw as int,
                    mh as int,
                    self.alpha as int,
                ),
                blended.len() == n,
                forall|k: int| 0 <= k < j ==> primary.output@[k] == blended[k],
                forall|k: int| j <= k < n ==> primary.output@[k] == old(primary).output@[k],
                forall|k: int| 0 <= k < n ==> (#[trigger] primary.output@[k]).wf(),
            decreases n - j,
        {
            if 1 <= mw && 1 <= mh {
                let row: usize = j / pw;
                let col: usize = j % pw;
                proof {
                    assert(0 <= (j as int) / (pw as int) < 16384 && (j as int) % (pw as int) < pw)
                        by (nonlinear_arith)
                        requires
                            0 <= j,
                            1 <= pw <= 16384,
                            1 <= ph <= 16384,
                            (j as int) < (pw as int) * (ph as int),
                    ;
                    assert((row as int) * (mh as int) <= 16384 * 16384) by (nonlinear_arith)
                        requires
                            0 <= row < 16384,
                            1 <= mh <= 16384,
                    ;
                    assert((col as int) * (mw as int) <= 16384 * 16384) by (nonlinear_arith)
                        requires
                            0 <= col < 16384,
                            1 <= mw <= 16384,
                    ;
                }
                let mrow_raw: usize = row * mh / ph;
                let mcol_raw: usize = col * mw / pw;
                let mrow: usize = if mrow_raw > mh - 1 {
                    mh - 1
                } else {
                    mrow_raw
                };
                let mcol: usize = if mcol_raw > mw - 1 {
                    mw - 1
                } else {
                    mcol_raw
                };
                proof {
                    assert((mrow as int) * (mw as int) + (mcol as int) < 16384 * 16384)
                        by (nonlinear_arith)
                        requires
                            0 <= mrow < 16384,
                            0 <= mcol < mw,
                            1 <= mw <= 16384,
                    ;
                }
                let idx: usize = mrow * mw + mcol;
                if idx < tex.len() {
                    let src: Color = tex[idx];
                    primary.output[j] = blend_pixel(primary.output[j], src, self.alpha);
                }
            }
            j = j + 1;
        }
        primary.render_state = RenderState::default();
        proof {
            assert(primary.output@ =~= blended);
        }
        Ok(())
    }
}

/// Renders one frame through the whole pipeline, in the fixed order:
/// one depth pass per shadow-enabled spot light, then the geometry and
/// light passes of the mirror pipeline under the mirrored camera, then
/// the primary geometry and light passes under the restored camera,
/// and finally one blend composite of the mirror output onto the
/// frame. The camera is handed back exactly as it came, whatever
/// happens, and a successful frame leaves the render state at its
/// non-blending default.
#[verifier::loop_isolation(false)]
pub fn render_frame<R: Reflecting>(
    scene: &R,
    camera: &mut Camera,
    primary: &mut DeferredPipeline,
    mirror: &mut MirrorCompositor,
    ambient: &AmbientLight,
    spots: &mut Vec<SpotLight>,
) -> (r: Result<FrameReport, Error>)
    requires
        old(camera).wf(),
        old(primary).wf(),
        old(mirror).pipeline.wf(),
    ensures
        *final(camera) == *old(camera),
        final(primary).wf(),
        final(mirror).pipeline.wf(),
        final(mirror).alpha == old(mirror).alpha,
        final(spots)@.len() == old(spots)@.len(),
        r matches Ok(rep) ==> {
            &&& rep.shadow_passes == count_shadowed(old(spots)@)
            &&& rep.geometry_passes == 2
            &&& rep.light_passes == 2
            &&& rep.blend_composites == 1
            &&& final(primary).render_state == RenderState::default_spec()
            &&& final(primary).phase == Phase::LightPass
            &&& final(primary).light_pass_done == true
            &&& final(mirror).pipeline.light_pass_done == true
            &&& forall|k: int|
                0 <= k < old(spots)@.len() ==> light_kept(
                    old(spots)@[k],
                    #[trigger] final(spots)@[k],
                )
        },
{
    let ghost orig = spots@;
    let total: usize = spots.len();
    // Depth passes: each shadow-enabled light clears its map, renders
    // the scene through its shadow camera, and keeps the result.
    let mut done: Vec<SpotLight> = Vec::new();
    let mut shadow_passes: usize = 0;
    while spots.len() > 0
        invariant
            orig.len() == total,
            done@.len() + spots@.len() == orig.len(),
            forall|k: int| 0 <= k < done@.len() ==> light_kept(orig[k], #[trigger] done@[k]),
            forall|k: int|
                0 <= k < spots@.len() ==> #[trigger] spots@[k] == orig[done@.len() + k],
            shadow_passes == count_shadowed(orig.take(done@.len() as int)),
            shadow_passes <= done@.len(),
        decreases spots@.len(),
    {
        let mut l = spots.remove(0);
        let ghost idx = done@.len() as int;
        proof {
            lemma_count_shadowed_take(orig, idx);
        }
        if l.shadow.is_some() {
            // Each begin call below is made in the order its contract
            // demands, so the error arms cannot be reached; they still
            // fail loudly rather than skip a pass.
            match l.shadow_cast_begin() {
                Ok(u) => u,
                Err(_) => {
                    return Err(Error::State);
                },
            };
            let scam: Camera = match l.shadow_camera() {
                Option::Some(c) => *c,
                Option::None => {
                    return Err(Error::State);
                },
            };
            let input = DrawInput {
                camera: scam,
                sample: Option::None,
                shadow_bias: primary.shadow_bias,
            };
            match scene.reflect(&input) {
                Ok(frags) => {
                    match l.shadow_draw(&frags) {
                        Ok(u) => u,
                        Err(_) => {
                            return Err(Error::State);
                        },
                    };
                },
                Err(e) => {
                    // Hand every light back before giving up on the frame.
                    done.push(l);
                    while spots.len() > 0
                        invariant
                            done@.len() + spots@.len() == orig.len(),
                        decreases spots@.len(),
                    {
                        let x = spots.remove(0);
                        done.push(x);
                    }
                    core::mem::swap(spots, &mut done);
                    return Err(e);
                },
            }
            shadow_passes = shadow_passes + 1;
        }
        done.push(l);
    }
    core::mem::swap(spots, &mut done);
    proof {
        assert(orig.take(orig.len() as int) =~= orig);
    }
    // Mirror pass: the scene through the reflected camera, into the
    // secondary pipeline.
    camera.mirror_in_xz_plane();
    let minput = DrawInput {
        camera: *camera,
        sample: Option::None,
        shadow_bias: mirror.pipeline.shadow_bias,
    };
    let mfrags: Vec<Fragment> = match scene.reflect(&minput) {
        Ok(f) => f,
        Err(e) => {
            camera.mirror_in_xz_plane();
            proof {
                lemma_mirror_involution(*old(camera));
            }
            return Err(e);
        },
    };
    match mirror.pipeline.geometry_pass_begin() {
        Ok(u) => u,
        Err(_) => {
            return Err(Error::State);
        },
    };
    match mirror.pipeline.draw(&mfrags) {
        Ok(u) => u,
        Err(_) => {
            return Err(Error::State);
        },
    };
    match mirror.pipeline.light_pass_begin(camera) {
        Ok(u) => u,
        Err(_) => {
            return Err(Error::State);
        },
    };
    match mirror.pipeline.shine_ambient_light(ambient) {
        Ok(u) => u,
        Err(_) => {
            return Err(Error::State);
        },
    };
    let mut k: usize = 0;
    while k < spots.len()
        invariant
            mirror.pipeline.wf(),
            mirror.pipeline.phase == Phase::LightPass,
            mirror.pipeline.light_pass_done,
            mirror.alpha == old(mirror).alpha,
        decreases spots@.len() - k,
    {
        match mirror.pipeline.shine_spot_light(&spots[k]) {
            Ok(u) => u,
            Err(_) => {
                return Err(Error::State);
            },
        };
        k = k + 1;
    }
    // Put the camera back before the primary pass: the mirror
    // transform is its own inverse.
    camera.mirror_in_xz_plane();
    proof {
        lemma_mirror_involution(*old(camera));
    }
    // Primary pass: the scene through the original camera.
    let pinput = DrawInput {
        camera: *camera,
        sample: Option::None,
        shadow_bias: primary.shadow_bias,
    };
    let pfrags: Vec<Fragment> = match scene.reflect(&pinput) {
        Ok(f) => f,
        Err(e) => {
            return Err(e);
        },
    };
    match primary.geometry_pass_begin() {
        Ok(u) => u,
        Err(_) => {
            return Err(Error::State);
        },
    };
    match primary.draw(&pfrags) {
        Ok(u) => u,
        Err(_) => {
            return Err(Error::State);
        },
    };
    match primary.light_pass_begin(camera) {
        Ok(u) => u,
        Err(_) => {
            return Err(Error::State);
        },
    };
    match primary.shine_ambient_light(ambient) {
        Ok(u) => u,
        Err(_) => {
            return Err(Error::State);
        },
    };
    let mut k2: usize = 0;
    while k2 < spots.len()
        invariant
            primary.wf(),
            primary.phase == Phase::LightPass,
            primary.light_pass_done,
            mirror.pipeline.wf(),
            mirror.pipeline.light_pass_done,
        decreases spots@.len() - k2,
    {
        match primary.shine_spot_light(&spots[k2]) {
            Ok(u) => u,
            Err(_) => {
                return Err(Error::State);
            },
        };
        k2 = k2 + 1;
    }
    // Blend the mirror's light-pass output over the finished frame and
    // restore the default render state.
    match mirror.composite(primary) {
        Ok(u) => u,
        Err(_) => {
            return Err(Error::State);
        },
    };
    Ok(
        FrameReport {
            shadow_passes,
            geometry_passes: 2,
            light_passes: 2,
            blend_composites: 1,
        },
    )
}

} // verus!
