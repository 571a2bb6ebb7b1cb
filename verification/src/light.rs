//! Light sources: an ambient light and a shadow-casting spot light,
//! with the fixed-point shading terms their contributions are built
//! from.

use vstd::prelude::*;
use crate::camera::{Camera, FOV_LIMIT};
use crate::gbuffer::Fragment;
use crate::math::{clamp_i64, clamped, Color, Vec3, COORD_BOUND, DEPTH_MAX, MAX_DIM, SCALE};
use crate::traits::{DrawInput, Emitting, Error};

verus! {

/// Near plane of every derived shadow camera, in fixed-point units.
pub const SHADOW_NEAR: i64 = 100;

/// Depth bias a shadow comparison subtracts by default, in fixed-point
/// units; tunable per pipeline to trade acne against peter-panning.
pub const SHADOW_BIAS_DEFAULT: i64 = 50;

/// Half opening angle a new spot light starts with, in fixed-point
/// radians: forty-five degrees.
pub const CUTOFF_DEFAULT: i64 = 785;

/// What every light carries: its strength, where `SCALE` is full
/// strength. Values outside `[0, SCALE]` are forced back into it at
/// shading time.
#[derive(Clone, Copy, PartialEq, Eq, Structural, Debug)]
pub struct BaseLight {
    pub intensity: i64,
}

impl BaseLight {
    /// The strength shading uses: the stored one, forced into
    /// `[0, SCALE]`.
    pub open spec fn effective(self) -> int {
        clamped(self.intensity as int, 0, SCALE as int)
    }

    /// A light at full strength.
    pub fn new() -> (b: BaseLight)
        ensures
            b.intensity == SCALE,
    {
        BaseLight { intensity: SCALE }
    }
}

/// The diffuse term a surface turned towards the light receives: the
/// negated dot product of the surface normal and the light direction,
/// both forced to unit scale, rescaled into `[0, SCALE]`.
pub open spec fn lambert_spec(normal: Vec3, direction: Vec3) -> int {
    let d = normal.clamped_to(SCALE as int).dot_spec(direction.clamped_to(SCALE as int));
    if d >= 0 {
        0
    } else {
        clamped((-d) / (SCALE as int), 0, SCALE as int)
    }
}

/// Computes the diffuse term `lambert_spec`.
pub fn lambert(normal: Vec3, direction: Vec3) -> (l: i64)
    ensures
        l == lambert_spec(normal, direction),
        0 <= l <= SCALE,
{
    let nc = normal.clamp_to(SCALE);
    let dc = direction.clamp_to(SCALE);
    proof {
        assert(-SCALE * SCALE <= nc.x * dc.x <= SCALE * SCALE) by (nonlinear_arith)
            requires
                -SCALE <= nc.x <= SCALE,
                -SCALE <= dc.x <= SCALE,
        ;
        assert(-SCALE * SCALE <= nc.y * dc.y <= SCALE * SCALE) by (nonlinear_arith)
            requires
                -SCALE <= nc.y <= SCALE,
                -SCALE <= dc.y <= SCALE,
        ;
        assert(-SCALE * SCALE <= nc.z * dc.z <= SCALE * SCALE) by (nonlinear_arith)
            requires
                -SCALE <= nc.z <= SCALE,
                -SCALE <= dc.z <= SCALE,
        ;
    }
    let d: i64 = nc.x * dc.x + nc.y * dc.y + nc.z * dc.z;
    if d >= 0 {
        0
    } else {
        clamp_i64((-d) / SCALE, 0, SCALE)
    }
}

/// How much a contribution fades with the squared distance between the
/// lit point and the light: a divisor of at least `SCALE`, growing by
/// one fixed-point step per squared-distance step.
pub open spec fn attenuation_spec(p: Vec3, lpos: Vec3) -> int {
    let pc = p.clamped_to(COORD_BOUND as int);
    let lc = lpos.clamped_to(COORD_BOUND as int);
    let rel = Vec3 { x: (pc.x - lc.x) as i64, y: (pc.y - lc.y) as i64, z: (pc.z - lc.z) as i64 };
    SCALE + rel.dot_spec(rel) / (SCALE as int)
}

/// Computes the attenuation divisor `attenuation_spec`.
pub fn attenuation(p: Vec3, lpos: Vec3) -> (a: i64)
    ensures
        a == attenuation_spec(p, lpos),
        SCALE <= a,
{
    let pc = p.clamp_to(COORD_BOUND);
    let lc = lpos.clamp_to(COORD_BOUND);
    let rx: i64 = pc.x - lc.x;
    let ry: i64 = pc.y - lc.y;
    let rz: i64 = pc.z - lc.z;
    proof {
        assert(0 <= rx * rx <= 4 * COORD_BOUND * COORD_BOUND) by (nonlinear_arith)
            requires
                -2 * COORD_BOUND <= rx <= 2 * COORD_BOUND,
        ;
        assert(0 <= ry * ry <= 4 * COORD_BOUND * COORD_BOUND) by (nonlinear_arith)
            requires
                -2 * COORD_BOUND <= ry <= 2 * COORD_BOUND,
        ;
        assert(0 <= rz * rz <= 4 * COORD_BOUND * COORD_BOUND) by (nonlinear_arith)
            requires
                -2 * COORD_BOUND <= rz <= 2 * COORD_BOUND,
        ;
    }
    let d2: i64 = rx * rx + ry * ry + rz * rz;
    SCALE + d2 / SCALE
}

/// One colour channel of a spot contribution: the light's effective
/// strength times the diffuse term, applied to the diffuse channel and
/// the specular strength, then divided by the attenuation and forced
/// into `[0, SCALE]`.
pub open spec fn channel_spec(eff: int, lam: int, dc: int, sp: int, atten: int) -> int {
    let d = eff * lam / (SCALE as int);
    let dch = clamped(dc, 0, SCALE as int);
    let sch = clamped(sp, 0, SCALE as int);
    let base = d * dch / (SCALE as int) + d * sch / (SCALE as int);
    clamped(base * SCALE / atten, 0, SCALE as int)
}

/// Computes the channel term `channel_spec`.
pub fn channel(eff: i64, lam: i64, dc: i64, sp: i64, atten: i64) -> (c: i64)
    requires
        0 <= eff <= SCALE,
        0 <= lam <= SCALE,
        SCALE <= atten,
    ensures
        c == channel_spec(eff as int, lam as int, dc as int, sp as int, atten as int),
        0 <= c <= SCALE,
{
    proof {
        assert(0 <= eff * lam <= SCALE * SCALE) by (nonlinear_arith)
            requires
                0 <= eff <= SCALE,
                0 <= lam <= SCALE,
        ;
    }
    let d: i64 = eff * lam / SCALE;
    let dch = clamp_i64(dc, 0, SCALE);
    let sch = clamp_i64(sp, 0, SCALE);
    proof {
        assert(0 <= d * dch <= SCALE * SCALE && 0 <= d * sch <= SCALE * SCALE)
            by (nonlinear_arith)
            requires
                0 <= d <= SCALE,
                0 <= dch <= SCALE,
                0 <= sch <= SCALE,
        ;
    }
    let base: i64 = d * dch / SCALE + d * sch / SCALE;
    clamp_i64(base * SCALE / atten, 0, SCALE)
}

/// The texel of a square shadow map of side `res` that a world point
/// falls on: its `x` and `z` coordinates mapped linearly from the world
/// bounds onto the map's rows and columns.
pub open spec fn shadow_texel_spec(p: Vec3, res: int) -> int {
    let pc = p.clamped_to(COORD_BOUND as int);
    let u = clamped((pc.x + COORD_BOUND) * res / (2 * COORD_BOUND), 0, res - 1);
    let v = clamped((pc.z + COORD_BOUND) * res / (2 * COORD_BOUND), 0, res - 1);
    v * res + u
}

/// Computes the texel index `shadow_texel_spec`.
pub fn shadow_texel(p: Vec3, res: usize) -> (t: usize)
    requires
        1 <= res <= MAX_DIM,
    ensures
        t == shadow_texel_spec(p, res as int),
        t < res * res,
{
    let pc = p.clamp_to(COORD_BOUND);
    let px: i64 = pc.x + COORD_BOUND;
    let pz: i64 = pc.z + COORD_BOUND;
    let r64: i64 = res as i64;
    proof {
        assert(0 <= px * r64 <= 2 * COORD_BOUND * 16384) by (nonlinear_arith)
            requires
                0 <= px <= 2 * COORD_BOUND,
                1 <= r64 <= 16384,
        ;
        assert(0 <= pz * r64 <= 2 * COORD_BOUND * 16384) by (nonlinear_arith)
            requires
                0 <= pz <= 2 * COORD_BOUND,
                1 <= r64 <= 16384,
        ;
    }
    let u: i64 = clamp_i64(px * r64 / (2 * COORD_BOUND), 0, r64 - 1);
    let v: i64 = clamp_i64(pz * r64 / (2 * COORD_BOUND), 0, r64 - 1);
    proof {
        assert(0 <= v * r64 + u && v * r64 + u < r64 * r64) by (nonlinear_arith)
            requires
                0 <= u < r64,
                0 <= v < r64,
        ;
        assert(r64 * r64 <= 16384 * 16384) by (nonlinear_arith)
            requires
                1 <= r64 <= 16384,
        ;
    }
    (v as usize) * res + (u as usize)
}

/// A world point's depth in light space: its offset from the light
/// projected onto the light's direction, forced into `[0, DEPTH_MAX]`.
pub open spec fn light_depth_spec(p: Vec3, lpos: Vec3, ldir: Vec3) -> int {
    let pc = p.clamped_to(COORD_BOUND as int);
    let lc = lpos.clamped_to(COORD_BOUND as int);
    let rel = Vec3 { x: (pc.x - lc.x) as i64, y: (pc.y - lc.y) as i64, z: (pc.z - lc.z) as i64 };
    let d = rel.dot_spec(ldir.clamped_to(SCALE as int));
    if d >= 0 {
        clamped(d / (SCALE as int), 0, DEPTH_MAX as int)
    } else {
        0
    }
}

/// Computes the light-space depth `light_depth_spec`.
pub fn light_depth(p: Vec3, lpos: Vec3, ldir: Vec3) -> (d: i64)
    ensures
        d == light_depth_spec(p, lpos, ldir),
        0 <= d <= DEPTH_MAX,
{
    let pc = p.clamp_to(COORD_BOUND);
    let lc = lpos.clamp_to(COORD_BOUND);
    let dc = ldir.clamp_to(SCALE);
    let rx: i64 = pc.x - lc.x;
    let ry: i64 = pc.y - lc.y;
    let rz: i64 = pc.z - lc.z;
    proof {
        assert(-2 * COORD_BOUND * SCALE <= rx * dc.x <= 2 * COORD_BOUND * SCALE)
            by (nonlinear_arith)
            requires
                -2 * COORD_BOUND <= rx <= 2 * COORD_BOUND,
                -SCALE <= dc.x <= SCALE,
        ;
        assert(-2 * COORD_BOUND * SCALE <= ry * dc.y <= 2 * COORD_BOUND * SCALE)
            by (nonlinear_arith)
            requires
                -2 * COORD_BOUND <= ry <= 2 * COORD_BOUND,
                -SCALE <= dc.y <= SCALE,
        ;
        assert(-2 * COORD_BOUND * SCALE <= rz * dc.z <= 2 * COORD_BOUND * SCALE)
            by (nonlinear_arith)
            requires
                -2 * COORD_BOUND <= rz <= 2 * COORD_BOUND,
                -SCALE <= dc.z <= SCALE,
        ;
    }
    let dd: i64 = rx * dc.x + ry * dc.y + rz * dc.z;
    if dd >= 0 {
        clamp_i64(dd / SCALE, 0, DEPTH_MAX)
    } else {
        0
    }
}

/// Whether the shadow map occludes the world point `p`: the depth
/// stored at the point's texel lies nearer the light than the point
/// itself, by more than the bias.
pub open spec fn occluded_spec(
    map: Seq<i64>,
    res: int,
    lpos: Vec3,
    ldir: Vec3,
    bias: int,
    p: Vec3,
) -> bool {
    if res < 1 || res > MAX_DIM {
        false
    } else {
        let t = shadow_texel_spec(p, res);
        let d = light_depth_spec(p, lpos, ldir);
        let stored = if 0 <= t < map.len() {
            map[t] as int
        } else {
            DEPTH_MAX as int
        };
        stored < d - clamped(bias, 0, SCALE as int)
    }
}

/// A square depth-only render target owned by a shadow-enabled light,
/// together with the camera the light's depth pass renders through.
pub struct ShadowCaster {
    pub resolution: usize,
    pub depth_map: Vec<i64>,
    pub camera: Camera,
    pub active: bool,
}

impl ShadowCaster {
    /// A positive bounded side, one depth per texel, depths within
    /// `[0, DEPTH_MAX]`, and a valid camera.
    pub open spec fn wf(self) -> bool {
        &&& 0 < self.resolution <= MAX_DIM
        &&& self.depth_map@.len() == self.resolution * self.resolution
        &&& forall|i: int| 0 <= i < self.depth_map@.len() ==> 0 <= #[trigger] self.depth_map@[i] <= DEPTH_MAX
        &&& self.camera.wf()
    }

    /// Clears every texel to the far sentinel, as the start of a depth
    /// pass does.
    pub fn clear(&mut self)
        ensures
            final(self).resolution == old(self).resolution,
            final(self).camera == old(self).camera,
            final(self).active == old(self).active,
            final(self).depth_map@.len() == old(self).depth_map@.len(),
            forall|i: int|
                0 <= i < final(self).depth_map@.len() ==> final(self).depth_map@[i] == DEPTH_MAX,
    {
        let n: usize = self.depth_map.len();
        let mut i: usize = 0;
        while i < n
            invariant
                i <= n,
                self.depth_map@.len() == n,
                self.resolution == old(self).resolution,
                self.camera == old(self).camera,
                self.active == old(self).active,
                forall|j: int| 0 <= j < i ==> self.depth_map@[j] == DEPTH_MAX,
            decreases n - i,
        {
            self.depth_map[i] = DEPTH_MAX;
            i = i + 1;
        }
    }

    /// Whether the map occludes `p` for a light at `lpos` shining
    /// towards `ldir`, under the given bias.
    pub fn occludes(&self, lpos: Vec3, ldir: Vec3, bias: i64, p: Vec3) -> (r: bool)
        ensures
            r == occluded_spec(
                self.depth_map@,
                self.resolution as int,
                lpos,
                ldir,
                bias as int,
                p,
            ),
    {
        if self.resolution < 1 || self.resolution > MAX_DIM {
            return false;
        }
        let t = shadow_texel(p, self.resolution);
        let d = light_depth(p, lpos, ldir);
        let stored: i64 = if t < self.depth_map.len() {
            self.depth_map[t]
        } else {
            DEPTH_MAX
        };
        stored < d - clamp_i64(bias, 0, SCALE)
    }
}

/// The map after one fragment of a depth pass is rasterized into it: a
/// well-formed sample writes its light-space depth at its texel when it
/// lies nearer than what is stored.
pub open spec fn shadow_write(map: Seq<i64>, res: int, lpos: Vec3, ldir: Vec3, f: Fragment) -> Seq<
    i64,
> {
    if f.sample.wf() && 1 <= res <= MAX_DIM {
        let t = shadow_texel_spec(f.sample.position, res);
        let d = light_depth_spec(f.sample.position, lpos, ldir);
        if 0 <= t < map.len() && d < map[t] {
            map.update(t, d as i64)
        } else {
            map
        }
    } else {
        map
    }
}

/// The map after the first `n` fragments of `fs` are rasterized into
/// it, in order.
pub open spec fn shadow_rasterized(
    map: Seq<i64>,
    res: int,
    lpos: Vec3,
    ldir: Vec3,
    fs: Seq<Fragment>,
    n: int,
) -> Seq<i64>
    decreases n,
{
    if n <= 0 {
        map
    } else {
        shadow_write(shadow_rasterized(map, res, lpos, ldir, fs, n - 1), res, lpos, ldir, fs[n - 1])
    }
}

impl ShadowCaster {
    /// Rasterizes a depth pass: each well-formed fragment writes its
    /// light-space depth at its texel when it lies nearer the light
    /// than what the texel holds.
    pub fn draw(&mut self, lpos: Vec3, ldir: Vec3, fragments: &Vec<Fragment>)
        ensures
            final(self).resolution == old(self).resolution,
            final(self).camera == old(self).camera,
            final(self).active == old(self).active,
            final(self).depth_map@ == shadow_rasterized(
                old(self).depth_map@,
                old(self).resolution as int,
                lpos,
                ldir,
                fragments@,
                fragments@.len() as int,
            ),
    {
        let n: usize = fragments.len();
        let mut i: usize = 0;
        while i < n
            invariant
                i <= n,
                n == fragments@.len(),
                self.resolution == old(self).resolution,
                self.camera == old(self).camera,
                self.active == old(self).active,
                self.depth_map@ == shadow_rasterized(
                    old(self).depth_map@,
                    old(self).resolution as int,
                    lpos,
                    ldir,
                    fragments@,
                    i as int,
                ),
            decreases n - i,
        {
            let f = fragments[i];
            if f.sample.in_bounds() && 1 <= self.resolution && self.resolution <= MAX_DIM {
                let t = shadow_texel(f.sample.position, self.resolution);
                let d = light_depth(f.sample.position, lpos, ldir);
                if t < self.depth_map.len() && d < self.depth_map[t] {
                    self.depth_map[t] = d;
                }
            }
            i = i + 1;
        }
    }
}

/// A light that brightens every surface uniformly.
#[derive(Clone, Copy, PartialEq, Eq, Structural, Debug)]
pub struct AmbientLight {
    pub base: BaseLight,
}

impl AmbientLight {
    /// A full-strength ambient light.
    pub fn new() -> (l: AmbientLight)
        ensures
            l.base.intensity == SCALE,
    {
        AmbientLight { base: BaseLight::new() }
    }
}

impl Emitting for AmbientLight {
    /// An ambient light adds its effective strength times the sample's
    /// diffuse colour: no direction, no attenuation, no specular term.
    open spec fn emitted(&self, input: DrawInput) -> Color {
        match input.sample {
            Option::None => Color::black_spec(),
            Option::Some(s) => Color {
                r: (self.base.effective() * clamped(s.diffuse.r as int, 0, SCALE as int) / (
                SCALE as int)) as i64,
                g: (self.base.effective() * clamped(s.diffuse.g as int, 0, SCALE as int) / (
                SCALE as int)) as i64,
                b: (self.base.effective() * clamped(s.diffuse.b as int, 0, SCALE as int) / (
                SCALE as int)) as i64,
            },
        }
    }

    fn shine(&self, input: &DrawInput) -> (r: Result<Color, Error>) {
        match &input.sample {
            Option::None => Ok(Color::black()),
            Option::Some(s) => {
                let eff = clamp_i64(self.base.intensity, 0, SCALE);
                let dr = clamp_i64(s.diffuse.r, 0, SCALE);
                let dg = clamp_i64(s.diffuse.g, 0, SCALE);
                let db = clamp_i64(s.diffuse.b, 0, SCALE);
                proof {
                    assert(0 <= eff * dr <= SCALE * SCALE && 0 <= eff * dg <= SCALE * SCALE && 0
                        <= eff * db <= SCALE * SCALE) by (nonlinear_arith)
                        requires
                            0 <= eff <= SCALE,
                            0 <= dr <= SCALE,
                            0 <= dg <= SCALE,
                            0 <= db <= SCALE,
                    ;
                }
                let cr: i64 = eff * dr / SCALE;
                let cg: i64 = eff * dg / SCALE;
                let cb: i64 = eff * db / SCALE;
                Ok(Color { r: cr, g: cg, b: cb })
            },
        }
    }
}

/// A cone of light from a point, aimed along a direction, optionally
/// casting shadows through an owned depth map.
pub struct SpotLight {
    pub base: BaseLight,
    pub position: Vec3,
    pub direction: Vec3,
    pub cutoff: i64,
    pub shadow: Option<ShadowCaster>,
}

impl SpotLight {
    /// A full-strength spot light at `position` aimed along
    /// `direction`, with the default opening angle and no shadows.
    pub fn new(position: Vec3, direction: Vec3) -> (l: SpotLight)
        ensures
            l.base.intensity == SCALE,
            l.position == position,
            l.direction == direction,
            l.cutoff == CUTOFF_DEFAULT,
            l.shadow is None,
    {
        SpotLight {
            base: BaseLight::new(),
            position,
            direction,
            cutoff: CUTOFF_DEFAULT,
            shadow: Option::None,
        }
    }

    /// Allocates the light's shadow map and derives its depth camera:
    /// a square map of side `resolution`, and a perspective camera at
    /// the light looking along its direction, with the field of view
    /// taken from the cutoff angle, the fixed shadow near plane, and
    /// the given far plane.
    ///
    /// Fails with a resource error when shadows are already enabled —
    /// they are never silently reallocated — or when the resolution or
    /// far plane is unsupported.
    pub fn enable_shadows(&mut self, resolution: usize, far: i64) -> (r: Result<(), Error>)
        ensures
            r.is_ok() <==> (old(self).shadow is None && 0 < resolution <= MAX_DIM && SHADOW_NEAR
                < far),
            r matches Err(e) ==> e == Error::Resource && *final(self) == *old(self),
            r.is_ok() ==> {
                &&& final(self).base == old(self).base
                &&& final(self).position == old(self).position
                &&& final(self).direction == old(self).direction
                &&& final(self).cutoff == old(self).cutoff
                &&& final(self).shadow matches Option::Some(sc) && {
                    &&& sc.wf()
                    &&& sc.resolution == resolution
                    &&& sc.depth_map@.len() == resolution * resolution
                    &&& forall|i: int|
                        0 <= i < sc.depth_map@.len() ==> sc.depth_map@[i] == DEPTH_MAX
                    &&& sc.camera.near == SHADOW_NEAR
                    &&& sc.camera.far == far
                    &&& 0 < sc.camera.near < sc.camera.far
                    &&& sc.camera.position == old(self).position.clamped_to(COORD_BOUND as int)
                    &&& sc.active == false
                }
            },
    {
        if self.shadow.is_some() {
            return Err(Error::Resource);
        }
        if resolution == 0 || resolution > MAX_DIM || far <= SHADOW_NEAR {
            return Err(Error::Resource);
        }
        let cpos = self.position.clamp_to(COORD_BOUND);
        let dcl = self.direction.clamp_to(SCALE);
        let tgt = Vec3 { x: cpos.x + dcl.x, y: cpos.y + dcl.y, z: cpos.z + dcl.z }.clamp_to(
            COORD_BOUND,
        );
        let ccut = clamp_i64(self.cutoff, 1, (FOV_LIMIT - 1) / 2);
        let fov = clamp_i64(2 * ccut, 1, FOV_LIMIT - 1);
        let camera = Camera {
            position: cpos,
            target: tgt,
            up: Vec3 { x: 0, y: SCALE, z: 0 },
            aspect: SCALE,
            fov,
            near: SHADOW_NEAR,
            far,
        };
        proof {
            assert(resolution * resolution <= MAX_DIM * MAX_DIM) by (nonlinear_arith)
                requires
                    0 < resolution <= MAX_DIM,
            ;
        }
        let n: usize = resolution * resolution;
        let mut depth_map: Vec<i64> = Vec::new();
        let mut i: usize = 0;
        while i < n
            invariant
                i <= n,
                depth_map@.len() == i,
                forall|j: int| 0 <= j < i ==> depth_map@[j] == DEPTH_MAX,
            decreases n - i,
        {
            depth_map.push(DEPTH_MAX);
            i = i + 1;
        }
        self.shadow = Option::Some(
            ShadowCaster { resolution, depth_map, camera, active: false },
        );
        Ok(())
    }

    /// Starts the light's depth pass: clears the shadow map to the far
    /// sentinel and marks the caster active. Fails with a state error
    /// when shadows are not enabled.
    pub fn shadow_cast_begin(&mut self) -> (r: Result<(), Error>)
        ensures
            r.is_ok() <==> old(self).shadow is Some,
            r matches Err(e) ==> e == Error::State && *final(self) == *old(self),
            r.is_ok() ==> {
                &&& final(self).base == old(self).base
                &&& final(self).position == old(self).position
                &&& final(self).direction == old(self).direction
                &&& final(self).cutoff == old(self).cutoff
                &&& old(self).shadow matches Option::Some(sc) && final(self).shadow
                    matches Option::Some(sc2) && {
                    &&& sc2.resolution == sc.resolution
                    &&& sc2.camera == sc.camera
                    &&& sc2.active == true
                    &&& sc2.depth_map@.len() == sc.depth_map@.len()
                    &&& forall|i: int|
                        0 <= i < sc2.depth_map@.len() ==> sc2.depth_map@[i] == DEPTH_MAX
                }
            },
    {
        let mut sh: Option<ShadowCaster> = Option::None;
        core::mem::swap(&mut sh, &mut self.shadow);
        match sh {
            Option::None => Err(Error::State),
            Option::Some(mut sc) => {
                sc.clear();
                sc.active = true;
                self.shadow = Option::Some(sc);
                Ok(())
            },
        }
    }

    /// The camera a depth pass renders the scene through, or nothing
    /// when shadows are not enabled.
    pub fn shadow_camera(&self) -> (r: Option<&Camera>)
        ensures
            r is Some <==> self.shadow is Some,
            r matches Some(c) ==> (self.shadow matches Option::Some(sc) && *c == sc.camera),
    {
        match &self.shadow {
            Option::Some(sc) => Option::Some(&sc.camera),
            Option::None => Option::None,
        }
    }

    /// Rasterizes the scene's fragments into the shadow map. Fails
    /// with a state error when shadows are not enabled or the depth
    /// pass has not begun.
    pub fn shadow_draw(&mut self, fragments: &Vec<Fragment>) -> (r: Result<(), Error>)
        ensures
            r.is_ok() <==> (old(self).shadow matches Option::Some(sc) && sc.active),
            r matches Err(e) ==> e == Error::State && *final(self) == *old(self),
            r.is_ok() ==> {
                &&& final(self).base == old(self).base
                &&& final(self).position == old(self).position
                &&& final(self).direction == old(self).direction
                &&& final(self).cutoff == old(self).cutoff
                &&& old(self).shadow matches Option::Some(sc) && final(self).shadow
                    matches Option::Some(sc2) && {
                    &&& sc2.resolution == sc.resolution
                    &&& sc2.camera == sc.camera
                    &&& sc2.active == sc.active
                    &&& sc2.depth_map@ == shadow_rasterized(
                        sc.depth_map@,
                        sc.resolution as int,
                        old(self).position,
                        old(self).direction,
                        fragments@,
                        fragments@.len() as int,
                    )
                }
            },
    {
        let mut sh: Option<ShadowCaster> = Option::None;
        core::mem::swap(&mut sh, &mut self.shadow);
        match sh {
            Option::None => Err(Error::State),
            Option::Some(mut sc) => {
                if !sc.active {
                    self.shadow = Option::Some(sc);
                    Err(Error::State)
                } else {
                    sc.draw(self.position, self.direction, fragments);
                    self.shadow = Option::Some(sc);
                    Ok(())
                }
            },
        }
    }
}

impl Emitting for SpotLight {
    /// A spot light adds, per channel, its effective strength times the
    /// diffuse term, applied to the sample's diffuse colour and
    /// specular strength and divided by the attenuation — and nothing
    /// at all where its shadow map occludes the sample.
    open spec fn emitted(&self, input: DrawInput) -> Color {
        match input.sample {
            Option::None => Color::black_spec(),
            Option::Some(s) => {
                let occ = match self.shadow {
                    Option::Some(sc) => occluded_spec(
                        sc.depth_map@,
                        sc.resolution as int,
                        self.position,
                        self.direction,
                        input.shadow_bias as int,
                        s.position,
                    ),
                    Option::None => false,
                };
                if occ {
                    Color::black_spec()
                } else {
                    let eff = self.base.effective();
                    let lam = lambert_spec(s.normal, self.direction);
                    let att = attenuation_spec(s.position, self.position);
                    Color {
                        r: channel_spec(eff, lam, s.diffuse.r as int, s.specular as int, att)
                            as i64,
                        g: channel_spec(eff, lam, s.diffuse.g as int, s.specular as int, att)
                            as i64,
                        b: channel_spec(eff, lam, s.diffuse.b as int, s.specular as int, att)
                            as i64,
                    }
                }
            },
        }
    }

    fn shine(&self, input: &DrawInput) -> (r: Result<Color, Error>) {
        match &input.sample {
            Option::None => Ok(Color::black()),
            Option::Some(s) => {
                let occ: bool = match &self.shadow {
                    Option::Some(sc) => sc.occludes(
                        self.position,
                        self.direction,
                        input.shadow_bias,
                        s.position,
                    ),
                    Option::None => false,
                };
                if occ {
                    Ok(Color::black())
                } else {
                    let eff = clamp_i64(self.base.intensity, 0, SCALE);
                    let lam = lambert(s.normal, self.direction);
                    let att = attenuation(s.position, self.position);
                    let cr = channel(eff, lam, s.diffuse.r, s.specular, att);
                    let cg = channel(eff, lam, s.diffuse.g, s.specular, att);
                    let cb = channel(eff, lam, s.diffuse.b, s.specular, att);
                    Ok(Color { r: cr, g: cg, b: cb })
                }
            },
        }
    }
}

} // verus!
