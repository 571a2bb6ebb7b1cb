//! Fixed-point scalars, vectors and colours.
//!
//! Every quantity in the renderer is an integer in thousandths of a
//! unit: a coordinate of `1500` is one and a half world units, an
//! intensity of `200` is a fifth of full strength.

use vstd::prelude::*;

verus! {

/// Number of fixed-point steps in one whole unit.
pub const SCALE: i64 = 1000;

/// Largest magnitude a world coordinate may have, in fixed-point steps.
pub const COORD_BOUND: i64 = 2_000_000;

/// Largest width or height a render target may have, in pixels.
pub const MAX_DIM: usize = 16384;

/// Largest value a depth buffer entry may hold; cleared buffers start here.
pub const DEPTH_MAX: i64 = 1_000_000_000;

/// `v` forced into the interval `[lo, hi]`.
pub open spec fn clamped(v: int, lo: int, hi: int) -> int {
    if v < lo {
        lo
    } else if v > hi {
        hi
    } else {
        v
    }
}

/// Forces `v` into the interval `[lo, hi]`.
pub fn clamp_i64(v: i64, lo: i64, hi: i64) -> (r: i64)
    requires
        lo <= hi,
    ensures
        r == clamped(v as int, lo as int, hi as int),
{
    if v < lo {
        lo
    } else if v > hi {
        hi
    } else {
        v
    }
}

/// A vector of three fixed-point coordinates.
#[derive(Clone, Copy, PartialEq, Eq, Structural, Debug)]
pub struct Vec3 {
    pub x: i64,
    pub y: i64,
    pub z: i64,
}

impl Vec3 {
    /// Every coordinate lies within the world bounds.
    pub open spec fn wf(self) -> bool {
        &&& -COORD_BOUND <= self.x <= COORD_BOUND
        &&& -COORD_BOUND <= self.y <= COORD_BOUND
        &&& -COORD_BOUND <= self.z <= COORD_BOUND
    }

    /// Builds the vector `(x, y, z)`.
    pub fn new(x: i64, y: i64, z: i64) -> (r: Vec3)
        ensures
            r == (Vec3 { x, y, z }),
    {
        Vec3 { x, y, z }
    }

    /// The same vector with its `y` coordinate negated: the reflection
    /// across the horizontal plane `y = 0`.
    pub open spec fn reflected_y(self) -> Vec3 {
        Vec3 { x: self.x, y: -self.y as i64, z: self.z }
    }

    /// `self` with every coordinate forced into `[-b, b]`.
    pub open spec fn clamped_to(self, b: int) -> Vec3 {
        Vec3 {
            x: clamped(self.x as int, -b, b) as i64,
            y: clamped(self.y as int, -b, b) as i64,
            z: clamped(self.z as int, -b, b) as i64,
        }
    }

    /// Forces every coordinate into `[-b, b]`.
    pub fn clamp_to(self, b: i64) -> (r: Vec3)
        requires
            0 <= b,
        ensures
            r == self.clamped_to(b as int),
    {
        Vec3 {
            x: clamp_i64(self.x, -b, b),
            y: clamp_i64(self.y, -b, b),
            z: clamp_i64(self.z, -b, b),
        }
    }

    /// Tests the invariant at run time, for values built by a caller.
    pub fn in_bounds(self) -> (r: bool)
        ensures
            r == self.wf(),
    {
        -COORD_BOUND <= self.x && self.x <= COORD_BOUND && -COORD_BOUND <= self.y && self.y
            <= COORD_BOUND && -COORD_BOUND <= self.z && self.z <= COORD_BOUND
    }

    /// The dot product of two vectors, over unbounded integers.
    pub open spec fn dot_spec(self, o: Vec3) -> int {
        self.x * o.x + self.y * o.y + self.z * o.z
    }

    /// The dot product of two bounded vectors.
    pub fn dot(self, o: Vec3) -> (r: i64)
        requires
            self.wf(),
            o.wf(),
        ensures
            r == self.dot_spec(o),
    {
        proof {
            assert(self.x * o.x <= COORD_BOUND * COORD_BOUND && self.x * o.x >= -(COORD_BOUND
                * COORD_BOUND)) by (nonlinear_arith)
                requires
                    -COORD_BOUND <= self.x <= COORD_BOUND,
                    -COORD_BOUND <= o.x <= COORD_BOUND,
            ;
            assert(self.y * o.y <= COORD_BOUND * COORD_BOUND && self.y * o.y >= -(COORD_BOUND
                * COORD_BOUND)) by (nonlinear_arith)
                requires
                    -COORD_BOUND <= self.y <= COORD_BOUND,
                    -COORD_BOUND <= o.y <= COORD_BOUND,
            ;
            assert(self.z * o.z <= COORD_BOUND * COORD_BOUND && self.z * o.z >= -(COORD_BOUND
                * COORD_BOUND)) by (nonlinear_arith)
                requires
                    -COORD_BOUND <= self.z <= COORD_BOUND,
                    -COORD_BOUND <= o.z <= COORD_BOUND,
            ;
        }
        self.x * o.x + self.y * o.y + self.z * o.z
    }

    /// The difference `self - o`, over bounded vectors.
    pub fn sub(self, o: Vec3) -> (r: Vec3)
        requires
            self.wf(),
            o.wf(),
        ensures
            r == (Vec3 {
                x: (self.x - o.x) as i64,
                y: (self.y - o.y) as i64,
                z: (self.z - o.z) as i64,
            }),
    {
        Vec3 { x: self.x - o.x, y: self.y - o.y, z: self.z - o.z }
    }
}

/// A colour with fixed-point channels; `SCALE` is full brightness.
#[derive(Clone, Copy, PartialEq, Eq, Structural, Debug)]
pub struct Color {
    pub r: i64,
    pub g: i64,
    pub b: i64,
}

impl Color {
    /// Every channel lies in `[0, SCALE]`.
    pub open spec fn wf(self) -> bool {
        &&& 0 <= self.r <= SCALE
        &&& 0 <= self.g <= SCALE
        &&& 0 <= self.b <= SCALE
    }

    /// Tests the invariant at run time, for values built by a caller.
    pub fn in_range(self) -> (r: bool)
        ensures
            r == self.wf(),
    {
        0 <= self.r && self.r <= SCALE && 0 <= self.g && self.g <= SCALE && 0 <= self.b && self.b
            <= SCALE
    }

    /// The colour with all channels zero.
    pub open spec fn black_spec() -> Color {
        Color { r: 0, g: 0, b: 0 }
    }

    /// Builds the colour with all channels zero.
    pub fn black() -> (c: Color)
        ensures
            c == Color::black_spec(),
            c.wf(),
    {
        Color { r: 0, g: 0, b: 0 }
    }

    /// Builds the colour `(r, g, b)`.
    pub fn new(r: i64, g: i64, b: i64) -> (c: Color)
        ensures
            c == (Color { r, g, b }),
    {
        Color { r, g, b }
    }

    /// Channel-wise sum, saturating at full brightness: the additive
    /// blending a light pass accumulates contributions with.
    pub open spec fn add_clamped_spec(self, o: Color) -> Color {
        Color {
            r: clamped(self.r + o.r, 0, SCALE as int) as i64,
            g: clamped(self.g + o.g, 0, SCALE as int) as i64,
            b: clamped(self.b + o.b, 0, SCALE as int) as i64,
        }
    }

    /// Adds `o` channel-wise, saturating at full brightness.
    pub fn add_clamped(self, o: Color) -> (c: Color)
        requires
            self.wf(),
            o.wf(),
        ensures
            c == self.add_clamped_spec(o),
            c.wf(),
    {
        Color {
            r: clamp_i64(self.r + o.r, 0, SCALE),
            g: clamp_i64(self.g + o.g, 0, SCALE),
            b: clamp_i64(self.b + o.b, 0, SCALE),
        }
    }
}

} // verus!
