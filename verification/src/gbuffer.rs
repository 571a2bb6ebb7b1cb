//! The geometry buffer: an off-screen render target holding one surface
//! sample per pixel, written by the geometry pass and read by the light
//! pass.

use vstd::prelude::*;
use crate::math::{Color, Vec3, DEPTH_MAX, MAX_DIM, SCALE};
use crate::traits::Error;

verus! {

/// One pixel's surface attributes: the world position, the surface
/// normal, the material's diffuse colour and specular strength, and the
/// depth the sample was rasterized at.
#[derive(Clone, Copy, PartialEq, Eq, Structural, Debug)]
pub struct Sample {
    pub position: Vec3,
    pub normal: Vec3,
    pub diffuse: Color,
    pub specular: i64,
    pub depth: i64,
}

impl Sample {
    /// Bounded position, a normal with unit-scale coordinates, a valid
    /// colour, a specular strength in `[0, SCALE]` and a depth in
    /// `[0, DEPTH_MAX]`.
    pub open spec fn wf(self) -> bool {
        &&& self.position.wf()
        &&& -SCALE <= self.normal.x <= SCALE
        &&& -SCALE <= self.normal.y <= SCALE
        &&& -SCALE <= self.normal.z <= SCALE
        &&& self.diffuse.wf()
        &&& 0 <= self.specular <= SCALE
        &&& 0 <= self.depth <= DEPTH_MAX
    }

    /// Tests the invariant at run time, for samples built by a caller.
    pub fn in_bounds(&self) -> (r: bool)
        ensures
            r == self.wf(),
    {
        self.position.in_bounds() && -SCALE <= self.normal.x && self.normal.x <= SCALE && -SCALE
            <= self.normal.y && self.normal.y <= SCALE && -SCALE <= self.normal.z && self.normal.z
            <= SCALE && self.diffuse.in_range() && 0 <= self.specular && self.specular <= SCALE && 0
            <= self.depth && self.depth <= DEPTH_MAX
    }
}

/// A surface sample aimed at one pixel of a render target.
#[derive(Clone, Copy, PartialEq, Eq, Structural, Debug)]
pub struct Fragment {
    pub pixel: usize,
    pub sample: Sample,
}

/// Whether a fragment with sample `s` survives the depth test against
/// the stored contents `cur` of its pixel.
pub open spec fn depth_passes(cur: Option<Sample>, s: Sample) -> bool {
    match cur {
        Option::None => true,
        Option::Some(c) => s.depth < c.depth,
    }
}

/// The buffer `g` after one fragment is rasterized into it: an
/// out-of-range or malformed fragment is clipped, and a fragment that
/// fails the depth test is discarded.
pub open spec fn write_fragment(g: Seq<Option<Sample>>, f: Fragment) -> Seq<Option<Sample>> {
    if f.pixel < g.len() && f.sample.wf() && depth_passes(g[f.pixel as int], f.sample) {
        g.update(f.pixel as int, Option::Some(f.sample))
    } else {
        g
    }
}

/// The buffer `g` after the first `n` fragments of `fs` are rasterized
/// into it, in order.
pub open spec fn rasterized(g: Seq<Option<Sample>>, fs: Seq<Fragment>, n: int) -> Seq<
    Option<Sample>,
>
    decreases n,
{
    if n <= 0 {
        g
    } else {
        write_fragment(rasterized(g, fs, n - 1), fs[n - 1])
    }
}

/// Rasterizing keeps the buffer's length.
pub proof fn lemma_rasterized_len(g: Seq<Option<Sample>>, fs: Seq<Fragment>, n: int)
    ensures
        rasterized(g, fs, n).len() == g.len(),
    decreases n,
{
    if n > 0 {
        lemma_rasterized_len(g, fs, n - 1);
    }
}

/// Rasterizing into a buffer of well-formed samples leaves only
/// well-formed samples.
pub proof fn lemma_rasterized_wf(g: Seq<Option<Sample>>, fs: Seq<Fragment>, n: int)
    requires
        forall|i: int|
            0 <= i < g.len() ==> (#[trigger] g[i] matches Option::Some(s) ==> s.wf()),
    ensures
        forall|i: int|
            0 <= i < rasterized(g, fs, n).len() ==> (#[trigger] rasterized(g, fs, n)[i]
                matches Option::Some(s) ==> s.wf()),
    decreases n,
{
    if n > 0 {
        lemma_rasterized_wf(g, fs, n - 1);
        lemma_rasterized_len(g, fs, n - 1);
    }
}

/// An off-screen render target: a geometry buffer of `width * height`
/// pixels, with position, normal and material attachments folded into
/// one sample per pixel, and optionally a final colour attachment.
pub struct RenderTarget {
    pub width: usize,
    pub height: usize,
    pub has_color: bool,
    pub samples: Vec<Option<Sample>>,
}

impl RenderTarget {
    /// Positive bounded extents, one slot per pixel, and only
    /// well-formed samples stored.
    pub open spec fn wf(self) -> bool {
        &&& 0 < self.width <= MAX_DIM
        &&& 0 < self.height <= MAX_DIM
        &&& self.samples@.len() == self.width * self.height
        &&& forall|i: int|
            0 <= i < self.samples@.len() ==> (#[trigger] self.samples@[i] matches Option::Some(s)
                ==> s.wf())
    }

    /// The number of pixels.
    pub open spec fn pixel_count(self) -> int {
        self.width * self.height
    }

    /// Allocates a cleared target of the given extents. Allocation
    /// fails with a resource error exactly when an extent is zero or
    /// above the largest supported size.
    pub fn new(width: usize, height: usize, has_color: bool) -> (r: Result<RenderTarget, Error>)
        ensures
            r.is_ok() <==> (0 < width <= MAX_DIM && 0 < height <= MAX_DIM),
            r matches Err(e) ==> e == Error::Resource,
            r matches Ok(t) ==> {
                &&& t.wf()
                &&& t.width == width
                &&& t.height == height
                &&& t.has_color == has_color
                &&& forall|i: int| 0 <= i < t.samples@.len() ==> t.samples@[i] is None
            },
    {
        if width == 0 || width > MAX_DIM || height == 0 || height > MAX_DIM {
            return Err(Error::Resource);
        }
        proof {
            assert(width * height <= MAX_DIM * MAX_DIM) by (nonlinear_arith)
                requires
                    0 < width <= MAX_DIM,
                    0 < height <= MAX_DIM,
            ;
        }
        let n: usize = width * height;
        let mut samples: Vec<Option<Sample>> = Vec::new();
        let mut i: usize = 0;
        while i < n
            invariant
                i <= n,
                samples@.len() == i,
                forall|j: int| 0 <= j < i ==> samples@[j] is None,
            decreases n - i,
        {
            samples.push(Option::None);
            i = i + 1;
        }
        Ok(RenderTarget { width, height, has_color, samples })
    }

    /// Clears every pixel, as the start of a geometry pass does.
    pub fn clear(&mut self)
        requires
            old(self).wf(),
        ensures
            final(self).wf(),
            final(self).width == old(self).width,
            final(self).height == old(self).height,
            final(self).has_color == old(self).has_color,
            final(self).samples@.len() == old(self).samples@.len(),
            forall|i: int| 0 <= i < final(self).samples@.len() ==> final(self).samples@[i] is None,
    {
        let n: usize = self.samples.len();
        let mut i: usize = 0;
        while i < n
            invariant
                i <= n,
                self.samples@.len() == n,
                self.width == old(self).width,
                self.height == old(self).height,
                self.has_color == old(self).has_color,
                forall|j: int| 0 <= j < i ==> self.samples@[j] is None,
            decreases n - i,
        {
            self.samples[i] = Option::None;
            i = i + 1;
        }
    }

    /// Rasterizes a batch of fragments into the target, clipping
    /// out-of-range or malformed fragments and applying the depth test
    /// pixel by pixel.
    pub fn draw(&mut self, fragments: &Vec<Fragment>)
        requires
            old(self).wf(),
        ensures
            final(self).wf(),
            final(self).width == old(self).width,
            final(self).height == old(self).height,
            final(self).has_color == old(self).has_color,
            final(self).samples@ == rasterized(
                old(self).samples@,
                fragments@,
                fragments@.len() as int,
            ),
    {
        let n: usize = fragments.len();
        let mut i: usize = 0;
        while i < n
            invariant
                i <= n,
                n == fragments@.len(),
                old(self).wf(),
                self.width == old(self).width,
                self.height == old(self).height,
                self.has_color == old(self).has_color,
                self.samples@ == rasterized(old(self).samples@, fragments@, i as int),
            decreases n - i,
        {
            proof {
                lemma_rasterized_len(old(self).samples@, fragments@, i as int);
                lemma_rasterized_wf(old(self).samples@, fragments@, i as int);
            }
            let f = fragments[i];
            if f.pixel < self.samples.len() && f.sample.in_bounds() {
                let passes: bool = match &self.samples[f.pixel] {
                    Option::None => true,
                    Option::Some(c) => f.sample.depth < c.depth,
                };
                if passes {
                    self.samples[f.pixel] = Option::Some(f.sample);
                }
            }
            i = i + 1;
        }
        proof {
            lemma_rasterized_len(old(self).samples@, fragments@, n as int);
            lemma_rasterized_wf(old(self).samples@, fragments@, n as int);
        }
    }
}

} // verus!
