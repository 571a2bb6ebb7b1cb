//! The viewport a frame is presented on.

use vstd::prelude::*;
use crate::math::{MAX_DIM, SCALE};

verus! {

/// Width and height of the presentation surface, in pixels.
#[derive(Clone, Copy, PartialEq, Eq, Structural, Debug)]
pub struct Screen {
    pub width: usize,
    pub height: usize,
}

impl Screen {
    /// Both extents are positive and within the largest target size.
    pub open spec fn wf(self) -> bool {
        &&& 0 < self.width <= MAX_DIM
        &&& 0 < self.height <= MAX_DIM
    }

    /// The width-to-height ratio, in fixed-point thousandths, raised to
    /// one step where the exact ratio would round down to zero.
    pub fn aspect(&self) -> (r: i64)
        requires
            self.wf(),
        ensures
            r == crate::math::clamped(self.width * SCALE / self.height as int, 1, i64::MAX as int),
            r > 0,
    {
        let q: i64 = (self.width as i64) * SCALE / (self.height as i64);
        if q < 1 {
            1
        } else {
            q
        }
    }
}

} // verus!
