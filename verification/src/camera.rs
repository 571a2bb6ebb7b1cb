//! A perspective camera and its mirror transform.

use vstd::prelude::*;
use crate::math::Vec3;

verus! {

/// Exclusive upper bound on a field of view, in fixed-point radians:
/// the first integer above pi in thousandths.
pub const FOV_LIMIT: i64 = 3142;

/// A perspective camera: an eye point looking at a target with a given
/// up direction, field of view, aspect ratio and clip planes.
#[derive(Clone, Copy, PartialEq, Eq, Structural, Debug)]
pub struct Camera {
    pub position: Vec3,
    pub target: Vec3,
    pub up: Vec3,
    pub aspect: i64,
    pub fov: i64,
    pub near: i64,
    pub far: i64,
}

impl Camera {
    /// The camera's invariant: bounded vectors, a positive field of view
    /// below pi, and clip planes with `0 < near < far`.
    pub open spec fn wf(self) -> bool {
        &&& self.position.wf()
        &&& self.target.wf()
        &&& self.up.wf()
        &&& 0 < self.aspect
        &&& 0 < self.fov < FOV_LIMIT
        &&& 0 < self.near < self.far
    }

    /// Builds a camera from its parameters.
    pub fn new(position: Vec3, target: Vec3, up: Vec3, aspect: i64, fov: i64, near: i64, far: i64) -> (c: Camera)
        requires
            position.wf(),
            target.wf(),
            up.wf(),
            0 < aspect,
            0 < fov < FOV_LIMIT,
            0 < near < far,
        ensures
            c == (Camera { position, target, up, aspect, fov, near, far }),
            c.wf(),
    {
        Camera { position, target, up, aspect, fov, near, far }
    }

    /// The camera reflected across the horizontal plane `y = 0`: the eye,
    /// the target and the up direction all have their `y` negated, so the
    /// view direction is mirrored as well.
    pub open spec fn mirrored_spec(self) -> Camera {
        Camera {
            position: self.position.reflected_y(),
            target: self.target.reflected_y(),
            up: self.up.reflected_y(),
            aspect: self.aspect,
            fov: self.fov,
            near: self.near,
            far: self.far,
        }
    }

    /// Reflects the camera in place across the plane `y = 0`, for the
    /// mirror pass. Applying the transform twice restores the camera
    /// exactly, so a caller brackets the mirrored passes with one call
    /// on each side.
    pub fn mirror_in_xz_plane(&mut self)
        requires
            old(self).wf(),
        ensures
            *final(self) == old(self).mirrored_spec(),
            final(self).wf(),
    {
        self.position.y = -self.position.y;
        self.target.y = -self.target.y;
        self.up.y = -self.up.y;
    }
}

/// Mirroring a camera across the horizontal plane is an involution:
/// two applications give back the original camera, field for field.
pub proof fn lemma_mirror_involution(c: Camera)
    requires
        c.wf(),
    ensures
        c.mirrored_spec().mirrored_spec() == c,
{
}

} // verus!
