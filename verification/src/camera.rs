//! The camera: a position and an orthonormal basis, mapping pixel
//! coordinates to world-space ray directions.

use vstd::prelude::*;
use crate::fixed::{Fx, FX_ONE, fx_mul};
use crate::vec3::{Vec3, vadd, vsub, vscale, vnormalize};

verus! {

/// A camera at `pos` whose viewing basis is a rotation of the scene's
/// canonical axes: `forward` from +x, `right` from +y, `up` from +z.
/// The basis is computed once, outside the library, from the rotation.
#[derive(Clone, Copy, PartialEq, Eq, Structural, Debug)]
pub struct Camera {
    pub pos: Vec3,
    pub forward: Vec3,
    pub right: Vec3,
    pub up: Vec3,
}

/// The ray direction through pixel `(px, py)`:
/// `forward + i * right - j * up`, normalized, where `i` and `j` are the
/// pixel offsets from the image center scaled by `unit_per_pixel`.  The
/// vertical term is subtracted so that a growing pixel row moves the ray
/// downward while world `up` grows.
pub open spec fn camera_ray(
    c: Camera,
    px: int,
    py: int,
    unit_per_pixel: int,
    half_width: int,
    half_height: int,
) -> Vec3 {
    let i = fx_mul(unit_per_pixel, (px - half_width) * (FX_ONE as int));
    let j = fx_mul(unit_per_pixel, (py - half_height) * (FX_ONE as int));
    vnormalize(vsub(vadd(c.forward, vscale(c.right, i)), vscale(c.up, j)))
}

impl Camera {
    /// A camera from its position and rotated basis vectors.
    pub fn new(pos: Vec3, forward: Vec3, right: Vec3, up: Vec3) -> (c: Camera)
        ensures
            c == (Camera { pos, forward, right, up }),
    {
        Camera { pos, forward, right, up }
    }

    /// The ray direction through the given pixel.
    pub fn ray_at_pixel_position(
        &self,
        px: u32,
        py: u32,
        unit_per_pixel: Fx,
        half_width: u32,
        half_height: u32,
    ) -> (r: Vec3)
        ensures
            r == camera_ray(
                *self,
                px as int,
                py as int,
                unit_per_pixel@,
                half_width as int,
                half_height as int,
            ),
    {
        let dx: i64 = (px as i64 - half_width as i64) * FX_ONE;
        let dy: i64 = (py as i64 - half_height as i64) * FX_ONE;
        let i = unit_per_pixel.mul(Fx::from_bits(dx));
        let j = unit_per_pixel.mul(Fx::from_bits(dy));
        self.forward.add(self.right.scale(i)).sub(self.up.scale(j)).normalize()
    }
}

} // verus!
