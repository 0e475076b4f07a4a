//! Intersectable shapes: sphere, single-sided infinite plane, and disc.
//!
//! Each `intersect` returns the nearest acceptable hit of a ray, or
//! `None` for the ordinary no-intersection outcomes (miss, parallel or
//! wrongly facing plane, root behind or too close to the origin).  The
//! spec functions state the returned value exactly, in the fixed-point
//! arithmetic of the library.

use vstd::prelude::*;
use crate::fixed::{Fx, FX_ONE, fx_add, fx_sub, fx_mul, fx_div, fx_sqrt, sat64};
use crate::vec3::{Vec3, fx, vadd, vsub, vdot, vmagsq, vscale, vnormalize};
use crate::hitinfo::HitInfo;

verus! {

/// Roots at or below this distance (about 1e-6) are rejected, so that a
/// recursive ray never re-hits the surface it starts on.
pub const HIT_EPS: i64 = 17;

/// A plane is treated as single-sided: the ray direction must point
/// against the normal by more than about 1e-4.
pub const FACING_EPS: i64 = 1678;

/// A sphere given by its center and radius.
#[derive(Clone, Copy, PartialEq, Eq, Structural, Debug)]
pub struct Sphere {
    pub pos: Vec3,
    pub radius: Fx,
}

/// An infinite single-sided plane through `pos` with unit normal `norm`.
#[derive(Clone, Copy, PartialEq, Eq, Structural, Debug)]
pub struct InfinitePlane {
    pub pos: Vec3,
    pub norm: Vec3,
}

/// A flat disc: the part of a plane within squared distance `r_sq` of `pos`.
#[derive(Clone, Copy, PartialEq, Eq, Structural, Debug)]
pub struct Disc {
    pub pos: Vec3,
    pub norm: Vec3,
    pub r_sq: Fx,
}

/// The closed set of shape variants.
#[derive(Clone, Copy, PartialEq, Eq, Structural, Debug)]
pub enum Shapes {
    Sphere(Sphere),
    InfinitePlane(InfinitePlane),
    Disc(Disc),
}

/// The hit a sphere yields: the smallest positive root of
/// `|O + t D - C|^2 = r^2`, rejected when the discriminant is negative
/// or that root is within `HIT_EPS` of the origin.  The near root is the
/// smallest positive one when it is positive; when it is not — the ray
/// starts inside the sphere — the far wall's root takes its place, under
/// the same epsilon rejection.  The normal points outward from the
/// center, also for a hit from the inside.
#[verifier::opaque]
pub open spec fn sphere_hit(s: Sphere, origin: Vec3, dir: Vec3) -> Option<HitInfo> {
    let dac = vsub(origin, s.pos);
    let b = fx_mul(2 * (FX_ONE as int), vdot(dir, dac));
    let c = fx_sub(vmagsq(dac), fx_mul(s.radius@, s.radius@));
    let disc = fx_sub(fx_mul(b, b), fx_mul(4 * (FX_ONE as int), c));
    if disc < 0 {
        None
    } else {
        let near = fx_div(fx_sub(sat64(-b), fx_sqrt(disc)), 2 * (FX_ONE as int));
        let far = fx_div(fx_add(sat64(-b), fx_sqrt(disc)), 2 * (FX_ONE as int));
        let dist_opt: Option<int> = if near > HIT_EPS {
            Some(near)
        } else if near > 0 {
            None
        } else if far > HIT_EPS {
            Some(far)
        } else {
            None
        };
        match dist_opt {
            None => None,
            Some(dist) => {
                let ipoint = vadd(origin, vscale(dir, dist));
                Some(
                    HitInfo {
                        incoming_dir: dir,
                        dist: fx(dist),
                        intersection: ipoint,
                        normal: vnormalize(vsub(ipoint, s.pos)),
                    },
                )
            },
        }
    }
}

/// The hit a single-sided plane yields: `t = (P - O) . N / (D . N)`,
/// rejected when the ray is parallel to or facing with the normal, or
/// when `t` is not positive.  The normal reported is the plane's own.
#[verifier::opaque]
pub open spec fn plane_hit(pos: Vec3, norm: Vec3, origin: Vec3, dir: Vec3) -> Option<HitInfo> {
    let deno = vdot(dir, norm);
    if deno > -FACING_EPS {
        None
    } else {
        let dist = fx_div(vdot(vsub(pos, origin), norm), deno);
        if dist > 0 {
            Some(
                HitInfo {
                    incoming_dir: dir,
                    dist: fx(dist),
                    intersection: vadd(origin, vscale(dir, dist)),
                    normal: norm,
                },
            )
        } else {
            None
        }
    }
}

/// The hit a disc yields: the plane hit, kept only when the intersection
/// lies strictly within squared distance `r_sq` of the disc center.
#[verifier::opaque]
pub open spec fn disc_hit(d: Disc, origin: Vec3, dir: Vec3) -> Option<HitInfo> {
    match plane_hit(d.pos, d.norm, origin, dir) {
        Some(hit) => if vmagsq(vsub(hit.intersection, d.pos)) < d.r_sq@ {
            Some(hit)
        } else {
            None
        },
        None => None,
    }
}

/// The hit of any shape variant.
pub open spec fn shape_hit(s: Shapes, origin: Vec3, dir: Vec3) -> Option<HitInfo> {
    match s {
        Shapes::Sphere(sp) => sphere_hit(sp, origin, dir),
        Shapes::InfinitePlane(p) => plane_hit(p.pos, p.norm, origin, dir),
        Shapes::Disc(d) => disc_hit(d, origin, dir),
    }
}

impl Sphere {
    /// Intersects a ray with the sphere.
    pub fn intersect(&self, origin: Vec3, dir: Vec3) -> (r: Option<HitInfo>)
        ensures
            r == sphere_hit(*self, origin, dir),
    {
        proof {
            reveal(sphere_hit);
        }
        let dac = origin.sub(self.pos);
        let two = Fx::from_int(2);
        let four = Fx::from_int(4);
        let b = two.mul(dir.dot(dac));
        let c = dac.mag_sq().sub(self.radius.mul(self.radius));
        let disc = b.mul(b).sub(four.mul(c));
        if disc.lt(Fx::zero()) {
            None
        } else {
            let eps = Fx::from_bits(HIT_EPS);
            let near = b.neg().sub(disc.sqrt()).div(two);
            let far = b.neg().add(disc.sqrt()).div(two);
            let dist_opt: Option<Fx> = if eps.lt(near) {
                Some(near)
            } else if near.is_pos() {
                None
            } else if eps.lt(far) {
                Some(far)
            } else {
                None
            };
            match dist_opt {
                None => None,
                Some(dist) => {
                    let ipoint = origin.add(dir.scale(dist));
                    Some(
                        HitInfo {
                            incoming_dir: dir,
                            dist,
                            intersection: ipoint,
                            normal: ipoint.sub(self.pos).normalize(),
                        },
                    )
                },
            }
        }
    }
}

impl InfinitePlane {
    /// Intersects a ray with the single-sided plane.
    pub fn intersect(&self, origin: Vec3, dir: Vec3) -> (r: Option<HitInfo>)
        ensures
            r == plane_hit(self.pos, self.norm, origin, dir),
    {
        plane_intersect(self.pos, self.norm, origin, dir)
    }
}

/// The shared ray-plane test, used by both the plane and the disc.
fn plane_intersect(pos: Vec3, norm: Vec3, origin: Vec3, dir: Vec3) -> (r: Option<HitInfo>)
    ensures
        r == plane_hit(pos, norm, origin, dir),
{
    proof {
        reveal(plane_hit);
    }
    let deno = dir.dot(norm);
    if Fx::from_bits(-FACING_EPS).lt(deno) {
        None
    } else {
        let dist = pos.sub(origin).dot(norm).div(deno);
        if dist.is_pos() {
            Some(
                HitInfo {
                    incoming_dir: dir,
                    dist,
                    intersection: origin.add(dir.scale(dist)),
                    normal: norm,
                },
            )
        } else {
            None
        }
    }
}

impl Disc {
    /// A disc from its center, normal and radius; the squared radius is
    /// what the intersection test stores and uses.
    pub fn new(pos: Vec3, norm: Vec3, r: Fx) -> (d: Disc)
        ensures
            d.pos == pos,
            d.norm == norm,
            d.r_sq@ == fx_mul(r@, r@),
    {
        Disc { pos, norm, r_sq: r.mul(r) }
    }

    /// Intersects a ray with the disc.
    pub fn intersect(&self, origin: Vec3, dir: Vec3) -> (r: Option<HitInfo>)
        ensures
            r == disc_hit(*self, origin, dir),
    {
        proof {
            reveal(disc_hit);
        }
        match plane_intersect(self.pos, self.norm, origin, dir) {
            Some(hit) => {
                if hit.intersection.sub(self.pos).mag_sq().lt(self.r_sq) {
                    Some(hit)
                } else {
                    None
                }
            },
            None => None,
        }
    }
}

impl Shapes {
    /// Intersects a ray with whichever shape this is.
    pub fn intersect(&self, origin: Vec3, dir: Vec3) -> (r: Option<HitInfo>)
        ensures
            r == shape_hit(*self, origin, dir),
    {
        match self {
            Shapes::Sphere(s) => s.intersect(origin, dir),
            Shapes::InfinitePlane(p) => p.intersect(origin, dir),
            Shapes::Disc(d) => d.intersect(origin, dir),
        }
    }
}

} // verus!
