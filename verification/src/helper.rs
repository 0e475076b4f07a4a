//! Shared numeric helpers for ray directions.

use vstd::prelude::*;
use crate::fixed::FX_ONE;
use crate::vec3::{Vec3, vmag, vreflect, vnormalize};

verus! {

/// The magnitude a unit direction must have, within 1e-6: 17 steps of
/// the fixed-point grid around 1.0.
pub open spec fn near_unit(v: Vec3) -> bool {
    FX_ONE - 17 <= vmag(v) <= FX_ONE + 17
}

/// The mirror direction for an incoming ray at a surface normal:
/// `d - 2 (d . n) n`, renormalized.
pub fn calculate_reflect_ray(incoming_ray: Vec3, normal: Vec3) -> (r: Vec3)
    ensures
        r == vreflect(incoming_ray, normal),
{
    incoming_ray.reflect(normal)
}

/// Rescales a vector that is owed to be a unit direction already.  A
/// non-unit argument is a contract violation of unit-direction
/// construction, so the precondition rejects it; where the unverified
/// build would trust the invariant, the verified one proves it at every
/// call site.
pub fn debug_normalize(v: Vec3) -> (r: Vec3)
    requires
        near_unit(v),
    ensures
        r == vnormalize(v),
{
    v.normalize()
}

} // verus!
