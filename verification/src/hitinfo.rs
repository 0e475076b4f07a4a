//! The value a successful intersection test yields.

use vstd::prelude::*;
use crate::vec3::Vec3;
use crate::fixed::Fx;

verus! {

/// One ray-surface intersection: the ray's direction, the distance along
/// it, the intersection point and the outward surface normal.  Produced
/// fresh per intersection test and never mutated.
#[derive(Clone, Copy, PartialEq, Eq, Structural, Debug)]
pub struct HitInfo {
    pub incoming_dir: Vec3,
    pub dist: Fx,
    pub intersection: Vec3,
    pub normal: Vec3,
}

} // verus!
