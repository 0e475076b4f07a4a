//! The per-ray-chain recursion counter.

use vstd::prelude::*;

verus! {

/// Counts the rays cast so far along one recursive chain.  The counter
/// strictly increases along a chain and is never shared between chains;
/// it is the sole termination guarantee of the recursive shading.
#[derive(Clone, Copy, PartialEq, Eq, Structural, Debug)]
pub struct RayCastInfo {
    pub ray_number: usize,
}

impl RayCastInfo {
    /// A fresh chain: no rays cast yet.
    pub fn new() -> (r: RayCastInfo)
        ensures
            r.ray_number == 0,
    {
        RayCastInfo { ray_number: 0 }
    }

    /// Records one more cast ray.
    pub fn increment_ray_number(&mut self)
        requires
            old(self).ray_number < usize::MAX,
        ensures
            final(self).ray_number == old(self).ray_number + 1,
    {
        self.ray_number = self.ray_number + 1;
    }

    /// How many rays this chain has cast.
    pub fn ray_depth(&self) -> (r: usize)
        ensures
            r == self.ray_number,
    {
        self.ray_number
    }
}

} // verus!
