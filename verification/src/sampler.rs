//! Random sampling for the stochastic light and material integrators.
//!
//! The generator is rand's `StdRng`, passed explicitly through every
//! call that draws randomness, so determinism stays caller-controlled.
//! The only trusted surface is the uniform integer draw; the unit-ball
//! rejection sampling on top of it is ordinary verified code.

use vstd::prelude::*;
use crate::fixed::{Fx, FX_ONE};
use crate::vec3::{Vec3, vmagsq};

verus! {

#[verifier::external_type_specification]
#[verifier::external_body]
pub struct ExStdRng(rand::rngs::StdRng);

/// Relies on rand's `Rng::gen_range` over an inclusive `i64` range: the
/// draw is uniform over the range and always lies within it; the range
/// is nonempty, so the call cannot panic.
#[verifier::external_body]
pub(crate) fn sample_range_i64(rng: &mut rand::rngs::StdRng, lo: i64, hi: i64) -> (r: i64)
    requires
        lo <= hi,
    ensures
        lo <= r <= hi,
{
    rand::Rng::gen_range(rng, lo..=hi)
}

/// Whether a vector lies in the closed unit ball (components within
/// [-1, 1] and squared magnitude at most 1).
pub open spec fn in_unit_ball(v: Vec3) -> bool {
    &&& -(FX_ONE as int) <= v.x@ <= FX_ONE as int
    &&& -(FX_ONE as int) <= v.y@ <= FX_ONE as int
    &&& -(FX_ONE as int) <= v.z@ <= FX_ONE as int
    &&& vmagsq(v) <= FX_ONE as int
}

/// A scalar drawn uniformly from [-1, 1].
pub fn sample_pm1(rng: &mut rand::rngs::StdRng) -> (r: Fx)
    ensures
        -(FX_ONE as int) <= r@ <= FX_ONE as int,
{
    Fx::from_bits(sample_range_i64(rng, -FX_ONE, FX_ONE))
}

/// A vector drawn from the unit ball, by rejection from the enclosing
/// cube.  After an (astronomically unlikely) run of rejected draws the
/// ball's center is returned, so the function is total.
pub fn sample_unit_ball(rng: &mut rand::rngs::StdRng) -> (v: Vec3)
    ensures
        in_unit_ball(v),
{
    let mut attempt: u32 = 0;
    while attempt < 64
        decreases 64 - attempt,
    {
        let x = sample_pm1(rng);
        let y = sample_pm1(rng);
        let z = sample_pm1(rng);
        let cand = Vec3::new(x, y, z);
        if cand.mag_sq().le(Fx::one()) {
            return cand;
        }
        attempt = attempt + 1;
    }
    Vec3::zero()
}

} // verus!
