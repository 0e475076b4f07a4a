//! Surface materials: Lambertian diffuse, rough mirror, perfect mirror.
//!
//! A material only carries its parameters; the outgoing radiance is
//! computed by the renderer's recursive shading, which dispatches on the
//! closed set of variants below.

use vstd::prelude::*;
use crate::color::Color;
use crate::fixed::Fx;

verus! {

/// A Lambertian surface with the given albedo.
#[derive(Clone, Copy, PartialEq, Eq, Structural, Debug)]
pub struct Diffuse {
    pub color: Color,
}

/// A rough mirror: the ideal mirror direction is perturbed by `iteration`
/// unit-ball samples scaled by `roughness`, and the shaded results are
/// averaged.
#[derive(Clone, Copy, PartialEq, Eq, Structural, Debug)]
pub struct Reflective {
    pub roughness: Fx,
    pub iteration: u32,
}

/// An ideal mirror with a tint.
#[derive(Clone, Copy, PartialEq, Eq, Structural, Debug)]
pub struct PerfectReflective {
    pub color: Color,
}

/// The closed set of material variants.
#[derive(Clone, Copy, PartialEq, Eq, Structural, Debug)]
pub enum Materials {
    Diffuse(Diffuse),
    Reflective(Reflective),
    PerfectReflective(PerfectReflective),
}

impl Diffuse {
    /// A diffuse material with the given albedo.
    pub fn new(color: Color) -> (m: Diffuse)
        ensures
            m.color == color,
    {
        Diffuse { color }
    }
}

impl Reflective {
    /// A rough mirror with the given roughness and sample count.
    pub fn new(roughness: Fx, iteration: u32) -> (m: Reflective)
        ensures
            m.roughness == roughness,
            m.iteration == iteration,
    {
        Reflective { roughness, iteration }
    }
}

impl PerfectReflective {
    /// A perfect mirror with the given tint.
    pub fn new(color: Color) -> (m: PerfectReflective)
        ensures
            m.color == color,
    {
        PerfectReflective { color }
    }
}

} // verus!
