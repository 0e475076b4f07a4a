//! Linear radiance values with fixed-point channels.
//!
//! A `Color` is unbounded above 1.0 until tone mapping; the channel
//! arithmetic is the saturating fixed-point arithmetic of `Fx`.

use vstd::prelude::*;
use crate::fixed::{Fx, fx_add, fx_mul, fx_div};

verus! {

/// An RGB radiance triple.
#[derive(Clone, Copy, PartialEq, Eq, Structural, Debug)]
pub struct Color {
    pub r: Fx,
    pub g: Fx,
    pub b: Fx,
}

/// The colour with the given (in-range) channel bit patterns, in spec code.
pub open spec fn c3(r: int, g: int, b: int) -> Color {
    Color { r: Fx { bits: r as i64 }, g: Fx { bits: g as i64 }, b: Fx { bits: b as i64 } }
}

/// Channelwise sum.
pub open spec fn cadd(a: Color, b: Color) -> Color {
    c3(fx_add(a.r@, b.r@), fx_add(a.g@, b.g@), fx_add(a.b@, b.b@))
}

/// Channelwise product (radiance filtered by an albedo or tint).
pub open spec fn cmul(a: Color, b: Color) -> Color {
    c3(fx_mul(a.r@, b.r@), fx_mul(a.g@, b.g@), fx_mul(a.b@, b.b@))
}

/// Every channel scaled by the scalar with bit pattern `s`.
pub open spec fn cscale(a: Color, s: int) -> Color {
    c3(fx_mul(a.r@, s), fx_mul(a.g@, s), fx_mul(a.b@, s))
}

/// Every channel divided by the scalar with bit pattern `s`.
pub open spec fn cdivs(a: Color, s: int) -> Color {
    c3(fx_div(a.r@, s), fx_div(a.g@, s), fx_div(a.b@, s))
}

/// The sum of a sequence of colours, added left to right.
pub open spec fn csum(cs: Seq<Color>) -> Color
    decreases cs.len(),
{
    if cs.len() == 0 {
        c3(0, 0, 0)
    } else {
        cadd(csum(cs.drop_last()), cs.last())
    }
}

impl Color {
    /// The colour with the given channels.
    pub fn new(r: Fx, g: Fx, b: Fx) -> (c: Color)
        ensures
            c == (Color { r, g, b }),
    {
        Color { r, g, b }
    }

    /// Black: all channels zero.
    pub fn black() -> (c: Color)
        ensures
            c == c3(0, 0, 0),
    {
        Color { r: Fx::zero(), g: Fx::zero(), b: Fx::zero() }
    }

    /// Channelwise sum.
    pub fn add(self, o: Color) -> (c: Color)
        ensures
            c == cadd(self, o),
    {
        Color { r: self.r.add(o.r), g: self.g.add(o.g), b: self.b.add(o.b) }
    }

    /// Channelwise product.
    pub fn mul(self, o: Color) -> (c: Color)
        ensures
            c == cmul(self, o),
    {
        Color { r: self.r.mul(o.r), g: self.g.mul(o.g), b: self.b.mul(o.b) }
    }

    /// Every channel scaled by `s`.
    pub fn scale(self, s: Fx) -> (c: Color)
        ensures
            c == cscale(self, s@),
    {
        Color { r: self.r.mul(s), g: self.g.mul(s), b: self.b.mul(s) }
    }

    /// Every channel divided by `s`.
    pub fn div_scalar(self, s: Fx) -> (c: Color)
        ensures
            c == cdivs(self, s@),
    {
        Color { r: self.r.div(s), g: self.g.div(s), b: self.b.div(s) }
    }
}

} // verus!
