//! Three-component fixed-point vectors and points.
//!
//! The spec functions state each operation exactly, over the raw bit
//! patterns of the components; the executable methods are proved to
//! return precisely those values.

use vstd::prelude::*;
use crate::fixed::{Fx, FX_ONE, fx_add, fx_sub, fx_mul, fx_div, fx_sqrt, sat64, tdiv, int_abs,
    lemma_tdiv_brackets, lemma_sqrt_bounds, sqrt_of};

verus! {

/// A vector (or point) with fixed-point components.
#[derive(Clone, Copy, PartialEq, Eq, Structural, Debug)]
pub struct Vec3 {
    pub x: Fx,
    pub y: Fx,
    pub z: Fx,
}

/// The scalar with the given (in-range) bit pattern, in spec code.
pub open spec fn fx(v: int) -> Fx {
    Fx { bits: v as i64 }
}

/// The vector with the given (in-range) component bit patterns, in spec code.
pub open spec fn v3(x: int, y: int, z: int) -> Vec3 {
    Vec3 { x: fx(x), y: fx(y), z: fx(z) }
}

/// Componentwise sum.
pub open spec fn vadd(a: Vec3, b: Vec3) -> Vec3 {
    v3(fx_add(a.x@, b.x@), fx_add(a.y@, b.y@), fx_add(a.z@, b.z@))
}

/// Componentwise difference.
pub open spec fn vsub(a: Vec3, b: Vec3) -> Vec3 {
    v3(fx_sub(a.x@, b.x@), fx_sub(a.y@, b.y@), fx_sub(a.z@, b.z@))
}

/// Componentwise negation.
pub open spec fn vneg(a: Vec3) -> Vec3 {
    v3(sat64(-a.x@), sat64(-a.y@), sat64(-a.z@))
}

/// The vector scaled by the scalar with bit pattern `s`.
pub open spec fn vscale(a: Vec3, s: int) -> Vec3 {
    v3(fx_mul(a.x@, s), fx_mul(a.y@, s), fx_mul(a.z@, s))
}

/// The vector divided componentwise by the scalar with bit pattern `s`.
pub open spec fn vdivs(a: Vec3, s: int) -> Vec3 {
    v3(fx_div(a.x@, s), fx_div(a.y@, s), fx_div(a.z@, s))
}

/// Dot product, summed left to right.
pub open spec fn vdot(a: Vec3, b: Vec3) -> int {
    fx_add(fx_add(fx_mul(a.x@, b.x@), fx_mul(a.y@, b.y@)), fx_mul(a.z@, b.z@))
}

/// Squared magnitude.
pub open spec fn vmagsq(a: Vec3) -> int {
    vdot(a, a)
}

/// Magnitude.
pub open spec fn vmag(a: Vec3) -> int {
    fx_sqrt(vmagsq(a))
}

/// The vector rescaled to unit length: each component divided by the
/// magnitude.  Total like every operation here; a vector whose computed
/// magnitude is zero keeps the saturating-division semantics of `fx_div`.
pub open spec fn vnormalize(a: Vec3) -> Vec3 {
    vdivs(a, vmag(a))
}

/// The mirror direction: `d - 2 (d . n) n`, renormalized.
pub open spec fn vreflect(d: Vec3, n: Vec3) -> Vec3 {
    vnormalize(vsub(d, vscale(n, fx_mul(2 * (FX_ONE as int), vdot(d, n)))))
}


/// One step of the unit-direction analysis: what one normalized
/// component looks like, given the magnitude `m` of the vector.
proof fn normalize_component_bounds(a: int, m: int, mplus: int)
    requires
        -0x400_0000_0000 <= a <= 0x400_0000_0000,
        FX_ONE as int - 17 <= m,
        m < 0x800_0000_0000,
        int_abs(a) < mplus,
        mplus <= 4 * m,
    ensures
        fx_div(a, m) == tdiv(a * (FX_ONE as int), m),
        int_abs(tdiv(a * (FX_ONE as int), m)) * m <= int_abs(a) * (FX_ONE as int),
        int_abs(a) * (FX_ONE as int) < (int_abs(tdiv(a * (FX_ONE as int), m)) + 1) * m,
        int_abs(tdiv(a * (FX_ONE as int), m)) < 4 * (FX_ONE as int),
{
    let s = FX_ONE as int;
    let w = tdiv(a * s, m);
    lemma_tdiv_brackets(a * s, m);
    assert(int_abs(a * s) == int_abs(a) * s) by (nonlinear_arith)
        requires s > 0;
    assert(int_abs(a) * s < mplus * s <= 4 * m * s) by (nonlinear_arith)
        requires int_abs(a) < mplus, mplus <= 4 * m, s > 0, m > 0;
    assert(int_abs(w) < 4 * s) by (nonlinear_arith)
        requires
            int_abs(w) * m <= int_abs(a) * s,
            int_abs(a) * s < 4 * m * s,
            m > 0,
            s > 0;
    assert(int_abs(w) * 8388608 <= int_abs(w) * m) by (nonlinear_arith)
        requires int_abs(w) >= 0, 8388608 <= m;
    assert(int_abs(w) * 8388608 <= 0x400_0000_0000 * s) by {
        assert(int_abs(a) * s <= 0x400_0000_0000 * s);
    };
    assert(sat64(w) == w);
}

/// The unit-direction law: normalizing a vector whose components fit
/// well inside the scalar range and whose magnitude is at least 1 less
/// 1e-6 yields a vector whose magnitude is 1 within 1e-6, that is,
/// within 17 fixed-point steps.  In particular every vector that is
/// already a unit direction within tolerance may be renormalized and
/// stays one.
///
/// A vector far smaller than 1 genuinely escapes the law: its squared
/// magnitude truncates toward zero and the division degenerates, which
/// is why the lower bound on the magnitude is required.
pub proof fn lemma_normalize_unit(v: Vec3)
    requires
        int_abs(v.x@) <= 0x400_0000_0000,
        int_abs(v.y@) <= 0x400_0000_0000,
        int_abs(v.z@) <= 0x400_0000_0000,
        FX_ONE - 17 <= vmag(v),
    ensures
        FX_ONE - 17 <= vmag(vnormalize(v)) <= FX_ONE + 17,
{
    let s = FX_ONE as int;
    let ax = v.x@;
    let ay = v.y@;
    let az = v.z@;
    let qq = ax * ax + ay * ay + az * az;

    // The fixed-point squared magnitude brackets the exact one.
    assert(0 <= ax * ax <= 0x10_0000_0000_0000_0000_0000) by (nonlinear_arith)
        requires -0x400_0000_0000 <= ax <= 0x400_0000_0000;
    assert(0 <= ay * ay <= 0x10_0000_0000_0000_0000_0000) by (nonlinear_arith)
        requires -0x400_0000_0000 <= ay <= 0x400_0000_0000;
    assert(0 <= az * az <= 0x10_0000_0000_0000_0000_0000) by (nonlinear_arith)
        requires -0x400_0000_0000 <= az <= 0x400_0000_0000;
    let t1 = tdiv(ax * ax, s);
    let t2 = tdiv(ay * ay, s);
    let t3 = tdiv(az * az, s);
    lemma_tdiv_brackets(ax * ax, s);
    lemma_tdiv_brackets(ay * ay, s);
    lemma_tdiv_brackets(az * az, s);
    let q = vmagsq(v);
    assert(q == t1 + t2 + t3);
    assert(q * s <= qq);
    assert(qq < q * s + 3 * s);

    // The fixed-point magnitude brackets the square root; the magnitude
    // hypothesis keeps it close to one from below.
    let m = vmag(v);
    assert(m >= s - 17);
    if q <= 0 {
        assert(m == 0);
        assert(false);
    }
    assert(m == sqrt_of(q * s));
    lemma_sqrt_bounds(q * s);
    assert(0 <= m && m * m <= q * s && q * s < (m + 1) * (m + 1));
    assert(m < 0x800_0000_0000) by (nonlinear_arith)
        requires
            m * m <= q * s,
            q * s <= qq,
            qq <= 3 * 0x10_0000_0000_0000_0000_0000,
            m >= 0;

    // Every component is small next to the magnitude.
    let mplus = m + 2 * s;
    assert(ax * ax <= qq && ay * ay <= qq && az * az <= qq);
    assert(qq < m * m + 2 * m + 1 + 3 * s) by (nonlinear_arith)
        requires
            qq < q * s + 3 * s,
            q * s < (m + 1) * (m + 1);
    assert(m * m + 2 * m + 1 + 3 * s < mplus * mplus) by (nonlinear_arith)
        requires
            mplus == m + 2 * s,
            m >= s - 17,
            s == 16777216;
    assert(int_abs(ax) < mplus && int_abs(ay) < mplus && int_abs(az) < mplus) by (nonlinear_arith)
        requires
            ax * ax < mplus * mplus,
            ay * ay < mplus * mplus,
            az * az < mplus * mplus,
            mplus > 0;
    assert(mplus <= 4 * m);

    // The normalized components, with their division brackets.
    normalize_component_bounds(ax, m, mplus);
    normalize_component_bounds(ay, m, mplus);
    normalize_component_bounds(az, m, mplus);
    let w1 = tdiv(ax * s, m);
    let w2 = tdiv(ay * s, m);
    let w3 = tdiv(az * s, m);
    let u = vnormalize(v);
    assert(u.x@ == w1 && u.y@ == w2 && u.z@ == w3);

    // The squared magnitude of the normalized vector.
    let ww = w1 * w1 + w2 * w2 + w3 * w3;
    assert(w1 * w1 == int_abs(w1) * int_abs(w1) && 0 <= w1 * w1 < 16 * s * s) by (nonlinear_arith)
        requires int_abs(w1) < 4 * s, s > 0;
    assert(w2 * w2 == int_abs(w2) * int_abs(w2) && 0 <= w2 * w2 < 16 * s * s) by (nonlinear_arith)
        requires int_abs(w2) < 4 * s, s > 0;
    assert(w3 * w3 == int_abs(w3) * int_abs(w3) && 0 <= w3 * w3 < 16 * s * s) by (nonlinear_arith)
        requires int_abs(w3) < 4 * s, s > 0;
    let r1 = tdiv(w1 * w1, s);
    let r2 = tdiv(w2 * w2, s);
    let r3 = tdiv(w3 * w3, s);
    lemma_tdiv_brackets(w1 * w1, s);
    lemma_tdiv_brackets(w2 * w2, s);
    lemma_tdiv_brackets(w3 * w3, s);
    let bigw = vmagsq(u);
    assert(bigw == r1 + r2 + r3);
    assert(bigw * s <= ww);
    assert(ww < bigw * s + 3 * s);

    // Upper bound: the squared magnitude cannot exceed 1 by much.
    assert(ax * ax == int_abs(ax) * int_abs(ax)) by (nonlinear_arith);
    assert(ay * ay == int_abs(ay) * int_abs(ay)) by (nonlinear_arith);
    assert(az * az == int_abs(az) * int_abs(az)) by (nonlinear_arith);
    assert(w1 * w1 * (m * m) <= ax * ax * (s * s)) by (nonlinear_arith)
        requires
            int_abs(w1) * m <= int_abs(ax) * s,
            int_abs(w1) >= 0,
            int_abs(ax) >= 0,
            m > 0,
            s > 0,
            w1 * w1 == int_abs(w1) * int_abs(w1),
            ax * ax == int_abs(ax) * int_abs(ax);
    assert(w2 * w2 * (m * m) <= ay * ay * (s * s)) by (nonlinear_arith)
        requires
            int_abs(w2) * m <= int_abs(ay) * s,
            int_abs(w2) >= 0,
            int_abs(ay) >= 0,
            m > 0,
            s > 0,
            w2 * w2 == int_abs(w2) * int_abs(w2),
            ay * ay == int_abs(ay) * int_abs(ay);
    assert(w3 * w3 * (m * m) <= az * az * (s * s)) by (nonlinear_arith)
        requires
            int_abs(w3) * m <= int_abs(az) * s,
            int_abs(w3) >= 0,
            int_abs(az) >= 0,
            m > 0,
            s > 0,
            w3 * w3 == int_abs(w3) * int_abs(w3),
            az * az == int_abs(az) * int_abs(az);
    assert(ww * (m * m) <= qq * (s * s)) by (nonlinear_arith)
        requires
            ww == w1 * w1 + w2 * w2 + w3 * w3,
            qq == ax * ax + ay * ay + az * az,
            w1 * w1 * (m * m) <= ax * ax * (s * s),
            w2 * w2 * (m * m) <= ay * ay * (s * s),
            w3 * w3 * (m * m) <= az * az * (s * s);
    assert(bigw * s * (m * m) <= ww * (m * m)) by (nonlinear_arith)
        requires
            bigw * s <= ww,
            m * m >= 0;
    assert(qq * (s * s) == (qq * s) * s && bigw * s * (m * m) == (bigw * (m * m)) * s)
        by (nonlinear_arith);
    assert(bigw * (m * m) <= qq * s);
    assert(qq * s < (m * m + 2 * m + 1 + 3 * s) * s) by (nonlinear_arith)
        requires
            qq < m * m + 2 * m + 1 + 3 * s,
            s > 0;
    assert((m * m + 2 * m + 1 + 3 * s) * s <= (s + 6) * (m * m)) by (nonlinear_arith)
        requires
            m >= s - 17,
            s == 16777216;
    assert(bigw < s + 6) by (nonlinear_arith)
        requires
            bigw * (m * m) < (s + 6) * (m * m),
            m * m > 0;

    // Lower bound: the squared magnitude cannot fall short of 1 by much.
    assert((int_abs(w1) + 1) * (int_abs(w1) + 1) * (m * m) > ax * ax * (s * s)) by (nonlinear_arith)
        requires
            int_abs(ax) * s < (int_abs(w1) + 1) * m,
            int_abs(w1) >= 0,
            int_abs(ax) >= 0,
            m > 0,
            s > 0,
            ax * ax == int_abs(ax) * int_abs(ax);
    assert((int_abs(w2) + 1) * (int_abs(w2) + 1) * (m * m) > ay * ay * (s * s)) by (nonlinear_arith)
        requires
            int_abs(ay) * s < (int_abs(w2) + 1) * m,
            int_abs(w2) >= 0,
            int_abs(ay) >= 0,
            m > 0,
            s > 0,
            ay * ay == int_abs(ay) * int_abs(ay);
    assert((int_abs(w3) + 1) * (int_abs(w3) + 1) * (m * m) > az * az * (s * s)) by (nonlinear_arith)
        requires
            int_abs(az) * s < (int_abs(w3) + 1) * m,
            int_abs(w3) >= 0,
            int_abs(az) >= 0,
            m > 0,
            s > 0,
            az * az == int_abs(az) * int_abs(az);
    assert((int_abs(w1) + 1) * (int_abs(w1) + 1) <= w1 * w1 + 8 * s + 1) by (nonlinear_arith)
        requires
            w1 * w1 == int_abs(w1) * int_abs(w1),
            0 <= int_abs(w1) < 4 * s;
    assert((int_abs(w2) + 1) * (int_abs(w2) + 1) <= w2 * w2 + 8 * s + 1) by (nonlinear_arith)
        requires
            w2 * w2 == int_abs(w2) * int_abs(w2),
            0 <= int_abs(w2) < 4 * s;
    assert((int_abs(w3) + 1) * (int_abs(w3) + 1) <= w3 * w3 + 8 * s + 1) by (nonlinear_arith)
        requires
            w3 * w3 == int_abs(w3) * int_abs(w3),
            0 <= int_abs(w3) < 4 * s;
    assert((w1 * w1 + 8 * s + 1) * (m * m) > ax * ax * (s * s)) by (nonlinear_arith)
        requires
            (int_abs(w1) + 1) * (int_abs(w1) + 1) * (m * m) > ax * ax * (s * s),
            (int_abs(w1) + 1) * (int_abs(w1) + 1) <= w1 * w1 + 8 * s + 1,
            m * m >= 0;
    assert((w2 * w2 + 8 * s + 1) * (m * m) > ay * ay * (s * s)) by (nonlinear_arith)
        requires
            (int_abs(w2) + 1) * (int_abs(w2) + 1) * (m * m) > ay * ay * (s * s),
            (int_abs(w2) + 1) * (int_abs(w2) + 1) <= w2 * w2 + 8 * s + 1,
            m * m >= 0;
    assert((w3 * w3 + 8 * s + 1) * (m * m) > az * az * (s * s)) by (nonlinear_arith)
        requires
            (int_abs(w3) + 1) * (int_abs(w3) + 1) * (m * m) > az * az * (s * s),
            (int_abs(w3) + 1) * (int_abs(w3) + 1) <= w3 * w3 + 8 * s + 1,
            m * m >= 0;
    assert((ww + 24 * s + 3) * (m * m) > qq * (s * s)) by (nonlinear_arith)
        requires
            ww == w1 * w1 + w2 * w2 + w3 * w3,
            qq == ax * ax + ay * ay + az * az,
            (w1 * w1 + 8 * s + 1) * (m * m) > ax * ax * (s * s),
            (w2 * w2 + 8 * s + 1) * (m * m) > ay * ay * (s * s),
            (w3 * w3 + 8 * s + 1) * (m * m) > az * az * (s * s);
    assert(qq * (s * s) >= (m * m) * (s * s)) by (nonlinear_arith)
        requires
            qq >= m * m,
            s * s >= 0;
    assert(qq >= m * m);
    assert(ww + 24 * s + 3 > s * s) by (nonlinear_arith)
        requires
            (ww + 24 * s + 3) * (m * m) > (m * m) * (s * s),
            m * m > 0;
    assert(bigw * s > s * s - 27 * s - 3);
    assert(bigw >= s - 27);

    // The magnitude of the normalized vector follows from its own
    // square-root brackets.
    let g = vmag(u);
    assert(bigw > 0);
    assert(g == sqrt_of(bigw * s));
    lemma_sqrt_bounds(bigw * s);
    assert(0 <= g && g * g <= bigw * s && bigw * s < (g + 1) * (g + 1));
    assert(bigw * s <= (s + 5) * s);
    assert(g <= s + 2) by (nonlinear_arith)
        requires
            g * g <= (s + 5) * s,
            g >= 0,
            s >= 16;
    assert(bigw * s >= (s - 27) * s);
    assert(g >= s - 14) by (nonlinear_arith)
        requires
            (g + 1) * (g + 1) > (s - 27) * s,
            g >= 0,
            s >= 256;
}

impl Vec3 {
    /// The vector with the given components.
    pub fn new(x: Fx, y: Fx, z: Fx) -> (r: Vec3)
        ensures
            r == (Vec3 { x, y, z }),
    {
        Vec3 { x, y, z }
    }

    /// The zero vector.
    pub fn zero() -> (r: Vec3)
        ensures
            r == v3(0, 0, 0),
    {
        Vec3 { x: Fx::zero(), y: Fx::zero(), z: Fx::zero() }
    }

    /// Componentwise sum.
    pub fn add(self, o: Vec3) -> (r: Vec3)
        ensures
            r == vadd(self, o),
    {
        Vec3 { x: self.x.add(o.x), y: self.y.add(o.y), z: self.z.add(o.z) }
    }

    /// Componentwise difference.
    pub fn sub(self, o: Vec3) -> (r: Vec3)
        ensures
            r == vsub(self, o),
    {
        Vec3 { x: self.x.sub(o.x), y: self.y.sub(o.y), z: self.z.sub(o.z) }
    }

    /// Componentwise negation.
    pub fn neg(self) -> (r: Vec3)
        ensures
            r == vneg(self),
    {
        Vec3 { x: self.x.neg(), y: self.y.neg(), z: self.z.neg() }
    }

    /// The vector scaled by `s`.
    pub fn scale(self, s: Fx) -> (r: Vec3)
        ensures
            r == vscale(self, s@),
    {
        Vec3 { x: self.x.mul(s), y: self.y.mul(s), z: self.z.mul(s) }
    }

    /// The vector divided componentwise by `s`.
    pub fn div_scalar(self, s: Fx) -> (r: Vec3)
        ensures
            r == vdivs(self, s@),
    {
        Vec3 { x: self.x.div(s), y: self.y.div(s), z: self.z.div(s) }
    }

    /// Dot product.
    pub fn dot(self, o: Vec3) -> (r: Fx)
        ensures
            r@ == vdot(self, o),
    {
        self.x.mul(o.x).add(self.y.mul(o.y)).add(self.z.mul(o.z))
    }

    /// Squared magnitude.
    pub fn mag_sq(self) -> (r: Fx)
        ensures
            r@ == vmagsq(self),
    {
        self.dot(self)
    }

    /// Magnitude.
    pub fn magnitude(self) -> (r: Fx)
        ensures
            r@ == vmag(self),
    {
        self.mag_sq().sqrt()
    }

    /// The vector rescaled to unit length.
    pub fn normalize(self) -> (r: Vec3)
        ensures
            r == vnormalize(self),
    {
        let m = self.magnitude();
        self.div_scalar(m)
    }

    /// The mirror direction for an incoming direction `self` at a surface
    /// with normal `n`.
    pub fn reflect(self, n: Vec3) -> (r: Vec3)
        ensures
            r == vreflect(self, n),
    {
        let two = Fx::from_int(2);
        let d = self.sub(n.scale(two.mul(self.dot(n))));
        d.normalize()
    }
}

} // verus!
