//! Signed fixed-point scalars.
//!
//! An `Fx` holds a real number `bits / 2^24` in a single `i64`.  Every
//! operation is total: results outside the representable range saturate
//! to the nearest end, and a division by zero yields the saturated value
//! of the corresponding sign.  Each operation's contract states the
//! resulting bit pattern exactly, through the spec functions below.

use vstd::prelude::*;

verus! {

/// Number of fixed-point steps in 1.0: the scalar has 24 fractional bits.
pub const FX_ONE: i64 = 16777216;

/// Saturation of a mathematical integer into the `i64` range.
pub open spec fn sat64(x: int) -> int {
    if x > i64::MAX {
        i64::MAX as int
    } else if x < i64::MIN {
        i64::MIN as int
    } else {
        x
    }
}

/// Division truncating toward zero, as the machine division does; total,
/// with a zero divisor yielding zero.
pub open spec fn tdiv(a: int, b: int) -> int {
    if b == 0 || a == 0 {
        0
    } else if a > 0 && b > 0 {
        a / b
    } else if a < 0 && b < 0 {
        (a * -1) / (b * -1)
    } else if a < 0 {
        ((a * -1) / b) * -1
    } else {
        (a / (b * -1)) * -1
    }
}

/// Fixed-point sum of two bit patterns.
pub open spec fn fx_add(a: int, b: int) -> int {
    sat64(a + b)
}

/// Fixed-point difference of two bit patterns.
pub open spec fn fx_sub(a: int, b: int) -> int {
    sat64(a - b)
}

/// Fixed-point product of two bit patterns.
pub open spec fn fx_mul(a: int, b: int) -> int {
    sat64(tdiv(a * b, FX_ONE as int))
}

/// Fixed-point quotient of two bit patterns.  A zero divisor saturates
/// toward the sign of the dividend.
pub open spec fn fx_div(a: int, b: int) -> int {
    if b == 0 {
        if a > 0 {
            i64::MAX as int
        } else if a < 0 {
            i64::MIN as int
        } else {
            0
        }
    } else {
        sat64(tdiv(a * (FX_ONE as int), b))
    }
}

/// The integer square root: the unique `r >= 0` with
/// `r * r <= n < (r + 1) * (r + 1)`, for `n >= 0`.
pub open spec fn sqrt_of(n: int) -> int {
    choose|r: int| 0 <= r && #[trigger] (r * r) <= n && n < (r + 1) * (r + 1)
}

/// Fixed-point square root of a bit pattern; non-positive inputs map to zero.
pub open spec fn fx_sqrt(x: int) -> int {
    if x <= 0 {
        0
    } else {
        sqrt_of(x * (FX_ONE as int))
    }
}

proof fn sqrt_exists(n: nat)
    ensures
        exists|r: int| 0 <= r && r * r <= n && #[trigger] ((r + 1) * (r + 1)) > n,
    decreases n,
{
    if n == 0 {
        assert(0 <= 0 && 0 * 0 <= 0 && (0 + 1) * (0 + 1) > 0) by (nonlinear_arith);
    } else {
        sqrt_exists((n - 1) as nat);
        let r = choose|r: int| 0 <= r && r * r <= n - 1 && #[trigger] ((r + 1) * (r + 1)) > n - 1;
        if (r + 1) * (r + 1) > n {
            assert(r * r <= n);
        } else {
            // (r+1)^2 <= n and (r+1)^2 > n-1, hence n == (r+1)^2.
            assert(n == (r + 1) * (r + 1));
            assert((r + 2) * (r + 2) > (r + 1) * (r + 1)) by (nonlinear_arith)
                requires r >= 0;
            assert(0 <= r + 1 && (r + 1) * (r + 1) <= n && ((r + 1) + 1) * ((r + 1) + 1) > n);
        }
    }
}

/// For a nonnegative argument, `sqrt_of` satisfies its defining bounds.
pub proof fn lemma_sqrt_bounds(n: int)
    requires
        n >= 0,
    ensures
        0 <= sqrt_of(n),
        sqrt_of(n) * sqrt_of(n) <= n,
        n < (sqrt_of(n) + 1) * (sqrt_of(n) + 1),
{
    sqrt_exists(n as nat);
    let w = choose|r: int| 0 <= r && r * r <= n && #[trigger] ((r + 1) * (r + 1)) > n;
    assert(0 <= w && w * w <= n && n < (w + 1) * (w + 1));
}

/// Any `r` meeting the integer-square-root bounds is `sqrt_of(n)`.
pub proof fn lemma_sqrt_unique(n: int, r: int)
    requires
        n >= 0,
        0 <= r,
        r * r <= n,
        n < (r + 1) * (r + 1),
    ensures
        r == sqrt_of(n),
{
    lemma_sqrt_bounds(n);
    let s = sqrt_of(n);
    if r < s {
        assert((r + 1) * (r + 1) <= s * s) by (nonlinear_arith)
            requires 0 <= r, r < s;
        assert(false);
    }
    if s < r {
        assert((s + 1) * (s + 1) <= r * r) by (nonlinear_arith)
            requires 0 <= s, s < r;
        assert(false);
    }
}

/// The magnitude of a truncating quotient never exceeds the dividend's.
proof fn lemma_tdiv_magnitude(a: int, b: int)
    ensures
        a >= 0 ==> -a <= tdiv(a, b) <= a,
        a < 0 ==> a <= tdiv(a, b) <= a * -1,
{
    if b != 0 && a != 0 {
        let p = if a > 0 { a } else { a * -1 };
        let q = if b > 0 { b } else { b * -1 };
        assert(p > 0 && q > 0);
        assert(0 <= p / q <= p) by (nonlinear_arith)
            requires p > 0, q > 0;
    }
}

/// The product of two scalars in the `i64` range fits the `i128` range
/// with room to spare.
proof fn lemma_prod_in_i128(a: int, b: int)
    requires
        -0x8000_0000_0000_0000 <= a <= 0x7fff_ffff_ffff_ffff,
        -0x8000_0000_0000_0000 <= b <= 0x7fff_ffff_ffff_ffff,
    ensures
        -0x8000_0000_0000_0000_0000_0000_0000_0000 < a * b,
        a * b < 0x8000_0000_0000_0000_0000_0000_0000_0000,
{
    assert(-0x8000_0000_0000_0000_0000_0000_0000_0000 < a * b
        < 0x8000_0000_0000_0000_0000_0000_0000_0000) by (nonlinear_arith)
        requires
            -0x8000_0000_0000_0000 <= a <= 0x7fff_ffff_ffff_ffff,
            -0x8000_0000_0000_0000 <= b <= 0x7fff_ffff_ffff_ffff;
}

/// The magnitude of an integer.
pub open spec fn int_abs(x: int) -> int {
    if x >= 0 {
        x
    } else {
        -x
    }
}

/// Truncating division brackets its exact quotient: the result's
/// magnitude times the divisor stays within the dividend's magnitude,
/// and one more step exceeds it; the result never flips the sign.
pub proof fn lemma_tdiv_brackets(a: int, b: int)
    requires
        b > 0,
    ensures
        int_abs(tdiv(a, b)) * b <= int_abs(a),
        int_abs(a) < (int_abs(tdiv(a, b)) + 1) * b,
        a >= 0 ==> tdiv(a, b) >= 0,
        a <= 0 ==> tdiv(a, b) <= 0,
{
    let p = int_abs(a);
    vstd::arithmetic::div_mod::lemma_fundamental_div_mod(p, b);
    vstd::arithmetic::div_mod::lemma_mod_bound(p, b);
    let qq = p / b;
    if qq < 0 {
        assert(b * qq <= -b) by (nonlinear_arith)
            requires qq <= -1, b > 0;
        assert(false);
    }
    assert(b * qq == qq * b && (qq + 1) * b == qq * b + b) by (nonlinear_arith);
    if a >= 0 {
        assert(tdiv(a, b) == qq);
    } else {
        assert(tdiv(a, b) == qq * -1);
        assert(int_abs(tdiv(a, b)) == qq);
    }
}

/// A fixed-point scalar: the real number `bits / 2^24`.
#[derive(Clone, Copy, PartialEq, Eq, Structural, Debug)]
pub struct Fx {
    pub bits: i64,
}

impl View for Fx {
    type V = int;

    open spec fn view(&self) -> int {
        self.bits as int
    }
}

/// Saturation of an `i128` into the `i64` range.
fn sat_to_i64(q: i128) -> (r: i64)
    ensures
        r as int == sat64(q as int),
{
    if q > i64::MAX as i128 {
        i64::MAX
    } else if q < i64::MIN as i128 {
        i64::MIN
    } else {
        q as i64
    }
}

/// Integer square root of a `u128`, by bisection.
fn isqrt_u128(n: u128) -> (r: u128)
    ensures
        r * r <= n,
        n < (r + 1) * (r + 1),
{
    if n == 0 {
        return 0;
    }
    let mut lo: u128 = 0;
    let mut hi: u128 = 0x1_0000_0000_0000_0000;
    assert(0x1_0000_0000_0000_0000int * 0x1_0000_0000_0000_0000int
        == 0x1_0000_0000_0000_0000_0000_0000_0000_0000int);
    assert(n < hi * hi);
    while lo + 1 < hi
        invariant
            lo < hi,
            hi <= 0x1_0000_0000_0000_0000,
            lo * lo <= n,
            n < hi * hi,
        decreases hi - lo,
    {
        let mid: u128 = lo + (hi - lo) / 2;
        assert(lo < mid < hi);
        assert(mid * mid < 0x1_0000_0000_0000_0000_0000_0000_0000_0000) by (nonlinear_arith)
            requires mid < 0x1_0000_0000_0000_0000int;
        if mid * mid <= n {
            lo = mid;
        } else {
            hi = mid;
        }
    }
    lo
}

impl Fx {
    /// The scalar 0.
    pub fn zero() -> (r: Fx)
        ensures
            r@ == 0,
    {
        Fx { bits: 0 }
    }

    /// The scalar 1.
    pub fn one() -> (r: Fx)
        ensures
            r@ == FX_ONE as int,
    {
        Fx { bits: FX_ONE }
    }

    /// The scalar with the given raw bit pattern.
    pub fn from_bits(bits: i64) -> (r: Fx)
        ensures
            r@ == bits as int,
    {
        Fx { bits }
    }

    /// The scalar equal to the given integer.
    pub fn from_int(i: i32) -> (r: Fx)
        ensures
            r@ == i * (FX_ONE as int),
    {
        Fx { bits: (i as i64) * FX_ONE }
    }

    /// The scalar equal to the given count.
    pub fn from_u32(i: u32) -> (r: Fx)
        ensures
            r@ == i * (FX_ONE as int),
    {
        Fx { bits: (i as i64) * FX_ONE }
    }

    /// Saturating sum.
    pub fn add(self, o: Fx) -> (r: Fx)
        ensures
            r@ == fx_add(self@, o@),
    {
        match self.bits.checked_add(o.bits) {
            Some(v) => Fx { bits: v },
            None => if self.bits > 0 {
                Fx { bits: i64::MAX }
            } else {
                Fx { bits: i64::MIN }
            },
        }
    }

    /// Saturating difference.
    pub fn sub(self, o: Fx) -> (r: Fx)
        ensures
            r@ == fx_sub(self@, o@),
    {
        match self.bits.checked_sub(o.bits) {
            Some(v) => Fx { bits: v },
            None => if self.bits >= 0 {
                Fx { bits: i64::MAX }
            } else {
                Fx { bits: i64::MIN }
            },
        }
    }

    /// Saturating negation.
    pub fn neg(self) -> (r: Fx)
        ensures
            r@ == sat64(-self@),
    {
        if self.bits == i64::MIN {
            Fx { bits: i64::MAX }
        } else {
            Fx { bits: -self.bits }
        }
    }

    /// Saturating fixed-point product.
    pub fn mul(self, o: Fx) -> (r: Fx)
        ensures
            r@ == fx_mul(self@, o@),
    {
        proof {
            lemma_prod_in_i128(self.bits as int, o.bits as int);
        }
        let p: i128 = (self.bits as i128) * (o.bits as i128);
        match p.checked_div(FX_ONE as i128) {
            Some(q) => {
                proof {
                    lemma_tdiv_magnitude(p as int, FX_ONE as int);
                }
                Fx { bits: sat_to_i64(q) }
            },
            None => {
                proof {
                    lemma_tdiv_magnitude(p as int, FX_ONE as int);
                    assert(false);
                }
                Fx { bits: 0 }
            },
        }
    }

    /// Saturating fixed-point quotient; a zero divisor saturates toward
    /// the dividend's sign.
    pub fn div(self, o: Fx) -> (r: Fx)
        ensures
            r@ == fx_div(self@, o@),
    {
        if o.bits == 0 {
            if self.bits > 0 {
                Fx { bits: i64::MAX }
            } else if self.bits < 0 {
                Fx { bits: i64::MIN }
            } else {
                Fx { bits: 0 }
            }
        } else {
            proof {
                lemma_prod_in_i128(self.bits as int, FX_ONE as int);
            }
            let p: i128 = (self.bits as i128) * (FX_ONE as i128);
            match p.checked_div(o.bits as i128) {
                Some(q) => {
                    proof {
                        lemma_tdiv_magnitude(p as int, o.bits as int);
                    }
                    Fx { bits: sat_to_i64(q) }
                },
                None => {
                    proof {
                        lemma_tdiv_magnitude(p as int, o.bits as int);
                        assert(false);
                    }
                    Fx { bits: 0 }
                },
            }
        }
    }

    /// Fixed-point square root; non-positive inputs map to zero.
    pub fn sqrt(self) -> (r: Fx)
        ensures
            r@ == fx_sqrt(self@),
    {
        if self.bits <= 0 {
            Fx { bits: 0 }
        } else {
            proof {
                assert((self.bits as int) * (FX_ONE as int)
                    < 0x1_0000_0000_0000_0000_0000_0000int) by (nonlinear_arith)
                    requires
                        0 < self.bits as int <= 0x7fff_ffff_ffff_ffff,
                        FX_ONE as int == 0x100_0000;
            }
            let n: u128 = (self.bits as u128) * (FX_ONE as u128);
            let s = isqrt_u128(n);
            proof {
                assert(s * s <= n < 0x1_0000_0000_0000_0000_0000_0000int);
                assert(s < 0x1_0000_0000_0000int) by (nonlinear_arith)
                    requires
                        s * s <= n,
                        0 <= s,
                        n < 0x1_0000_0000_0000_0000_0000_0000int;
                lemma_sqrt_unique(n as int, s as int);
            }
            Fx { bits: s as i64 }
        }
    }

    /// Strict comparison.
    pub fn lt(self, o: Fx) -> (r: bool)
        ensures
            r == (self@ < o@),
    {
        self.bits < o.bits
    }

    /// Non-strict comparison.
    pub fn le(self, o: Fx) -> (r: bool)
        ensures
            r == (self@ <= o@),
    {
        self.bits <= o.bits
    }

    /// Whether the scalar is strictly positive.
    pub fn is_pos(self) -> (r: bool)
        ensures
            r == (self@ > 0),
    {
        self.bits > 0
    }
}

} // verus!
