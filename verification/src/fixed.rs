//! Saturating fixed-point numbers.
//!
//! A real value `v` is stored as the integer closest to `v * SCALE`.
//! Arithmetic rounds to the nearest representable value (halves away from
//! zero; the square root alone truncates to the step below) and saturates
//! at `i64::MAX` / `-i64::MAX`, so every operation is total and has an
//! exact spec-level twin.

use vstd::prelude::*;

verus! {

/// Number of representable steps per unit; one step is `1e-7`.
pub const SCALE: i64 = 10_000_000;

/// Magnitude of an integer.
pub open spec fn iabs(x: int) -> int {
    if x < 0 {
        -x
    } else {
        x
    }
}

/// Clamp to the symmetric range `[-i64::MAX, i64::MAX]`; keeping the range
/// symmetric means negation of a stored value never overflows.
pub open spec fn sat(x: int) -> int {
    if x > i64::MAX {
        i64::MAX as int
    } else if x < -(i64::MAX as int) {
        -(i64::MAX as int)
    } else {
        x
    }
}

/// `r` is the integer square root of `n`.
pub open spec fn is_isqrt(n: int, r: int) -> bool {
    0 <= r && r * r <= n && n < (r + 1) * (r + 1)
}

/// The integer square root, as a (deterministic) spec-level function.
pub open spec fn isqrt(n: int) -> int {
    choose|r: int| is_isqrt(n, r)
}

/// Two integer square roots of the same number are equal.
pub proof fn lemma_isqrt_unique(n: int, r1: int, r2: int)
    requires
        is_isqrt(n, r1),
        is_isqrt(n, r2),
    ensures
        r1 == r2,
{
    if r1 < r2 {
        assert(r2 * r2 <= n);
        assert((r1 + 1) * (r1 + 1) <= r2 * r2) by (nonlinear_arith)
            requires
                0 <= r1,
                r1 + 1 <= r2,
        ;
    }
    if r2 < r1 {
        assert(r1 * r1 <= n);
        assert((r2 + 1) * (r2 + 1) <= r1 * r1) by (nonlinear_arith)
            requires
                0 <= r2,
                r2 + 1 <= r1,
        ;
    }
}

/// Every non-negative integer has an integer square root, so the `choose`
/// in [`isqrt`] picks the (unique) one.
pub proof fn lemma_isqrt_is_isqrt(n: int)
    requires
        0 <= n,
    ensures
        is_isqrt(n, isqrt(n)),
    decreases n,
{
    if n == 0 {
        assert(is_isqrt(0, 0));
        assert(exists|r: int| is_isqrt(n, r));
    } else {
        lemma_isqrt_is_isqrt(n - 1);
        let r = isqrt(n - 1);
        if n < (r + 1) * (r + 1) {
            assert(is_isqrt(n, r));
        } else {
            assert(n == (r + 1) * (r + 1));
            assert((r + 1) * (r + 1) < (r + 2) * (r + 2)) by (nonlinear_arith)
                requires
                    0 <= r,
            ;
            assert(is_isqrt(n, r + 1));
        }
        assert(exists|w: int| is_isqrt(n, w));
    }
}

/// The square root of a fixed-point value is non-negative, and for a
/// positive input it is the integer square root of the widened value.
pub proof fn lemma_sqrt_bounds(x: Fx)
    ensures
        0 <= x.spec_sqrt().raw,
        x.raw > 0 ==> is_isqrt(x.raw * SCALE, x.spec_sqrt().raw as int),
{
    if x.raw > 0 {
        let n = x.raw * SCALE;
        assert(0 < n < 0x1_0000_0000_0000_0000_0000_0000) by (nonlinear_arith)
            requires
                0 < x.raw <= 0x7fff_ffff_ffff_ffffi64,
                n == x.raw * 10_000_000,
        ;
        lemma_isqrt_is_isqrt(n);
        let r = isqrt(n);
        assert(r < 0x1_0000_0000_0000) by (nonlinear_arith)
            requires
                0 <= r,
                r * r <= n,
                n < 0x1_0000_0000_0000_0000_0000_0000,
        ;
        assert(x.spec_sqrt().raw == r);
    }
}

/// The ratio of a non-negative numerator to a positive denominator is
/// non-negative.
pub proof fn lemma_ratio_nonneg(n: int, d: int)
    requires
        0 <= n,
        0 < d,
    ensures
        0 <= Fx::spec_of_ratio(n, d).raw,
{
    assert(0 <= iabs(n) * (SCALE as int)) by (nonlinear_arith)
        requires
            0 <= iabs(n),
            SCALE == 10_000_000,
    ;
    vstd::arithmetic::div_mod::lemma_div_pos_is_pos(
        iabs(n) * (SCALE as int) + iabs(d) / 2,
        iabs(d),
    );
}

/// A fixed-point number; `raw` holds the value scaled by [`SCALE`].
#[derive(Clone, Copy, Debug, PartialEq, Eq, Structural)]
pub struct Fx {
    pub raw: i64,
}

impl Fx {
    /// The value zero.
    pub open spec fn spec_zero() -> Fx {
        Fx { raw: 0 }
    }

    /// The value one.
    pub open spec fn spec_one() -> Fx {
        Fx { raw: SCALE }
    }

    pub open spec fn spec_add(self, o: Fx) -> Fx {
        Fx { raw: sat(self.raw + o.raw) as i64 }
    }

    pub open spec fn spec_sub(self, o: Fx) -> Fx {
        Fx { raw: sat(self.raw - o.raw) as i64 }
    }

    pub open spec fn spec_neg(self) -> Fx {
        Fx { raw: sat(-self.raw) as i64 }
    }

    /// The product, rounded to the nearest step, halves away from zero.
    pub open spec fn spec_mul(self, o: Fx) -> Fx {
        let q = (iabs(self.raw as int) * iabs(o.raw as int) + (SCALE as int) / 2) / (
        SCALE as int);
        Fx { raw: sat(if (self.raw < 0) == (o.raw < 0) { q } else { -q }) as i64 }
    }

    /// The ratio of two integers as a fixed-point value, rounded to the
    /// nearest step; a zero denominator yields zero.
    pub open spec fn spec_of_ratio(n: int, d: int) -> Fx {
        if d == 0 {
            Fx { raw: 0 }
        } else {
            let q = (iabs(n) * (SCALE as int) + iabs(d) / 2) / iabs(d);
            Fx { raw: sat(if (n < 0) == (d < 0) { q } else { -q }) as i64 }
        }
    }

    /// The quotient; division by zero yields zero.
    pub open spec fn spec_div(self, o: Fx) -> Fx {
        Fx::spec_of_ratio(self.raw as int, o.raw as int)
    }

    pub open spec fn spec_from_int(i: int) -> Fx {
        Fx { raw: sat(i * SCALE) as i64 }
    }

    /// The square root (of the value, not of `raw`); non-positive inputs
    /// yield zero.
    pub open spec fn spec_sqrt(self) -> Fx {
        if self.raw <= 0 {
            Fx { raw: 0 }
        } else {
            Fx { raw: isqrt(self.raw * SCALE) as i64 }
        }
    }

    /// `self` raised to a natural power, by left-to-right multiplication.
    pub open spec fn spec_pow(self, e: nat) -> Fx
        decreases e,
    {
        if e == 0 {
            Fx::spec_one()
        } else {
            self.spec_pow((e - 1) as nat).spec_mul(self)
        }
    }

    pub fn zero() -> (r: Fx)
        ensures
            r == Fx::spec_zero(),
    {
        Fx { raw: 0 }
    }

    pub fn one() -> (r: Fx)
        ensures
            r == Fx::spec_one(),
    {
        Fx { raw: SCALE }
    }

    pub fn from_int(i: i64) -> (r: Fx)
        ensures
            r == Fx::spec_from_int(i as int),
    {
        proof {
            assert(-0x8000_0000_0000_0000i128 * 0x989680i128 <= (i as i128) * (SCALE as i128)
                <= 0x8000_0000_0000_0000i128 * 0x989680i128) by (nonlinear_arith)
                requires
                    -0x8000_0000_0000_0000i128 <= i as i128 <= 0x8000_0000_0000_0000i128,
            ;
        }
        let wide: i128 = (i as i128) * (SCALE as i128);
        clamp_i128(wide)
    }

    /// The fixed-point value nearest to `n / d`.
    pub fn from_ratio(n: i64, d: i64) -> (r: Fx)
        ensures
            r == Fx::spec_of_ratio(n as int, d as int),
    {
        if d == 0 {
            Fx { raw: 0 }
        } else {
            let nm: u128 = abs_u128(n);
            let dm: u128 = abs_u128(d);
            proof {
                assert(nm * (SCALE as u128) <= 0x8000_0000_0000_0000u128 * 0x989680u128)
                    by (nonlinear_arith)
                    requires
                        nm <= 0x8000_0000_0000_0000u128,
                ;
            }
            let q: u128 = (nm * (SCALE as u128) + dm / 2) / dm;
            from_magnitude(q, (n < 0) != (d < 0))
        }
    }

    pub fn add(self, o: Fx) -> (r: Fx)
        ensures
            r == self.spec_add(o),
    {
        clamp_i128(self.raw as i128 + o.raw as i128)
    }

    pub fn sub(self, o: Fx) -> (r: Fx)
        ensures
            r == self.spec_sub(o),
    {
        clamp_i128(self.raw as i128 - o.raw as i128)
    }

    pub fn neg(self) -> (r: Fx)
        ensures
            r == self.spec_neg(),
    {
        clamp_i128(-(self.raw as i128))
    }

    pub fn mul(self, o: Fx) -> (r: Fx)
        ensures
            r == self.spec_mul(o),
    {
        let am: u128 = abs_u128(self.raw);
        let bm: u128 = abs_u128(o.raw);
        proof {
            assert(am * bm <= 0x8000_0000_0000_0000u128 * 0x8000_0000_0000_0000u128)
                by (nonlinear_arith)
                requires
                    am <= 0x8000_0000_0000_0000u128,
                    bm <= 0x8000_0000_0000_0000u128,
            ;
        }
        let q: u128 = (am * bm + (SCALE as u128) / 2) / (SCALE as u128);
        from_magnitude(q, (self.raw < 0) != (o.raw < 0))
    }

    pub fn div(self, o: Fx) -> (r: Fx)
        ensures
            r == self.spec_div(o),
    {
        Fx::from_ratio(self.raw, o.raw)
    }

    pub fn sqrt(self) -> (r: Fx)
        ensures
            r == self.spec_sqrt(),
    {
        if self.raw <= 0 {
            Fx { raw: 0 }
        } else {
            proof {
                assert((self.raw as u128) * (SCALE as u128) < 0x1_0000_0000_0000_0000_0000_0000u128)
                    by (nonlinear_arith)
                    requires
                        self.raw as u128 <= 0x8000_0000_0000_0000u128,
                ;
            }
            let n: u128 = (self.raw as u128) * (SCALE as u128);
            let root: u128 = isqrt_u128(n);
            proof {
                assert(is_isqrt(n as int, isqrt(n as int)));
                lemma_isqrt_unique(n as int, root as int, isqrt(n as int));
            }
            Fx { raw: root as i64 }
        }
    }

    pub fn pow(self, e: u32) -> (r: Fx)
        ensures
            r == self.spec_pow(e as nat),
    {
        let mut acc = Fx { raw: SCALE };
        let mut i: u32 = 0;
        while i < e
            invariant
                i <= e,
                acc == self.spec_pow(i as nat),
            decreases e - i,
        {
            acc = acc.mul(self);
            i = i + 1;
        }
        acc
    }
}

/// The magnitude of an `i64`, widened so `i64::MIN` is handled.
fn abs_u128(x: i64) -> (r: u128)
    ensures
        r == iabs(x as int),
{
    if x < 0 {
        (-(x as i128)) as u128
    } else {
        x as u128
    }
}

/// Clamp a wide intermediate to the saturation range.
fn clamp_i128(x: i128) -> (r: Fx)
    ensures
        r.raw == sat(x as int),
{
    if x > i64::MAX as i128 {
        Fx { raw: i64::MAX }
    } else if x < -(i64::MAX as i128) {
        Fx { raw: -i64::MAX }
    } else {
        Fx { raw: x as i64 }
    }
}

/// Apply a sign to an unsigned magnitude, then clamp.
fn from_magnitude(q: u128, neg: bool) -> (r: Fx)
    ensures
        r.raw == sat(if neg { -(q as int) } else { q as int }),
{
    if q > i64::MAX as u128 {
        if neg {
            Fx { raw: -i64::MAX }
        } else {
            Fx { raw: i64::MAX }
        }
    } else {
        if neg {
            Fx { raw: -(q as i64) }
        } else {
            Fx { raw: q as i64 }
        }
    }
}

/// Integer square root by binary search.
fn isqrt_u128(n: u128) -> (r: u128)
    requires
        n < 0x1_0000_0000_0000_0000_0000_0000,
    ensures
        is_isqrt(n as int, r as int),
{
    let mut lo: u128 = 0;
    let mut hi: u128 = 0x1_0000_0000_0000;
    proof {
        assert((0x1_0000_0000_0000u128 as int) * (0x1_0000_0000_0000u128 as int) == 0x1_0000_0000_0000_0000_0000_0000);
    }
    while lo + 1 < hi
        invariant
            lo < hi,
            hi <= 0x1_0000_0000_0000,
            (lo as int) * (lo as int) <= n as int,
            (n as int) < (hi as int) * (hi as int),
        decreases hi - lo,
    {
        let mid: u128 = lo + (hi - lo) / 2;
        proof {
            assert(mid * mid <= 0x1_0000_0000_0000u128 * 0x1_0000_0000_0000u128)
                by (nonlinear_arith)
                requires
                    mid <= 0x1_0000_0000_0000u128,
            ;
        }
        if mid * mid <= n {
            lo = mid;
        } else {
            hi = mid;
        }
    }
    lo
}

} // verus!
