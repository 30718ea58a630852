//! Signed fixed-point reals: an `i64` raw value scaled by `2^32`.
//!
//! All arithmetic is total: results that would leave the representable range
//! saturate to the nearest representable value. Products and quotients round
//! toward zero.

use vstd::prelude::*;

verus! {

/// Raw representation of `1.0`: the fixed-point scale, `2^32`.
pub const FX_ONE: i64 = 4294967296;

/// A real number represented as `raw / 2^32`.
#[derive(Clone, Copy, Debug, PartialEq, Eq, Structural)]
pub struct Fx {
    pub raw: i64,
}

/// Saturation to the `i64` range.
pub open spec fn clip_i64(v: int) -> int {
    if v > i64::MAX as int {
        i64::MAX as int
    } else if v < i64::MIN as int {
        i64::MIN as int
    } else {
        v
    }
}

/// Magnitude of an integer.
pub open spec fn abs_int(v: int) -> int {
    if v >= 0 {
        v
    } else {
        -v
    }
}

/// Quotient rounded toward zero, for a nonzero divisor.
pub open spec fn tz_div(a: int, b: int) -> int
    recommends
        b != 0,
{
    let q = abs_int(a) / abs_int(b);
    if (a >= 0) == (b >= 0) {
        q
    } else {
        -q
    }
}

/// The raw value of a saturating fixed-point product.
pub open spec fn fx_mul(a: int, b: int) -> int {
    clip_i64(tz_div(a * b, FX_ONE as int))
}

/// The raw value of a saturating fixed-point quotient.
pub open spec fn fx_div(a: int, b: int) -> int
    recommends
        b != 0,
{
    clip_i64(tz_div(a * (FX_ONE as int), b))
}

/// Clamps an `i128` into the `i64` range.
fn clamp_to_i64(v: i128) -> (r: i64)
    ensures
        r as int == clip_i64(v as int),
{
    if v > i64::MAX as i128 {
        i64::MAX
    } else if v < i64::MIN as i128 {
        i64::MIN
    } else {
        v as i64
    }
}

impl Fx {
    /// Saturating addition.
    pub fn add(self, other: Fx) -> (r: Fx)
        ensures
            r.raw as int == clip_i64(self.raw + other.raw),
    {
        let s: i128 = self.raw as i128 + other.raw as i128;
        Fx { raw: clamp_to_i64(s) }
    }

    /// Saturating subtraction.
    pub fn sub(self, other: Fx) -> (r: Fx)
        ensures
            r.raw as int == clip_i64(self.raw - other.raw),
    {
        let s: i128 = self.raw as i128 - other.raw as i128;
        Fx { raw: clamp_to_i64(s) }
    }

    /// Saturating negation.
    pub fn neg(self) -> (r: Fx)
        ensures
            r.raw as int == clip_i64(-(self.raw as int)),
    {
        if self.raw == i64::MIN {
            Fx { raw: i64::MAX }
        } else {
            Fx { raw: -self.raw }
        }
    }

    /// Saturating absolute value.
    pub fn abs(self) -> (r: Fx)
        ensures
            r.raw as int == clip_i64(abs_int(self.raw as int)),
    {
        if self.raw < 0 {
            self.neg()
        } else {
            self
        }
    }

    /// The greater of the two values.
    pub fn max_of(self, other: Fx) -> (r: Fx)
        ensures
            r.raw as int == if self.raw >= other.raw {
                self.raw as int
            } else {
                other.raw as int
            },
    {
        if self.raw >= other.raw {
            self
        } else {
            other
        }
    }

    /// The lesser of the two values.
    pub fn min_of(self, other: Fx) -> (r: Fx)
        ensures
            r.raw as int == if self.raw <= other.raw {
                self.raw as int
            } else {
                other.raw as int
            },
    {
        if self.raw <= other.raw {
            self
        } else {
            other
        }
    }

    /// Saturating product, rounded toward zero.
    pub fn mul(self, other: Fx) -> (r: Fx)
        ensures
            r.raw as int == fx_mul(self.raw as int, other.raw as int),
    {
        let a: i128 = self.raw as i128;
        let b: i128 = other.raw as i128;
        let negative: bool = (a < 0) != (b < 0);
        let ma: u128 = (if a < 0 { -a } else { a }) as u128;
        let mb: u128 = (if b < 0 { -b } else { b }) as u128;
        proof {
            assert(ma <= 0x8000000000000000 && mb <= 0x8000000000000000);
            assert(ma * mb <= 0x8000000000000000 * 0x8000000000000000) by (nonlinear_arith)
                requires
                    ma <= 0x8000000000000000,
                    mb <= 0x8000000000000000,
            ;
            assert(ma * mb == abs_int((self.raw as int) * (other.raw as int))) by (nonlinear_arith)
                requires
                    ma == abs_int(self.raw as int),
                    mb == abs_int(other.raw as int),
            ;
            assert(((self.raw as int) * (other.raw as int) >= 0) == ((self.raw >= 0) == (other.raw
                >= 0)) || (self.raw as int) * (other.raw as int) == 0) by (nonlinear_arith);
        }
        let q: u128 = (ma * mb) / (FX_ONE as u128);
        Fx { raw: signed_clamp(q, negative) }
    }

    /// Saturating quotient, rounded toward zero.
    pub fn div(self, other: Fx) -> (r: Fx)
        requires
            other.raw != 0,
        ensures
            r.raw as int == fx_div(self.raw as int, other.raw as int),
    {
        let a: i128 = self.raw as i128;
        let b: i128 = other.raw as i128;
        let negative: bool = (a < 0) != (b < 0);
        let ma: u128 = (if a < 0 { -a } else { a }) as u128;
        let mb: u128 = (if b < 0 { -b } else { b }) as u128;
        let na: u128 = ma * (FX_ONE as u128);
        proof {
            assert(na == abs_int((self.raw as int) * (FX_ONE as int))) by (nonlinear_arith)
                requires
                    ma == abs_int(self.raw as int),
                    na == ma * (FX_ONE as int),
            ;
            assert(((self.raw as int) * (FX_ONE as int) >= 0) == (self.raw >= 0) || (self.raw as int)
                * (FX_ONE as int) == 0) by (nonlinear_arith);
        }
        let q: u128 = na / mb;
        proof {
            assert(q == abs_int((self.raw as int) * (FX_ONE as int)) / abs_int(other.raw as int));
        }
        Fx { raw: signed_clamp(q, negative) }
    }

    /// The value of an integer.
    pub fn from_int(i: i64) -> (r: Fx)
        ensures
            r.raw as int == clip_i64(i * (FX_ONE as int)),
    {
        proof {
            assert(-0x8000000000000000 * 0x100000000 <= (i as int) * (FX_ONE as int)
                <= 0x8000000000000000 * 0x100000000) by (nonlinear_arith)
                requires
                    -0x8000000000000000 <= i as int <= 0x8000000000000000,
            ;
        }
        let p: i128 = (i as i128) * (FX_ONE as i128);
        Fx { raw: clamp_to_i64(p) }
    }

    /// The value of an integer ratio, rounded toward zero.
    pub fn from_ratio(num: i64, den: i64) -> (r: Fx)
        requires
            den != 0,
        ensures
            r.raw as int == clip_i64(tz_div(num * (FX_ONE as int), den as int)),
    {
        let a: i128 = num as i128;
        let b: i128 = den as i128;
        let negative: bool = (a < 0) != (b < 0);
        let ma: u128 = (if a < 0 { -a } else { a }) as u128;
        let mb: u128 = (if b < 0 { -b } else { b }) as u128;
        let na: u128 = ma * (FX_ONE as u128);
        proof {
            assert(na == abs_int((num as int) * (FX_ONE as int))) by (nonlinear_arith)
                requires
                    ma == abs_int(num as int),
                    na == ma * (FX_ONE as int),
            ;
            assert(((num as int) * (FX_ONE as int) >= 0) == (num >= 0) || (num as int) * (
            FX_ONE as int) == 0) by (nonlinear_arith);
        }
        let q: u128 = na / mb;
        Fx { raw: signed_clamp(q, negative) }
    }

    /// Clamps the value into `[lo, hi]`.
    pub fn clamp_to(self, lo: Fx, hi: Fx) -> (r: Fx)
        requires
            lo.raw <= hi.raw,
        ensures
            r.raw as int == if self.raw < lo.raw {
                lo.raw as int
            } else if self.raw > hi.raw {
                hi.raw as int
            } else {
                self.raw as int
            },
    {
        if self.raw < lo.raw {
            lo
        } else if self.raw > hi.raw {
            hi
        } else {
            self
        }
    }

    fn divide_exactly(self, den: i64) -> (r: Fx)
        requires
            den != 0,
        ensures
            r.raw as int == clip_i64(tz_div(self.raw as int, den as int)),
    {
        let a: i128 = self.raw as i128;
        let b: i128 = den as i128;
        let negative: bool = (a < 0) != (b < 0);
        let ma: u128 = (if a < 0 { -a } else { a }) as u128;
        let mb: u128 = (if b < 0 { -b } else { b }) as u128;
        let q: u128 = ma / mb;
        Fx { raw: signed_clamp(q, negative) }
    }
}

/// Multiplying by one is the identity.
pub proof fn lemma_fx_mul_one(a: int)
    requires
        i64::MIN as int <= a <= i64::MAX as int,
    ensures
        fx_mul(a, FX_ONE as int) == a,
{
    let k = FX_ONE as int;
    assert(abs_int(a * k) == abs_int(a) * k) by (nonlinear_arith)
        requires
            k > 0,
    ;
    vstd::arithmetic::div_mod::lemma_div_multiples_vanish(abs_int(a), k);
    assert(k * abs_int(a) == abs_int(a) * k) by (nonlinear_arith);
    assert((a >= 0) == (a * k >= 0)) by (nonlinear_arith)
        requires
            k > 0,
    ;
}

/// Dividing by one is the identity.
pub proof fn lemma_fx_div_one(a: int)
    requires
        i64::MIN as int <= a <= i64::MAX as int,
    ensures
        fx_div(a, FX_ONE as int) == a,
{
    lemma_fx_mul_one(a);
}

/// A product's magnitude is bounded by the factors' magnitudes: if
/// `|t| <= k` and `0 <= d <= 1`, then `|t * d| <= k * d`.
pub proof fn lemma_fx_mul_abs_bound(t: int, d: int, k: int)
    requires
        0 <= k,
        abs_int(t) <= k * (FX_ONE as int),
        0 <= d,
        k * d <= i64::MAX as int,
    ensures
        abs_int(fx_mul(t, d)) <= k * d,
{
    let one = FX_ONE as int;
    let p = t * d;
    if t >= 0 {
        assert(t * d >= 0) by (nonlinear_arith)
            requires
                t >= 0,
                d >= 0,
        ;
    } else {
        assert(t * d <= 0 && (-t) * d == -(t * d)) by (nonlinear_arith)
            requires
                t < 0,
                d >= 0,
        ;
    }
    assert(abs_int(p) == abs_int(t) * d);
    vstd::arithmetic::mul::lemma_mul_inequality(abs_int(t), k * one, d);
    assert(k * one * d == one * (k * d)) by (nonlinear_arith);
    vstd::arithmetic::div_mod::lemma_div_is_ordered(abs_int(p), one * (k * d), one);
    vstd::arithmetic::div_mod::lemma_div_multiples_vanish(k * d, one);
    assert(abs_int(p) / one <= k * d);
    assert(abs_int(tz_div(p, one)) <= abs_int(p) / one);
    assert(abs_int(clip_i64(tz_div(p, one))) <= k * d);
}

/// A product of a nonpositive and a nonnegative value is nonpositive.
pub proof fn lemma_fx_mul_nonpos(t: int, d: int)
    requires
        t <= 0,
        0 <= d,
    ensures
        fx_mul(t, d) <= 0,
{
    let one = FX_ONE as int;
    assert(t * d <= 0) by (nonlinear_arith)
        requires
            t <= 0,
            d >= 0,
    ;
    assert(abs_int(t * d) / one >= 0);
}

/// Applies a sign to a magnitude and clamps into the `i64` range.
fn signed_clamp(q: u128, negative: bool) -> (r: i64)
    ensures
        r as int == clip_i64(
            if negative {
                -(q as int)
            } else {
                q as int
            },
        ),
{
    if negative {
        if q >= 9223372036854775808u128 {
            i64::MIN
        } else {
            -(q as i64)
        }
    } else {
        if q > i64::MAX as u128 {
            i64::MAX
        } else {
            q as i64
        }
    }
}

} // verus!
