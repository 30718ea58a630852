//! Fixed-point trigonometry and powers: self-contained rational
//! approximations over `Fx`, total and deterministic, each with an exact
//! specification mirror.
//!
//! Accuracy is modest (a fraction of a percent), which suits a stylized
//! field model; every result is clamped into its mathematical range.

use crate::fixed::{clip_i64, fx_div, fx_mul, Fx, FX_ONE};
use vstd::arithmetic::div_mod::{
    lemma_fundamental_div_mod, lemma_fundamental_div_mod_converse_mod,
    lemma_mod_division_less_than_divisor,
};
use vstd::prelude::*;

verus! {

/// `pi`, as a raw fixed-point value.
pub const FX_PI: i64 = 13493037705;

/// `2 * pi`, as a raw fixed-point value.
pub const FX_TAU: i64 = 26986075409;

/// `pi / 2`, as a raw fixed-point value.
pub const FX_HALF_PI: i64 = 6746518852;

/// `pi / 4`, as a raw fixed-point value.
pub const FX_QUARTER_PI: i64 = 3373259426;

/// `5 * pi^2`, denominator constant of the sine approximation.
pub const FIVE_PI_SQ: i64 = 211948140636;

/// `16`, numerator constant of the sine approximation.
pub const SIXTEEN: i64 = 68719476736;

/// `4`.
pub const FOUR: i64 = 17179869184;

/// Denominator constant of the arctangent approximation (`9/32`).
pub const ATAN_K: i64 = 1207959552;

/// Cubic coefficients of the base-two logarithm approximation.
pub const LOG2_C1: i64 = 6178782902;

pub const LOG2_C2: i64 = 2908551853;

pub const LOG2_C3: i64 = 1007255730;

/// Cubic coefficients of the base-two exponential approximation.
pub const EXP2_C1: i64 = 2977044472;

pub const EXP2_C2: i64 = 1031477963;

pub const EXP2_C3: i64 = 238388331;

/// The angle reduced into `[0, 2*pi)`.
pub open spec fn spec_mod_tau(ar: int) -> int {
    ar % (FX_TAU as int)
}

/// Reduces an angle into `[0, 2*pi)`.
pub fn fx_mod_tau(a: Fx) -> (r: Fx)
    ensures
        r.raw as int == spec_mod_tau(a.raw as int),
        0 <= r.raw < FX_TAU,
{
    proof {
        lemma_mod_division_less_than_divisor(a.raw as int, FX_TAU as int);
    }
    if a.raw >= 0 {
        let m: u64 = (a.raw as u64) % (FX_TAU as u64);
        proof {
            assert(m as int == (a.raw as int) % (FX_TAU as int));
        }
        Fx { raw: m as i64 }
    } else {
        let na: u128 = (-(a.raw as i128)) as u128;
        let m: u128 = na % (FX_TAU as u128);
        proof {
            let aa = a.raw as int;
            let t = FX_TAU as int;
            let nai = -aa;
            let q = nai / t;
            let mm = nai % t;
            lemma_fundamental_div_mod(nai, t);
            lemma_mod_division_less_than_divisor(nai, t);
            assert(m as int == mm);
            assert(t * (-q) == -(t * q)) by (nonlinear_arith);
            assert(t * (-q - 1) == -(t * q) - t) by (nonlinear_arith);
            if mm == 0 {
                lemma_fundamental_div_mod_converse_mod(aa, t, -q, 0);
            } else {
                lemma_fundamental_div_mod_converse_mod(aa, t, -q - 1, t - mm);
            }
        }
        if m == 0 {
            Fx { raw: 0 }
        } else {
            Fx { raw: FX_TAU - (m as i64) }
        }
    }
}

/// The sine approximation on the half period `[0, pi]`: the rational kernel
/// `16 x (pi - x) / (5 pi^2 - 4 x (pi - x))`, clamped into `[-1, 1]`.
pub open spec fn spec_sin_half(xr: int) -> int {
    let s = fx_mul(xr, clip_i64(FX_PI - xr));
    let n = fx_mul(s, SIXTEEN as int);
    let d = clip_i64(FIVE_PI_SQ - fx_mul(s, FOUR as int));
    let q = if d <= 0 {
        0
    } else {
        fx_div(n, d)
    };
    if q < -(FX_ONE as int) {
        -(FX_ONE as int)
    } else if q > FX_ONE as int {
        FX_ONE as int
    } else {
        q
    }
}

fn sin_half(x: Fx) -> (r: Fx)
    ensures
        r.raw as int == spec_sin_half(x.raw as int),
        -(FX_ONE as int) <= r.raw as int <= FX_ONE as int,
{
    let s: Fx = x.mul(Fx { raw: FX_PI }.sub(x));
    let n: Fx = s.mul(Fx { raw: SIXTEEN });
    let d: Fx = Fx { raw: FIVE_PI_SQ }.sub(s.mul(Fx { raw: FOUR }));
    let q: Fx = if d.raw <= 0 {
        Fx { raw: 0 }
    } else {
        n.div(d)
    };
    q.clamp_to(Fx { raw: -FX_ONE }, Fx { raw: FX_ONE })
}

/// The sine of an angle: the half-period kernel, extended by point symmetry
/// over the full period.
pub open spec fn spec_sin(ar: int) -> int {
    let t = spec_mod_tau(ar);
    if t <= FX_PI as int {
        spec_sin_half(t)
    } else {
        -spec_sin_half(t - FX_PI as int)
    }
}

/// Sine of an angle (radians).
pub fn fx_sin(a: Fx) -> (r: Fx)
    ensures
        r.raw as int == spec_sin(a.raw as int),
        -(FX_ONE as int) <= r.raw as int <= FX_ONE as int,
{
    let t: Fx = fx_mod_tau(a);
    if t.raw <= FX_PI {
        sin_half(t)
    } else {
        sin_half(Fx { raw: t.raw - FX_PI }).neg()
    }
}

/// The cosine as the sine shifted a quarter period.
pub open spec fn spec_cos(ar: int) -> int {
    spec_sin(clip_i64(ar + FX_HALF_PI as int))
}

/// Cosine of an angle (radians).
pub fn fx_cos(a: Fx) -> (r: Fx)
    ensures
        r.raw as int == spec_cos(a.raw as int),
        -(FX_ONE as int) <= r.raw as int <= FX_ONE as int,
{
    fx_sin(a.add(Fx { raw: FX_HALF_PI }))
}

/// The tangent as the quotient of sine and cosine; where the cosine
/// approximation vanishes, the quotient saturates with the sign of the sine.
pub open spec fn spec_tan(ar: int) -> int {
    let s = spec_sin(ar);
    let c = spec_cos(ar);
    if c == 0 {
        if s >= 0 {
            i64::MAX as int
        } else {
            i64::MIN as int
        }
    } else {
        fx_div(s, c)
    }
}

/// Tangent of an angle (radians).
pub fn fx_tan(a: Fx) -> (r: Fx)
    ensures
        r.raw as int == spec_tan(a.raw as int),
{
    let s: Fx = fx_sin(a);
    let c: Fx = fx_cos(a);
    if c.raw == 0 {
        if s.raw >= 0 {
            Fx { raw: i64::MAX }
        } else {
            Fx { raw: i64::MIN }
        }
    } else {
        s.div(c)
    }
}

/// The arctangent kernel on `[-1, 1]`: `z / (1 + (9/32) z^2)`.
pub open spec fn spec_atan_unit(zr: int) -> int {
    let z2 = fx_mul(zr, zr);
    let d = clip_i64(FX_ONE as int + fx_mul(ATAN_K as int, z2));
    if d <= 0 {
        0
    } else {
        fx_div(zr, d)
    }
}

fn atan_unit(z: Fx) -> (r: Fx)
    ensures
        r.raw as int == spec_atan_unit(z.raw as int),
{
    let z2: Fx = z.mul(z);
    let d: Fx = Fx { raw: FX_ONE }.add(Fx { raw: ATAN_K }.mul(z2));
    if d.raw <= 0 {
        Fx { raw: 0 }
    } else {
        z.div(d)
    }
}

/// The arctangent: the kernel inside the unit interval, the reflection
/// `+-pi/2 - atan(1/z)` outside it, clamped into `[-pi/2, pi/2]`.
pub open spec fn spec_atan(zr: int) -> int {
    let v = if -(FX_ONE as int) <= zr <= FX_ONE as int {
        spec_atan_unit(zr)
    } else {
        let w = spec_atan_unit(fx_div(FX_ONE as int, zr));
        if zr > 0 {
            clip_i64(FX_HALF_PI as int - w)
        } else {
            clip_i64(-(FX_HALF_PI as int) - w)
        }
    };
    if v < -(FX_HALF_PI as int) {
        -(FX_HALF_PI as int)
    } else if v > FX_HALF_PI as int {
        FX_HALF_PI as int
    } else {
        v
    }
}

/// Arctangent, in `[-pi/2, pi/2]`.
pub fn fx_atan(z: Fx) -> (r: Fx)
    ensures
        r.raw as int == spec_atan(z.raw as int),
        -(FX_HALF_PI as int) <= r.raw as int <= FX_HALF_PI as int,
{
    let v: Fx = if -FX_ONE <= z.raw && z.raw <= FX_ONE {
        atan_unit(z)
    } else {
        let w: Fx = atan_unit(Fx { raw: FX_ONE }.div(z));
        if z.raw > 0 {
            Fx { raw: FX_HALF_PI }.sub(w)
        } else {
            Fx { raw: -FX_HALF_PI }.sub(w)
        }
    };
    v.clamp_to(Fx { raw: -FX_HALF_PI }, Fx { raw: FX_HALF_PI })
}

/// Mantissa and shift of the normalization of `b` in `[1, 2^32]` raw units
/// into `[2^32, 2^33)`: `b * 2^k == m`.
pub open spec fn spec_normalize(b: int) -> (int, int) {
    let (m0, k0) = if b < 0x10000 {
        (b * 0x10000, 16int)
    } else {
        (b, 0int)
    };
    let (m1, k1) = if m0 < 0x1000000 {
        (m0 * 0x100, k0 + 8)
    } else {
        (m0, k0)
    };
    let (m2, k2) = if m1 < 0x10000000 {
        (m1 * 0x10, k1 + 4)
    } else {
        (m1, k1)
    };
    let (m3, k3) = if m2 < 0x40000000 {
        (m2 * 4, k2 + 2)
    } else {
        (m2, k2)
    };
    let (m4, k4) = if m3 < 0x80000000 {
        (m3 * 2, k3 + 1)
    } else {
        (m3, k3)
    };
    if m4 < 0x100000000 {
        (m4 * 2, k4 + 1)
    } else {
        (m4, k4)
    }
}

/// The base-two logarithm of `b` in `(0, 1]` (raw `[1, 2^32]`), a
/// nonpositive raw value: a cubic on the normalized mantissa, minus the
/// normalization shift.
pub open spec fn spec_log2_01(b: int) -> int {
    let (m, k) = spec_normalize(b);
    let u = m - FX_ONE as int;
    let poly = fx_mul(
        u,
        clip_i64(
            LOG2_C1 as int - fx_mul(u, clip_i64(LOG2_C2 as int - fx_mul(u, LOG2_C3 as int))),
        ),
    );
    let lg = if poly < 0 {
        0
    } else if poly > FX_ONE as int {
        FX_ONE as int
    } else {
        poly
    };
    lg - k * (FX_ONE as int)
}

fn log2_01(b: Fx) -> (r: Fx)
    requires
        1 <= b.raw <= FX_ONE,
    ensures
        r.raw as int == spec_log2_01(b.raw as int),
{
    let mut m: i64 = b.raw;
    let mut k: i64 = 0;
    if m < 0x10000 {
        m = m * 0x10000;
        k = 16;
    }
    if m < 0x1000000 {
        m = m * 0x100;
        k = k + 8;
    }
    if m < 0x10000000 {
        m = m * 0x10;
        k = k + 4;
    }
    if m < 0x40000000 {
        m = m * 4;
        k = k + 2;
    }
    if m < 0x80000000 {
        m = m * 2;
        k = k + 1;
    }
    if m < 0x100000000 {
        m = m * 2;
        k = k + 1;
    }
    proof {
        assert((m as int, k as int) == spec_normalize(b.raw as int));
    }
    let u: Fx = Fx { raw: m - FX_ONE };
    let inner: Fx = Fx { raw: LOG2_C2 }.sub(u.mul(Fx { raw: LOG2_C3 }));
    let poly: Fx = u.mul(Fx { raw: LOG2_C1 }.sub(u.mul(inner)));
    let lg: Fx = poly.clamp_to(Fx { raw: 0 }, Fx { raw: FX_ONE });
    Fx { raw: lg.raw - k * FX_ONE }
}

/// Repeated halving (rounding toward zero on a nonnegative value).
pub open spec fn spec_halve_times(v: int, n: nat) -> int
    decreases n,
{
    if n == 0 {
        v
    } else {
        spec_halve_times(v, (n - 1) as nat) / 2
    }
}

/// The base-two exponential of a nonpositive value, in `[0, 1]`: a cubic on
/// the fractional part, halved once per whole unit. A nonnegative argument
/// yields `1`.
pub open spec fn spec_exp2_neg(t: int) -> int {
    if t >= 0 {
        FX_ONE as int
    } else {
        let nt = clip_i64(-t);
        let whole = nt / (FX_ONE as int);
        if whole >= 32 {
            0
        } else {
            let f = nt % (FX_ONE as int);
            let poly = clip_i64(
                FX_ONE as int - fx_mul(
                    f,
                    clip_i64(EXP2_C1 as int - fx_mul(f, clip_i64(EXP2_C2 as int - fx_mul(f, EXP2_C3 as int)))),
                ),
            );
            let q = if poly < 0 {
                0
            } else if poly > FX_ONE as int {
                FX_ONE as int
            } else {
                poly
            };
            spec_halve_times(q, whole as nat)
        }
    }
}

fn exp2_neg(t: Fx) -> (r: Fx)
    ensures
        r.raw as int == spec_exp2_neg(t.raw as int),
        0 <= r.raw <= FX_ONE,
{
    if t.raw >= 0 {
        return Fx { raw: FX_ONE };
    }
    let nt: Fx = t.neg();
    let whole: u64 = (nt.raw as u64) / (FX_ONE as u64);
    if whole >= 32 {
        return Fx { raw: 0 };
    }
    let f: Fx = Fx { raw: ((nt.raw as u64) % (FX_ONE as u64)) as i64 };
    proof {
        assert(f.raw as int == (nt.raw as int) % (FX_ONE as int));
        assert(whole as int == (nt.raw as int) / (FX_ONE as int));
        lemma_mod_division_less_than_divisor(nt.raw as int, FX_ONE as int);
    }
    let inner: Fx = Fx { raw: EXP2_C2 }.sub(f.mul(Fx { raw: EXP2_C3 }));
    let poly: Fx = Fx { raw: FX_ONE }.sub(f.mul(Fx { raw: EXP2_C1 }.sub(f.mul(inner))));
    let mut q: i64 = if poly.raw < 0 {
        0
    } else if poly.raw > FX_ONE {
        FX_ONE
    } else {
        poly.raw
    };
    let ghost q0: int = q as int;
    let mut j: u64 = 0;
    while j < whole
        invariant
            j <= whole,
            0 <= q <= FX_ONE,
            q as int == spec_halve_times(q0, j as nat),
        decreases whole - j,
    {
        q = ((q as u64) / 2) as i64;
        j = j + 1;
    }
    Fx { raw: q }
}

/// The power function on a base in `[0, 1]` and a nonnegative exponent,
/// through `2 ^ (p * log2 b)`; the result lies in `[0, 1]`. The base is
/// clamped into `[0, 1]` and the exponent below by `0`. A zero exponent
/// yields `1`; a zero (clamped) base with a positive exponent yields `0`.
pub open spec fn spec_pow01(br: int, pr: int) -> int {
    let b = if br < 0 {
        0
    } else if br > FX_ONE as int {
        FX_ONE as int
    } else {
        br
    };
    let p = if pr < 0 {
        0
    } else {
        pr
    };
    if p == 0 {
        FX_ONE as int
    } else if b <= 0 {
        0
    } else {
        spec_exp2_neg(fx_mul(p, spec_log2_01(b)))
    }
}

/// Halving keeps a value in `[0, 1]`.
pub proof fn lemma_halve_times_bounds(v: int, n: nat)
    requires
        0 <= v <= FX_ONE as int,
    ensures
        0 <= spec_halve_times(v, n) <= FX_ONE as int,
    decreases n,
{
    if n > 0 {
        lemma_halve_times_bounds(v, (n - 1) as nat);
    }
}

/// The base-two exponential of a nonpositive value lies in `[0, 1]`.
pub proof fn lemma_exp2_neg_bounds(t: int)
    ensures
        0 <= spec_exp2_neg(t) <= FX_ONE as int,
{
    if t < 0 {
        let nt = clip_i64(-t);
        let whole = nt / (FX_ONE as int);
        if whole < 32 {
            let f = nt % (FX_ONE as int);
            let poly = clip_i64(
                FX_ONE as int - fx_mul(
                    f,
                    clip_i64(EXP2_C1 as int - fx_mul(f, clip_i64(EXP2_C2 as int - fx_mul(f, EXP2_C3 as int)))),
                ),
            );
            let q = if poly < 0 {
                0
            } else if poly > FX_ONE as int {
                FX_ONE as int
            } else {
                poly
            };
            lemma_halve_times_bounds(q, whole as nat);
        }
    }
}

/// The clamped power lies in `[0, 1]`.
pub proof fn lemma_pow01_bounds(br: int, pr: int)
    ensures
        0 <= spec_pow01(br, pr) <= FX_ONE as int,
{
    let b = if br < 0 {
        0
    } else if br > FX_ONE as int {
        FX_ONE as int
    } else {
        br
    };
    let p = if pr < 0 {
        0
    } else {
        pr
    };
    if p != 0 && b > 0 {
        lemma_exp2_neg_bounds(fx_mul(p, spec_log2_01(b)));
    }
}

/// Power of a base in `[0, 1]` to a nonnegative exponent.
pub fn fx_pow01(base: Fx, exponent: Fx) -> (r: Fx)
    ensures
        r.raw as int == spec_pow01(base.raw as int, exponent.raw as int),
        0 <= r.raw <= FX_ONE,
{
    let b: Fx = base.clamp_to(Fx { raw: 0 }, Fx { raw: FX_ONE });
    let p: Fx = if exponent.raw < 0 {
        Fx { raw: 0 }
    } else {
        exponent
    };
    if p.raw == 0 {
        Fx { raw: FX_ONE }
    } else if b.raw <= 0 {
        Fx { raw: 0 }
    } else {
        exp2_neg(p.mul(log2_01(b)))
    }
}

} // verus!
