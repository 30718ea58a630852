//! Tests of the fixed-point representation and the math kernel.

use envfield::fixed::{Fx, FX_ONE};
use envfield::mathfx::{
    fx_atan, fx_cos, fx_mod_tau, fx_pow01, fx_sin, FX_HALF_PI, FX_PI, FX_QUARTER_PI, FX_TAU,
};

fn to_f64(v: Fx) -> f64 {
    v.raw as f64 / 4294967296.0
}

#[test]
fn addition_is_exact_within_range() {
    let a = Fx::from_ratio(3, 4);
    let b = Fx::from_ratio(1, 4);
    assert_eq!(a.add(b), Fx::from_int(1));
    assert_eq!(a.sub(a), Fx::from_int(0));
}

#[test]
fn addition_saturates() {
    let top = Fx { raw: i64::MAX };
    assert_eq!(top.add(Fx { raw: 1 }).raw, i64::MAX);
    let bottom = Fx { raw: i64::MIN };
    assert_eq!(bottom.sub(Fx { raw: 1 }).raw, i64::MIN);
    assert_eq!(bottom.neg().raw, i64::MAX);
}

#[test]
fn multiplication_rounds_toward_zero() {
    let a = Fx::from_ratio(1, 2);
    let b = Fx::from_ratio(1, 2);
    assert_eq!(a.mul(b), Fx::from_ratio(1, 4));
    // -(1/3) * 1 keeps its truncated-toward-zero raw value.
    let c = Fx::from_ratio(-1, 3);
    assert_eq!(c.mul(Fx::from_int(1)), c);
}

#[test]
fn division_inverts_multiplication_on_powers_of_two() {
    let a = Fx::from_ratio(5, 8);
    let b = Fx::from_int(4);
    assert_eq!(a.mul(b).div(b), a);
}

#[test]
fn clamp_and_extrema() {
    let lo = Fx::from_int(-1);
    let hi = Fx::from_int(1);
    assert_eq!(Fx::from_int(3).clamp_to(lo, hi), hi);
    assert_eq!(Fx::from_int(-3).clamp_to(lo, hi), lo);
    assert_eq!(Fx::from_ratio(1, 2).clamp_to(lo, hi), Fx::from_ratio(1, 2));
    assert_eq!(lo.max_of(hi), hi);
    assert_eq!(lo.min_of(hi), lo);
    assert_eq!(Fx::from_int(-2).abs(), Fx::from_int(2));
}

#[test]
fn angle_reduction_is_exact() {
    assert_eq!(fx_mod_tau(Fx { raw: 0 }).raw, 0);
    assert_eq!(fx_mod_tau(Fx { raw: FX_TAU }).raw, 0);
    assert_eq!(fx_mod_tau(Fx { raw: -1 }).raw, FX_TAU - 1);
    assert_eq!(fx_mod_tau(Fx { raw: FX_TAU + 17 }).raw, 17);
}

#[test]
fn sine_vanishes_at_zero_and_peaks_at_quarter_turn() {
    assert_eq!(fx_sin(Fx { raw: 0 }).raw, 0);
    assert_eq!(fx_sin(Fx { raw: FX_PI }).raw, 0);
    let peak = to_f64(fx_sin(Fx { raw: FX_HALF_PI }));
    assert!((peak - 1.0).abs() < 0.005, "peak {}", peak);
    let trough = to_f64(fx_sin(Fx { raw: FX_PI + FX_HALF_PI }));
    assert!((trough + 1.0).abs() < 0.005, "trough {}", trough);
}

#[test]
fn sine_tracks_the_reference_function() {
    let mut k: i64 = -40;
    while k <= 40 {
        let a = Fx::from_ratio(k, 5);
        let got = to_f64(fx_sin(a));
        let want = to_f64(a).sin();
        assert!((got - want).abs() < 0.01, "sin({}) = {} vs {}", to_f64(a), got, want);
        k += 1;
    }
}

#[test]
fn cosine_is_shifted_sine() {
    let approx_one = to_f64(fx_cos(Fx { raw: 0 }));
    assert!((approx_one - 1.0).abs() < 0.005);
    let at_half_pi = to_f64(fx_cos(Fx { raw: FX_HALF_PI }));
    assert!(at_half_pi.abs() < 0.005);
}

#[test]
fn arctangent_matches_known_points() {
    assert_eq!(fx_atan(Fx { raw: 0 }).raw, 0);
    let at_one = fx_atan(Fx::from_int(1)).raw as f64;
    assert!((at_one - FX_QUARTER_PI as f64).abs() < 0.01 * FX_ONE as f64);
    let far = to_f64(fx_atan(Fx::from_int(1000)));
    assert!((far - to_f64(Fx { raw: FX_HALF_PI })).abs() < 0.01);
    let negfar = to_f64(fx_atan(Fx::from_int(-1000)));
    assert!((negfar + to_f64(Fx { raw: FX_HALF_PI })).abs() < 0.01);
}

#[test]
fn power_identities_are_exact() {
    // A zero exponent yields one, a unit base stays one.
    assert_eq!(fx_pow01(Fx::from_ratio(1, 3), Fx { raw: 0 }).raw, FX_ONE);
    assert_eq!(fx_pow01(Fx::from_int(1), Fx::from_ratio(7, 2)).raw, FX_ONE);
    assert_eq!(fx_pow01(Fx { raw: 0 }, Fx::from_ratio(1, 2)).raw, 0);
}

#[test]
fn power_approximates_roots_and_squares() {
    let sqrt = to_f64(fx_pow01(Fx::from_ratio(1, 4), Fx::from_ratio(1, 2)));
    assert!((sqrt - 0.5).abs() < 0.01, "sqrt {}", sqrt);
    let square = to_f64(fx_pow01(Fx::from_ratio(3, 10), Fx::from_int(2)));
    assert!((square - 0.09).abs() < 0.01, "square {}", square);
    let mut k: i64 = 1;
    while k <= 16 {
        let b = Fx::from_ratio(k, 16);
        let got = to_f64(fx_pow01(b, Fx::from_ratio(1, 2)));
        let want = to_f64(b).sqrt();
        assert!((got - want).abs() < 0.02, "pow({}, 0.5) = {} vs {}", to_f64(b), got, want);
        k += 1;
    }
}
