//! Tests of the noise bank, the fractal sampler, and the gradient estimator.

use envfield::fixed::{Fx, FX_ONE};
use envfield::gradient::{estimate_gradient, FieldKind};
use envfield::noise::{NoiseBank, NOISE_END, NOISE_OCEAN_CURRENT};
use envfield::params::ReferenceEnvironmentParameters;

fn to_f64(v: Fx) -> f64 {
    v.raw as f64 / 4294967296.0
}

/// The library's representation of one raw generator sample, computed
/// through the generator and conversion crates directly.
fn raw_sample(seed: u64, x: Fx, y: Fx) -> i64 {
    let g: libnoise::Simplex<2> = libnoise::Source::simplex(seed);
    let fx = fixed::FixedI64::<fixed::types::extra::U32>::from_bits(x.raw);
    let fy = fixed::FixedI64::<fixed::types::extra::U32>::from_bits(y.raw);
    let s: f64 = libnoise::Generator::sample(&g, [fx.to_num(), fy.to_num()]);
    let v = fixed::FixedI64::<fixed::types::extra::U32>::checked_from_num(s);
    let raw = v.unwrap_or(fixed::FixedI64::ZERO).to_bits();
    raw.clamp(-FX_ONE, FX_ONE)
}

#[test]
fn single_octave_equals_raw_generator_sample() {
    let seeds: [u64; NOISE_END] = [3, 1, 4, 42, 5, 9, 2, 6, 5, 3];
    let bank = NoiseBank::with_seeds(seeds);
    let points: [(i64, i64); 4] = [(7, -5), (1, 1), (-13, 40), (0, 0)];
    for (px, py) in points {
        let x = Fx::from_ratio(px, 16);
        let y = Fx::from_ratio(py, 16);
        let got = bank.sample_fractal(x, y, 1, Fx::from_ratio(9, 10), NOISE_OCEAN_CURRENT);
        let want = raw_sample(seeds[NOISE_OCEAN_CURRENT], x, y);
        assert_eq!(got.raw, want);
    }
}

#[test]
fn fractal_sample_is_deterministic_and_bounded() {
    let a = NoiseBank::with_default_seeds();
    let b = NoiseBank::with_default_seeds();
    let mut k: i64 = -8;
    while k <= 8 {
        let x = Fx::from_ratio(k, 3);
        let y = Fx::from_ratio(-k, 7);
        let va = a.sample_fractal(x, y, 8, Fx::from_ratio(1, 2), 2);
        let vb = b.sample_fractal(x, y, 8, Fx::from_ratio(1, 2), 2);
        assert_eq!(va, vb);
        assert!(-FX_ONE <= va.raw && va.raw <= FX_ONE);
        k += 1;
    }
}

#[test]
fn default_seeds_are_the_layer_indices() {
    let defaulted = NoiseBank::with_default_seeds();
    let explicit = NoiseBank::with_seeds([0, 1, 2, 3, 4, 5, 6, 7, 8, 9]);
    let mut layer: usize = 0;
    while layer < NOISE_END {
        let x = Fx::from_ratio(5, 7);
        let y = Fx::from_ratio(-2, 3);
        assert_eq!(
            defaulted.sample_fractal(x, y, 4, Fx::from_ratio(1, 2), layer),
            explicit.sample_fractal(x, y, 4, Fx::from_ratio(1, 2), layer),
        );
        layer += 1;
    }
}

#[test]
fn out_of_range_layer_yields_zero() {
    let bank = NoiseBank::with_default_seeds();
    let v = bank.sample_fractal(Fx::from_int(1), Fx::from_int(2), 3, Fx::from_ratio(1, 2), NOISE_END);
    assert_eq!(v.raw, 0);
    assert_eq!(bank.layer_count(), NOISE_END);
}

#[test]
fn gradient_estimator_finds_descent_of_planar_field() {
    // On the synthetic field f(x, y) = x the steepest descent points along
    // the negative x axis, so the estimated angle converges to pi and the
    // slope along it to -1, at any probe point.
    let params = ReferenceEnvironmentParameters::default();
    let bank = NoiseBank::with_default_seeds();
    let field = FieldKind::Planar { gx: Fx::from_int(1), gy: Fx::from_int(0) };
    let d = Fx::from_ratio(1, 1024);
    let pi = std::f64::consts::PI;
    let step = 2.0 * pi / 15.0;
    let probes: [(i64, i64); 3] = [(0, 0), (5, -3), (-11, 17)];
    for (px, py) in probes {
        let (angle, diff) = estimate_gradient(
            &bank,
            &params,
            &field,
            Fx::from_ratio(px, 4),
            Fx::from_ratio(py, 4),
            d,
        );
        let a = to_f64(angle);
        assert!((a - pi).abs() <= step, "angle {} at probe ({}, {})", a, px, py);
        let slope = to_f64(diff);
        assert!((slope + 1.0).abs() < 0.05, "slope {}", slope);
    }
}

#[test]
fn gradient_estimator_follows_the_steeper_axis() {
    let params = ReferenceEnvironmentParameters::default();
    let bank = NoiseBank::with_default_seeds();
    // f(x, y) = 3 y: descent along the negative y axis, angle 3 pi / 2.
    let field = FieldKind::Planar { gx: Fx::from_int(0), gy: Fx::from_int(3) };
    let d = Fx::from_ratio(1, 1024);
    let (angle, diff) = estimate_gradient(&bank, &params, &field, Fx::from_int(0), Fx::from_int(0), d);
    let pi = std::f64::consts::PI;
    let a = to_f64(angle);
    assert!((a - 1.5 * pi).abs() <= 2.0 * pi / 15.0, "angle {}", a);
    assert!((to_f64(diff) + 3.0).abs() < 0.1);
}
