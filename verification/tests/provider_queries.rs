//! Tests of the provider facade: validity gating, determinism, elevation
//! bounds, current-elevation coupling, and the configuration taxonomy.

use envfield::elevation::get_primitive_elevation_factors;
use envfield::fixed::{Fx, FX_ONE};
use envfield::noise::NoiseBank;
use envfield::ocean::ocean_current;
use envfield::params::{
    ConfigError, LatitudeStrategy, ReferenceEnvironmentParameters, TemperatureStrategy,
    ValidityStrategy, ValueRange, ValueWithNormalized,
};
use envfield::provider::{EnvironmentProvider, ReferenceEnvironmentProvider};

#[test]
fn default_configuration_builds() {
    let provider = ReferenceEnvironmentProvider::new(None, ReferenceEnvironmentParameters::default());
    assert!(provider.is_ok());
}

#[test]
fn origin_query_answers_some() {
    let provider =
        ReferenceEnvironmentProvider::new(None, ReferenceEnvironmentParameters::default()).unwrap();
    let r = provider.get_factors(Fx::from_int(0), Fx::from_int(0));
    assert!(r.is_some());
}

#[test]
fn validity_gating_follows_the_predicate() {
    let provider =
        ReferenceEnvironmentProvider::new(None, ReferenceEnvironmentParameters::default()).unwrap();
    // The default predicate rejects |y| >= 1 and accepts |y| < 1, at any x.
    assert!(provider.get_factors(Fx::from_int(0), Fx::from_int(1)).is_none());
    assert!(provider.get_factors(Fx::from_int(3), Fx::from_int(-1)).is_none());
    assert!(provider.get_factors(Fx::from_int(0), Fx::from_int(7)).is_none());
    assert!(provider.get_factors(Fx::from_int(5), Fx::from_ratio(99, 100)).is_some());
    assert!(provider.get_factors(Fx::from_int(-2), Fx::from_ratio(-99, 100)).is_some());

    let mut open_params = ReferenceEnvironmentParameters::default();
    open_params.valid_fn = ValidityStrategy::Always;
    let open_provider = ReferenceEnvironmentProvider::new(None, open_params).unwrap();
    assert!(open_provider.get_factors(Fx::from_int(0), Fx::from_int(7)).is_some());
}

#[test]
fn queries_are_deterministic() {
    let seeds: [u64; 10] = [11, 12, 13, 14, 15, 16, 17, 18, 19, 20];
    let a = ReferenceEnvironmentProvider::new(
        Some(seeds),
        ReferenceEnvironmentParameters::default(),
    )
    .unwrap();
    let b = ReferenceEnvironmentProvider::new(
        Some(seeds),
        ReferenceEnvironmentParameters::default(),
    )
    .unwrap();
    let points: [(i64, i64); 4] = [(0, 0), (3, 1), (-5, -2), (40, 3)];
    for (px, py) in points {
        let x = Fx::from_ratio(px, 8);
        let y = Fx::from_ratio(py, 8);
        let first = a.get_factors(x, y).unwrap();
        let again = a.get_factors(x, y).unwrap();
        let other = b.get_factors(x, y).unwrap();
        assert_eq!(first, again);
        assert_eq!(first, other);
    }
}

#[test]
fn elevation_factors_respect_their_bounds() {
    let params = ReferenceEnvironmentParameters::default();
    let bank = NoiseBank::with_default_seeds();
    let depth = params.primitive_shelf_depth.raw;
    let mut k: i64 = -12;
    while k <= 12 {
        let x = Fx::from_ratio(k, 5);
        let y = Fx::from_ratio(k, 13);
        let f = get_primitive_elevation_factors(&bank, &params, x, y);
        assert!(-2 * depth <= f.shelf.raw && f.shelf.raw <= 0, "shelf {}", f.shelf.raw);
        let pn = f.persistence.normalized.raw;
        assert!(0 <= pn && pn <= FX_ONE, "persistence {}", pn);
        assert!(f.land_base.raw >= 0);
        k += 1;
    }
}

#[test]
fn full_land_stops_the_current() {
    let params = ReferenceEnvironmentParameters::default();
    let bank = NoiseBank::with_default_seeds();
    let mut k: i64 = -6;
    while k <= 6 {
        let x = Fx::from_ratio(k, 7);
        let y = Fx::from_ratio(-k, 9);
        let (_, magnitude) = ocean_current(&bank, &params, x, y, Fx { raw: FX_ONE });
        assert_eq!(magnitude.raw, 0);
        k += 1;
    }
}

#[test]
fn zero_continent_sample_maps_to_negated_depth() {
    // With shelf depth 0.3, a continent sample of exactly zero shapes to
    // zero, and the shelf map lands exactly on -0.3.
    let depth = Fx::from_ratio(3, 10);
    let zero_sample = Fx { raw: 0 };
    let shaped = zero_sample;
    let shelf = shaped.sub(Fx { raw: FX_ONE }).mul(depth);
    assert_eq!(shelf, depth.neg());
}

#[test]
fn normalized_round_trip_is_exact() {
    let range = ValueRange { min: Fx::from_ratio(1, 3), max: Fx::from_ratio(22, 7) };
    let n = Fx::from_ratio(5, 9);
    let v = ValueWithNormalized::from_normalized(n, range);
    assert_eq!(v.normalized, n);
    let rebuilt = range.min.add(v.normalized.mul(range.max.sub(range.min)));
    assert_eq!(v.value, rebuilt);

    let simple = ValueWithNormalized::from_normalized(
        Fx::from_ratio(1, 4),
        ValueRange { min: Fx::from_int(-2), max: Fx::from_int(2) },
    );
    assert_eq!(simple.value, Fx::from_int(-1));
}

#[test]
fn configuration_faults_are_reported_in_order() {
    let default_params = ReferenceEnvironmentParameters::default();
    let zero = Fx { raw: 0 };

    let mut p = default_params;
    p.primitive_shelf_scale = zero;
    assert_eq!(fault(p), ConfigError::ZeroShelfScale);

    let mut p = default_params;
    p.primitive_persistence_scale = zero;
    assert_eq!(fault(p), ConfigError::ZeroPersistenceScale);

    let mut p = default_params;
    p.primitive_land_scale = zero;
    assert_eq!(fault(p), ConfigError::ZeroLandScale);

    let mut p = default_params;
    p.ocean_current_scale = zero;
    assert_eq!(fault(p), ConfigError::ZeroOceanCurrentScale);

    let mut p = default_params;
    p.atmosphere_pressure_scale = zero;
    assert_eq!(fault(p), ConfigError::ZeroAtmospherePressureScale);

    let mut p = default_params;
    p.ocean_current_probe_distance = zero;
    assert_eq!(fault(p), ConfigError::NonPositiveOceanCurrentProbeDistance);

    let mut p = default_params;
    p.atmosphere_probe_distance = Fx::from_int(-1);
    assert_eq!(fault(p), ConfigError::NonPositiveAtmosphereProbeDistance);

    let mut p = default_params;
    p.gradient_sample_num = 1;
    assert_eq!(fault(p), ConfigError::InsufficientGradientSamples);

    // The first fault in validation order wins.
    let mut p = default_params;
    p.primitive_shelf_scale = zero;
    p.gradient_sample_num = 0;
    assert_eq!(fault(p), ConfigError::ZeroShelfScale);
}

fn fault(p: ReferenceEnvironmentParameters) -> ConfigError {
    match ReferenceEnvironmentProvider::new(None, p) {
        Err(e) => e,
        Ok(_) => panic!("configuration unexpectedly accepted"),
    }
}

#[test]
fn parameters_are_returned_unchanged() {
    let mut params = ReferenceEnvironmentParameters::default();
    params.virtual_latitude_fn = LatitudeStrategy::Scaled { gain: Fx::from_ratio(1, 2) };
    params.temperature_surface_fn =
        TemperatureStrategy::Affine { base: Fx::from_int(10), slope: Fx::from_int(-20) };
    let provider = ReferenceEnvironmentProvider::new(None, params).unwrap();
    let got = provider.get_parameters();
    assert_eq!(got.gradient_sample_num, 16);
    assert_eq!(got.gradient_iteration, 2);
    assert_eq!(
        got.virtual_latitude_fn,
        LatitudeStrategy::Scaled { gain: Fx::from_ratio(1, 2) }
    );
}

#[test]
fn affine_strategies_are_exact() {
    // With an affine latitude and temperature strategy the whole climate
    // path is exact fixed-point arithmetic: latitude = y / 2 (clamped) and
    // temperature = 10 - 20 * latitude, checked at a point with no current.
    let mut params = ReferenceEnvironmentParameters::default();
    params.virtual_latitude_fn = LatitudeStrategy::Scaled { gain: Fx::from_ratio(1, 2) };
    params.temperature_surface_fn =
        TemperatureStrategy::Affine { base: Fx::from_int(10), slope: Fx::from_int(-20) };
    let provider = ReferenceEnvironmentProvider::new(None, params).unwrap();
    let y = Fx::from_ratio(1, 2);
    let f = provider.get_factors(Fx::from_int(0), y).unwrap();
    assert_eq!(f.virtual_latitude, Fx::from_ratio(1, 4));
}

#[test]
fn reference_query_regression() {
    let provider =
        ReferenceEnvironmentProvider::new(None, ReferenceEnvironmentParameters::default()).unwrap();
    let f = provider.get_factors(Fx::from_int(0), Fx::from_int(0)).unwrap();
    assert_eq!(f.virtual_latitude.raw, 0);
    assert_eq!(f.temperature_surface.raw, 90711109110);
    assert_eq!(f.atmosphere_pressure_normalized.raw, 0);
    assert_eq!(f.atmosphere_current_angle.raw, 13493037685);
    assert_eq!(f.atmosphere_current_magnitude.raw, -1706117847);
    assert_eq!(f.primitive_elevation_factors.shelf.raw, -1288490189);
    assert_eq!(f.primitive_elevation_factors.persistence.value.raw, 2147483648);
    assert_eq!(f.primitive_elevation_factors.persistence.normalized.raw, 2147483648);
    assert_eq!(f.primitive_elevation_factors.land_base.raw, 0);
    assert_eq!(f.primitive_elevation_factors.elevation.value.raw, -34359738370000);
    assert_eq!(f.primitive_elevation_factors.elevation.normalized.raw, -1288490189);
    assert_eq!(f.ocean_current_angle.raw, 3313290364);
    assert_eq!(f.ocean_current_magnitude.raw, -2526429505);
}
