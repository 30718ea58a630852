//! Configuration of the environment-field generator: value ranges,
//! normalized values, the pluggable behavior strategies, and the flat
//! parameter record with its construction-time validation taxonomy.

use crate::fixed::{abs_int, clip_i64, fx_mul, Fx, FX_ONE};
use crate::mathfx::{spec_sin, fx_sin, FX_HALF_PI, FX_QUARTER_PI};
use vstd::prelude::*;

verus! {

/// `0.5`, as a raw fixed-point value.
pub const FX_HALF: i64 = 2147483648;

/// `3`, as a raw fixed-point value.
pub const FX_THREE: i64 = 12884901888;

/// `30`, as a raw fixed-point value.
pub const FX_THIRTY: i64 = 128849018880;

/// Real bounds of a physical quantity.
#[derive(Clone, Copy, Debug, PartialEq, Eq, Structural)]
pub struct ValueRange {
    pub min: Fx,
    pub max: Fx,
}

/// A quantity carried both as an absolute value and in a layer-specific
/// normalized form.
#[derive(Clone, Copy, Debug, PartialEq, Eq, Structural)]
pub struct ValueWithNormalized {
    pub value: Fx,
    pub normalized: Fx,
}

/// The affine map from a normalized value into a range:
/// `min + normalized * (max - min)`.
pub open spec fn spec_denormalize(nr: int, min: int, max: int) -> int {
    clip_i64(min + fx_mul(nr, clip_i64(max - min)))
}

impl ValueWithNormalized {
    /// Denormalizes into `range`, keeping the normalized form. The stored
    /// `value` is exactly `range.min + normalized * (range.max - range.min)`:
    /// rebuilding it from `normalized` and the range reproduces it.
    pub fn from_normalized(normalized: Fx, range: ValueRange) -> (r: ValueWithNormalized)
        ensures
            r.normalized == normalized,
            r.value.raw as int == spec_denormalize(
                normalized.raw as int,
                range.min.raw as int,
                range.max.raw as int,
            ),
    {
        ValueWithNormalized { value: range.min.add(normalized.mul(range.max.sub(range.min))), normalized }
    }
}

/// The virtual-latitude mapping `(x, y) -> latitude`, a strategy fixed at
/// construction.
#[derive(Clone, Copy, Debug, PartialEq, Eq, Structural)]
pub enum LatitudeStrategy {
    /// The reference mapping `sin(y * pi / 4)`.
    SinQuarterPi,
    /// An affine mapping `y * gain`, clamped into `[-pi/2, pi/2]`.
    Scaled { gain: Fx },
}

/// The latitude a strategy assigns to a point, in `[-pi/2, pi/2]`.
pub open spec fn spec_latitude(s: LatitudeStrategy, xr: int, yr: int) -> int {
    match s {
        LatitudeStrategy::SinQuarterPi => spec_sin(fx_mul(yr, FX_QUARTER_PI as int)),
        LatitudeStrategy::Scaled { gain } => {
            let v = fx_mul(yr, gain.raw as int);
            if v < -(FX_HALF_PI as int) {
                -(FX_HALF_PI as int)
            } else if v > FX_HALF_PI as int {
                FX_HALF_PI as int
            } else {
                v
            }
        },
    }
}

/// Evaluates a latitude strategy.
pub fn latitude_at(s: &LatitudeStrategy, x: Fx, y: Fx) -> (r: Fx)
    ensures
        r.raw as int == spec_latitude(*s, x.raw as int, y.raw as int),
        -(FX_HALF_PI as int) <= r.raw as int <= FX_HALF_PI as int,
{
    match s {
        LatitudeStrategy::SinQuarterPi => {
            let r = fx_sin(y.mul(Fx { raw: FX_QUARTER_PI }));
            proof {
                assert(FX_ONE < FX_HALF_PI);
            }
            r
        },
        LatitudeStrategy::Scaled { gain } => y.mul(*gain).clamp_to(
            Fx { raw: -FX_HALF_PI },
            Fx { raw: FX_HALF_PI },
        ),
    }
}

/// The domain-validity predicate, a strategy fixed at construction.
#[derive(Clone, Copy, Debug, PartialEq, Eq, Structural)]
pub enum ValidityStrategy {
    /// The reference predicate: a point is valid when `|y| < 1`.
    AbsYBelowOne,
    /// Every point is valid.
    Always,
}

/// Whether a strategy accepts a point.
pub open spec fn spec_valid_at(s: ValidityStrategy, xr: int, yr: int) -> bool {
    match s {
        ValidityStrategy::AbsYBelowOne => abs_int(yr) < FX_ONE as int,
        ValidityStrategy::Always => true,
    }
}

/// Evaluates a validity strategy.
pub fn valid_at(s: &ValidityStrategy, x: Fx, y: Fx) -> (r: bool)
    ensures
        r == spec_valid_at(*s, x.raw as int, y.raw as int),
{
    match s {
        ValidityStrategy::AbsYBelowOne => -FX_ONE < y.raw && y.raw < FX_ONE,
        ValidityStrategy::Always => true,
    }
}

/// The latitude-to-surface-temperature mapping, a strategy fixed at
/// construction.
#[derive(Clone, Copy, Debug, PartialEq, Eq, Structural)]
pub enum TemperatureStrategy {
    /// The reference mapping `30 * (1 - sin(|latitude|) * 3)` (degrees).
    SinBands,
    /// An affine mapping `base + latitude * slope`.
    Affine { base: Fx, slope: Fx },
}

/// The surface temperature a strategy assigns to a latitude.
pub open spec fn spec_temperature(s: TemperatureStrategy, lat: int) -> int {
    match s {
        TemperatureStrategy::SinBands => fx_mul(
            FX_THIRTY as int,
            clip_i64(FX_ONE as int - fx_mul(spec_sin(clip_i64(abs_int(lat))), FX_THREE as int)),
        ),
        TemperatureStrategy::Affine { base, slope } => clip_i64(
            base.raw as int + fx_mul(lat, slope.raw as int),
        ),
    }
}

/// Evaluates a temperature strategy.
pub fn temperature_at(s: &TemperatureStrategy, lat: Fx) -> (r: Fx)
    ensures
        r.raw as int == spec_temperature(*s, lat.raw as int),
{
    match s {
        TemperatureStrategy::SinBands => {
            let inner = Fx { raw: FX_ONE }.sub(fx_sin(lat.abs()).mul(Fx { raw: FX_THREE }));
            Fx { raw: FX_THIRTY }.mul(inner)
        },
        TemperatureStrategy::Affine { base, slope } => base.add(lat.mul(*slope)),
    }
}

/// The reference validity predicate accepts the origin: under the default
/// configuration a query at `(0, 0)` is inside the valid domain.
pub proof fn lemma_default_accepts_origin()
    ensures
        spec_valid_at(ReferenceEnvironmentParameters::spec_default().valid_fn, 0, 0),
{
}

/// The flat configuration record of the reference provider: numeric
/// scale/power/depth knobs per layer, the three pluggable strategies, and the
/// gradient-estimation knobs. The probe distances are exposed calibration
/// parameters of the two vector fields.
#[derive(Clone, Copy, Debug)]
pub struct ReferenceEnvironmentParameters {
    pub primitive_shelf_scale: Fx,
    pub primitive_shelf_power: Fx,
    pub primitive_shelf_depth: Fx,
    /// Acceptable range of persistence.
    pub primitive_persistence_range: ValueRange,
    pub primitive_persistence_scale: Fx,
    pub primitive_land_scale: Fx,
    pub primitive_land_power: Fx,
    /// Real elevation range (m).
    pub primitive_elevation_range: ValueRange,
    pub ocean_current_scale: Fx,
    /// Max distance of ocean current effect (particularly for temperature).
    pub ocean_current_elevation_effect_distance: Fx,
    /// Probe distance of the ocean-current gradient estimation.
    pub ocean_current_probe_distance: Fx,
    /// Probe distance of the wind gradient estimation.
    pub atmosphere_probe_distance: Fx,
    /// `(x, y) -> virtual_latitude`, in `[-pi/2, pi/2]`.
    pub virtual_latitude_fn: LatitudeStrategy,
    /// `(x, y) -> valid or not`.
    pub valid_fn: ValidityStrategy,
    /// `latitude -> temperature_surface` (degrees).
    pub temperature_surface_fn: TemperatureStrategy,
    /// Number of samples per gradient-estimation sweep (shared).
    pub gradient_sample_num: i32,
    /// Number of gradient-estimation refinement rounds (shared).
    pub gradient_iteration: u32,
    pub atmosphere_pressure_scale: Fx,
    pub atmosphere_pressure_noise_prop: Fx,
}

/// A construction-time configuration fault: a scale that a query would use
/// as a divisor is zero, a probe distance is not positive, or the gradient
/// estimator would have fewer than two samples per sweep.
#[derive(Clone, Copy, Debug, PartialEq, Eq, Structural)]
pub enum ConfigError {
    ZeroShelfScale,
    ZeroPersistenceScale,
    ZeroLandScale,
    ZeroOceanCurrentScale,
    ZeroAtmospherePressureScale,
    NonPositiveOceanCurrentProbeDistance,
    NonPositiveAtmosphereProbeDistance,
    InsufficientGradientSamples,
}

impl ReferenceEnvironmentParameters {
    /// The first configuration fault, in validation order, if any.
    pub open spec fn spec_config_fault(self) -> Option<ConfigError> {
        if self.primitive_shelf_scale.raw == 0 {
            Some(ConfigError::ZeroShelfScale)
        } else if self.primitive_persistence_scale.raw == 0 {
            Some(ConfigError::ZeroPersistenceScale)
        } else if self.primitive_land_scale.raw == 0 {
            Some(ConfigError::ZeroLandScale)
        } else if self.ocean_current_scale.raw == 0 {
            Some(ConfigError::ZeroOceanCurrentScale)
        } else if self.atmosphere_pressure_scale.raw == 0 {
            Some(ConfigError::ZeroAtmospherePressureScale)
        } else if self.ocean_current_probe_distance.raw <= 0 {
            Some(ConfigError::NonPositiveOceanCurrentProbeDistance)
        } else if self.atmosphere_probe_distance.raw <= 0 {
            Some(ConfigError::NonPositiveAtmosphereProbeDistance)
        } else if self.gradient_sample_num < 2 {
            Some(ConfigError::InsufficientGradientSamples)
        } else {
            None
        }
    }

    /// A well-formed configuration: one with no fault.
    pub open spec fn spec_wf(self) -> bool {
        self.spec_config_fault() is None
    }

    /// Validates the configuration, yielding its first fault if any.
    pub fn validate(&self) -> (r: Option<ConfigError>)
        ensures
            r == self.spec_config_fault(),
    {
        if self.primitive_shelf_scale.raw == 0 {
            Some(ConfigError::ZeroShelfScale)
        } else if self.primitive_persistence_scale.raw == 0 {
            Some(ConfigError::ZeroPersistenceScale)
        } else if self.primitive_land_scale.raw == 0 {
            Some(ConfigError::ZeroLandScale)
        } else if self.ocean_current_scale.raw == 0 {
            Some(ConfigError::ZeroOceanCurrentScale)
        } else if self.atmosphere_pressure_scale.raw == 0 {
            Some(ConfigError::ZeroAtmospherePressureScale)
        } else if self.ocean_current_probe_distance.raw <= 0 {
            Some(ConfigError::NonPositiveOceanCurrentProbeDistance)
        } else if self.atmosphere_probe_distance.raw <= 0 {
            Some(ConfigError::NonPositiveAtmosphereProbeDistance)
        } else if self.gradient_sample_num < 2 {
            Some(ConfigError::InsufficientGradientSamples)
        } else {
            None
        }
    }

    /// The reference configuration.
    pub open spec fn spec_default() -> ReferenceEnvironmentParameters {
        ReferenceEnvironmentParameters {
            primitive_shelf_scale: Fx { raw: FX_ONE },
            primitive_shelf_power: Fx { raw: FX_HALF },
            primitive_shelf_depth: Fx { raw: 1288490189 },
            primitive_persistence_range: ValueRange {
                min: Fx { raw: 858993459 },
                max: Fx { raw: 3435973837 },
            },
            primitive_persistence_scale: Fx { raw: 1288490189 },
            primitive_land_scale: Fx { raw: FX_ONE },
            primitive_land_power: Fx { raw: 8589934592i64 },
            primitive_elevation_range: ValueRange {
                min: Fx { raw: -21474836480000i64 },
                max: Fx { raw: 21474836480000i64 },
            },
            ocean_current_scale: Fx { raw: 3435973837 },
            ocean_current_elevation_effect_distance: Fx { raw: 1288490189 },
            ocean_current_probe_distance: Fx { raw: 65536 },
            atmosphere_probe_distance: Fx { raw: 65536 },
            virtual_latitude_fn: LatitudeStrategy::SinQuarterPi,
            valid_fn: ValidityStrategy::AbsYBelowOne,
            temperature_surface_fn: TemperatureStrategy::SinBands,
            gradient_sample_num: 16,
            gradient_iteration: 2,
            atmosphere_pressure_scale: Fx { raw: FX_ONE },
            atmosphere_pressure_noise_prop: Fx { raw: 858993459 },
        }
    }
}

impl Default for ReferenceEnvironmentParameters {
    /// The reference configuration: unit shelf/land/pressure scales, shelf
    /// power `0.5` and depth `0.3`, persistence in `[0.2, 0.8]` at scale
    /// `0.3`, land power `2`, elevation in `[-5000, 5000]` m, ocean-current
    /// scale `0.8` with effect distance `0.3`, the reference strategies, and
    /// sixteen gradient samples over two refinement rounds. It has no
    /// configuration fault.
    fn default() -> (r: ReferenceEnvironmentParameters)
        ensures
            r == ReferenceEnvironmentParameters::spec_default(),
            r.spec_wf(),
    {
        ReferenceEnvironmentParameters {
            primitive_shelf_scale: Fx { raw: FX_ONE },
            primitive_shelf_power: Fx { raw: FX_HALF },
            primitive_shelf_depth: Fx { raw: 1288490189 },
            primitive_persistence_range: ValueRange {
                min: Fx { raw: 858993459 },
                max: Fx { raw: 3435973837 },
            },
            primitive_persistence_scale: Fx { raw: 1288490189 },
            primitive_land_scale: Fx { raw: FX_ONE },
            primitive_land_power: Fx { raw: 8589934592i64 },
            primitive_elevation_range: ValueRange {
                min: Fx { raw: -21474836480000i64 },
                max: Fx { raw: 21474836480000i64 },
            },
            ocean_current_scale: Fx { raw: 3435973837 },
            ocean_current_elevation_effect_distance: Fx { raw: 1288490189 },
            ocean_current_probe_distance: Fx { raw: 65536 },
            atmosphere_probe_distance: Fx { raw: 65536 },
            virtual_latitude_fn: LatitudeStrategy::SinQuarterPi,
            valid_fn: ValidityStrategy::AbsYBelowOne,
            temperature_surface_fn: TemperatureStrategy::SinBands,
            gradient_sample_num: 16,
            gradient_iteration: 2,
            atmosphere_pressure_scale: Fx { raw: FX_ONE },
            atmosphere_pressure_noise_prop: Fx { raw: 858993459 },
        }
    }
}

} // verus!
