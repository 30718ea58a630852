//! The environment provider facade: owns the noise bank and the
//! configuration, validates the configuration eagerly at construction, and
//! answers the pure per-point query `get_factors`.

use crate::climate::{spec_temperature_surface, temperature_surface};
use crate::elevation::{
    get_primitive_elevation_factors, spec_elevation_normalized, spec_elevation_value,
    spec_land_base, spec_persistence_normalized, spec_persistence_value, spec_shelf,
    PrimitiveElevationFactors,
};
use crate::atmosphere::{atmosphere_wind, spec_atmosphere_wind, spec_pressure};
use crate::fixed::Fx;
use crate::gradient::field_at;
use crate::gradient::FieldKind;
use crate::noise::{NoiseBank, NOISE_END};
use crate::ocean::{ocean_current, spec_ocean_current};
use crate::params::{
    spec_latitude, spec_valid_at, valid_at, latitude_at, ConfigError,
    ReferenceEnvironmentParameters,
};
use vstd::prelude::*;

verus! {

/// The per-query result bundle: all derived physical quantities of a point.
#[derive(Clone, Copy, Debug, PartialEq, Eq, Structural)]
pub struct EnvironmentFactors {
    /// Virtual latitude (radians), in `[-pi/2, pi/2]`.
    pub virtual_latitude: Fx,
    /// Surface temperature (degrees).
    pub temperature_surface: Fx,
    /// Normalized atmospheric pressure, approximately in `[-1, 1]`.
    pub atmosphere_pressure_normalized: Fx,
    /// Wind direction (radians).
    pub atmosphere_current_angle: Fx,
    /// Wind strength.
    pub atmosphere_current_magnitude: Fx,
    /// Primitive elevation quantities.
    pub primitive_elevation_factors: PrimitiveElevationFactors,
    /// Ocean-current direction (radians).
    pub ocean_current_angle: Fx,
    /// Ocean-current strength, approximately in `[0, 1]`.
    pub ocean_current_magnitude: Fx,
}

/// Whether a factor bundle is exactly the one the seeds, the configuration
/// and the point determine: every field is pinned by the corresponding
/// model's specification.
pub open spec fn spec_factors_match(
    seeds: Seq<u64>,
    p: ReferenceEnvironmentParameters,
    xr: int,
    yr: int,
    f: EnvironmentFactors,
) -> bool {
    let elevation_normalized = spec_elevation_normalized(seeds, p, xr, yr);
    let current = spec_ocean_current(seeds, p, xr, yr, elevation_normalized);
    let wind = spec_atmosphere_wind(seeds, p, xr, yr);
    &&& f.primitive_elevation_factors.shelf.raw as int == spec_shelf(seeds, p, xr, yr)
    &&& f.primitive_elevation_factors.persistence.normalized.raw as int
        == spec_persistence_normalized(seeds, p, xr, yr)
    &&& f.primitive_elevation_factors.persistence.value.raw as int == spec_persistence_value(
        seeds,
        p,
        xr,
        yr,
    )
    &&& f.primitive_elevation_factors.land_base.raw as int == spec_land_base(seeds, p, xr, yr)
    &&& f.primitive_elevation_factors.elevation.normalized.raw as int == elevation_normalized
    &&& f.primitive_elevation_factors.elevation.value.raw as int == spec_elevation_value(
        seeds,
        p,
        xr,
        yr,
    )
    &&& f.ocean_current_angle.raw as int == current.0
    &&& f.ocean_current_magnitude.raw as int == current.1
    &&& f.virtual_latitude.raw as int == spec_latitude(p.virtual_latitude_fn, xr, yr)
    &&& f.temperature_surface.raw as int == spec_temperature_surface(
        p,
        xr,
        yr,
        current.0,
        current.1,
    )
    &&& f.atmosphere_pressure_normalized.raw as int == spec_pressure(seeds, p, xr, yr)
    &&& f.atmosphere_current_angle.raw as int == wind.0
    &&& f.atmosphere_current_magnitude.raw as int == wind.1
}

/// Determinism law: the factor bundle is a pure function of the seeds, the
/// configuration and the point: any two bundles both matching the same
/// seeds, configuration and point are bit-identical.
pub proof fn lemma_factors_deterministic(
    seeds: Seq<u64>,
    p: ReferenceEnvironmentParameters,
    xr: int,
    yr: int,
    f1: EnvironmentFactors,
    f2: EnvironmentFactors,
)
    requires
        spec_factors_match(seeds, p, xr, yr, f1),
        spec_factors_match(seeds, p, xr, yr, f2),
    ensures
        f1 == f2,
{
}

/// A provider of environment factors over a 2-D coordinate domain.
pub trait EnvironmentProvider {
    /// The configuration the provider answers queries under.
    spec fn params_spec(&self) -> ReferenceEnvironmentParameters;

    /// Whether a point lies inside the provider's valid domain.
    spec fn valid_spec(&self, xr: int, yr: int) -> bool;

    /// The configuration, read-only.
    fn get_parameters(&self) -> (r: &ReferenceEnvironmentParameters)
        ensures
            *r == self.params_spec(),
    ;

    /// The factor bundle of a point, or `None` exactly where the point lies
    /// outside the valid domain.
    fn get_factors(&self, x: Fx, y: Fx) -> (r: Option<EnvironmentFactors>)
        ensures
            r is Some <==> self.valid_spec(x.raw as int, y.raw as int),
    ;
}

/// The reference provider: a noise bank seeded at construction and an
/// eagerly validated configuration, both exclusively owned; queries borrow
/// them read-only and retain no state.
pub struct ReferenceEnvironmentProvider {
    bank: NoiseBank,
    params: ReferenceEnvironmentParameters,
}

impl ReferenceEnvironmentProvider {
    /// A constructed provider always carries a fault-free configuration.
    #[verifier::type_invariant]
    pub closed spec fn wf(&self) -> bool {
        self.params.spec_wf()
    }

    /// The seed of each noise layer.
    pub closed spec fn seeds_spec(&self) -> Seq<u64> {
        self.bank.seeds()
    }

    /// Builds a provider over explicit per-layer seeds, or over the
    /// deterministic default seeds (the layer index) where none are given.
    /// The configuration is validated eagerly: a faulty one is rejected with
    /// its first fault, and no provider is built.
    pub fn new(seeds: Option<[u64; NOISE_END]>, params: ReferenceEnvironmentParameters) -> (r:
        Result<ReferenceEnvironmentProvider, ConfigError>)
        ensures
            r is Err <==> params.spec_config_fault() is Some,
            r matches Err(e) ==> params.spec_config_fault() == Some(e),
            r matches Ok(pr) ==> pr.params_spec() == params,
            r matches Ok(pr) ==> match seeds {
                Some(s) => pr.seeds_spec() == s@,
                None => pr.seeds_spec().len() == NOISE_END as int && (forall|i: int|
                    0 <= i < NOISE_END as int ==> pr.seeds_spec()[i] == i as u64),
            },
    {
        if let Some(e) = params.validate() {
            return Err(e);
        }
        let bank = match seeds {
            Some(s) => NoiseBank::with_seeds(s),
            None => NoiseBank::with_default_seeds(),
        };
        Ok(ReferenceEnvironmentProvider { bank, params })
    }

    /// The factor bundle of a point, or `None` exactly where the configured
    /// validity predicate rejects it. On a valid point, every returned field
    /// is pinned by the corresponding model's specification; the whole query
    /// is a pure function of the seeds, the configuration and the point.
    pub fn factors_at(&self, x: Fx, y: Fx) -> (r: Option<EnvironmentFactors>)
        ensures
            r is Some <==> spec_valid_at(
                self.params_spec().valid_fn,
                x.raw as int,
                y.raw as int,
            ),
            r matches Some(f) ==> spec_factors_match(
                self.seeds_spec(),
                self.params_spec(),
                x.raw as int,
                y.raw as int,
                f,
            ),
    {
        proof {
            use_type_invariant(&*self);
        }
        if !valid_at(&self.params.valid_fn, x, y) {
            return None;
        }
        let primitive_elevation_factors = get_primitive_elevation_factors(
            &self.bank,
            &self.params,
            x,
            y,
        );
        let (ocean_current_angle, ocean_current_magnitude) = ocean_current(
            &self.bank,
            &self.params,
            x,
            y,
            primitive_elevation_factors.elevation.normalized,
        );
        let virtual_latitude = latitude_at(&self.params.virtual_latitude_fn, x, y);
        let temperature = temperature_surface(
            &self.params,
            x,
            y,
            ocean_current_angle,
            ocean_current_magnitude,
        );
        let atmosphere_pressure_normalized = field_at(
            &self.bank,
            &self.params,
            &FieldKind::AtmospherePressure,
            x,
            y,
        );
        let (atmosphere_current_angle, atmosphere_current_magnitude) = atmosphere_wind(
            &self.bank,
            &self.params,
            x,
            y,
        );
        Some(
            EnvironmentFactors {
                virtual_latitude,
                temperature_surface: temperature,
                atmosphere_pressure_normalized,
                atmosphere_current_angle,
                atmosphere_current_magnitude,
                primitive_elevation_factors,
                ocean_current_angle,
                ocean_current_magnitude,
            },
        )
    }
}

impl EnvironmentProvider for ReferenceEnvironmentProvider {
    closed spec fn params_spec(&self) -> ReferenceEnvironmentParameters {
        self.params
    }

    /// A point is valid exactly where the configured validity predicate
    /// accepts it.
    closed spec fn valid_spec(&self, xr: int, yr: int) -> bool {
        spec_valid_at(self.params.valid_fn, xr, yr)
    }

    fn get_parameters(&self) -> (r: &ReferenceEnvironmentParameters)
        ensures
            *r == self.params_spec(),
    {
        &self.params
    }

    fn get_factors(&self, x: Fx, y: Fx) -> (r: Option<EnvironmentFactors>)
        ensures
            r is Some <==> self.valid_spec(x.raw as int, y.raw as int),
    {
        self.factors_at(x, y)
    }
}

} // verus!
