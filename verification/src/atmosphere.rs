//! The atmosphere model: a normalized, latitude-banded pressure field
//! (shared with the gradient estimator as `FieldKind::AtmospherePressure`)
//! and the wind vector it induces, turned by a latitude-dependent deflection.

use crate::fixed::{abs_int, clip_i64, fx_div, fx_mul, Fx};
use crate::gradient::{create_vector_field_noise, spec_field_at, spec_vector_field, FieldKind};
use crate::mathfx::{fx_atan, fx_sin, fx_tan, spec_atan, spec_sin, spec_tan, FX_PI};
use crate::noise::NoiseBank;
use crate::params::{ReferenceEnvironmentParameters, FX_HALF};
use vstd::prelude::*;

verus! {

/// The angular wind deflection of a vertical coordinate, a function of `y`
/// alone: `-atan(|tan((y + 1/2) * pi)| * sin(y * pi))`, a rotational turning
/// that varies with the latitude band.
pub open spec fn spec_wind_deflection(yr: int) -> int {
    let t = spec_tan(fx_mul(clip_i64(yr + FX_HALF as int), FX_PI as int));
    let s = spec_sin(fx_mul(yr, FX_PI as int));
    clip_i64(-spec_atan(fx_mul(clip_i64(abs_int(t)), s)))
}

/// Evaluates the wind deflection of a vertical coordinate.
pub fn wind_deflection(y: Fx) -> (r: Fx)
    ensures
        r.raw as int == spec_wind_deflection(y.raw as int),
{
    let t = fx_tan(y.add(Fx { raw: FX_HALF }).mul(Fx { raw: FX_PI }));
    let s = fx_sin(y.mul(Fx { raw: FX_PI }));
    fx_atan(t.abs().mul(s)).neg()
}

/// The normalized atmospheric pressure of a point.
pub open spec fn spec_pressure(
    seeds: Seq<u64>,
    p: ReferenceEnvironmentParameters,
    xr: int,
    yr: int,
) -> int {
    spec_field_at(seeds, p, FieldKind::AtmospherePressure, xr, yr)
}

/// The wind vector of a point: the estimated pressure gradient shifted by
/// the deflection of `y`, with magnitude `slope / pi`.
pub open spec fn spec_atmosphere_wind(
    seeds: Seq<u64>,
    p: ReferenceEnvironmentParameters,
    xr: int,
    yr: int,
) -> (int, int) {
    let (angle, diff) = spec_vector_field(
        seeds,
        p,
        FieldKind::AtmospherePressure,
        xr,
        yr,
        spec_wind_deflection(yr),
        p.atmosphere_probe_distance.raw as int,
    );
    (angle, fx_div(diff, FX_PI as int))
}

/// Derives the wind angle and magnitude of a point from the pressure field.
pub fn atmosphere_wind(
    bank: &NoiseBank,
    p: &ReferenceEnvironmentParameters,
    x: Fx,
    y: Fx,
) -> (r: (Fx, Fx))
    requires
        p.spec_wf(),
    ensures
        (r.0.raw as int, r.1.raw as int) == spec_atmosphere_wind(
            bank.seeds(),
            *p,
            x.raw as int,
            y.raw as int,
        ),
{
    let offset = wind_deflection(y);
    let (angle, diff) = create_vector_field_noise(
        bank,
        p,
        &FieldKind::AtmospherePressure,
        x,
        y,
        offset,
        p.atmosphere_probe_distance,
    );
    (angle, diff.div(Fx { raw: FX_PI }))
}

} // verus!
