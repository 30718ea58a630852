//! The climate model: surface temperature from the virtual latitude of a
//! point displaced along the ocean current: an advection-like effect by
//! which currents carry climate laterally.

use crate::fixed::{clip_i64, fx_mul, Fx};
use crate::mathfx::{fx_cos, fx_sin, spec_cos, spec_sin};
use crate::params::{
    latitude_at, spec_latitude, spec_temperature, temperature_at, ReferenceEnvironmentParameters,
};
use vstd::prelude::*;

verus! {

/// The surface temperature of a point, given the ocean current through it:
/// the virtual latitude is taken at the point displaced by
/// `(cos a, sin a) * effect_distance * magnitude`, then mapped by the
/// configured latitude-to-temperature strategy.
pub open spec fn spec_temperature_surface(
    p: ReferenceEnvironmentParameters,
    xr: int,
    yr: int,
    current_angle: int,
    current_magnitude: int,
) -> int {
    let eff = p.ocean_current_elevation_effect_distance.raw as int;
    let dx = fx_mul(fx_mul(spec_cos(current_angle), eff), current_magnitude);
    let dy = fx_mul(fx_mul(spec_sin(current_angle), eff), current_magnitude);
    let lat = spec_latitude(p.virtual_latitude_fn, clip_i64(xr + dx), clip_i64(yr + dy));
    spec_temperature(p.temperature_surface_fn, lat)
}

/// Derives the surface temperature of a point from its ocean current.
pub fn temperature_surface(
    p: &ReferenceEnvironmentParameters,
    x: Fx,
    y: Fx,
    current_angle: Fx,
    current_magnitude: Fx,
) -> (r: Fx)
    ensures
        r.raw as int == spec_temperature_surface(
            *p,
            x.raw as int,
            y.raw as int,
            current_angle.raw as int,
            current_magnitude.raw as int,
        ),
{
    let eff = p.ocean_current_elevation_effect_distance;
    let dx = fx_cos(current_angle).mul(eff).mul(current_magnitude);
    let dy = fx_sin(current_angle).mul(eff).mul(current_magnitude);
    let lat = latitude_at(&p.virtual_latitude_fn, x.add(dx), y.add(dy));
    temperature_at(&p.temperature_surface_fn, lat)
}

} // verus!
