//! The ocean-current model: a current vector derived from a dedicated noise
//! layer through the gradient estimator, its magnitude damped by elevation
//! so that currents vanish over full land.

use crate::fixed::{clip_i64, fx_div, fx_mul, Fx, FX_ONE};
use crate::gradient::{create_vector_field_noise, spec_vector_field, FieldKind};
use crate::mathfx::FX_QUARTER_PI;
use crate::noise::NoiseBank;
use crate::params::ReferenceEnvironmentParameters;
use vstd::prelude::*;

verus! {

/// Calibration constant approximating the maximum slope of the underlying
/// noise kernel, `2 * sqrt(2 * (30/8)^2)`; fixed, not derived per query.
pub const FX_NOISE_MAX_GRADIENT: i64 = 45555007500;

/// The ocean-current vector of a point, over the point's normalized
/// elevation: the estimated gradient of the current noise field, rotated a
/// quarter turn, with magnitude
/// `slope * (1 - max(elevation, 0)) / max_gradient * current_scale`.
pub open spec fn spec_ocean_current(
    seeds: Seq<u64>,
    p: ReferenceEnvironmentParameters,
    xr: int,
    yr: int,
    elevation_normalized: int,
) -> (int, int) {
    let (angle, diff) = spec_vector_field(
        seeds,
        p,
        FieldKind::OceanCurrentNoise,
        xr,
        yr,
        FX_QUARTER_PI as int,
        p.ocean_current_probe_distance.raw as int,
    );
    let land = if elevation_normalized >= 0 {
        elevation_normalized
    } else {
        0
    };
    let damp = clip_i64(FX_ONE as int - land);
    let magnitude = fx_mul(
        fx_div(fx_mul(diff, damp), FX_NOISE_MAX_GRADIENT as int),
        p.ocean_current_scale.raw as int,
    );
    (angle, magnitude)
}

/// Derives the ocean-current angle and magnitude of a point from the
/// current-noise layer and the point's normalized elevation.
pub fn ocean_current(
    bank: &NoiseBank,
    p: &ReferenceEnvironmentParameters,
    x: Fx,
    y: Fx,
    elevation_normalized: Fx,
) -> (r: (Fx, Fx))
    requires
        p.spec_wf(),
    ensures
        (r.0.raw as int, r.1.raw as int) == spec_ocean_current(
            bank.seeds(),
            *p,
            x.raw as int,
            y.raw as int,
            elevation_normalized.raw as int,
        ),
{
    let (angle, diff) = create_vector_field_noise(
        bank,
        p,
        &FieldKind::OceanCurrentNoise,
        x,
        y,
        Fx { raw: FX_QUARTER_PI },
        p.ocean_current_probe_distance,
    );
    let land = elevation_normalized.max_of(Fx { raw: 0 });
    let damp = Fx { raw: FX_ONE }.sub(land);
    let magnitude = diff.mul(damp).div(Fx { raw: FX_NOISE_MAX_GRADIENT }).mul(
        p.ocean_current_scale,
    );
    (angle, magnitude)
}

/// Current-elevation coupling law: wherever the normalized elevation is full
/// land (exactly one), the ocean-current magnitude vanishes, whatever the
/// estimated slope, the configuration, and the seeds.
pub proof fn lemma_full_land_stops_current(
    seeds: Seq<u64>,
    p: ReferenceEnvironmentParameters,
    xr: int,
    yr: int,
)
    ensures
        spec_ocean_current(seeds, p, xr, yr, FX_ONE as int).1 == 0,
{
    let (angle, diff) = spec_vector_field(
        seeds,
        p,
        FieldKind::OceanCurrentNoise,
        xr,
        yr,
        FX_QUARTER_PI as int,
        p.ocean_current_probe_distance.raw as int,
    );
    assert(fx_mul(diff, 0) == 0);
    assert(fx_div(0, FX_NOISE_MAX_GRADIENT as int) == 0);
    assert(fx_mul(0, p.ocean_current_scale.raw as int) == 0);
}

} // verus!
