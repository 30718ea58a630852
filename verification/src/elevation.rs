//! The elevation model: continental shelf shape, per-point persistence
//! (roughness control), absolute landmass amplitude, and the final
//! normalized and absolute elevation.

use crate::fixed::{
    abs_int, clip_i64, fx_div, fx_mul, lemma_fx_mul_abs_bound, lemma_fx_mul_nonpos, Fx, FX_ONE,
};
use crate::mathfx::{lemma_pow01_bounds, fx_pow01, spec_pow01};
use crate::noise::{
    spec_sample_fractal, NoiseBank, NOISE_PRIMITIVE_CONTINENT, NOISE_PRIMITIVE_LAND,
    NOISE_PRIMITIVE_PERSISTENCE,
};
use crate::params::{
    spec_denormalize, ReferenceEnvironmentParameters, ValueWithNormalized, FX_HALF,
};
use vstd::prelude::*;

verus! {

/// The primitive elevation quantities of one point:
/// `elevation = land_base + shelf`, reshaped by the land power where
/// positive, then denormalized into the configured elevation range.
#[derive(Clone, Copy, Debug, PartialEq, Eq, Structural)]
pub struct PrimitiveElevationFactors {
    /// Shelf component; in `[-2 * shelf_depth, 0]`, and within
    /// `[-shelf_depth, 0]` wherever the continent sample is nonnegative.
    pub shelf: Fx,
    /// Persistence; its normalized form lies in `[0, 1]`.
    pub persistence: ValueWithNormalized,
    /// Absolute fractal landmass amplitude, in `[0, 1]`.
    pub land_base: Fx,
    /// Normalized and absolute (m) elevation.
    pub elevation: ValueWithNormalized,
}

/// The continent-layer fractal sample of a point: three octaves at one-half
/// persistence, over coordinates divided by the shelf scale.
pub open spec fn spec_continent_sample(
    seeds: Seq<u64>,
    p: ReferenceEnvironmentParameters,
    xr: int,
    yr: int,
) -> int {
    spec_sample_fractal(
        seeds,
        fx_div(xr, p.primitive_shelf_scale.raw as int),
        fx_div(yr, p.primitive_shelf_scale.raw as int),
        3,
        FX_HALF as int,
        NOISE_PRIMITIVE_CONTINENT as int,
    )
}

/// The shelf of a point: the continent sample under sign-preserving power
/// shaping `sign(n) * |n|^shelf_power`, mapped by
/// `(shaped - 1) * shelf_depth`.
pub open spec fn spec_shelf(
    seeds: Seq<u64>,
    p: ReferenceEnvironmentParameters,
    xr: int,
    yr: int,
) -> int {
    let n = spec_continent_sample(seeds, p, xr, yr);
    let mag = spec_pow01(abs_int(n), p.primitive_shelf_power.raw as int);
    let shaped = if n > 0 {
        mag
    } else if n < 0 {
        -mag
    } else {
        0
    };
    fx_mul(clip_i64(shaped - FX_ONE as int), p.primitive_shelf_depth.raw as int)
}

/// The persistence-layer fractal sample of a point, remapped from
/// `[-1, 1]` to `[0, 1]`.
pub open spec fn spec_persistence_normalized(
    seeds: Seq<u64>,
    p: ReferenceEnvironmentParameters,
    xr: int,
    yr: int,
) -> int {
    let s = spec_sample_fractal(
        seeds,
        fx_div(xr, p.primitive_persistence_scale.raw as int),
        fx_div(yr, p.primitive_persistence_scale.raw as int),
        3,
        FX_HALF as int,
        NOISE_PRIMITIVE_PERSISTENCE as int,
    );
    clip_i64(fx_mul(s, FX_HALF as int) + FX_HALF as int)
}

/// The persistence of a point, denormalized into the configured range.
pub open spec fn spec_persistence_value(
    seeds: Seq<u64>,
    p: ReferenceEnvironmentParameters,
    xr: int,
    yr: int,
) -> int {
    spec_denormalize(
        spec_persistence_normalized(seeds, p, xr, yr),
        p.primitive_persistence_range.min.raw as int,
        p.primitive_persistence_range.max.raw as int,
    )
}

/// The absolute landmass amplitude of a point: eight octaves of the land
/// layer, decaying by the point's own persistence value, in absolute value.
pub open spec fn spec_land_base(
    seeds: Seq<u64>,
    p: ReferenceEnvironmentParameters,
    xr: int,
    yr: int,
) -> int {
    clip_i64(
        abs_int(
            spec_sample_fractal(
                seeds,
                fx_div(xr, p.primitive_land_scale.raw as int),
                fx_div(yr, p.primitive_land_scale.raw as int),
                8,
                spec_persistence_value(seeds, p, xr, yr),
                NOISE_PRIMITIVE_LAND as int,
            ),
        ),
    )
}

/// The normalized elevation of a point: `land_base + shelf`, reshaped by
/// `n^land_power` where positive (peaks sharpen, ocean depths stay).
pub open spec fn spec_elevation_normalized(
    seeds: Seq<u64>,
    p: ReferenceEnvironmentParameters,
    xr: int,
    yr: int,
) -> int {
    let n = clip_i64(spec_land_base(seeds, p, xr, yr) + spec_shelf(seeds, p, xr, yr));
    if n > 0 {
        spec_pow01(n, p.primitive_land_power.raw as int)
    } else {
        n
    }
}

/// The absolute elevation of a point (m).
pub open spec fn spec_elevation_value(
    seeds: Seq<u64>,
    p: ReferenceEnvironmentParameters,
    xr: int,
    yr: int,
) -> int {
    spec_denormalize(
        spec_elevation_normalized(seeds, p, xr, yr),
        p.primitive_elevation_range.min.raw as int,
        p.primitive_elevation_range.max.raw as int,
    )
}

/// Derives the primitive elevation factors of a point: a pure function of
/// the bank's seeds, the configuration, and the point.
pub fn get_primitive_elevation_factors(
    bank: &NoiseBank,
    p: &ReferenceEnvironmentParameters,
    x: Fx,
    y: Fx,
) -> (r: PrimitiveElevationFactors)
    requires
        p.spec_wf(),
    ensures
        r.shelf.raw as int == spec_shelf(bank.seeds(), *p, x.raw as int, y.raw as int),
        r.persistence.normalized.raw as int == spec_persistence_normalized(
            bank.seeds(),
            *p,
            x.raw as int,
            y.raw as int,
        ),
        r.persistence.value.raw as int == spec_persistence_value(
            bank.seeds(),
            *p,
            x.raw as int,
            y.raw as int,
        ),
        r.land_base.raw as int == spec_land_base(bank.seeds(), *p, x.raw as int, y.raw as int),
        r.elevation.normalized.raw as int == spec_elevation_normalized(
            bank.seeds(),
            *p,
            x.raw as int,
            y.raw as int,
        ),
        r.elevation.value.raw as int == spec_elevation_value(
            bank.seeds(),
            *p,
            x.raw as int,
            y.raw as int,
        ),
        0 <= p.primitive_shelf_depth.raw <= FX_ONE ==> -2 * (p.primitive_shelf_depth.raw as int)
            <= r.shelf.raw as int <= 0,
        0 <= r.persistence.normalized.raw <= FX_ONE,
        0 <= r.land_base.raw,
{
    proof {
        lemma_elevation_bounds(bank.seeds(), *p, x.raw as int, y.raw as int);
    }
    let shelf: Fx = {
        let sx = x.div(p.primitive_shelf_scale);
        let sy = y.div(p.primitive_shelf_scale);
        let n = bank.sample_fractal(sx, sy, 3, Fx { raw: FX_HALF }, NOISE_PRIMITIVE_CONTINENT);
        let mag = fx_pow01(n.abs(), p.primitive_shelf_power);
        let shaped = if n.raw > 0 {
            mag
        } else if n.raw < 0 {
            mag.neg()
        } else {
            Fx { raw: 0 }
        };
        proof {
            assert(mag.raw <= FX_ONE);
            assert(clip_i64(-(mag.raw as int)) == -(mag.raw as int));
        }
        shaped.sub(Fx { raw: FX_ONE }).mul(p.primitive_shelf_depth)
    };
    let persistence: ValueWithNormalized = {
        let px = x.div(p.primitive_persistence_scale);
        let py = y.div(p.primitive_persistence_scale);
        let s = bank.sample_fractal(px, py, 3, Fx { raw: FX_HALF }, NOISE_PRIMITIVE_PERSISTENCE);
        let normalized = s.mul(Fx { raw: FX_HALF }).add(Fx { raw: FX_HALF });
        ValueWithNormalized::from_normalized(normalized, p.primitive_persistence_range)
    };
    let land_base: Fx = {
        let lx = x.div(p.primitive_land_scale);
        let ly = y.div(p.primitive_land_scale);
        bank.sample_fractal(lx, ly, 8, persistence.value, NOISE_PRIMITIVE_LAND).abs()
    };
    let n = land_base.add(shelf);
    let elevation_normalized: Fx = if n.raw > 0 {
        fx_pow01(n, p.primitive_land_power)
    } else {
        n
    };
    let elevation = ValueWithNormalized::from_normalized(
        elevation_normalized,
        p.primitive_elevation_range,
    );
    PrimitiveElevationFactors { shelf, persistence, land_base, elevation }
}

/// Elevation-bound law: at every point, under a shelf depth in `[0, 1]` the
/// shelf lies in `[-2 * shelf_depth, 0]`: within `[-shelf_depth, 0]`
/// wherever the continent sample is nonnegative: and the normalized
/// persistence always lies in `[0, 1]`.
pub proof fn lemma_elevation_bounds(
    seeds: Seq<u64>,
    p: ReferenceEnvironmentParameters,
    xr: int,
    yr: int,
)
    ensures
        0 <= p.primitive_shelf_depth.raw <= FX_ONE ==> -2 * (p.primitive_shelf_depth.raw as int)
            <= spec_shelf(seeds, p, xr, yr) <= 0,
        (0 <= p.primitive_shelf_depth.raw <= FX_ONE && spec_continent_sample(seeds, p, xr, yr)
            >= 0) ==> -(p.primitive_shelf_depth.raw as int) <= spec_shelf(seeds, p, xr, yr),
        0 <= spec_persistence_normalized(seeds, p, xr, yr) <= FX_ONE as int,
{
    if 0 <= p.primitive_shelf_depth.raw <= FX_ONE {
        let depth = p.primitive_shelf_depth.raw as int;
        let n = spec_continent_sample(seeds, p, xr, yr);
        let mag = spec_pow01(abs_int(n), p.primitive_shelf_power.raw as int);
        lemma_pow01_bounds(abs_int(n), p.primitive_shelf_power.raw as int);
        let shaped = if n > 0 {
            mag
        } else if n < 0 {
            -mag
        } else {
            0int
        };
        let t = clip_i64(shaped - FX_ONE as int);
        assert(-2 * (FX_ONE as int) <= t <= 0);
        lemma_fx_mul_abs_bound(t, depth, 2);
        lemma_fx_mul_nonpos(t, depth);
        if n >= 0 {
            lemma_fx_mul_abs_bound(t, depth, 1);
        }
    }
    let s = spec_sample_fractal(
        seeds,
        fx_div(xr, p.primitive_persistence_scale.raw as int),
        fx_div(yr, p.primitive_persistence_scale.raw as int),
        3,
        FX_HALF as int,
        NOISE_PRIMITIVE_PERSISTENCE as int,
    );
    lemma_fx_mul_abs_bound(s, FX_HALF as int, 1);
}

/// Zero-continent-sample law: where the continent sample is exactly zero,
/// the shelf is exactly the negated shelf depth (the power shaping and the
/// sign both vanish, leaving `(0 - 1) * shelf_depth`).
pub proof fn lemma_zero_continent_sample_shelf(
    seeds: Seq<u64>,
    p: ReferenceEnvironmentParameters,
    xr: int,
    yr: int,
)
    requires
        0 <= p.primitive_shelf_depth.raw,
        spec_continent_sample(seeds, p, xr, yr) == 0,
    ensures
        spec_shelf(seeds, p, xr, yr) == -(p.primitive_shelf_depth.raw as int),
{
    let depth = p.primitive_shelf_depth.raw as int;
    assert(spec_shelf(seeds, p, xr, yr) == fx_mul(-(FX_ONE as int), depth));
    assert((-(FX_ONE as int)) * depth == -((FX_ONE as int) * depth)) by (nonlinear_arith);
    assert(abs_int((-(FX_ONE as int)) * depth) == (FX_ONE as int) * depth);
    vstd::arithmetic::div_mod::lemma_div_multiples_vanish(depth, FX_ONE as int);
    assert(((FX_ONE as int) * depth) / (FX_ONE as int) == depth);
}

} // verus!
