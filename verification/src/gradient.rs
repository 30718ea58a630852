//! The directional gradient estimator: derivative-free search for the
//! direction of steepest local descent of a scalar field, by iterative
//! angular bisection-by-sampling, and the scalar fields it probes.

use crate::fixed::{clip_i64, fx_div, fx_mul, Fx, FX_ONE};
use crate::mathfx::{fx_cos, fx_sin, spec_cos, spec_sin, FX_TAU};
use crate::noise::{spec_sample_fractal, NoiseBank, NOISE_ATMOSPHERE_PRESSURE, NOISE_OCEAN_CURRENT};
use crate::params::{ReferenceEnvironmentParameters, FX_HALF};
use vstd::prelude::*;

verus! {

/// A scalar field the gradient estimator can probe.
#[derive(Clone, Copy, Debug, PartialEq, Eq, Structural)]
pub enum FieldKind {
    /// One octave of the ocean-current noise layer, over coordinates divided
    /// by the ocean-current scale.
    OceanCurrentNoise,
    /// The atmospheric pressure field: a latitude-banded base blended with
    /// one octave of the pressure noise layer.
    AtmospherePressure,
    /// A synthetic planar field `gx * x + gy * y`, for calibration.
    Planar { gx: Fx, gy: Fx },
}

/// The value of a field at a point.
pub open spec fn spec_field_at(
    seeds: Seq<u64>,
    p: ReferenceEnvironmentParameters,
    f: FieldKind,
    xr: int,
    yr: int,
) -> int {
    match f {
        FieldKind::OceanCurrentNoise => spec_sample_fractal(
            seeds,
            fx_div(xr, p.ocean_current_scale.raw as int),
            fx_div(yr, p.ocean_current_scale.raw as int),
            1,
            0,
            NOISE_OCEAN_CURRENT as int,
        ),
        FieldKind::AtmospherePressure => {
            let c = spec_cos(fx_mul(yr, FX_TAU as int));
            let base = clip_i64(fx_mul(clip_i64(-c), FX_HALF as int) + FX_HALF as int);
            let noise = spec_sample_fractal(
                seeds,
                fx_div(xr, p.atmosphere_pressure_scale.raw as int),
                fx_div(yr, p.atmosphere_pressure_scale.raw as int),
                1,
                FX_HALF as int,
                NOISE_ATMOSPHERE_PRESSURE as int,
            );
            let prop = p.atmosphere_pressure_noise_prop.raw as int;
            clip_i64(
                fx_mul(base, clip_i64(FX_ONE as int - prop)) + fx_mul(noise, prop),
            )
        },
        FieldKind::Planar { gx, gy } => clip_i64(
            fx_mul(xr, gx.raw as int) + fx_mul(yr, gy.raw as int),
        ),
    }
}

/// Evaluates a field at a point.
pub fn field_at(
    bank: &NoiseBank,
    p: &ReferenceEnvironmentParameters,
    f: &FieldKind,
    x: Fx,
    y: Fx,
) -> (r: Fx)
    requires
        p.spec_wf(),
    ensures
        r.raw as int == spec_field_at(bank.seeds(), *p, *f, x.raw as int, y.raw as int),
{
    match f {
        FieldKind::OceanCurrentNoise => bank.sample_fractal(
            x.div(p.ocean_current_scale),
            y.div(p.ocean_current_scale),
            1,
            Fx { raw: 0 },
            NOISE_OCEAN_CURRENT,
        ),
        FieldKind::AtmospherePressure => {
            let base = fx_cos(y.mul(Fx { raw: FX_TAU })).neg().mul(Fx { raw: FX_HALF }).add(
                Fx { raw: FX_HALF },
            );
            let noise = bank.sample_fractal(
                x.div(p.atmosphere_pressure_scale),
                y.div(p.atmosphere_pressure_scale),
                1,
                Fx { raw: FX_HALF },
                NOISE_ATMOSPHERE_PRESSURE,
            );
            let own = Fx { raw: FX_ONE }.sub(p.atmosphere_pressure_noise_prop);
            base.mul(own).add(noise.mul(p.atmosphere_pressure_noise_prop))
        },
        FieldKind::Planar { gx, gy } => x.mul(*gx).add(y.mul(*gy)),
    }
}

/// The `j`-th probe of a sweep, as a (value, angle) pair: the field value at
/// the point displaced from the probe point by the probe distance along the
/// angle `a0 + stp * j`.
pub open spec fn spec_probe(
    seeds: Seq<u64>,
    p: ReferenceEnvironmentParameters,
    f: FieldKind,
    xr: int,
    yr: int,
    dr: int,
    a0: int,
    stp: int,
    j: nat,
) -> (int, int) {
    let ang = clip_i64(a0 + fx_mul(stp, clip_i64(j * (FX_ONE as int))));
    let px = clip_i64(xr + fx_mul(spec_cos(ang), dr));
    let py = clip_i64(yr + fx_mul(spec_sin(ang), dr));
    (spec_field_at(seeds, p, f, px, py), ang)
}

/// The strict minimum (value and its angle, first winner kept) over the
/// first `i` probes of one sweep.
pub open spec fn spec_scan(
    seeds: Seq<u64>,
    p: ReferenceEnvironmentParameters,
    f: FieldKind,
    xr: int,
    yr: int,
    dr: int,
    a0: int,
    stp: int,
    i: nat,
) -> (int, int)
    decreases i,
{
    if i == 0 {
        (i64::MAX as int, 0int)
    } else {
        let (mv, ma) = spec_scan(seeds, p, f, xr, yr, dr, a0, stp, (i - 1) as nat);
        let (v, ang) = spec_probe(seeds, p, f, xr, yr, dr, a0, stp, (i - 1) as nat);
        if v < mv {
            (v, ang)
        } else {
            (mv, ma)
        }
    }
}

/// Sweep-minimum law: what a sweep keeps is a probed value no greater than
/// every probe of the sweep, and the kept pair is itself one of the probes -
/// unless every probe sits at the saturation ceiling, in which case the
/// initial sentinel pair survives.
pub proof fn lemma_scan_picks_minimum(
    seeds: Seq<u64>,
    p: ReferenceEnvironmentParameters,
    f: FieldKind,
    xr: int,
    yr: int,
    dr: int,
    a0: int,
    stp: int,
    i: nat,
)
    ensures
        forall|j: nat|
            j < i ==> spec_scan(seeds, p, f, xr, yr, dr, a0, stp, i).0 <= #[trigger] spec_probe(
                seeds,
                p,
                f,
                xr,
                yr,
                dr,
                a0,
                stp,
                j,
            ).0,
        (exists|j: nat|
            j < i && spec_scan(seeds, p, f, xr, yr, dr, a0, stp, i) == #[trigger] spec_probe(
                seeds,
                p,
                f,
                xr,
                yr,
                dr,
                a0,
                stp,
                j,
            )) || spec_scan(seeds, p, f, xr, yr, dr, a0, stp, i) == (i64::MAX as int, 0int),
    decreases i,
{
    if i > 0 {
        lemma_scan_picks_minimum(seeds, p, f, xr, yr, dr, a0, stp, (i - 1) as nat);
        let prev = spec_scan(seeds, p, f, xr, yr, dr, a0, stp, (i - 1) as nat);
        let probe = spec_probe(seeds, p, f, xr, yr, dr, a0, stp, (i - 1) as nat);
        if probe.0 < prev.0 {
            assert(spec_scan(seeds, p, f, xr, yr, dr, a0, stp, i) == probe);
        } else {
            assert(spec_scan(seeds, p, f, xr, yr, dr, a0, stp, i) == prev);
        }
    }
}

/// The angular range and the best angle and value after `k` refinement
/// rounds of `n` samples each: each round sweeps the current range, keeps
/// the minimum sample's angle, and narrows the range to half an angular
/// step on either side of it.
pub open spec fn spec_refine(
    seeds: Seq<u64>,
    p: ReferenceEnvironmentParameters,
    f: FieldKind,
    xr: int,
    yr: int,
    dr: int,
    n: int,
    k: nat,
) -> (int, int, int, int)
    decreases k,
{
    if k == 0 {
        (0int, FX_TAU as int, 0int, 0int)
    } else {
        let (r0, r1, fa, fv) = spec_refine(seeds, p, f, xr, yr, dr, n, (k - 1) as nat);
        let stp = fx_div(clip_i64(r1 - r0), clip_i64((n - 1) * (FX_ONE as int)));
        let (mv, ma) = spec_scan(seeds, p, f, xr, yr, dr, r0, stp, n as nat);
        (
            clip_i64(ma - fx_mul(stp, FX_HALF as int)),
            clip_i64(ma + fx_mul(stp, FX_HALF as int)),
            ma,
            mv,
        )
    }
}

/// The estimated descent direction and signed slope at a point: the final
/// round's best angle, and the difference of its field value from the
/// center value, divided by the probe distance.
pub open spec fn spec_gradient(
    seeds: Seq<u64>,
    p: ReferenceEnvironmentParameters,
    f: FieldKind,
    xr: int,
    yr: int,
    dr: int,
) -> (int, int) {
    let (r0, r1, fa, fv) = spec_refine(
        seeds,
        p,
        f,
        xr,
        yr,
        dr,
        p.gradient_sample_num as int,
        p.gradient_iteration as nat,
    );
    let center = spec_field_at(seeds, p, f, xr, yr);
    (fa, fx_div(clip_i64(fv - center), dr))
}

/// Estimates the direction of steepest descent of a field at a point and
/// the signed slope along it, by `gradient_iteration` rounds of
/// `gradient_sample_num` equally spaced angular probes at distance `d`.
pub fn estimate_gradient(
    bank: &NoiseBank,
    p: &ReferenceEnvironmentParameters,
    f: &FieldKind,
    x: Fx,
    y: Fx,
    d: Fx,
) -> (r: (Fx, Fx))
    requires
        p.spec_wf(),
        d.raw > 0,
    ensures
        (r.0.raw as int, r.1.raw as int) == spec_gradient(
            bank.seeds(),
            *p,
            *f,
            x.raw as int,
            y.raw as int,
            d.raw as int,
        ),
{
    let n: i32 = p.gradient_sample_num;
    let iters: u32 = p.gradient_iteration;
    let mut r0: Fx = Fx { raw: 0 };
    let mut r1: Fx = Fx { raw: FX_TAU };
    let mut fa: Fx = Fx { raw: 0 };
    let mut fv: Fx = Fx { raw: 0 };
    let mut k: u32 = 0;
    while k < iters
        invariant
            k <= iters,
            n == p.gradient_sample_num,
            iters == p.gradient_iteration,
            p.spec_wf(),
            d.raw > 0,
            (r0.raw as int, r1.raw as int, fa.raw as int, fv.raw as int) == spec_refine(
                bank.seeds(),
                *p,
                *f,
                x.raw as int,
                y.raw as int,
                d.raw as int,
                n as int,
                k as nat,
            ),
        decreases iters - k,
    {
        let stp: Fx = r1.sub(r0).div(Fx::from_int((n - 1) as i64));
        let mut mv: Fx = Fx { raw: i64::MAX };
        let mut ma: Fx = Fx { raw: 0 };
        let mut i: i32 = 0;
        while i < n
            invariant
                0 <= i <= n,
                2 <= n,
                n == p.gradient_sample_num,
                p.spec_wf(),
                d.raw > 0,
                (mv.raw as int, ma.raw as int) == spec_scan(
                    bank.seeds(),
                    *p,
                    *f,
                    x.raw as int,
                    y.raw as int,
                    d.raw as int,
                    r0.raw as int,
                    stp.raw as int,
                    i as nat,
                ),
            decreases n - i,
        {
            let ang: Fx = r0.add(stp.mul(Fx::from_int(i as i64)));
            let px: Fx = x.add(fx_cos(ang).mul(d));
            let py: Fx = y.add(fx_sin(ang).mul(d));
            let v: Fx = field_at(bank, p, f, px, py);
            if v.raw < mv.raw {
                mv = v;
                ma = ang;
            }
            i = i + 1;
        }
        let h: Fx = stp.mul(Fx { raw: FX_HALF });
        r0 = ma.sub(h);
        r1 = ma.add(h);
        fa = ma;
        fv = mv;
        k = k + 1;
    }
    let center: Fx = field_at(bank, p, f, x, y);
    let diff: Fx = fv.sub(center).div(d);
    (fa, diff)
}

/// The vector field a scalar field induces: the estimated gradient angle
/// shifted by a fixed angular offset, with the raw slope.
pub open spec fn spec_vector_field(
    seeds: Seq<u64>,
    p: ReferenceEnvironmentParameters,
    f: FieldKind,
    xr: int,
    yr: int,
    offset: int,
    dr: int,
) -> (int, int) {
    let (ga, diff) = spec_gradient(seeds, p, f, xr, yr, dr);
    (clip_i64(ga + offset), diff)
}

/// Derives a vector field value from a scalar field: gradient estimation,
/// then a fixed angular offset.
pub fn create_vector_field_noise(
    bank: &NoiseBank,
    p: &ReferenceEnvironmentParameters,
    f: &FieldKind,
    x: Fx,
    y: Fx,
    angle_offset: Fx,
    dist_grad: Fx,
) -> (r: (Fx, Fx))
    requires
        p.spec_wf(),
        dist_grad.raw > 0,
    ensures
        (r.0.raw as int, r.1.raw as int) == spec_vector_field(
            bank.seeds(),
            *p,
            *f,
            x.raw as int,
            y.raw as int,
            angle_offset.raw as int,
            dist_grad.raw as int,
        ),
{
    let (gradient, diff) = estimate_gradient(bank, p, f, x, y, dist_grad);
    (gradient.add(angle_offset), diff)
}

} // verus!
