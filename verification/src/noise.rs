//! The noise bank: one seeded simplex generator per named physical layer,
//! and fractal (multi-octave) sampling over a single layer.

use crate::fixed::{clip_i64, fx_div, fx_mul, Fx, FX_ONE};
use vstd::prelude::*;

verus! {

/// Layer index of the continent-shape noise.
pub const NOISE_PRIMITIVE_CONTINENT: usize = 0;

/// Layer index of the persistence (roughness) noise.
pub const NOISE_PRIMITIVE_PERSISTENCE: usize = 1;

/// Layer index of the landmass noise.
pub const NOISE_PRIMITIVE_LAND: usize = 2;

/// Layer index of the ocean-current noise.
pub const NOISE_OCEAN_CURRENT: usize = 3;

/// Layer index of the atmospheric-pressure noise.
pub const NOISE_ATMOSPHERE_PRESSURE: usize = 4;

/// Number of noise layers a bank owns.
pub const NOISE_END: usize = 10;

/// The raw fixed-point value of a two-dimensional simplex noise sample, as a
/// function of the generator seed and the fixed-point sample point.
pub uninterp spec fn simplex_raw(seed: u64, x: int, y: int) -> int;

/// Relies on `libnoise::Source::simplex` (a simplex generator is a pure
/// function of its `u64` seed) and on `libnoise::Generator::sample` for
/// `Simplex<2>` (the sample is a pure function of the generator's permutation
/// table and the point: basic IEEE arithmetic only, so the same seed and
/// point give the same value on every machine). Arguments and result are
/// converted through `fixed::FixedI64<U32>` (the same representation as
/// `Fx`): `from_bits`/`to_bits` reinterpret exactly, `to_num` and
/// `checked_from_num` convert to and from the generator's native number type
/// deterministically; a sample outside the representable range (possible for
/// unreasonably large inputs, per the generator's documentation) comes back
/// as zero.
#[verifier::external_body]
fn simplex_sample(seed: u64, x: Fx, y: Fx) -> (r: Fx)
    ensures
        r.raw as int == simplex_raw(seed, x.raw as int, y.raw as int),
{
    let g: libnoise::Simplex<2> = libnoise::Source::simplex(seed);
    let fx = fixed::FixedI64::<fixed::types::extra::U32>::from_bits(x.raw);
    let fy = fixed::FixedI64::<fixed::types::extra::U32>::from_bits(y.raw);
    let s = libnoise::Generator::sample(&g, [fx.to_num(), fy.to_num()]);
    let v = fixed::FixedI64::<fixed::types::extra::U32>::checked_from_num(s);
    Fx { raw: v.unwrap_or(fixed::FixedI64::ZERO).to_bits() }
}

/// One layer sample, clamped into `[-1, 1]`. The clamp covers the corner the
/// generator's documentation leaves open: for unreasonably large inputs the
/// sample may leave `[-1, 1]` or be invalid.
pub open spec fn spec_layer_sample(seed: u64, xr: int, yr: int) -> int {
    let s = simplex_raw(seed, xr, yr);
    if s < -(FX_ONE as int) {
        -(FX_ONE as int)
    } else if s > FX_ONE as int {
        FX_ONE as int
    } else {
        s
    }
}

/// Accumulator state after `k` octaves: value, amplitude, frequency, and the
/// maximum attainable amplitude sum.
pub open spec fn spec_fractal_step(seed: u64, xr: int, yr: int, persistence: int, k: nat) -> (
    int,
    int,
    int,
    int,
)
    decreases k,
{
    if k == 0 {
        (0, FX_ONE as int, FX_ONE as int, 0)
    } else {
        let (v, a, f, m) = spec_fractal_step(seed, xr, yr, persistence, (k - 1) as nat);
        let s = spec_layer_sample(seed, fx_mul(xr, f), fx_mul(yr, f));
        (
            clip_i64(v + fx_mul(s, a)),
            fx_mul(a, persistence),
            fx_mul(f, 2 * (FX_ONE as int)),
            clip_i64(m + a),
        )
    }
}

/// The fractal sample over a bank with the given seeds: `octaves` layers of
/// the generator at doubling frequency and geometrically decaying amplitude,
/// normalized by the maximum attainable amplitude sum. An out-of-range layer
/// index yields `0`, as does a run whose amplitude sum is not positive (the
/// latter can only arise from a degenerate persistence).
pub open spec fn spec_sample_fractal(
    seeds: Seq<u64>,
    xr: int,
    yr: int,
    octaves: nat,
    persistence: int,
    idx: int,
) -> int {
    if idx < 0 || idx >= seeds.len() {
        0
    } else {
        let (v, a, f, m) = spec_fractal_step(seeds[idx], xr, yr, persistence, octaves);
        if m <= 0 {
            0
        } else {
            let q = fx_div(v, m);
            if q < -(FX_ONE as int) {
                -(FX_ONE as int)
            } else if q > FX_ONE as int {
                FX_ONE as int
            } else {
                q
            }
        }
    }
}

/// A fixed set of independent fractal-noise generators, one per named
/// physical layer, each identified by its seed.
pub struct NoiseBank {
    seeds: Vec<u64>,
}

impl NoiseBank {
    /// The seed of each layer.
    pub closed spec fn seeds(&self) -> Seq<u64> {
        self.seeds@
    }

    /// A bank over explicit per-layer seeds.
    pub fn with_seeds(seeds: [u64; NOISE_END]) -> (r: NoiseBank)
        ensures
            r.seeds() == seeds@,
    {
        let mut v: Vec<u64> = Vec::new();
        let mut i: usize = 0;
        while i < NOISE_END
            invariant
                i <= NOISE_END,
                v@ == seeds@.take(i as int),
            decreases NOISE_END - i,
        {
            v.push(seeds[i]);
            i = i + 1;
            proof {
                assert(v@ == seeds@.take(i as int));
            }
        }
        proof {
            assert(seeds@.take(seeds@.len() as int) == seeds@);
        }
        NoiseBank { seeds: v }
    }

    /// A bank over the deterministic default seeds: the layer index.
    pub fn with_default_seeds() -> (r: NoiseBank)
        ensures
            r.seeds().len() == NOISE_END as int,
            forall|i: int| 0 <= i < NOISE_END as int ==> r.seeds()[i] == i as u64,
    {
        let mut v: Vec<u64> = Vec::new();
        let mut i: usize = 0;
        while i < NOISE_END
            invariant
                i <= NOISE_END,
                v@.len() == i as int,
                forall|j: int| 0 <= j < i as int ==> v@[j] == j as u64,
            decreases NOISE_END - i,
        {
            v.push(i as u64);
            i = i + 1;
        }
        NoiseBank { seeds: v }
    }

    /// Number of layers.
    pub fn layer_count(&self) -> (r: usize)
        ensures
            r as int == self.seeds().len(),
    {
        self.seeds.len()
    }

    /// Sums `octaves` layers of the `idx`-th generator at doubling frequency
    /// and geometrically decaying amplitude (ratio `persistence`), normalized
    /// by the maximum attainable amplitude sum, so the result stays within
    /// the base generator's native range `[-1, 1]` regardless of octave
    /// count. An out-of-range layer index yields `0.0` by contract rather
    /// than failing.
    pub fn sample_fractal(&self, x: Fx, y: Fx, octaves: u32, persistence: Fx, idx: usize) -> (r: Fx)
        ensures
            r.raw as int == spec_sample_fractal(
                self.seeds(),
                x.raw as int,
                y.raw as int,
                octaves as nat,
                persistence.raw as int,
                idx as int,
            ),
            -(FX_ONE as int) <= r.raw as int <= FX_ONE as int,
    {
        if idx >= self.seeds.len() {
            return Fx { raw: 0 };
        }
        let seed: u64 = self.seeds[idx];
        let mut value: Fx = Fx { raw: 0 };
        let mut amplitude: Fx = Fx { raw: FX_ONE };
        let mut frequency: Fx = Fx { raw: FX_ONE };
        let mut max_value: Fx = Fx { raw: 0 };
        let two: Fx = Fx { raw: 2 * FX_ONE };
        let mut k: u32 = 0;
        while k < octaves
            invariant
                k <= octaves,
                seed == self.seeds()[idx as int],
                0 <= idx < self.seeds().len(),
                two.raw == 2 * FX_ONE,
                (value.raw as int, amplitude.raw as int, frequency.raw as int, max_value.raw as int)
                    == spec_fractal_step(
                    seed,
                    x.raw as int,
                    y.raw as int,
                    persistence.raw as int,
                    k as nat,
                ),
            decreases octaves - k,
        {
            let s: Fx = self.layer_sample(seed, x.mul(frequency), y.mul(frequency));
            value = value.add(s.mul(amplitude));
            max_value = max_value.add(amplitude);
            amplitude = amplitude.mul(persistence);
            frequency = frequency.mul(two);
            k = k + 1;
        }
        if max_value.raw <= 0 {
            Fx { raw: 0 }
        } else {
            value.div(max_value).clamp_to(Fx { raw: -FX_ONE }, Fx { raw: FX_ONE })
        }
    }

    /// Octave-reduction law: a fractal sample over exactly one octave is the
    /// single raw (clamped) layer sample at the same point, whatever the
    /// persistence.
    pub proof fn lemma_single_octave(seeds: Seq<u64>, xr: int, yr: int, persistence: int, idx: int)
        requires
            0 <= idx < seeds.len(),
            i64::MIN as int <= xr <= i64::MAX as int,
            i64::MIN as int <= yr <= i64::MAX as int,
        ensures
            spec_sample_fractal(seeds, xr, yr, 1, persistence, idx) == spec_layer_sample(
                seeds[idx],
                xr,
                yr,
            ),
    {
        crate::fixed::lemma_fx_mul_one(xr);
        crate::fixed::lemma_fx_mul_one(yr);
        let s = spec_layer_sample(seeds[idx], xr, yr);
        crate::fixed::lemma_fx_mul_one(s);
        crate::fixed::lemma_fx_div_one(s);
        assert(spec_fractal_step(seeds[idx], xr, yr, persistence, 0) == (
            0int,
            FX_ONE as int,
            FX_ONE as int,
            0int,
        ));
        assert(spec_fractal_step(seeds[idx], xr, yr, persistence, 1) == (
            clip_i64(0 + fx_mul(s, FX_ONE as int)),
            fx_mul(FX_ONE as int, persistence),
            fx_mul(FX_ONE as int, 2 * (FX_ONE as int)),
            clip_i64(0 + FX_ONE as int),
        ));
    }

    /// One clamped raw sample of the `idx`-th layer's generator.
    fn layer_sample(&self, seed: u64, x: Fx, y: Fx) -> (r: Fx)
        ensures
            r.raw as int == spec_layer_sample(seed, x.raw as int, y.raw as int),
    {
        let s: Fx = simplex_sample(seed, x, y);
        s.clamp_to(Fx { raw: -FX_ONE }, Fx { raw: FX_ONE })
    }
}

} // verus!
