//! The noise field: a deterministic fixed-point fractal (fBm) noise function.
//!
//! The base primitive is smooth value noise: each lattice point is hashed to a
//! value in `[0, 2 * FIX_ONE]` (standing for `[-1, 1]`), and the four corners of
//! a cell are blended with the smoothstep curve. The fractal sample sums up to
//! eight octaves of the primitive and normalizes the result into `[0, FIX_ONE]`
//! (standing for `[0, 1]`).
//!
//! Everything here is a pure function of its arguments: resampling with the
//! same seed and parameters reproduces the same field bit for bit.

use vstd::prelude::*;

verus! {

use crate::FIX_ONE;
use crate::settings::{FREQUENCY_MAX, NoiseSettings};

/// 2^64, the modulus of the 64-bit lattice hash.
pub const HASH_MOD: u128 = 0x1_0000_0000_0000_0000;

/// Product of two 64-bit values, reduced modulo 2^64.
pub open spec fn spec_wrap_mul(a: u64, b: u64) -> u64 {
    ((a * b) % 0x1_0000_0000_0000_0000) as u64
}

/// 64-bit mix of a lattice point and the seed, a small xorshift-multiply chain.
pub open spec fn spec_corner_hash(seed: u32, xi: u64, yi: u64) -> u64 {
    let h1 = spec_wrap_mul(xi ^ 0x9E3779B97F4A7C15, 0xBF58476D1CE4E5B9);
    let h2 = spec_wrap_mul(h1 ^ yi ^ 0x94D049BB133111EB, 0xFF51AFD7ED558CCD);
    let h3 = spec_wrap_mul(h2 ^ (seed as u64), 0xC4CEB9FE1A85EC53);
    h3 ^ (h3 / 0x1_0000_0000)
}

/// Value of the noise primitive at a lattice point: the hash reduced to
/// `[0, 2 * FIX_ONE]`, which stands for `[-1, 1]`.
pub open spec fn spec_corner(seed: u32, xi: u64, yi: u64) -> u64 {
    spec_corner_hash(seed, xi, yi) % 2_000_001
}

/// Smoothstep fade curve `3t^2 - 2t^3` in fixed point, mapping `[0, FIX_ONE]`
/// onto itself.
pub open spec fn spec_fade(t: int) -> int {
    t * t * (3 * FIX_ONE as int - 2 * t) / (FIX_ONE as int * FIX_ONE as int)
}

/// Linear interpolation `a + (b - a) * t` in fixed point, written over the
/// common denominator so that it stays in `[0, 2 * FIX_ONE]` whenever `a` and
/// `b` do.
pub open spec fn spec_lerp(a: int, b: int, t: int) -> int {
    (a * (FIX_ONE as int - t) + b * t) / FIX_ONE as int
}

/// The value-noise primitive at a point in fixed-point coordinates: the four
/// corners of the lattice cell around the point, blended by the faded
/// fractional position. The result is in `[0, 2 * FIX_ONE]`, standing for
/// `[-1, 1]`.
pub open spec fn spec_primitive(seed: u32, cx: int, cy: int) -> int {
    let xi = cx / FIX_ONE as int;
    let yi = cy / FIX_ONE as int;
    let tx = cx % FIX_ONE as int;
    let ty = cy % FIX_ONE as int;
    let x0 = (xi % 0x1_0000_0000_0000_0000) as u64;
    let x1 = ((xi + 1) % 0x1_0000_0000_0000_0000) as u64;
    let y0 = (yi % 0x1_0000_0000_0000_0000) as u64;
    let y1 = ((yi + 1) % 0x1_0000_0000_0000_0000) as u64;
    let u = spec_fade(tx);
    let v = spec_fade(ty);
    let bottom = spec_lerp(spec_corner(seed, x0, y0) as int, spec_corner(seed, x1, y0) as int, u);
    let top = spec_lerp(spec_corner(seed, x0, y1) as int, spec_corner(seed, x1, y1) as int, u);
    spec_lerp(bottom, top, v)
}

/// Product of two 64-bit values, reduced modulo 2^64.
fn wrap_mul(a: u64, b: u64) -> (r: u64)
    ensures
        r == spec_wrap_mul(a, b),
{
    proof {
        assert(a * b <= 0xFFFF_FFFF_FFFF_FFFFu64 * 0xFFFF_FFFF_FFFF_FFFFu64) by (nonlinear_arith)
            requires
                a <= 0xFFFF_FFFF_FFFF_FFFFu64,
                b <= 0xFFFF_FFFF_FFFF_FFFFu64,
        ;
    }
    let p: u128 = (a as u128) * (b as u128);
    (p % HASH_MOD) as u64
}

/// 64-bit mix of a lattice point and the seed.
fn corner_hash(seed: u32, xi: u64, yi: u64) -> (r: u64)
    ensures
        r == spec_corner_hash(seed, xi, yi),
{
    let h1 = wrap_mul(xi ^ 0x9E3779B97F4A7C15, 0xBF58476D1CE4E5B9);
    let h2 = wrap_mul(h1 ^ yi ^ 0x94D049BB133111EB, 0xFF51AFD7ED558CCD);
    let h3 = wrap_mul(h2 ^ (seed as u64), 0xC4CEB9FE1A85EC53);
    h3 ^ (h3 / 0x1_0000_0000)
}

/// Value of the noise primitive at a lattice point, in `[0, 2 * FIX_ONE]`.
fn corner(seed: u32, xi: u64, yi: u64) -> (r: u64)
    ensures
        r == spec_corner(seed, xi, yi),
        r <= 2 * FIX_ONE,
{
    corner_hash(seed, xi, yi) % 2_000_001
}

/// Smoothstep fade curve in fixed point.
fn fade(t: u64) -> (r: u64)
    requires
        t <= FIX_ONE,
    ensures
        r == spec_fade(t as int),
        r <= FIX_ONE,
{
    proof {
        lemma_fade_bounds(t as int);
        assert(t * t <= 1_000_000_000_000) by (nonlinear_arith)
            requires
                t <= 1_000_000,
        ;
    }
    let t2: u64 = t * t;
    let s: u64 = 3 * FIX_ONE - 2 * t;
    let num: u64 = ((t2 as u128 * s as u128) / (1_000_000_000_000u128)) as u64;
    num
}

/// The numerator of the fade curve stays within `FIX_ONE^3`, so the curve maps
/// `[0, FIX_ONE]` onto itself.
proof fn lemma_fade_bounds(t: int)
    requires
        0 <= t <= FIX_ONE,
    ensures
        0 <= t * t * (3 * FIX_ONE - 2 * t) <= FIX_ONE * FIX_ONE * FIX_ONE,
        0 <= spec_fade(t) <= FIX_ONE,
{
    let f = FIX_ONE as int;
    assert(0 <= t * t * (3 * f - 2 * t) <= f * f * f) by (nonlinear_arith)
        requires
            0 <= t <= f,
            f == 1_000_000,
    {
        assert(f * f * f - t * t * (3 * f - 2 * t) == (f - t) * (f - t) * (f + 2 * t));
        assert((f - t) * (f - t) * (f + 2 * t) >= 0);
        assert(t * t * (3 * f - 2 * t) >= 0);
    }
    assert(spec_fade(t) <= f) by {
        assert(t * t * (3 * f - 2 * t) / (f * f) <= f * f * f / (f * f)) by (nonlinear_arith)
            requires
                0 <= t * t * (3 * f - 2 * t) <= f * f * f,
                f == 1_000_000,
        ;
    }
}

/// Linear interpolation in fixed point; keeps `[0, 2 * FIX_ONE]` stable.
fn lerp(a: u64, b: u64, t: u64) -> (r: u64)
    requires
        a <= 2 * FIX_ONE,
        b <= 2 * FIX_ONE,
        t <= FIX_ONE,
    ensures
        r == spec_lerp(a as int, b as int, t as int),
        r <= 2 * FIX_ONE,
{
    proof {
        lemma_lerp_bounds(a as int, b as int, t as int);
    }
    let num: u64 = a * (FIX_ONE - t) + b * t;
    num / FIX_ONE
}

/// The interpolation numerator is a convex combination scaled by `FIX_ONE`,
/// so the quotient stays within the interval spanned by the endpoints' bound.
proof fn lemma_lerp_bounds(a: int, b: int, t: int)
    requires
        0 <= a <= 2 * FIX_ONE,
        0 <= b <= 2 * FIX_ONE,
        0 <= t <= FIX_ONE,
    ensures
        0 <= a * (FIX_ONE - t) + b * t <= 2 * FIX_ONE * FIX_ONE,
        0 <= spec_lerp(a, b, t) <= 2 * FIX_ONE,
{
    let f = FIX_ONE as int;
    assert(0 <= a * (f - t) + b * t <= 2 * f * f) by (nonlinear_arith)
        requires
            0 <= a <= 2 * f,
            0 <= b <= 2 * f,
            0 <= t <= f,
            f == 1_000_000,
    {
        assert(a * (f - t) <= 2 * f * (f - t));
        assert(b * t <= 2 * f * t);
    }
    assert(spec_lerp(a, b, t) <= 2 * f) by {
        assert((a * (f - t) + b * t) / f <= 2 * f * f / f) by (nonlinear_arith)
            requires
                0 <= a * (f - t) + b * t <= 2 * f * f,
                f == 1_000_000,
        ;
    }
}

/// Amplitude of octave `k`: starts at one, shrinks by `persistence` per octave.
pub open spec fn spec_amp(pers: int, k: nat) -> int
    decreases k,
{
    if k == 0 {
        FIX_ONE as int
    } else {
        spec_amp(pers, (k - 1) as nat) * pers / FIX_ONE as int
    }
}

/// Coordinate multiplier of octave `k`: starts at one, grows by `lacunarity`
/// per octave.
pub open spec fn spec_freq_mult(lac: int, k: nat) -> int
    decreases k,
{
    if k == 0 {
        FIX_ONE as int
    } else {
        spec_freq_mult(lac, (k - 1) as nat) * lac / FIX_ONE as int
    }
}

/// Sum of the amplitudes of the first `k` octaves.
pub open spec fn spec_amp_total(pers: int, k: nat) -> int
    decreases k,
{
    if k == 0 {
        0
    } else {
        spec_amp_total(pers, (k - 1) as nat) + spec_amp(pers, (k - 1) as nat)
    }
}

/// Weighted sum of the first `k` octaves of the primitive, in units of
/// `FIX_ONE` squared. Each octave samples the primitive at the scaled
/// coordinate and weighs it by its amplitude.
pub open spec fn spec_acc(seed: u32, lac: int, pers: int, nx: int, ny: int, k: nat) -> int
    decreases k,
{
    if k == 0 {
        0
    } else {
        let j = (k - 1) as nat;
        let fm = spec_freq_mult(lac, j);
        spec_acc(seed, lac, pers, nx, ny, j) + spec_primitive(
            seed,
            nx * fm / FIX_ONE as int,
            ny * fm / FIX_ONE as int,
        ) * spec_amp(pers, j)
    }
}

/// The fractal noise sample at a fixed-point coordinate, normalized and
/// clamped into `[0, FIX_ONE]` (standing for `[0, 1]`). With zero octaves the
/// sum is empty and the sample degenerates to `FIX_ONE / 2`.
pub open spec fn spec_sample(seed: u32, octaves: nat, lac: int, pers: int, nx: int, ny: int) -> int {
    let f = FIX_ONE as int;
    let raw = spec_acc(seed, lac, pers, nx, ny, octaves) + f * f - f * spec_amp_total(
        pers,
        octaves,
    );
    if raw <= 0 {
        0
    } else if raw / (2 * f) >= f {
        f
    } else {
        raw / (2 * f)
    }
}

/// Octave amplitudes never grow: they stay within `[0, FIX_ONE]`.
pub proof fn lemma_amp_bounds(pers: int, k: nat)
    requires
        0 <= pers <= FIX_ONE,
    ensures
        0 <= spec_amp(pers, k) <= FIX_ONE,
    decreases k,
{
    if k > 0 {
        lemma_amp_bounds(pers, (k - 1) as nat);
        let prev = spec_amp(pers, (k - 1) as nat);
        assert(0 <= prev * pers / 1_000_000 <= 1_000_000) by (nonlinear_arith)
            requires
                0 <= prev <= 1_000_000,
                0 <= pers <= 1_000_000,
        ;
    }
}

/// The amplitude sum of up to eight octaves stays within `8 * FIX_ONE`.
pub proof fn lemma_amp_total_bounds(pers: int, k: nat)
    requires
        0 <= pers <= FIX_ONE,
        k <= 8,
    ensures
        0 <= spec_amp_total(pers, k) <= k * FIX_ONE,
    decreases k,
{
    if k > 0 {
        lemma_amp_total_bounds(pers, (k - 1) as nat);
        lemma_amp_bounds(pers, (k - 1) as nat);
    }
}

/// The coordinate multiplier of octave `k <= 8` stays within
/// `65536 * FIX_ONE`, since lacunarity is at most four.
pub proof fn lemma_freq_mult_bounds(lac: int, k: nat)
    requires
        FIX_ONE <= lac <= 4 * FIX_ONE,
        k <= 8,
    ensures
        0 <= spec_freq_mult(lac, k) <= 65536 * FIX_ONE,
    decreases k,
{
    lemma_freq_mult_bounds_rec(lac, k);
    lemma_pow4_le(k, 8);
    assert(pow4(8) == 65536) by {
        reveal_with_fuel(pow4, 9);
    }
    let fm = spec_freq_mult(lac, k);
    assert(fm <= 65536 * 1_000_000) by (nonlinear_arith)
        requires
            fm <= pow4(k) * 1_000_000,
            pow4(k) <= 65536,
    ;
}

/// Powers of four grow with the exponent and start at one.
proof fn lemma_pow4_le(j: nat, k: nat)
    requires
        j <= k,
    ensures
        1 <= pow4(j) <= pow4(k),
    decreases k,
{
    lemma_pow4_pos(j);
    if j < k {
        lemma_pow4_le(j, (k - 1) as nat);
        lemma_pow4_pos((k - 1) as nat);
    }
}

/// Powers of four are at least one.
proof fn lemma_pow4_pos(k: nat)
    ensures
        pow4(k) >= 1,
    decreases k,
{
    if k > 0 {
        lemma_pow4_pos((k - 1) as nat);
    }
}

/// Inductive step for the multiplier bound: each octave grows it by at most
/// a factor of four.
proof fn lemma_freq_mult_bounds_rec(lac: int, k: nat)
    requires
        FIX_ONE <= lac <= 4 * FIX_ONE,
        k <= 8,
    ensures
        0 <= spec_freq_mult(lac, k) <= pow4(k) * FIX_ONE,
    decreases k,
{
    reveal_with_fuel(pow4, 9);
    if k > 0 {
        lemma_freq_mult_bounds_rec(lac, (k - 1) as nat);
        let prev = spec_freq_mult(lac, (k - 1) as nat);
        let bound = pow4((k - 1) as nat);
        assert(1 <= bound <= 16384);
        assert(0 <= prev * lac / 1_000_000 <= 4 * bound * 1_000_000) by (nonlinear_arith)
            requires
                0 <= prev <= bound * 1_000_000,
                1_000_000 <= lac <= 4_000_000,
                1 <= bound <= 16384,
        ;
    }
}

/// Powers of four, for bounding the per-octave coordinate multiplier.
pub open spec fn pow4(k: nat) -> int
    decreases k,
{
    if k == 0 {
        1
    } else {
        4 * pow4((k - 1) as nat)
    }
}

/// The octave sum stays within `2 * FIX_ONE` times the amplitude sum, since
/// the primitive never exceeds `2 * FIX_ONE`.
pub proof fn lemma_acc_bounds(seed: u32, lac: int, pers: int, nx: int, ny: int, k: nat)
    requires
        0 <= pers <= FIX_ONE,
    ensures
        0 <= spec_acc(seed, lac, pers, nx, ny, k) <= 2 * FIX_ONE * spec_amp_total(pers, k),
    decreases k,
{
    if k > 0 {
        let j = (k - 1) as nat;
        lemma_acc_bounds(seed, lac, pers, nx, ny, j);
        lemma_amp_bounds(pers, j);
        lemma_primitive_range(seed, nx * spec_freq_mult(lac, j) / FIX_ONE as int, ny
            * spec_freq_mult(lac, j) / FIX_ONE as int);
        let p = spec_primitive(seed, nx * spec_freq_mult(lac, j) / FIX_ONE as int, ny
            * spec_freq_mult(lac, j) / FIX_ONE as int);
        let amp = spec_amp(pers, j);
        assert(0 <= p * amp <= 2 * 1_000_000 * amp) by (nonlinear_arith)
            requires
                0 <= p <= 2_000_000,
                0 <= amp,
        ;
    }
}

/// The primitive always lands in `[0, 2 * FIX_ONE]`.
pub proof fn lemma_primitive_range(seed: u32, cx: int, cy: int)
    ensures
        0 <= spec_primitive(seed, cx, cy) <= 2 * FIX_ONE,
{
    let f = FIX_ONE as int;
    let tx = cx % f;
    let ty = cy % f;
    vstd::arithmetic::div_mod::lemma_mod_bound(cx, f);
    vstd::arithmetic::div_mod::lemma_mod_bound(cy, f);
    lemma_fade_bounds(tx);
    lemma_fade_bounds(ty);
    let xi = cx / f;
    let yi = cy / f;
    let x0 = (xi % 0x1_0000_0000_0000_0000) as u64;
    let x1 = ((xi + 1) % 0x1_0000_0000_0000_0000) as u64;
    let y0 = (yi % 0x1_0000_0000_0000_0000) as u64;
    let y1 = ((yi + 1) % 0x1_0000_0000_0000_0000) as u64;
    let u = spec_fade(tx);
    let v = spec_fade(ty);
    lemma_lerp_bounds(spec_corner(seed, x0, y0) as int, spec_corner(seed, x1, y0) as int, u);
    lemma_lerp_bounds(spec_corner(seed, x0, y1) as int, spec_corner(seed, x1, y1) as int, u);
    let bottom = spec_lerp(spec_corner(seed, x0, y0) as int, spec_corner(seed, x1, y0) as int, u);
    let top = spec_lerp(spec_corner(seed, x0, y1) as int, spec_corner(seed, x1, y1) as int, u);
    lemma_lerp_bounds(bottom, top, v);
}

/// The value-noise primitive at a fixed-point coordinate. The result is in
/// `[0, 2 * FIX_ONE]`, standing for `[-1, 1]`.
pub fn primitive(seed: u32, cx: u128, cy: u128) -> (r: u64)
    ensures
        r == spec_primitive(seed, cx as int, cy as int),
        r <= 2 * FIX_ONE,
{
    let xi: u128 = cx / (FIX_ONE as u128);
    let yi: u128 = cy / (FIX_ONE as u128);
    proof {
        assert(xi < u128::MAX && yi < u128::MAX) by {
            vstd::arithmetic::div_mod::lemma_div_is_ordered(cx as int, u128::MAX as int, FIX_ONE as int);
            vstd::arithmetic::div_mod::lemma_div_is_ordered(cy as int, u128::MAX as int, FIX_ONE as int);
        }
    }
    let tx: u64 = (cx % (FIX_ONE as u128)) as u64;
    let ty: u64 = (cy % (FIX_ONE as u128)) as u64;
    let x0: u64 = (xi % HASH_MOD) as u64;
    let x1: u64 = ((xi + 1) % HASH_MOD) as u64;
    let y0: u64 = (yi % HASH_MOD) as u64;
    let y1: u64 = ((yi + 1) % HASH_MOD) as u64;
    let u = fade(tx);
    let v = fade(ty);
    let c00 = corner(seed, x0, y0);
    let c10 = corner(seed, x1, y0);
    let c01 = corner(seed, x0, y1);
    let c11 = corner(seed, x1, y1);
    let bottom = lerp(c00, c10, u);
    let top = lerp(c01, c11, u);
    lerp(bottom, top, v)
}

/// The fractal noise sample at a fixed-point coordinate: up to eight octaves
/// of the primitive, summed with shrinking amplitude and growing coordinate
/// scale, normalized and clamped into `[0, FIX_ONE]`.
///
/// The result is a pure function of the arguments, so resampling with the
/// same seed and parameters reproduces the same value.
pub fn sample(seed: u32, octaves: usize, lacunarity: u64, persistence: u64, nx: u64, ny: u64) -> (r:
    u64)
    requires
        octaves <= 8,
        FIX_ONE <= lacunarity <= 4 * FIX_ONE,
        persistence <= FIX_ONE,
    ensures
        r == spec_sample(
            seed,
            octaves as nat,
            lacunarity as int,
            persistence as int,
            nx as int,
            ny as int,
        ),
        r <= FIX_ONE,
{
    let ghost lac = lacunarity as int;
    let ghost pers = persistence as int;
    let mut acc: u64 = 0;
    let mut amp: u64 = FIX_ONE;
    let mut fmult: u64 = FIX_ONE;
    let mut asum: u64 = 0;
    let mut k: usize = 0;
    while k < octaves
        invariant
            k <= octaves <= 8,
            FIX_ONE <= lacunarity <= 4 * FIX_ONE,
            persistence <= FIX_ONE,
            lac == lacunarity as int,
            pers == persistence as int,
            acc == spec_acc(seed, lac, pers, nx as int, ny as int, k as nat),
            amp == spec_amp(pers, k as nat),
            fmult == spec_freq_mult(lac, k as nat),
            asum == spec_amp_total(pers, k as nat),
        decreases octaves - k,
    {
        proof {
            lemma_amp_bounds(pers, k as nat);
            lemma_amp_total_bounds(pers, k as nat);
            lemma_freq_mult_bounds(lac, k as nat);
            lemma_acc_bounds(seed, lac, pers, nx as int, ny as int, k as nat);
            assert(nx * fmult <= 0xFFFF_FFFF_FFFF_FFFFu64 * (65536 * 1_000_000)) by (
            nonlinear_arith)
                requires
                    nx <= 0xFFFF_FFFF_FFFF_FFFFu64,
                    0 <= fmult <= 65536 * 1_000_000,
            ;
            assert(ny * fmult <= 0xFFFF_FFFF_FFFF_FFFFu64 * (65536 * 1_000_000)) by (
            nonlinear_arith)
                requires
                    ny <= 0xFFFF_FFFF_FFFF_FFFFu64,
                    0 <= fmult <= 65536 * 1_000_000,
            ;
        }
        let cx: u128 = (nx as u128) * (fmult as u128) / (FIX_ONE as u128);
        let cy: u128 = (ny as u128) * (fmult as u128) / (FIX_ONE as u128);
        let p: u64 = primitive(seed, cx, cy);
        proof {
            assert(p * amp <= 2_000_000 * 1_000_000) by (nonlinear_arith)
                requires
                    p <= 2_000_000,
                    amp <= 1_000_000,
            ;
            assert(acc <= 2 * 1_000_000 * asum);
            assert(asum <= 8 * 1_000_000);
            assert(amp * persistence <= 1_000_000 * 1_000_000) by (nonlinear_arith)
                requires
                    amp <= 1_000_000,
                    persistence <= 1_000_000,
            ;
            assert(fmult * lacunarity <= (65536 * 1_000_000) * 4_000_000) by (nonlinear_arith)
                requires
                    fmult <= 65536 * 1_000_000,
                    lacunarity <= 4_000_000,
            ;
        }
        acc = acc + p * amp;
        asum = asum + amp;
        amp = amp * persistence / FIX_ONE;
        fmult = fmult * lacunarity / FIX_ONE;
        k = k + 1;
    }
    proof {
        lemma_amp_total_bounds(pers, octaves as nat);
        lemma_acc_bounds(seed, lac, pers, nx as int, ny as int, octaves as nat);
        assert(asum <= 8_000_000 && FIX_ONE * asum <= 8_000_000_000_000 && acc
            <= 16_000_000_000_000 && FIX_ONE * FIX_ONE == 1_000_000_000_000) by (nonlinear_arith)
            requires
                FIX_ONE == 1_000_000,
                octaves <= 8,
                0 <= asum <= octaves * FIX_ONE,
                0 <= acc <= 2 * FIX_ONE * asum,
        ;
    }
    let bias: u64 = FIX_ONE * asum;
    let pos: u64 = acc + FIX_ONE * FIX_ONE;
    if pos <= bias {
        0
    } else {
        let n: u64 = (pos - bias) / (2 * FIX_ONE);
        if n >= FIX_ONE {
            FIX_ONE
        } else {
            n
        }
    }
}

/// The sample is always in `[0, FIX_ONE]`: the normalization clamps it there.
pub proof fn lemma_sample_range(seed: u32, octaves: nat, lac: int, pers: int, nx: int, ny: int)
    ensures
        0 <= spec_sample(seed, octaves, lac, pers, nx, ny) <= FIX_ONE,
{
    let f = FIX_ONE as int;
    let raw = spec_acc(seed, lac, pers, nx, ny, octaves) + f * f - f * spec_amp_total(
        pers,
        octaves,
    );
    if raw > 0 {
        if raw / (2 * f) < f {
            vstd::arithmetic::div_mod::lemma_div_is_ordered(0, raw, 2 * f);
        }
    }
}

/// A tile whose displayed shade is driven by the noise field at its grid
/// position.
pub struct NoiseControlled {
    /// The tile's position on the grid.
    pub position: (i32, i32),
}

/// Bias added to a tile coordinate scaled by the frequency, 2^48. It exceeds
/// the largest magnitude `i32 * FREQUENCY_MAX` can reach, so the biased
/// coordinate is always nonnegative.
pub const TILE_COORD_BIAS: u64 = 281474976710656;

/// The noise coordinate of a tile position: the position scaled by the
/// sampling frequency, shifted by the fixed bias.
pub open spec fn spec_tile_coord(p: int, freq: int) -> int {
    p * freq + TILE_COORD_BIAS
}

/// The displayed shade of one noise-controlled tile: the noise field sampled
/// at the tile's scaled position, as a grayscale byte.
pub open spec fn spec_tile_shade(s: NoiseSettings, x: int, y: int) -> int {
    spec_sample(
        s.seed,
        s.octaves as nat,
        s.lacunarity as int,
        s.persistence as int,
        spec_tile_coord(x, s.frequency as int),
        spec_tile_coord(y, s.frequency as int),
    ) * 255 / FIX_ONE as int
}

/// Samples the noise field at a tile's position and returns its grayscale
/// shade; the display layer turns it into the tile's color.
pub fn tile_noise_value(settings: &NoiseSettings, tile: &NoiseControlled) -> (shade: u8)
    requires
        settings.bounded(),
    ensures
        shade == spec_tile_shade(*settings, tile.position.0 as int, tile.position.1 as int),
{
    let (x, y) = tile.position;
    let nx = tile_coord(x, settings.frequency);
    let ny = tile_coord(y, settings.frequency);
    let n = sample(
        settings.seed,
        settings.octaves,
        settings.lacunarity,
        settings.persistence,
        nx,
        ny,
    );
    (n * 255 / FIX_ONE) as u8
}

/// Maps one axis of a tile position to a noise sample coordinate.
fn tile_coord(p: i32, freq: u64) -> (r: u64)
    requires
        freq <= FREQUENCY_MAX,
    ensures
        r == spec_tile_coord(p as int, freq as int),
{
    proof {
        assert(-214748364800000 <= p * freq <= 214748364700000) by (nonlinear_arith)
            requires
                -2147483648 <= p <= 2147483647,
                0 <= freq <= 100_000,
        ;
    }
    let scaled: i64 = (p as i64) * (freq as i64);
    let biased: i64 = scaled + 281474976710656;
    biased as u64
}

} // verus!
