//! The grid coordinate mapper: conversions between pixel, tile and noise
//! sample coordinates.
//!
//! A pixel coordinate is mapped to a noise coordinate by shifting it with the
//! scaled pan offset, normalizing by the texture dimension, and scaling by the
//! grid size and the sampling frequency. A fixed bias keeps the shifted
//! coordinate nonnegative for every reachable pan offset, so the whole pipeline
//! stays in unsigned arithmetic; the bias is the same for every pixel and so
//! only translates the sampled region.
//!
//! Every function here is pure: the same inputs always map to the same outputs.

use vstd::prelude::*;

verus! {

use crate::{FIX_ONE, GRID_SIZE, PAN_SPEED, TILE_SIZE};
use crate::settings::FREQUENCY_MAX;

/// Bias added to a pan-shifted pixel coordinate, 2^36. It exceeds the largest
/// magnitude the pan shift can reach, `2^31 * TILE_SIZE * PAN_SPEED`.
pub const COORD_BIAS: u64 = 68719476736;

/// The noise coordinate of a pixel: the pan-shifted, biased pixel coordinate,
/// scaled by grid size, frequency and tile size and normalized by the texture
/// dimension. Fixed point with unit [`FIX_ONE`].
pub open spec fn spec_map_axis(p: int, off: int, dim: int, freq: int) -> int {
    (p + off * (TILE_SIZE * PAN_SPEED) + COORD_BIAS) * (GRID_SIZE * TILE_SIZE) * freq / dim
}

/// Maps one axis of a pixel coordinate to a noise sample coordinate.
pub fn map_axis(p: u32, off: i32, dim: u32, freq: u64) -> (r: u64)
    requires
        1 <= dim,
        freq <= FREQUENCY_MAX,
    ensures
        r == spec_map_axis(p as int, off as int, dim as int, freq as int),
{
    let ghost s: int = p + off * (TILE_SIZE * PAN_SPEED) + COORD_BIAS;
    let shifted: i64 = p as i64 + (off as i64) * 30 + 68719476736;
    proof {
        assert(off * (TILE_SIZE * PAN_SPEED) == off * 30) by (nonlinear_arith)
            requires
                TILE_SIZE * PAN_SPEED == 30,
        ;
        assert(shifted == s);
        assert(0 < s <= 137438953471);
    }
    let base: u64 = shifted as u64;
    let ghost sg: int = s * (GRID_SIZE * TILE_SIZE);
    let scaled: u128 = (base as u128) * 1000;
    proof {
        assert(s * (GRID_SIZE * TILE_SIZE) == s * 1000) by (nonlinear_arith)
            requires
                GRID_SIZE * TILE_SIZE == 1000,
        ;
        assert(scaled == sg);
        assert(scaled * freq <= 137438953471000 * 100_000) by (nonlinear_arith)
            requires
                scaled <= 137438953471000,
                freq <= 100_000,
        ;
    }
    let num: u128 = scaled * (freq as u128);
    let quot: u128 = num / (dim as u128);
    proof {
        assert(num == sg * freq) by (nonlinear_arith)
            requires
                sg == scaled,
                num == scaled * freq,
        ;
        vstd::arithmetic::div_mod::lemma_div_is_ordered_by_denominator(num as int, 1, dim as int);
        assert(num as int / 1int == num as int);
        assert(quot <= 13743895347100000000);
    }
    quot as u64
}

/// World coordinate of the left/bottom edge of a tile, in fixed point with
/// unit [`FIX_ONE`]: the grid is centered on the origin.
pub open spec fn spec_tile_edge_to_world(value: int) -> int {
    value * (TILE_SIZE * FIX_ONE) - (GRID_SIZE * TILE_SIZE * FIX_ONE) / 2
}

/// World coordinate of the left/bottom edge of a tile, in fixed point with
/// unit [`FIX_ONE`].
pub fn grid_tile_edge_to_world(value: i32) -> (r: i64)
    ensures
        r == spec_tile_edge_to_world(value as int),
{
    let r: i64 = value as i64 * 1_000_000 - 500_000_000;
    proof {
        assert(value * (TILE_SIZE * FIX_ONE) == value * 1_000_000) by (nonlinear_arith)
            requires
                TILE_SIZE * FIX_ONE == 1_000_000,
        ;
        assert(GRID_SIZE * TILE_SIZE * FIX_ONE == 1_000_000_000);
    }
    r
}

/// World coordinate of the center of a tile, in fixed point with unit
/// [`FIX_ONE`]: half a tile past its edge.
pub fn grid_tile_center_to_world(value: i32) -> (r: i64)
    ensures
        r == spec_tile_edge_to_world(value as int) + (TILE_SIZE * FIX_ONE) / 2,
{
    let e = grid_tile_edge_to_world(value);
    proof {
        assert((TILE_SIZE * FIX_ONE) / 2 == 500_000);
        assert(spec_tile_edge_to_world(value as int) >= -2147483648000000 - 500000000);
        assert(spec_tile_edge_to_world(value as int) <= 2147483647000000) by (nonlinear_arith)
            requires
                spec_tile_edge_to_world(value as int) == value * (TILE_SIZE * FIX_ONE) - (GRID_SIZE
                    * TILE_SIZE * FIX_ONE) / 2,
                TILE_SIZE * FIX_ONE == 1_000_000,
                GRID_SIZE * TILE_SIZE * FIX_ONE == 1_000_000_000,
                -2147483648 <= value <= 2147483647,
        ;
    }
    e + 500_000
}

} // verus!
