//! A camera-panned grid of procedurally generated fractal noise.
//!
//! The core of the crate is a deterministic, fixed-point fractal (multi-octave)
//! noise field sampled into an RGBA pixel buffer, together with a double-buffered
//! texture swap that republishes a fresh buffer without ever mutating the one
//! currently on display. All arithmetic is integer fixed-point: a value of
//! [`FIX_ONE`] stands for 1.0.

use vstd::prelude::*;

pub mod debug_grid;
pub mod debug_ui;
pub mod double_buffer;
pub mod grid;
pub mod mapper;
pub mod noise_field;
pub mod settings;
pub mod texture;

verus! {

/// Fixed-point unit: this many fixed-point steps stand for 1.0.
pub const FIX_ONE: u64 = 1_000_000;

/// Number of tiles along one edge of the square grid.
pub const GRID_SIZE: u64 = 1000;

/// Side length of one tile, in pixels of the noise texture.
pub const TILE_SIZE: u64 = 1;

/// Pan-speed constant: one tile of pan offset shifts the sampled region by
/// `TILE_SIZE * PAN_SPEED` pixels.
pub const PAN_SPEED: u64 = 30;

} // verus!
