//! A stereo reverberation engine: a 16-lane feedback-delay network with
//! nested allpass diffusion, chorus-modulated delay reads, shelf damping,
//! polynomial interpolation and per-sample parameter smoothing.
//!
//! All audio values, coefficients and times are fixed-point numbers held in
//! `i64` with 20 fractional bits (see [`fixed`]); the arithmetic saturates at
//! a generous bound, so every sample the engine produces is finite by
//! construction.

pub mod approx;
pub mod fixed;
pub mod matrix;
pub mod model;
pub mod one_pole_filter;
pub mod params;
pub mod stereo_memory;
pub mod poly_utils;
pub mod reverb;
pub mod utils;

pub use params::ReverbParams;
pub use reverb::{Reverb, MAX_BLOCK_SIZE};
