//! A Monte Carlo localization library: a particle filter that estimates a 2D
//! position from noisy motion commands and noisy position-like readings.
//!
//! Coordinates, weights and noise are held as fixed-point plain integers, so
//! every step of the filter - particle translation, importance selection by
//! cumulative weight, pose estimation - carries a proved contract. The
//! floating-point work that surrounds the filter (Gaussian densities, drawing
//! the noise and the sorted sample positions) is left to the caller, which
//! hands the results in as plain values.

pub mod geometry;
pub mod localization;
pub mod resample;
pub mod rng;
