//! Noise-aware merging of a stack of differently-exposed photographs of one
//! static scene into a single high-dynamic-range radiance map, following the
//! Poisson photon noise estimator: each image's pixel buffer is rescaled to
//! remove its exposure and gain contribution, and the per-image radiance
//! buffers are then folded, in image order, into one merged estimate with
//! exposure-proportional weighting.
//!
//! Pixel samples are IEEE-754 binary32 values, carried as their 32-bit
//! patterns; decoding images and extracting metadata are the caller's
//! concern.

pub mod error;
pub mod poisson;
pub mod sample;
