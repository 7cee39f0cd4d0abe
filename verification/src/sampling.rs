//! Sampler chains.
pub mod params;
