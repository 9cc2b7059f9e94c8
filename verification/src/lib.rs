//! Rejection-sampling estimate of the area under a curve, on an integer grid.
//!
//! Real coordinates are held in fixed point: a grid coordinate `v` taken with a
//! resolution `scale` stands for the real number `v / scale`. Every comparison
//! that decides whether a sampled point lies under a curve is carried out exactly
//! on integers, and the estimate is returned as an exact fraction.

pub mod curve;
pub mod integrand;
pub mod region;
pub mod sampler;
pub mod source;
