//! Branch-selection core for a double-precision special-function engine.
//!
//! The numeric engine evaluates the gamma, beta and incomplete-gamma family
//! of functions over `f64` arguments.  Every argument falls into one of five
//! regimes — ordinary positive domain, reflected negative domain, poles at
//! non-positive integers, signed infinities, and NaN — and picking the right
//! regime is where the engine can go wrong.  This crate decides those
//! branches exactly, over the raw IEEE 754 bit patterns, and proves the
//! decisions correct; the floating-point series and continued fractions that
//! each branch then runs live outside the verified core.

pub mod binary64;
pub mod beta_fn;
pub mod gamma_fn;
pub mod ibeta_fn;
pub mod igamma_fn;
pub mod integer_util;
