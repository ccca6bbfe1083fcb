//! A generator of discrete, bounded, Zipf-distributed random integers.
//!
//! For a population of `N` elements and a skew exponent `s > 0`, a sampler
//! built by [`ZipfDistribution::new`] draws integers `k` in `[1, N]` with
//! probability proportional to `1 / k^s`, using the rejection-inversion
//! method of Hörmann and Derflinger. The sampler precomputes a handful of
//! scalar constants once and then needs only O(1) work and one uniform draw
//! per rejection round.
//!
//! The arithmetic of the method runs on IEEE-754 double-precision values.
//! This crate holds every such value as its 64-bit encoding and does all of
//! its own reasoning — parameter validation, clamping a candidate into the
//! population, rounding it to an integer rank, and the accept/reject
//! decision — on those plain bit patterns. The transcendental evaluations
//! (`ln`, `exp` and friends) and the uniform random source are supplied by
//! the caller that drives the rejection loop; every decision the caller
//! needs is exposed here with an exact contract.

pub mod fbits;
pub mod sampler;

pub use fbits::clamp_inversion_argument;
pub use fbits::is_nonpositive;
pub use fbits::within_taylor_threshold;
pub use sampler::ConstructionError;
pub use sampler::ZipfDistribution;
