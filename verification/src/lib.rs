//! Benchmark evaluation and statistical ranking engine.
//!
//! Three stochastic optimizers (DE/rand, DE/best, PSO) are compared across a
//! fixed battery of benchmark problems.  This crate holds the verified core:
//! the configuration tables, the benchmark problem registry, the trial
//! bookkeeping, the tie-aware competition ranking of each problem's results,
//! and the Friedman chi-square test over the resulting rank matrix.
//!
//! The optimizers themselves work in floating point and live outside the
//! verified core; they hand their results in through plain values (order keys
//! for the averaged costs), and everything downstream of that is exact
//! integer arithmetic, verified here.

use vstd::prelude::*;

pub mod friedman;
pub mod mean;
pub mod params;
pub mod problem;
pub mod rank;
pub mod suite;
pub mod trials;

verus! {

/// Error raised when a benchmark problem is configured with invalid
/// parameters: zero dimensions, or bounds that leave no room to search.
#[derive(Clone, Copy, PartialEq, Eq, Structural, Debug)]
pub enum ConfigurationError {
    ZeroDimensions,
    InvalidBounds,
}

} // verus!
