//! The benchmark problem registry.
//!
//! A problem is an objective function over a fixed-dimensional real vector
//! space, searched within one interval applied to every dimension.  The
//! registry only validates and records the configuration; evaluating the
//! objective is the optimizers' business and happens outside the verified
//! core.  Bounds are whole numbers, which covers every interval the suite
//! uses.

use vstd::prelude::*;
use crate::ConfigurationError;

verus! {

/// The fifteen benchmark objective functions, one variant each.
#[derive(Clone, Copy, PartialEq, Eq, Structural, Debug)]
pub enum ProblemKind {
    Ackley,
    Alpine2,
    Deb1,
    FothDejong,
    Griewank,
    Michalewicz,
    Periodic,
    Qing,
    Quintic,
    Rastrigin,
    Salomon,
    Schwefel,
    StyblinskyAndTang,
    TrdDejong,
    XinSheYang,
}

/// An immutable benchmark problem instance: which objective function, at
/// what dimensionality, over which per-dimension search interval.
#[derive(Clone, Copy, PartialEq, Eq, Structural, Debug)]
pub struct ProblemSpec {
    pub kind: ProblemKind,
    pub dimensions: usize,
    pub min_bound: i32,
    pub max_bound: i32,
}

impl ProblemSpec {
    /// A problem is usable only with at least one dimension and a
    /// non-empty search interval.
    pub open spec fn well_formed(self) -> bool {
        self.dimensions > 0 && self.min_bound < self.max_bound
    }
}

/// Constructs a problem instance, rejecting a zero dimensionality or an
/// interval whose minimum does not lie strictly below its maximum.
pub fn build_problem(kind: ProblemKind, dimensions: usize, min_bound: i32, max_bound: i32) -> (r:
    Result<ProblemSpec, ConfigurationError>)
    ensures
        dimensions == 0 ==> r == Err::<ProblemSpec, ConfigurationError>(
            ConfigurationError::ZeroDimensions,
        ),
        dimensions > 0 && min_bound >= max_bound ==> r == Err::<ProblemSpec, ConfigurationError>(
            ConfigurationError::InvalidBounds,
        ),
        dimensions > 0 && min_bound < max_bound ==> r == Ok::<ProblemSpec, ConfigurationError>(
            ProblemSpec { kind, dimensions, min_bound, max_bound },
        ),
        r matches Ok(p) ==> p.well_formed(),
{
    if dimensions == 0 {
        Err(ConfigurationError::ZeroDimensions)
    } else if min_bound >= max_bound {
        Err(ConfigurationError::InvalidBounds)
    } else {
        Ok(ProblemSpec { kind, dimensions, min_bound, max_bound })
    }
}

} // verus!
