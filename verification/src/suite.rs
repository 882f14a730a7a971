//! The benchmark suite driver's problem list.
//!
//! The suite runs a fixed battery of fifteen problems in a fixed order; the
//! rank matrix is read positionally downstream, so the order is part of the
//! contract.  Every problem is built at the requested dimensionality over
//! the interval [-100, 100], with one deliberate, named exception: the
//! Alpine2 problem is always built two-dimensional, over [0, 100], whatever
//! dimensionality was requested.

use vstd::prelude::*;
use crate::ConfigurationError;
use crate::problem::{build_problem, ProblemKind, ProblemSpec};

verus! {

/// How many problems the suite holds.
pub const SUITE_SIZE: usize = 15;

/// A problem built the ordinary way: requested dimensionality, bounds
/// [-100, 100].
pub open spec fn standard_problem(kind: ProblemKind, dim: usize) -> ProblemSpec {
    ProblemSpec { kind, dimensions: dim, min_bound: -100i32, max_bound: 100i32 }
}

/// The one exception: Alpine2 is always built at dimensionality 2, over
/// [0, 100], regardless of the run's requested dimensionality.
pub open spec fn alpine2_problem() -> ProblemSpec {
    ProblemSpec { kind: ProblemKind::Alpine2, dimensions: 2, min_bound: 0i32, max_bound: 100i32 }
}

/// The suite, in its fixed order.
pub open spec fn suite_order(dim: usize) -> Seq<ProblemSpec> {
    seq![
        standard_problem(ProblemKind::Ackley, dim),
        alpine2_problem(),
        standard_problem(ProblemKind::Deb1, dim),
        standard_problem(ProblemKind::FothDejong, dim),
        standard_problem(ProblemKind::Griewank, dim),
        standard_problem(ProblemKind::Michalewicz, dim),
        standard_problem(ProblemKind::Periodic, dim),
        standard_problem(ProblemKind::Qing, dim),
        standard_problem(ProblemKind::Quintic, dim),
        standard_problem(ProblemKind::Rastrigin, dim),
        standard_problem(ProblemKind::Salomon, dim),
        standard_problem(ProblemKind::Schwefel, dim),
        standard_problem(ProblemKind::StyblinskyAndTang, dim),
        standard_problem(ProblemKind::TrdDejong, dim),
        standard_problem(ProblemKind::XinSheYang, dim),
    ]
}

/// Builds the full problem list for one run.  Fails exactly when the
/// requested dimensionality is zero; any such error aborts the suite, since
/// the statistical test downstream needs a complete matrix.
pub fn suite_problems(dim: usize) -> (r: Result<Vec<ProblemSpec>, ConfigurationError>)
    ensures
        dim == 0 ==> r == Err::<Vec<ProblemSpec>, ConfigurationError>(
            ConfigurationError::ZeroDimensions,
        ),
        dim > 0 ==> (r matches Ok(v) && v@ == suite_order(dim)),
{
    let mut v: Vec<ProblemSpec> = Vec::new();
    let p = match build_problem(ProblemKind::Ackley, dim, -100, 100) {
        Ok(p) => p,
        Err(e) => { return Err(e); },
    };
    v.push(p);
    let p = match build_problem(ProblemKind::Alpine2, 2, 0, 100) {
        Ok(p) => p,
        Err(e) => { return Err(e); },
    };
    v.push(p);
    let p = match build_problem(ProblemKind::Deb1, dim, -100, 100) {
        Ok(p) => p,
        Err(e) => { return Err(e); },
    };
    v.push(p);
    let p = match build_problem(ProblemKind::FothDejong, dim, -100, 100) {
        Ok(p) => p,
        Err(e) => { return Err(e); },
    };
    v.push(p);
    let p = match build_problem(ProblemKind::Griewank, dim, -100, 100) {
        Ok(p) => p,
        Err(e) => { return Err(e); },
    };
    v.push(p);
    let p = match build_problem(ProblemKind::Michalewicz, dim, -100, 100) {
        Ok(p) => p,
        Err(e) => { return Err(e); },
    };
    v.push(p);
    let p = match build_problem(ProblemKind::Periodic, dim, -100, 100) {
        Ok(p) => p,
        Err(e) => { return Err(e); },
    };
    v.push(p);
    let p = match build_problem(ProblemKind::Qing, dim, -100, 100) {
        Ok(p) => p,
        Err(e) => { return Err(e); },
    };
    v.push(p);
    let p = match build_problem(ProblemKind::Quintic, dim, -100, 100) {
        Ok(p) => p,
        Err(e) => { return Err(e); },
    };
    v.push(p);
    let p = match build_problem(ProblemKind::Rastrigin, dim, -100, 100) {
        Ok(p) => p,
        Err(e) => { return Err(e); },
    };
    v.push(p);
    let p = match build_problem(ProblemKind::Salomon, dim, -100, 100) {
        Ok(p) => p,
        Err(e) => { return Err(e); },
    };
    v.push(p);
    let p = match build_problem(ProblemKind::Schwefel, dim, -100, 100) {
        Ok(p) => p,
        Err(e) => { return Err(e); },
    };
    v.push(p);
    let p = match build_problem(ProblemKind::StyblinskyAndTang, dim, -100, 100) {
        Ok(p) => p,
        Err(e) => { return Err(e); },
    };
    v.push(p);
    let p = match build_problem(ProblemKind::TrdDejong, dim, -100, 100) {
        Ok(p) => p,
        Err(e) => { return Err(e); },
    };
    v.push(p);
    let p = match build_problem(ProblemKind::XinSheYang, dim, -100, 100) {
        Ok(p) => p,
        Err(e) => { return Err(e); },
    };
    v.push(p);
    proof {
        if dim > 0 {
            assert(v@ =~= suite_order(dim));
        }
    }
    Ok(v)
}

} // verus!
