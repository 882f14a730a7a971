//! The problem registry and the suite's fixed problem list.

use benchrank::problem::build_problem;
use benchrank::problem::ProblemKind;
use benchrank::suite::suite_problems;
use benchrank::suite::SUITE_SIZE;
use benchrank::ConfigurationError;

#[test]
fn zero_dimensions_is_rejected() {
    let r = build_problem(ProblemKind::Ackley, 0, -100, 100);
    assert_eq!(r, Err(ConfigurationError::ZeroDimensions));
}

#[test]
fn empty_and_inverted_intervals_are_rejected() {
    let r = build_problem(ProblemKind::Griewank, 3, 100, 100);
    assert_eq!(r, Err(ConfigurationError::InvalidBounds));
    let r = build_problem(ProblemKind::Griewank, 3, 5, -5);
    assert_eq!(r, Err(ConfigurationError::InvalidBounds));
}

#[test]
fn a_valid_problem_keeps_its_configuration() {
    let p = build_problem(ProblemKind::Schwefel, 7, -100, 100).unwrap();
    assert_eq!(p.kind, ProblemKind::Schwefel);
    assert_eq!(p.dimensions, 7);
    assert_eq!(p.min_bound, -100);
    assert_eq!(p.max_bound, 100);
}

#[test]
fn suite_rejects_zero_dimensions() {
    assert_eq!(suite_problems(0).unwrap_err(), ConfigurationError::ZeroDimensions);
}

#[test]
fn suite_order_is_fixed() {
    let problems = suite_problems(7).unwrap();
    assert_eq!(problems.len(), SUITE_SIZE);
    let kinds: Vec<ProblemKind> = problems.iter().map(|p| p.kind).collect();
    assert_eq!(
        kinds,
        vec![
            ProblemKind::Ackley,
            ProblemKind::Alpine2,
            ProblemKind::Deb1,
            ProblemKind::FothDejong,
            ProblemKind::Griewank,
            ProblemKind::Michalewicz,
            ProblemKind::Periodic,
            ProblemKind::Qing,
            ProblemKind::Quintic,
            ProblemKind::Rastrigin,
            ProblemKind::Salomon,
            ProblemKind::Schwefel,
            ProblemKind::StyblinskyAndTang,
            ProblemKind::TrdDejong,
            ProblemKind::XinSheYang,
        ]
    );
}

#[test]
fn alpine2_is_always_two_dimensional_over_its_own_interval() {
    let problems = suite_problems(30).unwrap();
    for (i, p) in problems.iter().enumerate() {
        if p.kind == ProblemKind::Alpine2 {
            assert_eq!(i, 1);
            assert_eq!(p.dimensions, 2);
            assert_eq!(p.min_bound, 0);
            assert_eq!(p.max_bound, 100);
        } else {
            assert_eq!(p.dimensions, 30);
            assert_eq!(p.min_bound, -100);
            assert_eq!(p.max_bound, 100);
        }
    }
}
