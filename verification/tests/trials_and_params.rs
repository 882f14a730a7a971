//! Trial bookkeeping and the configuration tables.

use benchrank::params::AlgorithmKind;
use benchrank::params::BenchmarkParameters;
use benchrank::params::DE_BEST_POPULATION;
use benchrank::trials::TrialRunner;

#[test]
fn zero_trials_is_no_data() {
    // A trial count of zero must come out as "no data", never as a
    // division by zero or a spurious numeric value.
    let t = TrialRunner::new(0);
    assert!(!t.pending());
    assert_eq!(t.outcome(), None);
}

#[test]
fn all_failures_is_no_data() {
    let mut t = TrialRunner::new(3);
    while t.pending() {
        t.record_failure();
    }
    assert_eq!(t.outcome(), None);
}

#[test]
fn failures_do_not_shift_the_success_index() {
    let mut t = TrialRunner::new(4);
    assert_eq!(t.success_index(), 0);
    t.record_success();
    assert_eq!(t.success_index(), 1);
    t.record_failure();
    assert_eq!(t.success_index(), 1);
    t.record_success();
    assert_eq!(t.success_index(), 2);
    t.record_failure();
    assert!(!t.pending());
    assert_eq!(t.outcome(), Some(2));
}

#[test]
fn populations_and_budgets_follow_the_dimensionality() {
    let p2 = BenchmarkParameters::new(2);
    assert_eq!((p2.dim, p2.pop, p2.max_cf), (2, 10, 4000));
    let p10 = BenchmarkParameters::new(10);
    assert_eq!((p10.dim, p10.pop, p10.max_cf), (10, 20, 20000));
    let p30 = BenchmarkParameters::new(30);
    assert_eq!((p30.dim, p30.pop, p30.max_cf), (30, 40, 40000));
}

#[test]
fn row_configs_use_the_fixed_coefficient_table() {
    let params = BenchmarkParameters::new(10);
    let configs = params.row_configs();
    assert_eq!(configs.len(), 3);

    let de_rand = &configs[0];
    assert_eq!(de_rand.kind, AlgorithmKind::DeRand);
    assert_eq!(de_rand.population, 20);
    assert_eq!(de_rand.max_cost_evaluations, 20000);
    assert_eq!(de_rand.weight_micro, 800000);
    assert_eq!(de_rand.spread_micro, 900000);

    // DE/best always runs with its fixed population of 10, whatever the
    // run's population is.
    let de_best = &configs[1];
    assert_eq!(de_best.kind, AlgorithmKind::DeBest);
    assert_eq!(de_best.population, DE_BEST_POPULATION);
    assert_eq!(de_best.population, 10);
    assert_eq!(de_best.weight_micro, 500000);
    assert_eq!(de_best.spread_micro, 900000);

    // PSO's cognitive and social coefficients are deliberately the same
    // number, carried once.
    let pso = &configs[2];
    assert_eq!(pso.kind, AlgorithmKind::Pso);
    assert_eq!(pso.population, 20);
    assert_eq!(pso.weight_micro, 729800);
    assert_eq!(pso.spread_micro, 1496180);
}
