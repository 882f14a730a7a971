//! Algorithm configuration tables.
//!
//! One `BenchmarkParameters` value is built per run, from the requested
//! dimensionality alone; the three per-algorithm configurations of a row are
//! derived from it.  Real-valued coefficients are held exactly, as integer
//! counts of millionths, so that the tables can be stated and checked here;
//! the optimizer harness converts them to its floating-point inputs.

use vstd::prelude::*;

verus! {

/// Differential-weight coefficient of DE/rand (0.8), in millionths.
pub const DE_RAND_WEIGHT_MICRO: u32 = 800000;
/// Crossover coefficient of DE/rand (0.9), in millionths.
pub const DE_RAND_CROSSOVER_MICRO: u32 = 900000;
/// Differential-weight coefficient of DE/best (0.5), in millionths.
pub const DE_BEST_WEIGHT_MICRO: u32 = 500000;
/// Crossover coefficient of DE/best (0.9), in millionths.
pub const DE_BEST_CROSSOVER_MICRO: u32 = 900000;
/// Inertia weight of PSO (0.7298), in millionths.
pub const PSO_INERTIA_MICRO: u32 = 729800;
/// Cognitive and social coefficient of PSO (1.49618), in millionths.
pub const PSO_ACCELERATION_MICRO: u32 = 1496180;

/// The population DE/best always runs with, whatever the dimensionality.
pub const DE_BEST_POPULATION: usize = 10;

/// The three optimizer variants under comparison, in the fixed column order
/// every row of the rank matrix uses.
#[derive(Clone, Copy, PartialEq, Eq, Structural, Debug)]
pub enum AlgorithmKind {
    DeRand,
    DeBest,
    Pso,
}

/// One algorithm variant, fully configured for a run of trials.
///
/// For the DE variants `weight_micro` is the differential weight F and
/// `spread_micro` the crossover rate CR; for PSO `weight_micro` is the
/// inertia w and `spread_micro` the acceleration coefficient used for both
/// the cognitive and the social term (the two are deliberately identical).
#[derive(Clone, Copy, PartialEq, Eq, Structural, Debug)]
pub struct AlgorithmConfig {
    pub kind: AlgorithmKind,
    pub population: usize,
    pub max_cost_evaluations: u32,
    pub weight_micro: u32,
    pub spread_micro: u32,
}

/// The per-run parameter set: dimensionality, evaluation budget, default
/// population, and the fixed coefficient table.
#[derive(Clone, Copy, PartialEq, Eq, Structural, Debug)]
pub struct BenchmarkParameters {
    pub dim: usize,
    pub max_cf: u32,
    pub pop: usize,
}

impl BenchmarkParameters {
    /// Population and evaluation budget depend on the dimensionality:
    /// 2 gets (10, 4000), 10 gets (20, 20000), everything else (40, 40000).
    pub fn new(dim: usize) -> (r: Self)
        ensures
            r.dim == dim,
            dim == 2 ==> r.pop == 10 && r.max_cf == 4000,
            dim == 10 ==> r.pop == 20 && r.max_cf == 20000,
            dim != 2 && dim != 10 ==> r.pop == 40 && r.max_cf == 40000,
    {
        let (pop, max_cf): (usize, u32) = match dim {
            2 => (10, 4000),
            10 => (20, 20000),
            _ => (40, 40000),
        };
        BenchmarkParameters { dim, max_cf, pop }
    }

    /// The three configurations a row is built from, in column order:
    /// DE/rand at the run's population, DE/best at its fixed population of
    /// 10, and PSO at the run's population.
    pub fn row_configs(&self) -> (r: Vec<AlgorithmConfig>)
        ensures
            r@.len() == 3,
            r@[0] == (AlgorithmConfig {
                kind: AlgorithmKind::DeRand,
                population: self.pop,
                max_cost_evaluations: self.max_cf,
                weight_micro: DE_RAND_WEIGHT_MICRO,
                spread_micro: DE_RAND_CROSSOVER_MICRO,
            }),
            r@[1] == (AlgorithmConfig {
                kind: AlgorithmKind::DeBest,
                population: DE_BEST_POPULATION,
                max_cost_evaluations: self.max_cf,
                weight_micro: DE_BEST_WEIGHT_MICRO,
                spread_micro: DE_BEST_CROSSOVER_MICRO,
            }),
            r@[2] == (AlgorithmConfig {
                kind: AlgorithmKind::Pso,
                population: self.pop,
                max_cost_evaluations: self.max_cf,
                weight_micro: PSO_INERTIA_MICRO,
                spread_micro: PSO_ACCELERATION_MICRO,
            }),
    {
        let mut r: Vec<AlgorithmConfig> = Vec::new();
        r.push(AlgorithmConfig {
            kind: AlgorithmKind::DeRand,
            population: self.pop,
            max_cost_evaluations: self.max_cf,
            weight_micro: DE_RAND_WEIGHT_MICRO,
            spread_micro: DE_RAND_CROSSOVER_MICRO,
        });
        r.push(AlgorithmConfig {
            kind: AlgorithmKind::DeBest,
            population: DE_BEST_POPULATION,
            max_cost_evaluations: self.max_cf,
            weight_micro: DE_BEST_WEIGHT_MICRO,
            spread_micro: DE_BEST_CROSSOVER_MICRO,
        });
        r.push(AlgorithmConfig {
            kind: AlgorithmKind::Pso,
            population: self.pop,
            max_cost_evaluations: self.max_cf,
            weight_micro: PSO_INERTIA_MICRO,
            spread_micro: PSO_ACCELERATION_MICRO,
        });
        r
    }
}

} // verus!
