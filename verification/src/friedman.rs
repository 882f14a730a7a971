//! The Friedman test over the finished rank matrix.
//!
//! With n = 15 problems and k = 3 algorithms, each column's ranks are
//! summed across all rows into R_1, R_2, R_3 and the chi-square statistic
//!
//!     chi^2 = (12 / (n * k * (k + 1))) * (R_1^2 + R_2^2 + R_3^2)
//!             - 3 * n * (k + 1)
//!
//! is compared against the critical value 23.685 (two degrees of freedom at
//! the 0.05 level); the verdict is significant exactly when the statistic
//! exceeds it.  Ranks are multiples of one half, so for this fixed shape
//! the statistic is an exact multiple of 1/60: it is computed and reported
//! as sixty times its value, in integers, and the comparison against the
//! critical value is exact.  The statistic and critical value are only
//! meaningful for this fixed 15-by-3 shape, which the contract demands.

use vstd::prelude::*;
use crate::rank::Row;
use crate::suite::SUITE_SIZE;

verus! {

/// The critical value 23.685, in thousandths.
pub const CHI_CRITICAL_MILLI: u64 = 23685;

/// The verdict of the test: the chi-square statistic, held exactly as
/// sixty times its value, and whether it exceeds the critical value.
#[derive(Clone, Copy, PartialEq, Eq, Structural, Debug)]
pub struct FriedmanResult {
    pub chi_square_times_60: i64,
    pub significant: bool,
}

/// The three per-column sums of half-ranks across the matrix, in column
/// order.
pub open spec fn column_half_sums(m: Seq<Row>) -> (int, int, int)
    decreases m.len(),
{
    if m.len() == 0 {
        (0int, 0int, 0int)
    } else {
        let rest = column_half_sums(m.drop_last());
        (
            rest.0 + m.last().de_rand.rank_half,
            rest.1 + m.last().de_best.rank_half,
            rest.2 + m.last().pso.rank_half,
        )
    }
}

/// Sixty times the chi-square statistic of the matrix.  With half-ranks
/// h_j = 2 * R_j summed per column, the formula above becomes
/// (h_1^2 + h_2^2 + h_3^2) / 60 - 180 for the fixed 15-by-3 shape.
pub open spec fn chi_square_times_60_of(m: Seq<Row>) -> int {
    let s = column_half_sums(m);
    s.0 * s.0 + s.1 * s.1 + s.2 * s.2 - 10800
}

/// Whether sixty times the statistic exceeds sixty times the critical
/// value: the exact form of chi^2 > 23.685.
pub open spec fn exceeds_critical(chi_square_times_60: int) -> bool {
    chi_square_times_60 * 1000 > CHI_CRITICAL_MILLI * 60
}

/// Runs the Friedman test on the complete rank matrix.
pub fn friedman(matrix: &Vec<Row>) -> (r: FriedmanResult)
    requires
        matrix@.len() == SUITE_SIZE,
    ensures
        r.chi_square_times_60 == chi_square_times_60_of(matrix@),
        r.significant == exceeds_critical(chi_square_times_60_of(matrix@)),
{
    let mut h1: u64 = 0;
    let mut h2: u64 = 0;
    let mut h3: u64 = 0;
    let mut i: usize = 0;
    while i < matrix.len()
        invariant
            0 <= i <= matrix@.len(),
            matrix@.len() == SUITE_SIZE,
            (h1 as int, h2 as int, h3 as int) == column_half_sums(matrix@.take(i as int)),
            h1 <= 255 * i,
            h2 <= 255 * i,
            h3 <= 255 * i,
        decreases matrix@.len() - i,
    {
        let row = matrix[i];
        proof {
            assert(matrix@.take(i + 1).drop_last() =~= matrix@.take(i as int));
            assert(matrix@.take(i + 1).last() == matrix@[i as int]);
        }
        h1 = h1 + row.de_rand.rank_half as u64;
        h2 = h2 + row.de_best.rank_half as u64;
        h3 = h3 + row.pso.rank_half as u64;
        i = i + 1;
    }
    proof {
        assert(matrix@.take(matrix@.len() as int) =~= matrix@);
        assert(h1 * h1 + h2 * h2 + h3 * h3 <= 43891875) by (nonlinear_arith)
            requires
                h1 <= 3825,
                h2 <= 3825,
                h3 <= 3825,
        ;
    }
    let squares: u64 = h1 * h1 + h2 * h2 + h3 * h3;
    let chi_square_times_60: i64 = squares as i64 - 10800;
    let significant = chi_square_times_60 * 1000 > (CHI_CRITICAL_MILLI as i64) * 60;
    FriedmanResult { chi_square_times_60, significant }
}

} // verus!
