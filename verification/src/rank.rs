//! Tie-aware competition ranking of one row.
//!
//! A row compares the three algorithms' averaged costs on one problem.  The
//! smallest cost earns rank 1, the next rank 2, the largest rank 3; values
//! that tie share the average of the positions they occupy (the standard
//! mid-rank convention), so a tied pair earns 1.5 or 2.5, and a three-way
//! tie earns 2 all round.
//!
//! Costs arrive as order keys: unsigned integers whose order and equality
//! are exactly the total order and equality of the floating-point averages
//! they stand for (the harness maps averages to keys with a canonical
//! total-order comparator, so not-a-number and signed-zero cases are
//! deterministic).  Ranks are carried as twice their value, so the
//! fractional mid-ranks of ties stay exact integers.

use vstd::prelude::*;

verus! {

/// One column of a finished row: an algorithm's averaged cost on the
/// problem (as its order key) and the rank it earned within the row, twice.
#[derive(Clone, Copy, PartialEq, Eq, Structural, Debug)]
pub struct RowEntry {
    pub cost_key: u64,
    pub rank_half: u8,
}

/// One row of the rank matrix, in the fixed column order.
#[derive(Clone, Copy, PartialEq, Eq, Structural, Debug)]
pub struct Row {
    pub de_rand: RowEntry,
    pub de_best: RowEntry,
    pub pso: RowEntry,
}

/// What one rival contributes to twice the rank of `x`: 2 if it lies
/// strictly below `x`, 1 if it ties `x`, nothing if it lies above.
pub open spec fn rival_points(x: u64, other: u64) -> int {
    if other < x {
        2
    } else if other == x {
        1
    } else {
        0
    }
}

/// Twice the mid-rank of `x` among the row `{x, y, z}`.
///
/// Mid-rank: one more than the number of strictly smaller values, plus half
/// the number of ties.  Doubling keeps it an integer.
pub open spec fn half_rank_among(x: u64, y: u64, z: u64) -> int {
    2 + rival_points(x, y) + rival_points(x, z)
}

/// The three half-ranks of a row always sum to 12: the ranks are 1, 2, 3
/// with tied groups averaged, and averaging moves no total.  Stated per
/// case: distinct values rank 1, 2, 3; a tied pair shares 1.5 or 2.5 with
/// the odd one out at 3 or 1; a three-way tie puts everyone at 2.
pub proof fn lemma_row_ranks_partition(a: u64, b: u64, c: u64)
    ensures
        half_rank_among(a, b, c) + half_rank_among(b, a, c) + half_rank_among(c, a, b) == 12,
        a == b && b == c ==> half_rank_among(a, b, c) == 4,
        a == b && b != c ==> half_rank_among(a, b, c) == half_rank_among(b, a, c) && (c > a
            ==> half_rank_among(a, b, c) == 3 && half_rank_among(c, a, b) == 6) && (c < a
            ==> half_rank_among(a, b, c) == 5 && half_rank_among(c, a, b) == 2),
        a != b && b != c && a != c ==> {
            &&& half_rank_among(a, b, c) == 2 || half_rank_among(a, b, c) == 4 || half_rank_among(
                a,
                b,
                c,
            ) == 6
            &&& half_rank_among(a, b, c) != half_rank_among(b, a, c)
            &&& half_rank_among(b, a, c) != half_rank_among(c, a, b)
            &&& half_rank_among(a, b, c) != half_rank_among(c, a, b)
        },
{
}

/// Computes `rival_points` executably.
fn rival_points_exec(x: u64, other: u64) -> (r: u8)
    ensures
        r == rival_points(x, other),
{
    if other < x {
        2
    } else if other == x {
        1
    } else {
        0
    }
}

/// Ranks one row of three averaged costs, given as order keys in column
/// order, and returns the three half-ranks in the same order.
pub fn rank_row(a: u64, b: u64, c: u64) -> (r: (u8, u8, u8))
    ensures
        r.0 == half_rank_among(a, b, c),
        r.1 == half_rank_among(b, a, c),
        r.2 == half_rank_among(c, a, b),
        r.0 + r.1 + r.2 == 12,
{
    let ra = 2 + rival_points_exec(a, b) + rival_points_exec(a, c);
    let rb = 2 + rival_points_exec(b, a) + rival_points_exec(b, c);
    let rc = 2 + rival_points_exec(c, a) + rival_points_exec(c, b);
    (ra, rb, rc)
}

/// Builds one finished row from the three averaged costs, in the fixed
/// column order DE/rand, DE/best, PSO: each entry keeps its cost and earns
/// its tie-aware rank against the other two.
pub fn build_row(avg_de_rand: u64, avg_de_best: u64, avg_pso: u64) -> (r: Row)
    ensures
        r.de_rand.cost_key == avg_de_rand,
        r.de_best.cost_key == avg_de_best,
        r.pso.cost_key == avg_pso,
        r.de_rand.rank_half == half_rank_among(avg_de_rand, avg_de_best, avg_pso),
        r.de_best.rank_half == half_rank_among(avg_de_best, avg_de_rand, avg_pso),
        r.pso.rank_half == half_rank_among(avg_pso, avg_de_rand, avg_de_best),
        r.de_rand.rank_half + r.de_best.rank_half + r.pso.rank_half == 12,
{
    let (ra, rb, rc) = rank_row(avg_de_rand, avg_de_best, avg_pso);
    Row {
        de_rand: RowEntry { cost_key: avg_de_rand, rank_half: ra },
        de_best: RowEntry { cost_key: avg_de_best, rank_half: rb },
        pso: RowEntry { cost_key: avg_pso, rank_half: rc },
    }
}

} // verus!
