//! The Friedman chi-square statistic and its significance verdict.

use benchrank::friedman::friedman;
use benchrank::rank::build_row;
use benchrank::rank::Row;
use benchrank::rank::RowEntry;

fn uniform_matrix(row: Row) -> Vec<Row> {
    let mut m = Vec::new();
    for _ in 0..15 {
        m.push(row);
    }
    m
}

fn raw_row(h1: u8, h2: u8, h3: u8) -> Row {
    Row {
        de_rand: RowEntry { cost_key: 0, rank_half: h1 },
        de_best: RowEntry { cost_key: 0, rank_half: h2 },
        pso: RowEntry { cost_key: 0, rank_half: h3 },
    }
}

#[test]
fn identical_rows_reach_the_theoretical_maximum() {
    // Every row ranks the columns 1, 2, 3: chi-square hits its maximum of
    // 30 for fifteen rows of three, and the verdict is significant.
    let m = uniform_matrix(build_row(10, 20, 30));
    let r = friedman(&m);
    assert_eq!(r.chi_square_times_60, 30 * 60);
    assert!(r.significant);
}

#[test]
fn uniform_tied_rows_score_zero() {
    // Every row is a three-way tie, rank 2 everywhere (rank sums 30 per
    // column): the formula's first term exactly cancels its second, so the
    // statistic is 0 and the verdict is not significant.
    let m = uniform_matrix(build_row(7, 7, 7));
    let r = friedman(&m);
    assert_eq!(r.chi_square_times_60, 0);
    assert!(!r.significant);
}

#[test]
fn all_zero_ranks_leave_only_the_subtracted_term() {
    // Rank 0 everywhere is impossible under ranking, but pins the formula's
    // arithmetic in isolation: the rank-sum term vanishes and the statistic
    // is exactly -3 * 15 * 4 = -180.
    let m = uniform_matrix(raw_row(0, 0, 0));
    let r = friedman(&m);
    assert_eq!(r.chi_square_times_60, -180 * 60);
    assert!(!r.significant);
}

#[test]
fn significance_flips_exactly_at_the_critical_value() {
    // Column half-rank sums (110, 11, 0) give squares summing to 12221:
    // chi-square is 1421/60 = 23.68333..., just under the critical 23.685.
    let mut m = uniform_matrix(raw_row(0, 0, 0));
    m[0] = raw_row(110, 11, 0);
    let r = friedman(&m);
    assert_eq!(r.chi_square_times_60, 12221 - 10800);
    assert!(!r.significant);

    // One more unit of squared rank sum, 12222, gives 1422/60 = 23.7,
    // just over the critical value.
    m[0] = raw_row(110, 11, 1);
    let r = friedman(&m);
    assert_eq!(r.chi_square_times_60, 12222 - 10800);
    assert!(r.significant);
}
