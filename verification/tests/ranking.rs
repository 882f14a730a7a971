//! Tie-aware ranking of one row.

use benchrank::rank::build_row;
use benchrank::rank::rank_row;

#[test]
fn distinct_values_rank_in_order() {
    // Averages 3.0, 1.0, 2.0 (as order keys): ranks must be 3, 1, 2.
    let (a, b, c) = rank_row(300, 100, 200);
    assert_eq!((a, b, c), (6, 2, 4));
}

#[test]
fn tied_pair_shares_mid_rank() {
    // Averages 5.0, 5.0, 1.0: the tied pair earns 2.5 each, the rest 1.
    let (a, b, c) = rank_row(500, 500, 100);
    assert_eq!((a, b, c), (5, 5, 2));
}

#[test]
fn tied_pair_at_the_bottom() {
    // Averages 1.0, 1.0, 9.0: the tied pair earns 1.5 each, the rest 3.
    let (a, b, c) = rank_row(10, 10, 90);
    assert_eq!((a, b, c), (3, 3, 6));
}

#[test]
fn three_way_tie_ranks_everyone_second() {
    let (a, b, c) = rank_row(7, 7, 7);
    assert_eq!((a, b, c), (4, 4, 4));
}

#[test]
fn ranks_always_sum_to_six() {
    let keys = [0u64, 1, 2, u64::MAX, 1, 0, 77];
    for &x in keys.iter() {
        for &y in keys.iter() {
            for &z in keys.iter() {
                let (a, b, c) = rank_row(x, y, z);
                assert_eq!(a as u32 + b as u32 + c as u32, 12);
            }
        }
    }
}

#[test]
fn build_row_keeps_columns_and_costs() {
    let row = build_row(300, 100, 200);
    assert_eq!(row.de_rand.cost_key, 300);
    assert_eq!(row.de_best.cost_key, 100);
    assert_eq!(row.pso.cost_key, 200);
    assert_eq!(row.de_rand.rank_half, 6);
    assert_eq!(row.de_best.rank_half, 2);
    assert_eq!(row.pso.rank_half, 4);
}
