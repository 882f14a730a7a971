//! The incremental running-average fold, related to the arithmetic mean.
//!
//! The trial runner folds each successful best cost into a running average:
//! with i values already folded in, a new value v turns the average acc
//! into (acc * i) / (i + 1) + v / (i + 1).  The laws here state, over exact
//! rational arithmetic, that this fold computes the arithmetic mean of the
//! values folded in, whatever order they arrive in.  The harness performs
//! the same fold in floating point, where the laws hold up to rounding;
//! exact rationals are what the verified core can speak about.

use vstd::prelude::*;
use vstd::arithmetic::mul::lemma_mul_is_associative;
use vstd::arithmetic::mul::lemma_mul_is_commutative;
use vstd::arithmetic::mul::lemma_mul_is_distributive_add;
use vstd::arithmetic::mul::lemma_mul_is_distributive_add_other_way;
use vstd::seq_lib::commutative_foldr;
use vstd::seq_lib::lemma_fold_right_permutation;

verus! {

/// An exact rational number, used only in specifications.
pub struct Rat {
    pub num: int,
    pub den: int,
}

/// A rational is well formed when its denominator is positive.
pub open spec fn rat_wf(a: Rat) -> bool {
    a.den > 0
}

/// Equality of rationals as fractions, by cross multiplication.
pub open spec fn rat_eq(a: Rat, b: Rat) -> bool {
    a.num * b.den == b.num * a.den
}

pub open spec fn rat_zero() -> Rat {
    Rat { num: 0, den: 1 }
}

pub open spec fn rat_add(a: Rat, b: Rat) -> Rat {
    Rat { num: a.num * b.den + b.num * a.den, den: a.den * b.den }
}

/// `a` divided by the whole number `n`.
pub open spec fn rat_div_int(a: Rat, n: int) -> Rat {
    Rat { num: a.num, den: a.den * n }
}

/// Every element of the sequence is a well-formed rational.
pub open spec fn all_wf(s: Seq<Rat>) -> bool {
    forall|j: int| 0 <= j < s.len() ==> rat_wf(#[trigger] s[j])
}

/// The sum of a sequence of rationals.
pub open spec fn rat_sum(s: Seq<Rat>) -> Rat
    decreases s.len(),
{
    if s.len() == 0 {
        rat_zero()
    } else {
        rat_add(s[0], rat_sum(s.drop_first()))
    }
}

/// One step of the incremental fold: with `i` values already folded into
/// `acc`, fold in `v`, giving (acc * i) / (i + 1) + v / (i + 1) — built
/// here as the single fraction (acc * i + v) / (i + 1), with numerator and
/// denominator brought onto `acc` and `v`'s common denominator.
pub open spec fn mean_fold_step(acc: Rat, v: Rat, i: nat) -> Rat {
    Rat {
        num: acc.num * (i as int) * v.den + v.num * acc.den,
        den: acc.den * v.den * (i + 1),
    }
}

/// The fold continued over the rest of the values, `i` of them already in.
pub open spec fn mean_fold_from(acc: Rat, s: Seq<Rat>, i: nat) -> Rat
    decreases s.len(),
{
    if s.len() == 0 {
        acc
    } else {
        mean_fold_from(mean_fold_step(acc, s[0], i), s.drop_first(), i + 1)
    }
}

/// The incremental running-average fold of a whole sequence of values.
pub open spec fn incremental_mean(s: Seq<Rat>) -> Rat {
    mean_fold_from(rat_zero(), s, 0)
}

/// The binary addition the sum folds with.
pub open spec fn rat_add_fn() -> spec_fn(Rat, Rat) -> Rat {
    |v: Rat, acc: Rat| rat_add(v, acc)
}

/// Fraction equality is transitive, through a well-formed middle term.
pub proof fn lemma_rat_eq_trans(a: Rat, b: Rat, c: Rat)
    requires
        rat_wf(b),
        rat_eq(a, b),
        rat_eq(b, c),
    ensures
        rat_eq(a, c),
{
    assert(a.num * c.den * b.den == c.num * a.den * b.den) by (nonlinear_arith)
        requires
            a.num * b.den == b.num * a.den,
            b.num * c.den == c.num * b.den,
    ;
    assert(a.num * c.den == c.num * a.den) by (nonlinear_arith)
        requires
            a.num * c.den * b.den == c.num * a.den * b.den,
            b.den > 0,
    ;
}

/// The sum of well-formed rationals is well formed.
pub proof fn lemma_rat_sum_wf(s: Seq<Rat>)
    requires
        all_wf(s),
    ensures
        rat_wf(rat_sum(s)),
    decreases s.len(),
{
    if s.len() > 0 {
        assert(all_wf(s.drop_first())) by {
            assert(forall|j: int|
                0 <= j < s.drop_first().len() ==> #[trigger] s.drop_first()[j] == s[j + 1]);
        }
        lemma_rat_sum_wf(s.drop_first());
        let r = rat_sum(s.drop_first());
        assert(s[0].den * r.den > 0) by (nonlinear_arith)
            requires
                s[0].den > 0,
                r.den > 0,
        ;
    }
}

/// The ring identities behind the commutation of addition.
proof fn lemma_rat_add_commutes_ints(xn: int, xd: int, yn: int, yd: int, vn: int, vd: int)
    ensures
        xn * (yd * vd) + (yn * vd + vn * yd) * xd == yn * (xd * vd) + (xn * vd + vn * xd) * yd,
        xd * (yd * vd) == yd * (xd * vd),
{
    assert((yn * vd + vn * yd) * xd == (yn * vd) * xd + (vn * yd) * xd) by {
        lemma_mul_is_distributive_add_other_way(xd, yn * vd, vn * yd);
    }
    assert(yn * (xd * vd) == (yn * vd) * xd) by {
        lemma_mul_is_commutative(xd, vd);
        lemma_mul_is_associative(yn, vd, xd);
    }
    assert((xn * vd + vn * xd) * yd == (xn * vd) * yd + (vn * xd) * yd) by {
        lemma_mul_is_distributive_add_other_way(yd, xn * vd, vn * xd);
    }
    assert((xn * vd) * yd == xn * (yd * vd)) by {
        lemma_mul_is_associative(xn, vd, yd);
        lemma_mul_is_commutative(vd, yd);
    }
    assert((vn * xd) * yd == (vn * yd) * xd) by {
        lemma_mul_is_associative(vn, xd, yd);
        lemma_mul_is_commutative(xd, yd);
        lemma_mul_is_associative(vn, yd, xd);
    }
    assert(xd * (yd * vd) == yd * (xd * vd)) by {
        lemma_mul_is_associative(xd, yd, vd);
        lemma_mul_is_commutative(xd, yd);
        lemma_mul_is_associative(yd, xd, vd);
    }
}

/// Addition of rationals commutes across itself, exactly.
proof fn lemma_rat_add_commutes(x: Rat, y: Rat, v: Rat)
    ensures
        rat_add(x, rat_add(y, v)) == rat_add(y, rat_add(x, v)),
{
    lemma_rat_add_commutes_ints(x.num, x.den, y.num, y.den, v.num, v.den);
}

/// The sum is the right fold of addition over the sequence.
proof fn lemma_rat_sum_is_fold_right(s: Seq<Rat>)
    ensures
        rat_sum(s) == s.fold_right(rat_add_fn(), rat_zero()),
    decreases s.len(),
{
    s.lemma_fold_right_alt(rat_add_fn(), rat_zero());
    if s.len() > 0 {
        lemma_rat_sum_is_fold_right(s.drop_first());
        s.drop_first().lemma_fold_right_alt(rat_add_fn(), rat_zero());
    }
}

/// The sum of a sequence depends only on which values it holds, not on
/// their order.
pub proof fn lemma_rat_sum_permutation(s1: Seq<Rat>, s2: Seq<Rat>)
    requires
        s1.to_multiset() == s2.to_multiset(),
    ensures
        rat_sum(s1) == rat_sum(s2),
{
    assert(commutative_foldr(rat_add_fn())) by {
        assert forall|x: Rat, y: Rat, v: Rat|
            #[trigger] rat_add_fn()(x, rat_add_fn()(y, v)) == rat_add_fn()(
                y,
                rat_add_fn()(x, v),
            ) by {
            lemma_rat_add_commutes(x, y, v);
        }
    }
    lemma_fold_right_permutation(s1, s2, rat_add_fn(), rat_zero());
    lemma_rat_sum_is_fold_right(s1);
    lemma_rat_sum_is_fold_right(s2);
}

/// The ring identity behind one fold step: folding a value in scales the
/// running fraction's components by one more than the old count.
proof fn lemma_fold_step_scales(an: int, ad: int, vn: int, vd: int, sn: int, sd: int, ii: int)
    ensures
        (an * ii * vd + vn * ad) * (ii + 1) * sd + sn * (ad * vd * (ii + 1)) == (ii + 1) * (an * ii
            * (vd * sd) + (vn * sd + sn * vd) * ad),
{
    let p = an * ii * vd + vn * ad;
    let j = ii + 1;
    assert(p * j * sd == j * (p * sd)) by {
        lemma_mul_is_associative(p, j, sd);
        lemma_mul_is_commutative(j, sd);
        lemma_mul_is_associative(p, sd, j);
        lemma_mul_is_commutative(p * sd, j);
    }
    assert(sn * (ad * vd * j) == j * (sn * (ad * vd))) by {
        lemma_mul_is_associative(sn, ad * vd, j);
        lemma_mul_is_commutative(sn * (ad * vd), j);
    }
    assert(j * (p * sd) + j * (sn * (ad * vd)) == j * (p * sd + sn * (ad * vd))) by {
        lemma_mul_is_distributive_add(j, p * sd, sn * (ad * vd));
    }
    assert(p * sd == an * ii * (vd * sd) + (vn * sd) * ad) by {
        lemma_mul_is_distributive_add_other_way(sd, an * ii * vd, vn * ad);
        lemma_mul_is_associative(an * ii, vd, sd);
        lemma_mul_is_associative(vn, ad, sd);
        lemma_mul_is_commutative(ad, sd);
        lemma_mul_is_associative(vn, sd, ad);
    }
    assert(sn * (ad * vd) == (sn * vd) * ad) by {
        lemma_mul_is_commutative(ad, vd);
        lemma_mul_is_associative(sn, vd, ad);
    }
    assert((vn * sd + sn * vd) * ad == (vn * sd) * ad + (sn * vd) * ad) by {
        lemma_mul_is_distributive_add_other_way(ad, vn * sd, sn * vd);
    }
}

/// The fold, continued from any accumulator, lands on the mean of what the
/// accumulator already stood for and the values still to come.
#[verifier::rlimit(50)]
proof fn lemma_mean_fold_from(acc: Rat, s: Seq<Rat>, i: nat)
    requires
        rat_wf(acc),
        all_wf(s),
        i + s.len() > 0,
    ensures
        rat_wf(mean_fold_from(acc, s, i)),
        rat_eq(
            mean_fold_from(acc, s, i),
            rat_div_int(
                rat_add(Rat { num: acc.num * (i as int), den: acc.den }, rat_sum(s)),
                (i + s.len()) as int,
            ),
        ),
    decreases s.len(),
{
    let target = rat_div_int(
        rat_add(Rat { num: acc.num * (i as int), den: acc.den }, rat_sum(s)),
        (i + s.len()) as int,
    );
    if s.len() == 0 {
        assert(acc.num * ((acc.den * 1) * (i as int)) == (acc.num * (i as int) * 1 + 0 * acc.den)
            * acc.den) by (nonlinear_arith);
    } else {
        let v = s[0];
        let rest = s.drop_first();
        let acc2 = mean_fold_step(acc, v, i);
        assert(all_wf(rest)) by {
            assert(forall|j: int| 0 <= j < rest.len() ==> #[trigger] rest[j] == s[j + 1]);
        }
        assert(rat_wf(acc2)) by {
            assert(acc.den * v.den * (i + 1) > 0) by (nonlinear_arith)
                requires
                    acc.den > 0,
                    v.den > 0,
                    i >= 0,
            ;
        }
        lemma_mean_fold_from(acc2, rest, i + 1);
        lemma_rat_sum_wf(rest);
        let ghost sr = rat_sum(rest);
        let ghost an = acc.num;
        let ghost ad = acc.den;
        let ghost vn = v.num;
        let ghost vd = v.den;
        let ghost sn = sr.num;
        let ghost sd = sr.den;
        let ghost ii = i as int;
        let ghost n = i + s.len();
        let ghost tn = an * ii * (vd * sd) + (vn * sd + sn * vd) * ad;
        let ghost td = ad * (vd * sd) * (n as int);
        let ghost mid = rat_div_int(
            rat_add(Rat { num: acc2.num * (ii + 1), den: acc2.den }, sr),
            (i + 1 + rest.len()) as int,
        );
        // The target of the recursive call is the same fraction as the
        // overall target, scaled by i + 1 in both components.
        assert(mid.num == (an * ii * vd + vn * ad) * (ii + 1) * sd + sn * (ad * vd * (ii + 1)));
        lemma_fold_step_scales(an, ad, vn, vd, sn, sd, ii);
        assert(mid.num == (ii + 1) * tn);
        assert(mid.den == (ii + 1) * td) by (nonlinear_arith)
            requires
                mid.den == (ad * vd * (ii + 1)) * sd * (n as int),
                td == ad * (vd * sd) * (n as int),
        ;
        assert(target.num == tn && target.den == td);
        assert(rat_eq(mid, target)) by {
            assert(((ii + 1) * tn) * td == tn * ((ii + 1) * td)) by (nonlinear_arith);
        }
        assert(rat_wf(mid)) by {
            assert((ii + 1) * td > 0) by (nonlinear_arith)
                requires
                    ii >= 0,
                    ad > 0,
                    vd > 0,
                    sd > 0,
                    n > 0,
                    td == ad * (vd * sd) * (n as int),
            ;
        }
        lemma_rat_eq_trans(mean_fold_from(acc2, rest, i + 1), mid, target);
    }
}

/// Law: the incremental running-average fold equals the arithmetic mean of
/// the values folded in — the sum divided by the count — over exact
/// arithmetic.
pub proof fn lemma_incremental_mean_is_mean(s: Seq<Rat>)
    requires
        all_wf(s),
        s.len() > 0,
    ensures
        rat_wf(incremental_mean(s)),
        rat_eq(incremental_mean(s), rat_div_int(rat_sum(s), s.len() as int)),
{
    lemma_mean_fold_from(rat_zero(), s, 0);
    lemma_rat_sum_wf(s);
    let start = Rat { num: rat_zero().num * 0, den: rat_zero().den };
    assert(rat_add(start, rat_sum(s)) == rat_sum(s));
}

/// Law: the fold is independent of the values' arrival order — two
/// sequences holding the same values give equal means.
pub proof fn lemma_incremental_mean_order_independent(s1: Seq<Rat>, s2: Seq<Rat>)
    requires
        all_wf(s1),
        all_wf(s2),
        s1.to_multiset() == s2.to_multiset(),
        s1.len() > 0,
    ensures
        rat_eq(incremental_mean(s1), incremental_mean(s2)),
{
    s1.to_multiset_ensures();
    s2.to_multiset_ensures();
    assert(s1.len() == s2.len());
    lemma_rat_sum_permutation(s1, s2);
    lemma_incremental_mean_is_mean(s1);
    lemma_incremental_mean_is_mean(s2);
    let m = rat_div_int(rat_sum(s1), s1.len() as int);
    assert(rat_wf(m)) by {
        lemma_rat_sum_wf(s1);
        assert(rat_sum(s1).den * s1.len() > 0) by (nonlinear_arith)
            requires
                rat_sum(s1).den > 0,
                s1.len() > 0,
        ;
    }
    lemma_rat_eq_trans(incremental_mean(s1), m, incremental_mean(s2));
}

} // verus!
