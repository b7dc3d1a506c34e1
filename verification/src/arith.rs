//! Integer division as the machine performs it on signed operands.

use vstd::prelude::*;

use vstd::arithmetic::div_mod::{lemma_div_decreases, lemma_div_nonincreasing, lemma_div_pos_is_pos};

verus! {

/// Quotient of `x` by `d` rounded toward zero, as `i128::checked_div`
/// computes it.
pub open spec fn trunc_div(x: int, d: int) -> int {
    if x == 0 {
        0
    } else if x > 0 && d > 0 {
        x / d
    } else if x < 0 && d < 0 {
        ((x * -1) / (d * -1))
    } else if x < 0 {
        ((x * -1) / d) * -1
    } else {
        (x / (d * -1)) * -1
    }
}

/// A quotient rounded toward zero fits in `i128` unless it is `i128::MIN`
/// divided by `-1`.
pub proof fn lemma_trunc_div_fits(x: i128, d: i128)
    requires
        d != 0,
        !(x == i128::MIN && d == -1),
    ensures
        i128::MIN <= trunc_div(x as int, d as int) <= i128::MAX,
{
    let xi = x as int;
    let di = d as int;
    if xi > 0 && di > 0 {
        lemma_div_nonincreasing(xi, di);
        lemma_div_pos_is_pos(xi, di);
    } else if xi < 0 && di < 0 {
        lemma_div_pos_is_pos(xi * -1, di * -1);
        if di == -1 {
            assert((xi * -1) / 1 == xi * -1);
        } else {
            lemma_div_decreases(xi * -1, di * -1);
        }
    } else if xi < 0 && di > 0 {
        lemma_div_nonincreasing(xi * -1, di);
        lemma_div_pos_is_pos(xi * -1, di);
    } else if xi > 0 && di < 0 {
        lemma_div_nonincreasing(xi, di * -1);
        lemma_div_pos_is_pos(xi, di * -1);
    }
}

/// For a nonnegative dividend and a positive divisor, rounding toward zero is
/// the floor.
pub proof fn lemma_trunc_div_nonneg(x: int, d: int)
    requires
        x >= 0,
        d > 0,
    ensures
        trunc_div(x, d) == x / d,
{
    if x == 0 {
        assert(0int / d == 0) by (nonlinear_arith)
            requires
                d > 0,
        ;
    }
}

} // verus!

verus! {

/// The pro-rata share `t * p / w` of a pool of `t` for a stake `p` out of `w`
/// (where `t >= w`) never undercuts the stake, and never exceeds its exact
/// value.
pub proof fn lemma_share_bounds(t: int, p: int, w: int)
    requires
        w > 0,
        p > 0,
        t >= w,
    ensures
        w * ((t * p) / w) <= t * p,
        (t * p) / w >= p,
        (t * p) / w >= 0,
{
    let g = (t * p) / w;
    vstd::arithmetic::div_mod::lemma_fundamental_div_mod(t * p, w);
    vstd::arithmetic::div_mod::lemma_mod_bound(t * p, w);
    let r = (t * p) % w;
    assert(t * p >= w * p) by (nonlinear_arith)
        requires
            t >= w,
            p > 0,
    ;
    assert(g >= p) by (nonlinear_arith)
        requires
            t * p == w * g + r,
            0 <= r < w,
            t * p >= w * p,
            w > 0,
    ;
}

/// A fee of `fb` basis points (at most all of them) of a nonnegative profit,
/// rounded down, is nonnegative and at most the profit.
pub proof fn lemma_fee_bounds(profit: int, fb: int)
    requires
        profit >= 0,
        0 <= fb <= 10_000,
    ensures
        0 <= (profit * fb) / 10_000 <= profit,
        ((profit * fb) / 10_000) * 10_000 <= profit * fb,
{
    let x = profit * fb;
    assert(0 <= x <= profit * 10_000) by (nonlinear_arith)
        requires
            profit >= 0,
            0 <= fb <= 10_000,
            x == profit * fb,
    ;
    vstd::arithmetic::div_mod::lemma_fundamental_div_mod(x, 10_000);
    vstd::arithmetic::div_mod::lemma_mod_bound(x, 10_000);
}

} // verus!
