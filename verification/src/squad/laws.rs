//! What the pool's rules promise across calls: settlement pays out exactly
//! what was escrowed, winners never get back less than they staked, and the
//! pools always equal the deposits they hold.

use vstd::prelude::*;

use crate::arith::{lemma_fee_bounds, lemma_share_bounds, lemma_trunc_div_nonneg};
use crate::squad::pool::{
    claim_fee, claim_fits, claim_gross, claim_reaches_split, is_side, profit_of, side_count,
    side_pool, spec_claim, spec_create_market, spec_deposit, spec_preview_claim, spec_resolve,
    spec_withdraw_before_deadline,
    winner_count, winner_pool,
};
use crate::squad::types::{
    ClaimResult, Error, Market, PoolState, BPS_DIVISOR, MAX_FEE_BPS, MAX_PARTICIPANTS_PER_SIDE,
    RESULT_CANCELLED, SIDE_A,
};

verus! {

/// The sum of the principals of a list of claims, each a side and a deposit.
pub open spec fn total_principal(claims: Seq<(u32, i128)>) -> int
    decreases claims.len(),
{
    if claims.len() == 0 {
        0
    } else {
        claims[0].1 + total_principal(claims.drop_first())
    }
}

/// The sum of what a list of claims was worth.
pub open spec fn total_gross(rs: Seq<ClaimResult>) -> int
    decreases rs.len(),
{
    if rs.len() == 0 {
        0
    } else {
        rs[0].gross + total_gross(rs.drop_first())
    }
}

/// The sum of what a list of claims paid out.
pub open spec fn total_net(rs: Seq<ClaimResult>) -> int
    decreases rs.len(),
{
    if rs.len() == 0 {
        0
    } else {
        rs[0].net + total_net(rs.drop_first())
    }
}

/// The sum of the fees a list of claims accrued.
pub open spec fn total_fee(rs: Seq<ClaimResult>) -> int
    decreases rs.len(),
{
    if rs.len() == 0 {
        0
    } else {
        rs[0].fee + total_fee(rs.drop_first())
    }
}

/// Settles `claims` one after the other on `m`, each by a caller that has
/// not claimed before: the market left at the end and each claim's split, or
/// `None` where a claim is refused or would leave the machine integers.
pub open spec fn settle(pool: PoolState, m: Market, claims: Seq<(u32, i128)>) -> Option<
    (Market, Seq<ClaimResult>),
>
    decreases claims.len(),
{
    if claims.len() == 0 {
        Some((m, Seq::empty()))
    } else if claim_reaches_split(Some(m), claims[0].0, claims[0].1, false) && !claim_fits(
        m,
        claims[0].1,
        pool.accrued_fees,
    ) {
        None
    } else {
        match spec_claim(pool, Some(m), claims[0].0, claims[0].1, false) {
            Err(_) => None,
            Ok((m2, c)) => match settle(
                PoolState { accrued_fees: (pool.accrued_fees + c.fee) as i128, ..pool },
                m2,
                claims.drop_first(),
            ) {
                None => None,
                Some((end, rest)) => Some((end, seq![c] + rest)),
            },
        }
    }
}

/// The properties every claim of a settlement has: it pays at least its
/// principal, the net and the fee make up its worth, and the fee is at most
/// `fee_bps` basis points of its profit.
pub open spec fn fair_split(c: ClaimResult, principal: i128, fee_bps: u32) -> bool {
    &&& c.net >= principal
    &&& c.net + c.fee == c.gross
    &&& 0 <= c.fee
    &&& c.fee * BPS_DIVISOR <= (c.gross - principal) * fee_bps
}

proof fn lemma_prepend(c: ClaimResult, rest: Seq<ClaimResult>)
    ensures
        (seq![c] + rest).len() == rest.len() + 1,
        (seq![c] + rest)[0] == c,
        (seq![c] + rest).drop_first() == rest,
        forall|i: int| 0 <= i < rest.len() ==> (seq![c] + rest)[i + 1] == rest[i],
{
    assert((seq![c] + rest).drop_first() =~= rest);
}

proof fn lemma_settle_winners(pool: PoolState, m: Market, claims: Seq<(u32, i128)>)
    requires
        m.resolved,
        is_side(m.result),
        0 < winner_pool(m) <= m.pool_a + m.pool_b <= i128::MAX,
        claims.len() >= 1,
        m.winner_claims + claims.len() == winner_count(m),
        forall|i: int| 0 <= i < claims.len() ==> claims[i].0 == m.result && claims[i].1 > 0,
        winner_pool(m) * m.remaining_escrow >= (m.pool_a + m.pool_b) * total_principal(claims),
        m.remaining_escrow <= m.pool_a + m.pool_b,
        m.fee_bps <= MAX_FEE_BPS,
        pool.usdc is Some,
        pool.accrued_fees >= 0,
        pool.accrued_fees + m.remaining_escrow <= i128::MAX,
    ensures
        settle(pool, m, claims) matches Some((end, rs)) ==> {
            &&& rs.len() == claims.len()
            &&& end.remaining_escrow == 0
            &&& total_gross(rs) == m.remaining_escrow
            &&& total_net(rs) + total_fee(rs) == total_gross(rs)
            &&& forall|i: int| 0 <= i < rs.len() ==> fair_split(rs[i], claims[i].1, m.fee_bps)
        },
        ({
            let t = m.pool_a + m.pool_b;
            t * winner_pool(m) <= i128::MAX && t * m.fee_bps <= i128::MAX
        }) ==> settle(pool, m, claims) is Some,
    decreases claims.len(),
{
    let t = (m.pool_a + m.pool_b) as int;
    let w = winner_pool(m) as int;
    let r = m.remaining_escrow as int;
    let p = claims[0].1 as int;
    let rest = claims.drop_first();
    let s_rest = total_principal(rest);
    assert(total_principal(claims) == p + s_rest);
    assert(s_rest >= 0) by {
        lemma_total_principal_nonneg(rest);
    }
    assert(t * total_principal(claims) == t * p + t * s_rest) by (nonlinear_arith)
        requires
            total_principal(claims) == p + s_rest,
    ;
    assert(t * s_rest >= 0) by (nonlinear_arith)
        requires
            t >= 0,
            s_rest >= 0,
    ;
    assert(t * p >= w * p) by (nonlinear_arith)
        requires
            t >= w,
            p > 0,
    ;
    // What the remaining escrow still covers: at least the exact shares of
    // every claim yet to come.
    assert(r >= p) by (nonlinear_arith)
        requires
            w * r >= t * p + t * s_rest,
            t * s_rest >= 0,
            t * p >= w * p,
            w > 0,
    ;
    assert(r <= t);
    assert(p <= w) by (nonlinear_arith)
        requires
            w * r >= t * p + t * s_rest,
            t * s_rest >= 0,
            r <= t,
            t > 0,
            w > 0,
    ;
    let fb = m.fee_bps as int;
    let last = claims.len() == 1;
    assert(last <==> m.winner_claims + 1 == winner_count(m));
    let g: int = if last {
        r
    } else {
        (t * p) / w
    };
    if !last {
        lemma_share_bounds(t, p, w);
        lemma_trunc_div_nonneg(t * p, w);
        assert(t * p <= t * w) by (nonlinear_arith)
            requires
                p <= w,
                t >= 0,
        ;
    }
    assert(g >= p);
    assert(g <= r) by (nonlinear_arith)
        requires
            last ==> g == r,
            !last ==> w * g <= t * p,
            w * r >= t * p + t * s_rest,
            t * s_rest >= 0,
            w > 0,
    ;
    lemma_fee_bounds(g - p, fb);
    assert((g - p) * fb <= t * fb) by (nonlinear_arith)
        requires
            0 <= g - p <= t,
            fb >= 0,
    ;
    let f: int = ((g - p) * fb) / 10_000;
    let tight = t * w <= i128::MAX && t * fb <= i128::MAX;
    if !last {
        assert(claim_gross(m, claims[0].1) == (if t * p <= i128::MAX {
            Some(g)
        } else {
            None::<int>
        }));
    } else {
        assert(claim_gross(m, claims[0].1) == Some(g));
    }
    assert(profit_of(g, p) == g - p);
    match claim_gross(m, claims[0].1) {
        None => {
            assert(!tight);
        },
        Some(g0) => {
            assert(g0 == g);
            assert(claim_fee(m, claims[0].1, g) == (if (g - p) * fb <= i128::MAX {
                Some(f)
            } else {
                None::<int>
            }));
            if (g - p) * fb <= i128::MAX {
                assert(claim_fits(m, claims[0].1, pool.accrued_fees));
                let c = ClaimResult { gross: g as i128, fee: f as i128, net: (g - f) as i128 };
                let m2 = Market {
                    remaining_escrow: (r - g) as i128,
                    winner_claims: (m.winner_claims + 1) as u32,
                    ..m
                };
                assert(spec_claim(pool, Some(m), claims[0].0, claims[0].1, false) == Ok::<
                    (Market, ClaimResult),
                    Error,
                >((m2, c)));
                assert(fair_split(c, claims[0].1, m.fee_bps));
                let pool2 = PoolState { accrued_fees: (pool.accrued_fees + f) as i128, ..pool };
                if last {
                    assert(rest.len() == 0);
                    assert(settle(pool2, m2, rest) == Some((m2, Seq::<ClaimResult>::empty())));
                    lemma_prepend(c, Seq::<ClaimResult>::empty());
                    let rs = seq![c] + Seq::<ClaimResult>::empty();
                    assert(total_gross(rs.drop_first()) == 0);
                    assert(total_net(rs.drop_first()) == 0);
                    assert(total_fee(rs.drop_first()) == 0);
                } else {
                    assert(w * (r - g) >= t * s_rest) by (nonlinear_arith)
                        requires
                            w * r >= t * p + t * s_rest,
                            w * g <= t * p,
                    ;
                    assert forall|i: int| 0 <= i < rest.len() implies rest[i].0 == m2.result
                        && rest[i].1 > 0 by {
                        assert(rest[i] == claims[i + 1]);
                    }
                    lemma_settle_winners(pool2, m2, rest);
                    match settle(pool2, m2, rest) {
                        None => {},
                        Some((end, rs_rest)) => {
                            lemma_prepend(c, rs_rest);
                            let rs = seq![c] + rs_rest;
                            assert forall|i: int| 0 <= i < rs.len() implies fair_split(
                                rs[i],
                                claims[i].1,
                                m.fee_bps,
                            ) by {
                                if i > 0 {
                                    assert(rs[i] == rs_rest[i - 1]);
                                    assert(claims[i] == rest[i - 1]);
                                }
                            }
                        },
                    }
                }
            } else {
                assert(!tight);
            }
        },
    }
}

proof fn lemma_total_principal_nonneg(claims: Seq<(u32, i128)>)
    requires
        forall|i: int| 0 <= i < claims.len() ==> claims[i].1 > 0,
    ensures
        total_principal(claims) >= 0,
    decreases claims.len(),
{
    if claims.len() > 0 {
        let rest = claims.drop_first();
        assert forall|i: int| 0 <= i < rest.len() implies rest[i].1 > 0 by {
            assert(rest[i] == claims[i + 1]);
        }
        lemma_total_principal_nonneg(rest);
    }
}

/// Settlement pays out exactly what was escrowed. When every depositor on
/// the winning side of a freshly resolved market claims once, in any order,
/// each gets back at least its deposit and pays at most `fee_bps` basis
/// points of its profit, and the claims together are worth both pools to the
/// unit, the last absorbing the rounding, which leaves no escrow behind. The
/// claims always succeed where both pools times the winning pool, and both
/// pools times the fee, fit in `i128`.
pub proof fn law_winners_share_the_whole_escrow(
    pool: PoolState,
    m: Market,
    claims: Seq<(u32, i128)>,
)
    requires
        m.resolved,
        is_side(m.result),
        m.winner_claims == 0,
        m.remaining_escrow == m.pool_a + m.pool_b,
        m.pool_a >= 0,
        m.pool_b >= 0,
        winner_pool(m) > 0,
        m.fee_bps <= MAX_FEE_BPS,
        claims.len() == winner_count(m),
        forall|i: int| 0 <= i < claims.len() ==> claims[i].0 == m.result && claims[i].1 > 0,
        total_principal(claims) == winner_pool(m),
        pool.usdc is Some,
        pool.accrued_fees >= 0,
        pool.accrued_fees + m.pool_a + m.pool_b <= i128::MAX,
    ensures
        settle(pool, m, claims) matches Some((end, rs)) ==> {
            &&& rs.len() == claims.len()
            &&& end.remaining_escrow == 0
            &&& total_gross(rs) == m.pool_a + m.pool_b
            &&& total_net(rs) + total_fee(rs) == m.pool_a + m.pool_b
            &&& forall|i: int| 0 <= i < rs.len() ==> fair_split(rs[i], claims[i].1, m.fee_bps)
        },
        ({
            let t = m.pool_a + m.pool_b;
            t * winner_pool(m) <= i128::MAX && t * m.fee_bps <= i128::MAX
        }) ==> settle(pool, m, claims) is Some,
{
    if claims.len() == 0 {
        assert(total_principal(claims) == 0);
    }
    let t = m.pool_a + m.pool_b;
    let w = winner_pool(m) as int;
    assert(w * t >= t * w) by (nonlinear_arith);
    lemma_settle_winners(pool, m, claims);
}

proof fn lemma_settle_refunds(pool: PoolState, m: Market, claims: Seq<(u32, i128)>)
    requires
        m.resolved,
        m.result == RESULT_CANCELLED,
        m.remaining_escrow == total_principal(claims),
        forall|i: int| 0 <= i < claims.len() ==> is_side(claims[i].0) && claims[i].1 > 0,
        pool.usdc is Some,
    ensures
        settle(pool, m, claims) matches Some((end, rs)) && {
            &&& rs.len() == claims.len()
            &&& end.remaining_escrow == 0
            &&& forall|i: int| 0 <= i < rs.len() ==> rs[i] == (ClaimResult {
                gross: claims[i].1,
                fee: 0,
                net: claims[i].1,
            })
        },
    decreases claims.len(),
{
    if claims.len() > 0 {
        let rest = claims.drop_first();
        let p = claims[0].1;
        assert forall|i: int| 0 <= i < rest.len() implies is_side(rest[i].0) && rest[i].1 > 0 by {
            assert(rest[i] == claims[i + 1]);
        }
        lemma_total_principal_nonneg(rest);
        assert(claim_fits(m, p, pool.accrued_fees));
        let c = ClaimResult { gross: p, fee: 0, net: p };
        let m2 = Market { remaining_escrow: (m.remaining_escrow - p) as i128, ..m };
        assert(spec_claim(pool, Some(m), claims[0].0, p, false) == Ok::<
            (Market, ClaimResult),
            Error,
        >((m2, c)));
        let pool2 = PoolState { accrued_fees: (pool.accrued_fees + 0) as i128, ..pool };
        lemma_settle_refunds(pool2, m2, rest);
        let (end, rs_rest) = settle(pool2, m2, rest).unwrap();
        lemma_prepend(c, rs_rest);
        let rs = seq![c] + rs_rest;
        assert forall|i: int| 0 <= i < rs.len() implies rs[i] == (ClaimResult {
            gross: claims[i].1,
            fee: 0,
            net: claims[i].1,
        }) by {
            if i > 0 {
                assert(rs[i] == rs_rest[i - 1]);
                assert(claims[i] == rest[i - 1]);
            }
        }
    }
}

/// A cancelled market refunds every deposit: when each depositor, on either
/// side, claims once, each gets exactly its deposit back, no fee is taken,
/// and the escrow ends empty.
pub proof fn law_cancellation_refunds_every_deposit(
    pool: PoolState,
    m: Market,
    claims: Seq<(u32, i128)>,
)
    requires
        m.resolved,
        m.result == RESULT_CANCELLED,
        m.remaining_escrow == m.pool_a + m.pool_b,
        total_principal(claims) == m.pool_a + m.pool_b,
        forall|i: int| 0 <= i < claims.len() ==> is_side(claims[i].0) && claims[i].1 > 0,
        pool.usdc is Some,
    ensures
        settle(pool, m, claims) matches Some((end, rs)) && {
            &&& rs.len() == claims.len()
            &&& end.remaining_escrow == 0
            &&& forall|i: int| 0 <= i < rs.len() ==> rs[i] == (ClaimResult {
                gross: claims[i].1,
                fee: 0,
                net: claims[i].1,
            })
        },
{
    lemma_settle_refunds(pool, m, claims);
}

/// The sum of the deposits in the book of one side, one entry per depositor.
pub open spec fn book_total(book: Seq<i128>) -> int
    decreases book.len(),
{
    if book.len() == 0 {
        0
    } else {
        book[0] + book_total(book.drop_first())
    }
}

/// How many entries of the book of one side hold a deposit.
pub open spec fn depositors(book: Seq<i128>) -> int
    decreases book.len(),
{
    if book.len() == 0 {
        0
    } else {
        (if book[0] > 0 {
            1int
        } else {
            0int
        }) + depositors(book.drop_first())
    }
}

/// The pool of `side` of `m` holds exactly the deposits of `book`, and its
/// depositor count is the number of nonempty deposits there.
pub open spec fn books_agree(m: Market, side: u32, book: Seq<i128>) -> bool {
    &&& forall|i: int| 0 <= i < book.len() ==> book[i] >= 0
    &&& side_pool(m, side) == book_total(book)
    &&& side_count(m, side) == depositors(book)
}

/// The side other than `side`.
pub open spec fn other_side(side: u32) -> u32 {
    if side == SIDE_A {
        crate::squad::types::SIDE_B
    } else {
        SIDE_A
    }
}

proof fn lemma_book_update(book: Seq<i128>, i: int, v: i128)
    requires
        0 <= i < book.len(),
    ensures
        book_total(book.update(i, v)) == book_total(book) - book[i] + v,
        depositors(book.update(i, v)) == depositors(book) - (if book[i] > 0 {
            1int
        } else {
            0int
        }) + (if v > 0 {
            1int
        } else {
            0int
        }),
    decreases book.len(),
{
    let u = book.update(i, v);
    if i == 0 {
        assert(u.drop_first() =~= book.drop_first());
    } else {
        assert(u.drop_first() =~= book.drop_first().update(i - 1, v));
        lemma_book_update(book.drop_first(), i - 1, v);
    }
}

proof fn lemma_book_nonneg(book: Seq<i128>)
    requires
        forall|i: int| 0 <= i < book.len() ==> book[i] >= 0,
    ensures
        book_total(book) >= 0,
        depositors(book) >= 0,
    decreases book.len(),
{
    if book.len() > 0 {
        let rest = book.drop_first();
        assert forall|i: int| 0 <= i < rest.len() implies rest[i] >= 0 by {
            assert(rest[i] == book[i + 1]);
        }
        lemma_book_nonneg(rest);
    }
}

/// A deposit keeps the books: if the pool and the depositor count of a side
/// matched the deposits held there, they still do once the depositor in slot
/// `i` has deposited, the other side is untouched, and no side ever holds
/// more than [`MAX_PARTICIPANTS_PER_SIDE`] depositors.
pub proof fn law_deposit_keeps_the_books(
    pool: PoolState,
    m: Market,
    side: u32,
    amount: i128,
    book: Seq<i128>,
    i: int,
    now: u64,
)
    requires
        0 <= i < book.len(),
        books_agree(m, side, book),
        spec_deposit(pool, Some(m), side, amount, book[i], now) is Ok,
        book[i] + amount <= i128::MAX,
        side_pool(m, side) + amount <= i128::MAX,
    ensures
        ({
            let (m2, balance) = spec_deposit(pool, Some(m), side, amount, book[i], now).unwrap();
            &&& books_agree(m2, side, book.update(i, balance))
            &&& side_pool(m2, other_side(side)) == side_pool(m, other_side(side))
            &&& side_count(m2, other_side(side)) == side_count(m, other_side(side))
            &&& side_count(m, side) <= MAX_PARTICIPANTS_PER_SIDE ==> side_count(m2, side)
                <= MAX_PARTICIPANTS_PER_SIDE
        }),
{
    let (m2, balance) = spec_deposit(pool, Some(m), side, amount, book[i], now).unwrap();
    lemma_book_update(book, i, balance);
    let u = book.update(i, balance);
    assert forall|j: int| 0 <= j < u.len() implies u[j] >= 0 by {
        if j != i {
            assert(u[j] == book[j]);
        }
    }
}

/// A withdrawal keeps the books in the same way, and frees the slot of a
/// deposit it empties.
pub proof fn law_withdrawal_keeps_the_books(
    pool: PoolState,
    m: Market,
    side: u32,
    amount: i128,
    book: Seq<i128>,
    i: int,
    now: u64,
)
    requires
        0 <= i < book.len(),
        books_agree(m, side, book),
        spec_withdraw_before_deadline(pool, Some(m), side, amount, book[i], now) is Ok,
    ensures
        ({
            let (m2, balance) = spec_withdraw_before_deadline(
                pool,
                Some(m),
                side,
                amount,
                book[i],
                now,
            ).unwrap();
            &&& books_agree(m2, side, book.update(i, balance))
            &&& side_pool(m2, other_side(side)) == side_pool(m, other_side(side))
            &&& side_count(m2, other_side(side)) == side_count(m, other_side(side))
        }),
{
    let (m2, balance) = spec_withdraw_before_deadline(pool, Some(m), side, amount, book[i], now).unwrap();
    lemma_book_update(book, i, balance);
    let u = book.update(i, balance);
    assert forall|j: int| 0 <= j < u.len() implies u[j] >= 0 by {
        if j != i {
            assert(u[j] == book[j]);
        }
    }
    lemma_book_nonneg(u);
}

/// Withdrawing what was just deposited undoes the deposit: the market and the
/// depositor's balance are as they were before.
pub proof fn law_withdrawing_a_deposit_undoes_it(
    pool: PoolState,
    m: Market,
    side: u32,
    amount: i128,
    previous: i128,
    now: u64,
)
    requires
        previous >= 0,
        spec_deposit(pool, Some(m), side, amount, previous, now) is Ok,
        previous + amount <= i128::MAX,
        side_pool(m, side) + amount <= i128::MAX,
    ensures
        ({
            let (m2, balance) = spec_deposit(pool, Some(m), side, amount, previous, now).unwrap();
            spec_withdraw_before_deadline(pool, Some(m2), side, amount, balance, now) == Ok::<
                (Market, i128),
                Error,
            >((m, previous))
        }),
{
}

/// A preview tells a depositor exactly the split its claim will get.
pub proof fn law_preview_matches_claim(pool: PoolState, m: Market, side: u32, principal: i128)
    requires
        spec_claim(pool, Some(m), side, principal, false) is Ok,
    ensures
        spec_preview_claim(Some(m), side, principal) == Ok::<ClaimResult, Error>(
            spec_claim(pool, Some(m), side, principal, false).unwrap().1,
        ),
{
}

/// Captains have no economic privilege: what a claim is worth, what it costs
/// and what it leaves in escrow do not depend on who opened the market.
pub proof fn law_captain_has_no_economic_privilege(
    pool: PoolState,
    m: Market,
    captain: soroban_sdk::Address,
    side: u32,
    principal: i128,
    already_claimed: bool,
)
    ensures
        ({
            let other = Market { captain, ..m };
            match (
                spec_claim(pool, Some(m), side, principal, already_claimed),
                spec_claim(pool, Some(other), side, principal, already_claimed),
            ) {
                (Ok((m1, c1)), Ok((m2, c2))) => c1 == c2 && m2 == (Market { captain, ..m1 }),
                (Err(e1), Err(e2)) => e1 == e2,
                _ => false,
            }
        }),
{
}

/// An open market: unresolved, with no verdict, no escrow set aside and no
/// claim settled.
pub open spec fn open_market(m: Market) -> bool {
    &&& !m.resolved
    &&& m.result == 0
    &&& m.remaining_escrow == 0
    &&& m.winner_claims == 0
}

/// Markets are created open, and deposits and withdrawals keep them open;
/// resolving an open market (whose pools together fit in `i128`) sets both
/// pools aside as escrow with no claim yet settled, which is where settlement
/// starts.
pub proof fn law_markets_stay_open_until_resolved(
    pool: PoolState,
    m: Market,
    captain: soroban_sdk::Address,
    question_len: u32,
    deadline: u64,
    fee_bps: u32,
    side: u32,
    amount: i128,
    balance: i128,
    result: u32,
    now: u64,
)
    ensures
        spec_create_market(pool, captain, question_len, deadline, fee_bps, now) matches Ok((_, created))
            ==> open_market(created) && created.fee_bps <= MAX_FEE_BPS,
        open_market(m) ==> {
            &&& spec_deposit(pool, Some(m), side, amount, balance, now) matches Ok((m2, _))
                ==> open_market(m2)
            &&& spec_withdraw_before_deadline(pool, Some(m), side, amount, balance, now) matches Ok(
                (m2, _),
            ) ==> open_market(m2)
            &&& i128::MIN <= m.pool_a + m.pool_b <= i128::MAX ==> (spec_resolve(
                pool,
                Some(m),
                result,
                now,
            ) matches Ok(m2) ==> {
                &&& m2.resolved
                &&& m2.winner_claims == 0
                &&& m2.remaining_escrow == m.pool_a + m.pool_b
                &&& m2.pool_a == m.pool_a && m2.pool_b == m.pool_b
                &&& (m2.result == RESULT_CANCELLED || (is_side(m2.result) && winner_pool(m2) > 0))
            })
        },
{
}

/// A position is paid at most once: a claim that succeeds leaves the market
/// resolved and the position's settled record set, and on a resolved market
/// every claim on a settled position is refused with `AlreadyClaimed`,
/// whatever it names as deposit.
pub proof fn law_a_position_is_paid_at_most_once(
    pool: PoolState,
    m: Market,
    side: u32,
    principal: i128,
    later_pool: PoolState,
    later: Market,
    later_principal: i128,
)
    requires
        spec_claim(pool, Some(m), side, principal, false) is Ok,
    ensures
        spec_claim(pool, Some(m), side, principal, false).unwrap().0.resolved,
        spec_claim(
            later_pool,
            Some(spec_claim(pool, Some(m), side, principal, false).unwrap().0),
            side,
            later_principal,
            true,
        ) == Err::<(Market, ClaimResult), Error>(Error::AlreadyClaimed),
        later.resolved ==> spec_claim(later_pool, Some(later), side, later_principal, true) == Err::<
            (Market, ClaimResult),
            Error,
        >(Error::AlreadyClaimed),
{
}

/// A deposit (`deposit` set) or a withdrawal by the depositor in `slot` of
/// the books of `side`, of `amount`, at `now`.
pub struct BookCall {
    pub deposit: bool,
    pub side: u32,
    pub slot: usize,
    pub amount: i128,
    pub now: u64,
}

/// The book of `side`: `book_a` for [`SIDE_A`], else `book_b`.
pub open spec fn book_of(book_a: Seq<i128>, book_b: Seq<i128>, side: u32) -> Seq<i128> {
    if side == SIDE_A {
        book_a
    } else {
        book_b
    }
}

/// The market and the books of both sides after the call `c`: what the call
/// stores where it is accepted and stays within machine integers, else what
/// there was (a refusal or a trap stores nothing).
pub open spec fn after_book_call(
    pool: PoolState,
    m: Market,
    book_a: Seq<i128>,
    book_b: Seq<i128>,
    c: BookCall,
) -> (Market, Seq<i128>, Seq<i128>) {
    let book = book_of(book_a, book_b, c.side);
    let held = book[c.slot as int];
    let outcome = if c.deposit {
        match spec_deposit(pool, Some(m), c.side, c.amount, held, c.now) {
            Ok((m2, balance)) => if held + c.amount <= i128::MAX && side_pool(m, c.side) + c.amount
                <= i128::MAX {
                Some((m2, balance))
            } else {
                None
            },
            Err(_) => None,
        }
    } else {
        match spec_withdraw_before_deadline(pool, Some(m), c.side, c.amount, held, c.now) {
            Ok((m2, balance)) => if side_pool(m, c.side) - c.amount >= i128::MIN && (held
                == c.amount ==> side_count(m, c.side) > 0) {
                Some((m2, balance))
            } else {
                None
            },
            Err(_) => None,
        }
    };
    match outcome {
        Some((m2, balance)) => if c.side == SIDE_A {
            (m2, book_a.update(c.slot as int, balance), book_b)
        } else {
            (m2, book_a, book_b.update(c.slot as int, balance))
        },
        None => (m, book_a, book_b),
    }
}

/// The market and the books after the calls of `history`, in order.
pub open spec fn after_book_history(
    pool: PoolState,
    m: Market,
    book_a: Seq<i128>,
    book_b: Seq<i128>,
    history: Seq<BookCall>,
) -> (Market, Seq<i128>, Seq<i128>)
    decreases history.len(),
{
    if history.len() == 0 {
        (m, book_a, book_b)
    } else {
        let (m2, a2, b2) = after_book_call(pool, m, book_a, book_b, history[0]);
        after_book_history(pool, m2, a2, b2, history.drop_first())
    }
}

/// Both sides' books agree with the market, and neither side holds more
/// than [`MAX_PARTICIPANTS_PER_SIDE`] depositors.
pub open spec fn books_kept(m: Market, book_a: Seq<i128>, book_b: Seq<i128>) -> bool {
    &&& books_agree(m, SIDE_A, book_a)
    &&& books_agree(m, crate::squad::types::SIDE_B, book_b)
    &&& m.participants_a <= MAX_PARTICIPANTS_PER_SIDE
    &&& m.participants_b <= MAX_PARTICIPANTS_PER_SIDE
}

proof fn lemma_empty_book(book: Seq<i128>)
    requires
        forall|i: int| 0 <= i < book.len() ==> book[i] == 0,
    ensures
        book_total(book) == 0,
        depositors(book) == 0,
    decreases book.len(),
{
    if book.len() > 0 {
        let rest = book.drop_first();
        assert forall|i: int| 0 <= i < rest.len() implies rest[i] == 0 by {
            assert(rest[i] == book[i + 1]);
        }
        lemma_empty_book(rest);
    }
}

proof fn lemma_book_call_keeps_the_books(
    pool: PoolState,
    m: Market,
    book_a: Seq<i128>,
    book_b: Seq<i128>,
    c: BookCall,
)
    requires
        books_kept(m, book_a, book_b),
        (c.slot as int) < book_of(book_a, book_b, c.side).len(),
    ensures
        ({
            let (m2, a2, b2) = after_book_call(pool, m, book_a, book_b, c);
            &&& books_kept(m2, a2, b2)
            &&& a2.len() == book_a.len()
            &&& b2.len() == book_b.len()
        }),
{
    let book = book_of(book_a, book_b, c.side);
    let i = c.slot as int;
    if c.side == SIDE_A || c.side == crate::squad::types::SIDE_B {
        assert(books_agree(m, c.side, book));
        if c.deposit {
            if spec_deposit(pool, Some(m), c.side, c.amount, book[i], c.now) is Ok && book[i]
                + c.amount <= i128::MAX && side_pool(m, c.side) + c.amount <= i128::MAX {
                law_deposit_keeps_the_books(pool, m, c.side, c.amount, book, i, c.now);
            }
        } else {
            if spec_withdraw_before_deadline(pool, Some(m), c.side, c.amount, book[i], c.now) is Ok {
                law_withdrawal_keeps_the_books(pool, m, c.side, c.amount, book, i, c.now);
            }
        }
    }
}

proof fn lemma_book_history_keeps_the_books(
    pool: PoolState,
    m: Market,
    book_a: Seq<i128>,
    book_b: Seq<i128>,
    history: Seq<BookCall>,
)
    requires
        books_kept(m, book_a, book_b),
        book_a.len() == book_b.len(),
        forall|k: int| 0 <= k < history.len() ==> (#[trigger] history[k].slot as int) < book_a.len(),
    ensures
        ({
            let (m2, a2, b2) = after_book_history(pool, m, book_a, book_b, history);
            &&& books_kept(m2, a2, b2)
            &&& a2.len() == book_a.len()
            &&& b2.len() == book_b.len()
        }),
    decreases history.len(),
{
    if history.len() > 0 {
        let c = history[0];
        assert((c.slot as int) < book_a.len());
        lemma_book_call_keeps_the_books(pool, m, book_a, book_b, c);
        let (m2, a2, b2) = after_book_call(pool, m, book_a, book_b, c);
        let rest = history.drop_first();
        assert forall|k: int| 0 <= k < rest.len() implies (#[trigger] rest[k].slot as int)
            < a2.len() by {
            assert(rest[k] == history[k + 1]);
        }
        lemma_book_history_keeps_the_books(pool, m2, a2, b2, rest);
    }
}

/// The books hold over every history of deposits and withdrawals from a
/// market's creation: with one entry per depositor on each side, all empty
/// when the market opens, after any sequence of calls (accepted, refused or
/// trapping) each pool equals the sum of the deposits held on its side,
/// each depositor count equals the number of nonempty deposits there and
/// never exceeds [`MAX_PARTICIPANTS_PER_SIDE`], and no deposit is negative.
pub proof fn law_books_hold_over_every_history(
    pool: PoolState,
    captain: soroban_sdk::Address,
    question_len: u32,
    deadline: u64,
    fee_bps: u32,
    created_at: u64,
    depositors_per_side: nat,
    history: Seq<BookCall>,
)
    requires
        spec_create_market(pool, captain, question_len, deadline, fee_bps, created_at) is Ok,
        forall|k: int| 0 <= k < history.len() ==> (#[trigger] history[k].slot as int)
            < depositors_per_side,
    ensures
        ({
            let m = spec_create_market(pool, captain, question_len, deadline, fee_bps, created_at).unwrap().1;
            let empty = Seq::new(depositors_per_side, |i: int| 0i128);
            let (m2, a2, b2) = after_book_history(pool, m, empty, empty, history);
            &&& books_kept(m2, a2, b2)
            &&& a2.len() == depositors_per_side
            &&& b2.len() == depositors_per_side
        }),
{
    let m = spec_create_market(pool, captain, question_len, deadline, fee_bps, created_at).unwrap().1;
    let empty = Seq::new(depositors_per_side, |i: int| 0i128);
    lemma_empty_book(empty);
    assert(books_kept(m, empty, empty));
    lemma_book_history_keeps_the_books(pool, m, empty, empty, history);
}

} // verus!
