//! When each entry point of the pool succeeds, and what it leaves behind,
//! stated from its inputs alone.

use vstd::prelude::*;

use soroban_sdk::Address;

use crate::squad::pool::{
    spec_claim, spec_claim_fees, spec_create_market, spec_deposit, spec_initialize, spec_resolve,
    spec_withdraw_before_deadline,
};
use crate::squad::types::{
    ClaimResult, Error, Market, PoolState, BPS_DIVISOR, MAX_DURATION, MAX_FEE_BPS,
    MAX_PARTICIPANTS_PER_SIDE, MIN_DURATION, RESULT_CANCELLED, SIDE_A, SIDE_B, USDC_DECIMALS,
};

verus! {

/// `initialize` succeeds exactly on a pool never initialised with a token
/// that answers [`USDC_DECIMALS`], and records the three parties.
pub proof fn law_initialize_succeeds_exactly_when_allowed(
    pool: PoolState,
    usdc: Address,
    oracle: Address,
    fee_recipient: Address,
    reported_decimals: Option<u32>,
)
    ensures
        spec_initialize(pool, usdc, oracle, fee_recipient, reported_decimals) is Ok <==> (
        !pool.initialized && reported_decimals == Some(USDC_DECIMALS)),
        spec_initialize(pool, usdc, oracle, fee_recipient, reported_decimals) matches Ok(t) ==> t == (
        PoolState {
            initialized: true,
            usdc: Some(usdc),
            oracle: Some(oracle),
            fee_recipient: Some(fee_recipient),
            market_count: pool.market_count,
            accrued_fees: pool.accrued_fees,
        }),
{
}

/// A market is opened exactly for a nonempty question, a deadline between
/// [`MIN_DURATION`] and [`MAX_DURATION`] after `now` (on a clock that can
/// reach the latter) and a fee of at most [`MAX_FEE_BPS`]. It gets the next
/// number and records exactly the captain, deadline and fee asked for, with
/// both pools empty, no depositor, no verdict and no escrow set aside.
pub proof fn law_create_market_records_what_was_asked(
    pool: PoolState,
    captain: Address,
    question_len: u32,
    deadline: u64,
    fee_bps: u32,
    now: u64,
)
    ensures
        spec_create_market(pool, captain, question_len, deadline, fee_bps, now) is Ok <==> {
            &&& question_len > 0
            &&& now + MAX_DURATION <= u64::MAX
            &&& now + MIN_DURATION <= deadline <= now + MAX_DURATION
            &&& fee_bps <= MAX_FEE_BPS
        },
        spec_create_market(pool, captain, question_len, deadline, fee_bps, now) matches Ok((id, c)) ==> {
            &&& pool.market_count < u64::MAX ==> id == pool.market_count + 1
            &&& c == Market {
                captain,
                deadline,
                fee_bps,
                result: 0,
                resolved: false,
                pool_a: 0,
                pool_b: 0,
                remaining_escrow: 0,
                participants_a: 0,
                participants_b: 0,
                winner_claims: 0,
            }
        },
{
}

/// A deposit is accepted exactly on an existing market that is unresolved
/// and whose deadline has not come, on one of its two sides, of a positive
/// amount, by a depositor that holds a deposit there or finds a free slot,
/// in an initialised pool: right up to the deadline. It adds the amount to
/// the depositor's deposit and to that side's pool, takes a slot only for a
/// first deposit, and changes nothing else.
pub proof fn law_deposit_is_accepted_until_the_deadline(
    pool: PoolState,
    market: Option<Market>,
    side: u32,
    amount: i128,
    previous: i128,
    now: u64,
)
    ensures
        spec_deposit(pool, market, side, amount, previous, now) is Ok <==> {
            &&& market is Some
            &&& !market.unwrap().resolved
            &&& now < market.unwrap().deadline
            &&& (side == SIDE_A || side == SIDE_B)
            &&& amount > 0
            &&& (previous != 0 || (if side == SIDE_A {
                market.unwrap().participants_a
            } else {
                market.unwrap().participants_b
            }) < MAX_PARTICIPANTS_PER_SIDE)
            &&& pool.usdc is Some
        },
        ({
            let m = market.unwrap();
            let first = if previous == 0 {
                1int
            } else {
                0int
            };
            previous + amount <= i128::MAX && m.pool_a + amount <= i128::MAX && m.pool_b + amount
                <= i128::MAX ==> (spec_deposit(pool, market, side, amount, previous, now) matches Ok(
                (m2, balance),
            ) ==> {
                &&& balance == previous + amount
                &&& side == SIDE_A ==> m2 == Market {
                    pool_a: (m.pool_a + amount) as i128,
                    participants_a: (m.participants_a + first) as u32,
                    ..m
                }
                &&& side == SIDE_B ==> m2 == Market {
                    pool_b: (m.pool_b + amount) as i128,
                    participants_b: (m.participants_b + first) as u32,
                    ..m
                }
            })
        }),
{
}

/// A withdrawal is accepted exactly on one of the two sides of an existing,
/// unresolved market whose deadline has not come, of a positive amount no
/// larger than the deposit held, in an initialised pool. It takes the amount
/// off the deposit and off that side's pool, frees the slot only where it
/// empties the deposit, and changes nothing else.
pub proof fn law_withdrawal_is_accepted_until_the_deadline(
    pool: PoolState,
    market: Option<Market>,
    side: u32,
    amount: i128,
    balance: i128,
    now: u64,
)
    ensures
        spec_withdraw_before_deadline(pool, market, side, amount, balance, now) is Ok <==> {
            &&& (side == SIDE_A || side == SIDE_B)
            &&& market is Some
            &&& !market.unwrap().resolved
            &&& now < market.unwrap().deadline
            &&& 0 < amount <= balance
            &&& pool.usdc is Some
        },
        ({
            let m = market.unwrap();
            let emptied = if balance == amount {
                1int
            } else {
                0int
            };
            m.pool_a - amount >= i128::MIN && m.pool_b - amount >= i128::MIN ==> (
            spec_withdraw_before_deadline(pool, market, side, amount, balance, now) matches Ok(
                (m2, left),
            ) ==> {
                &&& left == balance - amount
                &&& side == SIDE_A && (balance == amount ==> m.participants_a > 0) ==> m2 == Market {
                    pool_a: (m.pool_a - amount) as i128,
                    participants_a: (m.participants_a - emptied) as u32,
                    ..m
                }
                &&& side == SIDE_B && (balance == amount ==> m.participants_b > 0) ==> m2 == Market {
                    pool_b: (m.pool_b - amount) as i128,
                    participants_b: (m.participants_b - emptied) as u32,
                    ..m
                }
            })
        }),
{
}

/// A verdict is accepted exactly from an initialised pool, on an existing
/// market that is unresolved and whose deadline has come, where it cancels
/// or names a side whose own pool is positive, whatever the other pool
/// holds. It sets both pools aside as escrow and changes nothing else.
pub proof fn law_resolve_needs_only_the_winning_pool(
    pool: PoolState,
    market: Option<Market>,
    result: u32,
    now: u64,
)
    ensures
        spec_resolve(pool, market, result, now) is Ok <==> {
            &&& pool.oracle is Some
            &&& market is Some
            &&& !market.unwrap().resolved
            &&& now >= market.unwrap().deadline
            &&& (result == RESULT_CANCELLED || (result == SIDE_A && market.unwrap().pool_a > 0) || (
            result == SIDE_B && market.unwrap().pool_b > 0))
        },
        ({
            let m = market.unwrap();
            i128::MIN <= m.pool_a + m.pool_b <= i128::MAX ==> (spec_resolve(pool, market, result, now) matches Ok(
                m2,
            ) ==> m2 == Market {
                resolved: true,
                result,
                remaining_escrow: (m.pool_a + m.pool_b) as i128,
                ..m
            })
        }),
{
}

/// What a claim pays, stated from the market and the deposit. A claim is
/// settled only for one of the two sides of a resolved market, by a caller
/// that has not claimed, holds a positive deposit, and backed the winning
/// side or saw the market cancelled. A cancellation refunds the deposit with
/// no fee; the last winner takes the escrow left; any other winner takes
/// both pools times its deposit over the winning pool, rounded down. The fee
/// is `fee_bps` basis points of the profit over the deposit, rounded down,
/// and the net is what is left. The escrow goes down by the gross, and the
/// count of winners paid goes up by one.
pub proof fn law_claim_pays_the_pro_rata_share(
    pool: PoolState,
    m: Market,
    side: u32,
    principal: i128,
    already_claimed: bool,
)
    requires
        m.pool_a >= 0,
        m.pool_b >= 0,
        m.pool_a + m.pool_b <= i128::MAX,
    ensures
        spec_claim(pool, Some(m), side, principal, already_claimed) is Ok ==> {
            &&& side == SIDE_A || side == SIDE_B
            &&& m.resolved
            &&& !already_claimed
            &&& principal > 0
            &&& (m.result == RESULT_CANCELLED || side == m.result)
            &&& pool.usdc is Some
        },
        already_claimed && (side == SIDE_A || side == SIDE_B) && m.resolved ==> spec_claim(
            pool,
            Some(m),
            side,
            principal,
            already_claimed,
        ) == Err::<(Market, ClaimResult), Error>(Error::AlreadyClaimed),
        m.resolved && m.result == RESULT_CANCELLED && (side == SIDE_A || side == SIDE_B)
            && !already_claimed && principal > 0 && pool.usdc is Some && m.remaining_escrow
            - principal >= i128::MIN ==> spec_claim(pool, Some(m), side, principal, already_claimed)
            == Ok::<(Market, ClaimResult), Error>(
            (
                Market { remaining_escrow: (m.remaining_escrow - principal) as i128, ..m },
                ClaimResult { gross: principal, fee: 0, net: principal },
            ),
        ),
        ({
            let total = m.pool_a + m.pool_b;
            let winning = if m.result == SIDE_A {
                m.pool_a
            } else {
                m.pool_b
            };
            let count = if m.result == SIDE_A {
                m.participants_a
            } else {
                m.participants_b
            };
            let last = m.winner_claims + 1 == count;
            let gross: int = if last {
                m.remaining_escrow as int
            } else {
                (total * principal) / (winning as int)
            };
            let profit: int = if gross > principal {
                gross - principal
            } else {
                0
            };
            let fee: int = (profit * m.fee_bps) / BPS_DIVISOR as int;
            m.resolved && (m.result == SIDE_A || m.result == SIDE_B) && side == m.result
                && !already_claimed && principal > 0 && pool.usdc is Some && winning > 0
                && m.winner_claims < u32::MAX && (!last ==> total * principal <= i128::MAX)
                && profit * m.fee_bps <= i128::MAX && i128::MIN <= gross - fee <= i128::MAX
                && i128::MIN <= m.remaining_escrow - gross ==> spec_claim(
                pool,
                Some(m),
                side,
                principal,
                already_claimed,
            ) == Ok::<(Market, ClaimResult), Error>(
                (
                    Market {
                        remaining_escrow: (m.remaining_escrow - gross) as i128,
                        winner_claims: (m.winner_claims + 1) as u32,
                        ..m
                    },
                    ClaimResult { gross: gross as i128, fee: fee as i128, net: (gross - fee) as i128 },
                ),
            )
        }),
{
    let total = m.pool_a + m.pool_b;
    let winning = if m.result == SIDE_A {
        m.pool_a
    } else {
        m.pool_b
    };
    if winning > 0 && principal > 0 {
        crate::arith::lemma_trunc_div_nonneg(total * principal, winning as int);
        assert(total * principal >= 0) by (nonlinear_arith)
            requires
                total >= 0,
                principal > 0,
        ;
    }
}

/// Collecting fees succeeds exactly in a pool with a fee recipient, fees
/// accrued and an escrow token, and hands over every fee accrued.
pub proof fn law_claim_fees_hands_over_everything_accrued(pool: PoolState)
    ensures
        spec_claim_fees(pool) is Ok <==> (pool.fee_recipient is Some && pool.accrued_fees > 0
            && pool.usdc is Some),
        spec_claim_fees(pool) matches Ok(amount) ==> amount == pool.accrued_fees,
{
}

} // verus!
