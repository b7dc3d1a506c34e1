//! Market lifecycle of the squad pool: create, deposit, withdraw, resolve,
//! claim.
//!
//! Each entry point is a function of the records it reads: the pool-wide
//! record, the market named by the call (`None` where no market has that
//! id), the caller's own deposit on a side and whether that deposit was
//! already settled, and the ledger time `now`. It returns what the entry
//! point answers together with the records to store. An error stores
//! nothing.

use vstd::prelude::*;

use soroban_sdk::Address;

use crate::arith::{lemma_trunc_div_fits, trunc_div};
use crate::squad::types::{
    ClaimResult, Error, Market, PoolState, BPS_DIVISOR, MAX_DURATION, MAX_FEE_BPS,
    MAX_PARTICIPANTS_PER_SIDE, MIN_DURATION, RESULT_CANCELLED, SIDE_A, SIDE_B, USDC_DECIMALS,
};

verus! {

/// `side` names one of the two sides of a market.
pub open spec fn is_side(side: u32) -> bool {
    side == SIDE_A || side == SIDE_B
}

/// The pool of `side` ([`SIDE_A`], else the other one).
pub open spec fn side_pool(m: Market, side: u32) -> i128 {
    if side == SIDE_A {
        m.pool_a
    } else {
        m.pool_b
    }
}

/// The number of depositors on `side` ([`SIDE_A`], else the other one).
pub open spec fn side_count(m: Market, side: u32) -> u32 {
    if side == SIDE_A {
        m.participants_a
    } else {
        m.participants_b
    }
}

/// `m` with the pool and the depositor count of `side` replaced.
pub open spec fn with_side(m: Market, side: u32, pool: i128, count: u32) -> Market {
    if side == SIDE_A {
        Market { pool_a: pool, participants_a: count, ..m }
    } else {
        Market { pool_b: pool, participants_b: count, ..m }
    }
}

/// The pool of the side a resolved market named.
pub open spec fn winner_pool(m: Market) -> i128 {
    side_pool(m, m.result)
}

/// The number of depositors on the side a resolved market named.
pub open spec fn winner_count(m: Market) -> u32 {
    side_count(m, m.result)
}

/// The market both pools of which are still empty.
pub open spec fn new_market(captain: Address, deadline: u64, fee_bps: u32) -> Market {
    Market {
        captain,
        deadline,
        fee_bps,
        result: 0,
        resolved: false,
        pool_a: 0,
        pool_b: 0,
        remaining_escrow: 0,
        participants_a: 0,
        participants_b: 0,
        winner_claims: 0,
    }
}

/// What a claim of `principal` is worth before fees, or `None` where the
/// pro-rata share overflows. A cancellation refunds the principal; the last
/// winner to claim takes whatever escrow remains; any other winner takes
/// both pools times `principal` over the winning pool, rounded toward zero.
pub open spec fn claim_gross(m: Market, principal: i128) -> Option<int> {
    if m.result == RESULT_CANCELLED {
        Some(principal as int)
    } else if m.winner_claims + 1 == winner_count(m) {
        Some(m.remaining_escrow as int)
    } else {
        let product = (m.pool_a + m.pool_b) * principal;
        if product < i128::MIN || product > i128::MAX {
            None
        } else {
            Some(trunc_div(product, winner_pool(m) as int))
        }
    }
}

/// What part of `gross` is profit over `principal`.
pub open spec fn profit_of(gross: int, principal: int) -> int {
    if gross > principal {
        gross - principal
    } else {
        0
    }
}

/// The fee on a claim worth `gross`: `fee_bps` basis points of the profit,
/// rounded down; nothing on a refund; `None` where the product overflows.
pub open spec fn claim_fee(m: Market, principal: i128, gross: int) -> Option<int> {
    if m.result == RESULT_CANCELLED {
        Some(0)
    } else {
        let p = profit_of(gross, principal as int) * m.fee_bps;
        if p > i128::MAX {
            None
        } else {
            Some(p / BPS_DIVISOR as int)
        }
    }
}

pub open spec fn spec_initialize(
    pool: PoolState,
    usdc: Address,
    oracle: Address,
    fee_recipient: Address,
    reported_decimals: Option<u32>,
) -> Result<PoolState, Error> {
    if pool.initialized {
        Err(Error::AlreadyInitialized)
    } else if reported_decimals is None {
        Err(Error::UnsupportedToken)
    } else if reported_decimals.unwrap() != USDC_DECIMALS {
        Err(Error::UnsupportedDecimals)
    } else {
        Ok(
            PoolState {
                initialized: true,
                usdc: Some(usdc),
                oracle: Some(oracle),
                fee_recipient: Some(fee_recipient),
                ..pool
            },
        )
    }
}

/// Why a market is refused, if it is: an empty question, a clock too close
/// to its end, a deadline outside the allowed window or a fee above the cap.
pub open spec fn create_market_error(question_len: u32, deadline: u64, fee_bps: u32, now: u64) -> Option<
    Error,
> {
    if question_len == 0 {
        Some(Error::EmptyQuestion)
    } else if now + MAX_DURATION > u64::MAX {
        Some(Error::Overflow)
    } else if deadline < now + MIN_DURATION || deadline > now + MAX_DURATION {
        Some(Error::BadDeadline)
    } else if fee_bps > MAX_FEE_BPS {
        Some(Error::FeeCapExceeded)
    } else {
        None
    }
}

pub open spec fn spec_create_market(
    pool: PoolState,
    captain: Address,
    question_len: u32,
    deadline: u64,
    fee_bps: u32,
    now: u64,
) -> Result<(u64, Market), Error> {
    match create_market_error(question_len, deadline, fee_bps, now) {
        Some(e) => Err(e),
        None => Ok(((pool.market_count + 1) as u64, new_market(captain, deadline, fee_bps))),
    }
}

pub open spec fn spec_deposit(
    pool: PoolState,
    market: Option<Market>,
    side: u32,
    amount: i128,
    previous: i128,
    now: u64,
) -> Result<(Market, i128), Error> {
    match market {
        None => Err(Error::MarketNotFound),
        Some(m) => if m.resolved || now >= m.deadline {
            Err(Error::MarketClosed)
        } else if !is_side(side) {
            Err(Error::BadSide)
        } else if amount <= 0 {
            Err(Error::ZeroAmount)
        } else if previous == 0 && side_count(m, side) >= MAX_PARTICIPANTS_PER_SIDE {
            Err(Error::SideFull)
        } else if pool.usdc is None {
            Err(Error::NotInitialized)
        } else {
            let count = if previous == 0 {
                (side_count(m, side) + 1) as u32
            } else {
                side_count(m, side)
            };
            Ok(
                (
                    with_side(m, side, (side_pool(m, side) + amount) as i128, count),
                    (previous + amount) as i128,
                ),
            )
        },
    }
}

pub open spec fn spec_withdraw_before_deadline(
    pool: PoolState,
    market: Option<Market>,
    side: u32,
    amount: i128,
    balance: i128,
    now: u64,
) -> Result<(Market, i128), Error> {
    if !is_side(side) {
        Err(Error::BadSide)
    } else {
        match market {
            None => Err(Error::MarketNotFound),
            Some(m) => if m.resolved || now >= m.deadline {
                Err(Error::Locked)
            } else if amount <= 0 || amount > balance {
                Err(Error::BadAmount)
            } else if pool.usdc is None {
                Err(Error::NotInitialized)
            } else {
                let next = balance - amount;
                let count = if next == 0 {
                    (side_count(m, side) - 1) as u32
                } else {
                    side_count(m, side)
                };
                Ok((with_side(m, side, (side_pool(m, side) - amount) as i128, count), next as i128))
            },
        }
    }
}

pub open spec fn spec_resolve(pool: PoolState, market: Option<Market>, result: u32, now: u64) -> Result<
    Market,
    Error,
> {
    if pool.oracle is None {
        Err(Error::NotInitialized)
    } else {
        match market {
            None => Err(Error::MarketNotFound),
            Some(m) => if m.resolved || now < m.deadline {
                Err(Error::NotResolvable)
            } else if result != SIDE_A && result != SIDE_B && result != RESULT_CANCELLED {
                Err(Error::BadResult)
            } else if result != RESULT_CANCELLED && side_pool(m, result) <= 0 {
                Err(Error::EmptyWinner)
            } else {
                Ok(
                    Market {
                        resolved: true,
                        result,
                        remaining_escrow: (m.pool_a + m.pool_b) as i128,
                        ..m
                    },
                )
            },
        }
    }
}

/// A claim on `side` of `market` gets past every refusal and reaches the
/// computation of its split.
pub open spec fn claim_reaches_split(
    market: Option<Market>,
    side: u32,
    principal: i128,
    already_claimed: bool,
) -> bool {
    &&& is_side(side)
    &&& market is Some
    &&& market.unwrap().resolved
    &&& !already_claimed
    &&& principal > 0
    &&& (market.unwrap().result == RESULT_CANCELLED || side == market.unwrap().result)
}

pub open spec fn spec_claim(
    pool: PoolState,
    market: Option<Market>,
    side: u32,
    principal: i128,
    already_claimed: bool,
) -> Result<(Market, ClaimResult), Error> {
    if !is_side(side) {
        Err(Error::BadSide)
    } else {
        match market {
            None => Err(Error::MarketNotFound),
            Some(m) => if !m.resolved {
                Err(Error::NotClaimable)
            } else if already_claimed {
                Err(Error::AlreadyClaimed)
            } else if principal <= 0 {
                Err(Error::NotWinner)
            } else if m.result != RESULT_CANCELLED && side != m.result {
                Err(Error::NotWinner)
            } else {
                match claim_gross(m, principal) {
                    None => Err(Error::Overflow),
                    Some(g) => match claim_fee(m, principal, g) {
                        None => Err(Error::Overflow),
                        Some(f) => if pool.usdc is None {
                            Err(Error::NotInitialized)
                        } else {
                            Ok(
                                (
                                    Market {
                                        remaining_escrow: (m.remaining_escrow - g) as i128,
                                        winner_claims: if m.result == RESULT_CANCELLED {
                                            m.winner_claims
                                        } else {
                                            (m.winner_claims + 1) as u32
                                        },
                                        ..m
                                    },
                                    ClaimResult {
                                        gross: g as i128,
                                        fee: f as i128,
                                        net: (g - f) as i128,
                                    },
                                ),
                            )
                        },
                    },
                }
            },
        }
    }
}

/// Computing the split of a claim of `principal` on `m` stays within machine
/// integers: the claim counter, both pools together, the quotient and the
/// net amount.
pub open spec fn split_fits(m: Market, principal: i128) -> bool {
    &&& (m.result != RESULT_CANCELLED ==> m.winner_claims < u32::MAX)
    &&& (m.result != RESULT_CANCELLED && m.winner_claims + 1 != winner_count(m) ==> {
        &&& i128::MIN <= m.pool_a + m.pool_b <= i128::MAX
        &&& (i128::MIN <= (m.pool_a + m.pool_b) * principal <= i128::MAX ==> {
            &&& winner_pool(m) != 0
            &&& !((m.pool_a + m.pool_b) * principal == i128::MIN && winner_pool(m) == -1)
        })
    })
    &&& (claim_gross(m, principal) matches Some(g) ==> (claim_fee(m, principal, g) matches Some(
        f,
    ) ==> i128::MIN <= g - f <= i128::MAX))
}

/// Settling a claim of `principal` on `m` stays within machine integers:
/// its split, the escrow left and the fees accrued (`accrued`).
pub open spec fn claim_fits(m: Market, principal: i128, accrued: i128) -> bool {
    &&& split_fits(m, principal)
    &&& (claim_gross(m, principal) matches Some(g) ==> (claim_fee(m, principal, g) matches Some(
        f,
    ) ==> {
        &&& i128::MIN <= m.remaining_escrow - g <= i128::MAX
        &&& i128::MIN <= accrued + f <= i128::MAX
    }))
}

pub open spec fn spec_preview_claim(market: Option<Market>, side: u32, principal: i128) -> Result<
    ClaimResult,
    Error,
> {
    match market {
        None => Err(Error::MarketNotFound),
        Some(m) => if !m.resolved || principal <= 0 {
            Ok(ClaimResult { gross: 0, fee: 0, net: 0 })
        } else if m.result != RESULT_CANCELLED && side != m.result {
            Ok(ClaimResult { gross: 0, fee: 0, net: 0 })
        } else {
            match claim_gross(m, principal) {
                None => Err(Error::Overflow),
                Some(g) => match claim_fee(m, principal, g) {
                    None => Err(Error::Overflow),
                    Some(f) => Ok(ClaimResult { gross: g as i128, fee: f as i128, net: (g - f) as i128 }),
                },
            }
        },
    }
}

pub open spec fn spec_claim_fees(pool: PoolState) -> Result<i128, Error> {
    if pool.fee_recipient is None {
        Err(Error::NotInitialized)
    } else if pool.accrued_fees <= 0 {
        Err(Error::NoFees)
    } else if pool.usdc is None {
        Err(Error::NotInitialized)
    } else {
        Ok(pool.accrued_fees)
    }
}

/// Accepts exactly the two sides of a market.
pub fn require_side(side: u32) -> (r: Result<(), Error>)
    ensures
        r == (if is_side(side) {
            Ok::<(), Error>(())
        } else {
            Err(Error::BadSide)
        }),
{
    if side != SIDE_A && side != SIDE_B {
        return Err(Error::BadSide);
    }
    Ok(())
}

/// Accepts an escrow token whose `decimals()` answered exactly
/// [`USDC_DECIMALS`]; `reported_decimals` is `None` where it could not answer.
pub fn require_usdc_decimals(reported_decimals: Option<u32>) -> (r: Result<(), Error>)
    ensures
        r == (match reported_decimals {
            None => Err(Error::UnsupportedToken),
            Some(d) => if d == USDC_DECIMALS {
                Ok::<(), Error>(())
            } else {
                Err(Error::UnsupportedDecimals)
            },
        }),
{
    match reported_decimals {
        None => Err(Error::UnsupportedToken),
        Some(d) => if d == USDC_DECIMALS {
            Ok(())
        } else {
            Err(Error::UnsupportedDecimals)
        },
    }
}

/// Accepts a stake transfer only where the escrow balance moved from
/// `before` to `after` by exactly the `amount` requested; a token that
/// credits more or less is refused.
pub fn require_exact_intake(before: i128, after: i128, amount: i128) -> (r: Result<(), Error>)
    ensures
        r == (if after - before == amount {
            Ok::<(), Error>(())
        } else {
            Err(Error::UnsupportedToken)
        }),
{
    match after.checked_sub(before) {
        Some(delta) => if delta == amount {
            Ok(())
        } else {
            Err(Error::UnsupportedToken)
        },
        None => Err(Error::UnsupportedToken),
    }
}

/// The escrow token.
pub fn get_usdc(pool: &PoolState) -> (r: Result<&Address, Error>)
    ensures
        match r {
            Ok(t) => pool.usdc == Some(*t),
            Err(e) => pool.usdc is None && e == Error::NotInitialized,
        },
{
    match &pool.usdc {
        Some(t) => Ok(t),
        None => Err(Error::NotInitialized),
    }
}

/// The oracle, whose authorisation `resolve` needs.
pub fn require_oracle(pool: &PoolState) -> (r: Result<&Address, Error>)
    ensures
        match r {
            Ok(o) => pool.oracle == Some(*o),
            Err(e) => pool.oracle is None && e == Error::NotInitialized,
        },
{
    match &pool.oracle {
        Some(o) => Ok(o),
        None => Err(Error::NotInitialized),
    }
}

/// The fee recipient, whose authorisation `claim_fees` needs.
pub fn require_fee_recipient(pool: &PoolState) -> (r: Result<&Address, Error>)
    ensures
        match r {
            Ok(o) => pool.fee_recipient == Some(*o),
            Err(e) => pool.fee_recipient is None && e == Error::NotInitialized,
        },
{
    match &pool.fee_recipient {
        Some(o) => Ok(o),
        None => Err(Error::NotInitialized),
    }
}

/// One-time initialisation with the escrow token, the oracle and the fee
/// recipient. `reported_decimals` is what the token's `decimals()` answered.
pub fn initialize(
    pool: &mut PoolState,
    usdc: Address,
    oracle: Address,
    fee_recipient: Address,
    reported_decimals: Option<u32>,
) -> (r: Result<(), Error>)
    ensures
        match spec_initialize(*old(pool), usdc, oracle, fee_recipient, reported_decimals) {
            Ok(s) => r is Ok && *final(pool) == s,
            Err(e) => r == Err::<(), Error>(e) && *final(pool) == *old(pool),
        },
{
    if pool.initialized {
        return Err(Error::AlreadyInitialized);
    }
    require_usdc_decimals(reported_decimals)?;
    pool.initialized = true;
    pool.usdc = Some(usdc);
    pool.oracle = Some(oracle);
    pool.fee_recipient = Some(fee_recipient);
    Ok(())
}

/// Opens market number `market_count + 1` for `captain`, with a deadline
/// between [`MIN_DURATION`] and [`MAX_DURATION`] after `now` and a fee of at
/// most [`MAX_FEE_BPS`]. `question_len` is the length of its question.
pub fn create_market(
    pool: &mut PoolState,
    captain: Address,
    question_len: u32,
    deadline: u64,
    fee_bps: u32,
    now: u64,
) -> (r: Result<(u64, Market), Error>)
    requires
        create_market_error(question_len, deadline, fee_bps, now) is None
            ==> old(pool).market_count < u64::MAX,
    ensures
        match spec_create_market(*old(pool), captain, question_len, deadline, fee_bps, now) {
            Ok(v) => r == Ok::<(u64, Market), Error>(v) && *final(pool) == (PoolState {
                market_count: v.0,
                ..*old(pool)
            }),
            Err(e) => r == Err::<(u64, Market), Error>(e) && *final(pool) == *old(pool),
        },
{
    if question_len == 0 {
        return Err(Error::EmptyQuestion);
    }
    let earliest = match now.checked_add(MIN_DURATION) {
        Some(t) => t,
        None => return Err(Error::Overflow),
    };
    let latest = match now.checked_add(MAX_DURATION) {
        Some(t) => t,
        None => return Err(Error::Overflow),
    };
    if deadline < earliest || deadline > latest {
        return Err(Error::BadDeadline);
    }
    if fee_bps > MAX_FEE_BPS {
        return Err(Error::FeeCapExceeded);
    }
    let id = pool.market_count + 1;
    pool.market_count = id;
    let market = Market {
        captain,
        deadline,
        fee_bps,
        result: 0,
        resolved: false,
        pool_a: 0,
        pool_b: 0,
        remaining_escrow: 0,
        participants_a: 0,
        participants_b: 0,
        winner_claims: 0,
    };
    Ok((id, market))
}

/// Whether opening a market stays within machine integers: the market
/// counter can still count one more where the market is accepted.
pub fn create_market_in_range(
    pool: &PoolState,
    question_len: u32,
    deadline: u64,
    fee_bps: u32,
    now: u64,
) -> (b: bool)
    ensures
        b == (create_market_error(question_len, deadline, fee_bps, now) is None
            ==> pool.market_count < u64::MAX),
{
    let accepted = question_len != 0 && match now.checked_add(MAX_DURATION) {
        Some(latest) => deadline >= now + MIN_DURATION && deadline <= latest && fee_bps
            <= MAX_FEE_BPS,
        None => false,
    };
    !accepted || pool.market_count < u64::MAX
}

/// Whether a deposit stays within machine integers where it is accepted:
/// the caller's new deposit and the side's new pool.
pub fn deposit_in_range(
    pool: &PoolState,
    market: &Option<Market>,
    side: u32,
    amount: i128,
    previous: i128,
    now: u64,
) -> (b: bool)
    ensures
        b == (spec_deposit(*pool, *market, side, amount, previous, now) is Ok ==> {
            &&& previous + amount <= i128::MAX
            &&& side_pool(market.unwrap(), side) + amount <= i128::MAX
        }),
{
    let m = match market {
        Some(m) => m,
        None => return true,
    };
    let count = if side == SIDE_A {
        m.participants_a
    } else {
        m.participants_b
    };
    if m.resolved || now >= m.deadline || (side != SIDE_A && side != SIDE_B) || amount <= 0 || (
    previous == 0 && count >= MAX_PARTICIPANTS_PER_SIDE) || pool.usdc.is_none() {
        return true;
    }
    let side_pool = if side == SIDE_A {
        m.pool_a
    } else {
        m.pool_b
    };
    previous.checked_add(amount).is_some() && side_pool.checked_add(amount).is_some()
}

/// Whether a withdrawal stays within machine integers where it is
/// accepted: the side's new pool, and its depositor count where the
/// withdrawal empties a deposit.
pub fn withdraw_in_range(
    pool: &PoolState,
    market: &Option<Market>,
    side: u32,
    amount: i128,
    balance: i128,
    now: u64,
) -> (b: bool)
    ensures
        b == (spec_withdraw_before_deadline(*pool, *market, side, amount, balance, now) is Ok ==> {
            &&& side_pool(market.unwrap(), side) - amount >= i128::MIN
            &&& (balance == amount ==> side_count(market.unwrap(), side) > 0)
        }),
{
    let m = match market {
        Some(m) => m,
        None => return true,
    };
    if (side != SIDE_A && side != SIDE_B) || m.resolved || now >= m.deadline || amount <= 0
        || amount > balance || pool.usdc.is_none() {
        return true;
    }
    let (side_pool, count) = if side == SIDE_A {
        (m.pool_a, m.participants_a)
    } else {
        (m.pool_b, m.participants_b)
    };
    side_pool.checked_sub(amount).is_some() && (balance != amount || count > 0)
}

/// Whether a resolution stays within machine integers where it is
/// accepted: both pools together.
pub fn resolve_in_range(pool: &PoolState, market: &Option<Market>, result: u32, now: u64) -> (b:
    bool)
    ensures
        b == (spec_resolve(*pool, *market, result, now) is Ok ==> i128::MIN <= market.unwrap().pool_a
            + market.unwrap().pool_b <= i128::MAX),
{
    let m = match market {
        Some(m) => m,
        None => return true,
    };
    if pool.oracle.is_none() || m.resolved || now < m.deadline {
        return true;
    }
    if result != SIDE_A && result != SIDE_B && result != RESULT_CANCELLED {
        return true;
    }
    if result != RESULT_CANCELLED {
        let winner_pool = if result == SIDE_A {
            m.pool_a
        } else {
            m.pool_b
        };
        if winner_pool <= 0 {
            return true;
        }
    }
    m.pool_a.checked_add(m.pool_b).is_some()
}

/// Adds `amount` to the caller's deposit `previous` on `side` of an open
/// market; returns the market and the deposit to store. A first deposit on a
/// side takes one of its [`MAX_PARTICIPANTS_PER_SIDE`] slots; topping up does
/// not.
pub fn deposit(
    pool: &PoolState,
    market: Option<Market>,
    side: u32,
    amount: i128,
    previous: i128,
    now: u64,
) -> (r: Result<(Market, i128), Error>)
    requires
        spec_deposit(*pool, market, side, amount, previous, now) is Ok ==> {
            &&& previous + amount <= i128::MAX
            &&& side_pool(market.unwrap(), side) + amount <= i128::MAX
        },
    ensures
        r == spec_deposit(*pool, market, side, amount, previous, now),
{
    let mut market = match market {
        Some(m) => m,
        None => return Err(Error::MarketNotFound),
    };
    if market.resolved || now >= market.deadline {
        return Err(Error::MarketClosed);
    }
    require_side(side)?;
    if amount <= 0 {
        return Err(Error::ZeroAmount);
    }
    if previous == 0 {
        let count = if side == SIDE_A {
            market.participants_a
        } else {
            market.participants_b
        };
        if count >= MAX_PARTICIPANTS_PER_SIDE {
            return Err(Error::SideFull);
        }
        if side == SIDE_A {
            market.participants_a = market.participants_a + 1;
        } else {
            market.participants_b = market.participants_b + 1;
        }
    }
    if pool.usdc.is_none() {
        return Err(Error::NotInitialized);
    }
    let balance = previous + amount;
    if side == SIDE_A {
        market.pool_a = market.pool_a + amount;
    } else {
        market.pool_b = market.pool_b + amount;
    }
    Ok((market, balance))
}

/// Takes `amount` back out of the caller's deposit `balance` on `side` while
/// the market is open; returns the market and the deposit to store. Emptying
/// the deposit frees its slot.
pub fn withdraw_before_deadline(
    pool: &PoolState,
    market: Option<Market>,
    side: u32,
    amount: i128,
    balance: i128,
    now: u64,
) -> (r: Result<(Market, i128), Error>)
    requires
        spec_withdraw_before_deadline(*pool, market, side, amount, balance, now) is Ok ==> {
            &&& side_pool(market.unwrap(), side) - amount >= i128::MIN
            &&& (balance == amount ==> side_count(market.unwrap(), side) > 0)
        },
    ensures
        r == spec_withdraw_before_deadline(*pool, market, side, amount, balance, now),
{
    require_side(side)?;
    let mut market = match market {
        Some(m) => m,
        None => return Err(Error::MarketNotFound),
    };
    if market.resolved || now >= market.deadline {
        return Err(Error::Locked);
    }
    if amount <= 0 || amount > balance {
        return Err(Error::BadAmount);
    }
    if pool.usdc.is_none() {
        return Err(Error::NotInitialized);
    }
    let next = balance - amount;
    if side == SIDE_A {
        market.pool_a = market.pool_a - amount;
        if next == 0 {
            market.participants_a = market.participants_a - 1;
        }
    } else {
        market.pool_b = market.pool_b - amount;
        if next == 0 {
            market.participants_b = market.participants_b - 1;
        }
    }
    Ok((market, next))
}

/// The oracle's verdict once the deadline has passed: a winning side with a
/// nonempty pool, or a cancellation. Seeds the escrow owed to claimants with
/// both pools.
pub fn resolve(pool: &PoolState, market: Option<Market>, result: u32, now: u64) -> (r: Result<
    Market,
    Error,
>)
    requires
        spec_resolve(*pool, market, result, now) is Ok ==> i128::MIN <= market.unwrap().pool_a
            + market.unwrap().pool_b <= i128::MAX,
    ensures
        r == spec_resolve(*pool, market, result, now),
{
    if pool.oracle.is_none() {
        return Err(Error::NotInitialized);
    }
    let mut market = match market {
        Some(m) => m,
        None => return Err(Error::MarketNotFound),
    };
    if market.resolved || now < market.deadline {
        return Err(Error::NotResolvable);
    }
    if result != SIDE_A && result != SIDE_B && result != RESULT_CANCELLED {
        return Err(Error::BadResult);
    }
    if result != RESULT_CANCELLED {
        let winner_pool = if result == SIDE_A {
            market.pool_a
        } else {
            market.pool_b
        };
        if winner_pool <= 0 {
            return Err(Error::EmptyWinner);
        }
    }
    market.resolved = true;
    market.result = result;
    market.remaining_escrow = market.pool_a + market.pool_b;
    Ok(market)
}

/// The split of a claim on a resolved market, shared by `claim` and
/// `preview_claim`.
fn split(m: &Market, principal: i128) -> (r: Result<ClaimResult, Error>)
    requires
        m.resolved,
        principal > 0,
        split_fits(*m, principal),
    ensures
        r matches Ok(c) ==> {
            &&& c.gross as int == claim_gross(*m, principal).unwrap()
            &&& c.fee as int == claim_fee(*m, principal, c.gross as int).unwrap()
            &&& c.net == c.gross - c.fee
        },
        match claim_gross(*m, principal) {
            None => r == Err::<ClaimResult, Error>(Error::Overflow),
            Some(g) => match claim_fee(*m, principal, g) {
                None => r == Err::<ClaimResult, Error>(Error::Overflow),
                Some(f) => r == Ok::<ClaimResult, Error>(
                    ClaimResult { gross: g as i128, fee: f as i128, net: (g - f) as i128 },
                ),
            },
        },
{
    if m.result == RESULT_CANCELLED {
        return Ok(ClaimResult { gross: principal, fee: 0, net: principal });
    }
    let winner_pool = if m.result == SIDE_A {
        m.pool_a
    } else {
        m.pool_b
    };
    let winner_count = if m.result == SIDE_A {
        m.participants_a
    } else {
        m.participants_b
    };
    let gross = if m.winner_claims + 1 == winner_count {
        m.remaining_escrow
    } else {
        let total = m.pool_a + m.pool_b;
        let product = match total.checked_mul(principal) {
            Some(p) => p,
            None => return Err(Error::Overflow),
        };
        proof {
            lemma_trunc_div_fits(product, winner_pool);
        }
        match product.checked_div(winner_pool) {
            Some(q) => q,
            None => return Err(Error::Overflow),
        }
    };
    let profit = if gross > principal {
        gross - principal
    } else {
        0
    };
    let fee = match profit.checked_mul(m.fee_bps as i128) {
        Some(p) => p / BPS_DIVISOR,
        None => return Err(Error::Overflow),
    };
    Ok(ClaimResult { gross, fee, net: gross - fee })
}

/// Whether computing the split of a claim of `principal` on `m` stays within
/// machine integers, where it would otherwise trap.
pub fn split_in_range(m: &Market, principal: i128) -> (b: bool)
    requires
        m.resolved,
        principal > 0,
    ensures
        b == split_fits(*m, principal),
{
    if m.result == RESULT_CANCELLED {
        return true;
    }
    if m.winner_claims == u32::MAX {
        return false;
    }
    let winner_pool = if m.result == SIDE_A {
        m.pool_a
    } else {
        m.pool_b
    };
    let winner_count = if m.result == SIDE_A {
        m.participants_a
    } else {
        m.participants_b
    };
    let gross = if m.winner_claims + 1 == winner_count {
        m.remaining_escrow
    } else {
        let total = match m.pool_a.checked_add(m.pool_b) {
            Some(t) => t,
            None => return false,
        };
        let product = match total.checked_mul(principal) {
            Some(p) => p,
            None => return true,
        };
        if winner_pool == 0 || (product == i128::MIN && winner_pool == -1) {
            return false;
        }
        proof {
            lemma_trunc_div_fits(product, winner_pool);
        }
        match product.checked_div(winner_pool) {
            Some(q) => q,
            None => return true,
        }
    };
    let profit = if gross > principal {
        gross - principal
    } else {
        0
    };
    let fee = match profit.checked_mul(m.fee_bps as i128) {
        Some(p) => p / BPS_DIVISOR,
        None => return true,
    };
    gross.checked_sub(fee).is_some()
}

/// Whether settling a claim stays within machine integers, where the
/// settlement would otherwise trap: `true` also where the claim is refused
/// before its split is computed.
pub fn claim_in_range(
    pool: &PoolState,
    market: &Option<Market>,
    side: u32,
    principal: i128,
    already_claimed: bool,
) -> (b: bool)
    ensures
        b == (claim_reaches_split(*market, side, principal, already_claimed) ==> claim_fits(
            market.unwrap(),
            principal,
            pool.accrued_fees,
        )),
{
    let m = match market {
        Some(m) => m,
        None => return true,
    };
    if side != SIDE_A && side != SIDE_B || !m.resolved || already_claimed || principal <= 0 || (
    m.result != RESULT_CANCELLED && side != m.result) {
        return true;
    }
    if !split_in_range(m, principal) {
        return false;
    }
    match split(m, principal) {
        Err(_) => true,
        Ok(c) => m.remaining_escrow.checked_sub(c.gross).is_some() && pool.accrued_fees.checked_add(
            c.fee,
        ).is_some(),
    }
}

/// Whether previewing a claim stays within machine integers, where the
/// preview would otherwise trap.
pub fn preview_in_range(market: &Option<Market>, side: u32, principal: i128) -> (b: bool)
    ensures
        b == (market is Some && market.unwrap().resolved && principal > 0 && (market.unwrap().result
            == RESULT_CANCELLED || side == market.unwrap().result) ==> split_fits(
            market.unwrap(),
            principal,
        )),
{
    match market {
        Some(m) => if m.resolved && principal > 0 && (m.result == RESULT_CANCELLED || side
            == m.result) {
            split_in_range(m, principal)
        } else {
            true
        },
        None => true,
    }
}

/// Settles the caller's deposit `principal` on `side` of a resolved market:
/// a refund on a cancellation, else a pro-rata share of both pools for the
/// winning side, the last winner taking whatever escrow remains. Fees are
/// charged on profit only and accrue to the pool. Returns the market to
/// store, the split and the caller's settled record to store (set: the
/// position is paid once); the caller is paid its net.
pub fn claim(
    pool: &mut PoolState,
    market: Option<Market>,
    side: u32,
    principal: i128,
    already_claimed: bool,
) -> (r: Result<(Market, ClaimResult, bool), Error>)
    requires
        claim_reaches_split(market, side, principal, already_claimed) ==> claim_fits(
            market.unwrap(),
            principal,
            old(pool).accrued_fees,
        ),
    ensures
        match spec_claim(*old(pool), market, side, principal, already_claimed) {
            Ok((m, c)) => r == Ok::<(Market, ClaimResult, bool), Error>((m, c, true))
                && *final(pool) == (PoolState {
                accrued_fees: (old(pool).accrued_fees + c.fee) as i128,
                ..*old(pool)
            }),
            Err(e) => r == Err::<(Market, ClaimResult, bool), Error>(e) && *final(pool) == *old(pool),
        },
{
    require_side(side)?;
    let mut market = match market {
        Some(m) => m,
        None => return Err(Error::MarketNotFound),
    };
    if !market.resolved {
        return Err(Error::NotClaimable);
    }
    if already_claimed {
        return Err(Error::AlreadyClaimed);
    }
    if principal <= 0 {
        return Err(Error::NotWinner);
    }
    if market.result != RESULT_CANCELLED && side != market.result {
        return Err(Error::NotWinner);
    }
    let split = split(&market, principal)?;
    if pool.usdc.is_none() {
        return Err(Error::NotInitialized);
    }
    if market.result != RESULT_CANCELLED {
        market.winner_claims = market.winner_claims + 1;
    }
    market.remaining_escrow = market.remaining_escrow - split.gross;
    pool.accrued_fees = pool.accrued_fees + split.fee;
    Ok((market, split, true))
}

/// Hands the recipient every fee accrued so far; returns the amount.
pub fn claim_fees(pool: &mut PoolState) -> (r: Result<i128, Error>)
    ensures
        match spec_claim_fees(*old(pool)) {
            Ok(amount) => r == Ok::<i128, Error>(amount) && *final(pool) == (PoolState {
                accrued_fees: 0,
                ..*old(pool)
            }),
            Err(e) => r == Err::<i128, Error>(e) && *final(pool) == *old(pool),
        },
{
    if pool.fee_recipient.is_none() {
        return Err(Error::NotInitialized);
    }
    let amount = pool.accrued_fees;
    if amount <= 0 {
        return Err(Error::NoFees);
    }
    if pool.usdc.is_none() {
        return Err(Error::NotInitialized);
    }
    pool.accrued_fees = 0;
    Ok(amount)
}

/// The split a claim of `principal` on `side` would get, without settling
/// it: all zero where the market is unresolved, the deposit is empty or the
/// side lost.
pub fn preview_claim(market: Option<Market>, side: u32, principal: i128) -> (r: Result<
    ClaimResult,
    Error,
>)
    requires
        market is Some && market.unwrap().resolved && principal > 0 && (market.unwrap().result
            == RESULT_CANCELLED || side == market.unwrap().result) ==> split_fits(
            market.unwrap(),
            principal,
        ),
    ensures
        r == spec_preview_claim(market, side, principal),
{
    let market = match market {
        Some(m) => m,
        None => return Err(Error::MarketNotFound),
    };
    if !market.resolved || principal <= 0 {
        return Ok(ClaimResult { gross: 0, fee: 0, net: 0 });
    }
    if market.result != RESULT_CANCELLED && side != market.result {
        return Ok(ClaimResult { gross: 0, fee: 0, net: 0 });
    }
    split(&market, principal)
}

} // verus!
