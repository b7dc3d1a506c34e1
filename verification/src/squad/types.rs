//! Value types of the squad pool.

use vstd::prelude::*;

use soroban_sdk::Address;

verus! {

pub const SIDE_A: u32 = 1;
pub const SIDE_B: u32 = 2;
pub const RESULT_CANCELLED: u32 = 3;

pub const MAX_FEE_BPS: u32 = 1_000;
pub const MAX_PARTICIPANTS_PER_SIDE: u32 = 200;
pub const MIN_DURATION: u64 = 600;
pub const MAX_DURATION: u64 = 31_536_000;

pub const BPS_DIVISOR: i128 = 10_000;

/// Decimals of the escrow token; shares equal deposited atomic units, so this
/// is also the scale every share is read at. `initialize` refuses any other.
pub const USDC_DECIMALS: u32 = 7;

/// One market of the pool. Shares equal deposited atomic units.
#[derive(Debug, PartialEq, Eq)]
pub struct Market {
    pub captain: Address,
    pub deadline: u64,
    pub fee_bps: u32,
    /// `0` until resolved, then [`SIDE_A`], [`SIDE_B`] or [`RESULT_CANCELLED`].
    pub result: u32,
    pub resolved: bool,
    pub pool_a: i128,
    pub pool_b: i128,
    pub remaining_escrow: i128,
    pub participants_a: u32,
    pub participants_b: u32,
    pub winner_claims: u32,
}

/// The pool-wide record: configuration, the number of markets created and
/// the fees accrued and not yet collected.
#[derive(Debug, PartialEq, Eq)]
pub struct PoolState {
    pub initialized: bool,
    pub usdc: Option<Address>,
    pub oracle: Option<Address>,
    pub fee_recipient: Option<Address>,
    pub market_count: u64,
    pub accrued_fees: i128,
}

impl PoolState {
    /// The record of a pool that was never initialised.
    pub fn new() -> (s: Self)
        ensures
            s == PoolState::empty(),
    {
        PoolState {
            initialized: false,
            usdc: None,
            oracle: None,
            fee_recipient: None,
            market_count: 0,
            accrued_fees: 0,
        }
    }

    pub open spec fn empty() -> Self {
        PoolState {
            initialized: false,
            usdc: None,
            oracle: None,
            fee_recipient: None,
            market_count: 0,
            accrued_fees: 0,
        }
    }
}

/// Errors of the squad pool.
#[derive(Clone, Copy, Debug, PartialEq, Eq, Structural)]
pub enum Error {
    AlreadyInitialized,
    NotInitialized,
    ZeroAddress,
    EmptyQuestion,
    BadDeadline,
    FeeCapExceeded,
    MarketNotFound,
    MarketClosed,
    BadSide,
    ZeroAmount,
    SideFull,
    Locked,
    BadAmount,
    NotOracle,
    NotResolvable,
    BadResult,
    EmptyWinner,
    NotClaimable,
    NotWinner,
    AlreadyClaimed,
    NotFeeRecipient,
    NoFees,
    UnsupportedToken,
    Overflow,
    UnsupportedDecimals,
}

} // verus!

verus! {

/// The split of one claim: what it is worth, the fee taken, what is paid out.
#[derive(Clone, Copy, Debug, PartialEq, Eq, Structural)]
pub struct ClaimResult {
    pub gross: i128,
    pub fee: i128,
    pub net: i128,
}

} // verus!
