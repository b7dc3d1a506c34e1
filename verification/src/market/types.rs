//! Value types of the prediction market.

use vstd::prelude::*;

use soroban_sdk::{Address, BytesN, String};

verus! {

pub const MAX_CHALLENGERS: u32 = 100;

/// Decimals of the escrow token. A Stellar Asset Contract exposes every
/// classic asset, Circle's USDC included, with exactly 7; `initialize` refuses
/// a token that reports any other scale.
pub const USDC_DECIMALS: u32 = 7;

/// One whole USDC in atomic units: ten to the power [`USDC_DECIMALS`].
pub const USDC_UNIT: i128 = 10_000_000;

/// Minimum stake, in atomic USDC units: two whole USDC.
pub const MIN_STAKE: i128 = 2 * USDC_UNIT;

pub const DEFAULT_PAYOUT_BPS: u32 = 20_000;
pub const CHALLENGE_LOCK_SECONDS: u64 = 60;
pub const BPS_DIVISOR: i128 = 10_000;

/// Hard ceiling on `platform_fee_bps + agent_owner_fee_bps`, checked on every
/// policy change. No function raises it.
pub const MAX_TOTAL_FEE_BPS: u32 = 1_000;

/// A queued policy change cannot take effect before this much time passes.
pub const FEE_TIMELOCK_SECONDS: u64 = 172_800;

/// Upper bound on the byte length of an invite key.
pub const MAX_INVITE_KEY_BYTES: u32 = 128;

/// Lifecycle of a claim.
#[derive(Clone, Copy, Debug, PartialEq, Eq, Structural)]
pub enum ClaimState {
    Open,
    Active,
    Resolved,
    Cancelled,
}

/// The oracle's verdict on a claim.
#[derive(Clone, Copy, Debug, PartialEq, Eq, Structural)]
pub enum WinnerSide {
    Pending,
    Creator,
    Challengers,
    Draw,
    Unresolvable,
}

/// The fee policy in force: basis points of profit for the platform and for
/// the owner of the agent a market is attributed to.
#[derive(Debug, PartialEq, Eq)]
pub struct FeePolicy {
    pub platform_fee_bps: u32,
    pub agent_owner_fee_bps: u32,
    pub platform_recipient: Option<Address>,
}

/// A fee policy waiting out its timelock.
#[derive(Debug, PartialEq, Eq)]
pub struct PendingFeePolicy {
    pub platform_fee_bps: u32,
    pub agent_owner_fee_bps: u32,
    pub platform_recipient: Option<Address>,
    pub executable_at: u64,
}

/// The fee policy of a claim, copied from the one in force when the claim
/// was created and never changed afterwards.
#[derive(Debug, PartialEq, Eq)]
pub struct FeeSnapshot {
    pub platform_fee_bps: u32,
    pub agent_owner_fee_bps: u32,
    pub platform_recipient: Option<Address>,
    pub agent_owner_recipient: Option<Address>,
}

/// How a claim's market is set up.
#[derive(Debug, PartialEq, Eq)]
pub struct MarketConfig {
    pub market_type: String,
    pub odds_mode: String,
    pub challenger_payout_bps: u32,
    pub handicap_line: String,
    pub settlement_rule: String,
    pub max_challengers: u32,
    pub is_private: bool,
    pub invite_key_hash: Option<BytesN<32>>,
}

/// One entry of a claim's roster of challengers.
#[derive(Debug, PartialEq, Eq)]
pub struct Challenger {
    pub address: Address,
    pub stake: i128,
    /// Set once this challenger has pulled its settlement.
    pub claimed: bool,
}

/// A claim: a creator's staked position, open to challengers until its
/// deadline, then settled by the oracle.
#[derive(Debug, PartialEq, Eq)]
pub struct Claim {
    pub creator: Address,
    pub question: String,
    pub creator_position: String,
    pub counter_position: String,
    pub resolution_url: String,
    pub creator_stake: i128,
    pub total_challenger_stake: i128,
    pub reserved_creator_liability: i128,
    pub deadline: u64,
    pub state: ClaimState,
    pub winner_side: WinnerSide,
    pub resolution_summary: String,
    pub confidence: u32,
    pub category: String,
    pub parent_id: u64,
    pub challenger_count: u32,
    /// Escrow still owed to challengers after resolution.
    pub remaining_escrow: i128,
    /// How many challengers have pulled their settlement.
    pub challenger_claims: u32,
    pub created_at: u64,
    pub evidence_hash: Option<BytesN<32>>,
    pub context_hash: BytesN<32>,
    pub market: MarketConfig,
    pub fees: FeeSnapshot,
}

/// What a creator supplies to open a claim.
#[derive(Debug, PartialEq, Eq)]
pub struct CreateParams {
    pub question: String,
    pub creator_position: String,
    pub counter_position: String,
    pub resolution_url: String,
    pub deadline: u64,
    pub stake_amount: i128,
    pub category: String,
    pub parent_id: u64,
    pub market_type: String,
    pub odds_mode: String,
    pub challenger_payout_bps: u32,
    pub handicap_line: String,
    pub settlement_rule: String,
    pub max_challengers: u32,
    pub is_private: bool,
    pub invite_key: Option<String>,
    pub context_hash: BytesN<32>,
    /// `None` when the market is not attributed to an agent.
    pub agent_owner_recipient: Option<Address>,
}

/// The fee terms of one claim.
#[derive(Debug, PartialEq, Eq)]
pub struct ClaimFeeView {
    pub platform_fee_bps: u32,
    pub agent_owner_fee_bps: u32,
    pub platform_recipient: Option<Address>,
    pub agent_owner_recipient: Option<Address>,
    pub context_hash: BytesN<32>,
}

/// What a challenger would receive from a payout, without performing it.
#[derive(Clone, Copy, Debug, PartialEq, Eq, Structural)]
pub struct PayoutQuote {
    pub gross: i128,
    pub fee: i128,
    pub net: i128,
    pub claimed: bool,
}

/// Platform-wide counters.
#[derive(Clone, Copy, Debug, PartialEq, Eq, Structural)]
pub struct PlatformStats {
    pub total_claims: u64,
    pub resolved: u64,
    pub balance: i128,
    pub fees_accrued: i128,
    pub fees_claimed: i128,
}

} // verus!

verus! {

/// Errors of the prediction market.
#[derive(Clone, Copy, Debug, PartialEq, Eq, Structural)]
pub enum Error {
    AlreadyInitialized,
    NotInitialized,
    NotOwner,
    NotOracle,
    FeeCapExceeded,
    FeeNeedsRecipient,
    NothingQueued,
    Timelocked,
    StakeTooSmall,
    DeadlineInPast,
    EmptyQuestion,
    ClaimNotFound,
    ClaimNotOpen,
    SelfChallenge,
    AlreadyChallenged,
    ClaimFull,
    ChallengeWindowClosed,
    InvalidInviteKey,
    DuelNeedsEqualStake,
    InsufficientCreatorLiquidity,
    ClaimNotActive,
    NotYetExpired,
    InvalidVerdict,
    NotCreator,
    NothingToWithdraw,
    NoFees,
    PayoutExceedsEscrow,
    UnsupportedToken,
    Overflow,
    InviteKeyTooLong,
    ZeroStake,
    ClaimNotResolved,
    NotAChallenger,
    AlreadyClaimedPayout,
    ChallengersDidNotWin,
    UnsupportedDecimals,
}

} // verus!
