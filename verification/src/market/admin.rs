//! Ownership, oracle and fee-policy governance of the market.
//!
//! The market keeps one record of each: whether it was initialised, its
//! owner, oracle and escrow token, the fee policy in force and the one waiting
//! out its timelock. Every entry point below is a transition of that record.
//! On an error the record is left exactly as it was.

use vstd::prelude::*;

use soroban_sdk::Address;

use crate::market::types::{
    Error, FeePolicy, PendingFeePolicy, FEE_TIMELOCK_SECONDS, MAX_TOTAL_FEE_BPS, USDC_DECIMALS,
};

verus! {

/// The governance record of a market, one field per stored entry.
#[derive(Debug, PartialEq, Eq)]
pub struct AdminState {
    pub initialized: bool,
    pub owner: Option<Address>,
    pub oracle: Option<Address>,
    pub usdc: Option<Address>,
    pub fee_policy: Option<FeePolicy>,
    pub pending_fee_policy: Option<PendingFeePolicy>,
}

impl AdminState {
    /// The record of a market that was never initialised.
    pub fn new() -> (s: Self)
        ensures
            s == AdminState::empty(),
    {
        AdminState {
            initialized: false,
            owner: None,
            oracle: None,
            usdc: None,
            fee_policy: None,
            pending_fee_policy: None,
        }
    }

    pub open spec fn empty() -> Self {
        AdminState {
            initialized: false,
            owner: None,
            oracle: None,
            usdc: None,
            fee_policy: None,
            pending_fee_policy: None,
        }
    }
}

/// Why a fee policy is refused, if it is: the two fees together above the
/// constant cap, or a platform fee with nobody to receive it.
pub open spec fn policy_error(
    platform_fee_bps: u32,
    agent_owner_fee_bps: u32,
    platform_recipient: Option<Address>,
) -> Option<Error> {
    if platform_fee_bps + agent_owner_fee_bps > MAX_TOTAL_FEE_BPS {
        Some(Error::FeeCapExceeded)
    } else if platform_fee_bps > 0 && platform_recipient is None {
        Some(Error::FeeNeedsRecipient)
    } else {
        None
    }
}

/// A fee policy that may be in force.
pub open spec fn policy_ok(p: FeePolicy) -> bool {
    policy_error(p.platform_fee_bps, p.agent_owner_fee_bps, p.platform_recipient) is None
}

/// Why an escrow token is refused, given what its `decimals()` answered
/// (`None`: it could not answer at all).
pub open spec fn decimals_error(reported_decimals: Option<u32>) -> Option<Error> {
    match reported_decimals {
        None => Some(Error::UnsupportedToken),
        Some(d) => if d == USDC_DECIMALS { None } else { Some(Error::UnsupportedDecimals) },
    }
}

/// `r` and `after` are what an entry point returned and left, given the
/// record `before` and the outcome `spec` that the rules prescribe.
pub open spec fn follows<T>(
    before: AdminState,
    after: AdminState,
    r: Result<T, Error>,
    spec: Result<AdminState, Error>,
) -> bool {
    match spec {
        Ok(s) => r is Ok && after == s,
        Err(e) => r == Err::<T, Error>(e) && after == before,
    }
}

pub open spec fn spec_initialize(
    s: AdminState,
    owner: Address,
    oracle: Address,
    usdc_token: Address,
    platform_fee_bps: u32,
    agent_owner_fee_bps: u32,
    platform_recipient: Option<Address>,
    reported_decimals: Option<u32>,
) -> Result<AdminState, Error> {
    if s.initialized {
        Err(Error::AlreadyInitialized)
    } else if policy_error(platform_fee_bps, agent_owner_fee_bps, platform_recipient) is Some {
        Err(policy_error(platform_fee_bps, agent_owner_fee_bps, platform_recipient).unwrap())
    } else if decimals_error(reported_decimals) is Some {
        Err(decimals_error(reported_decimals).unwrap())
    } else {
        Ok(AdminState {
            initialized: true,
            owner: Some(owner),
            oracle: Some(oracle),
            usdc: Some(usdc_token),
            fee_policy: Some(FeePolicy { platform_fee_bps, agent_owner_fee_bps, platform_recipient }),
            ..s
        })
    }
}

pub open spec fn spec_set_oracle(s: AdminState, new_oracle: Address) -> Result<AdminState, Error> {
    if s.owner is None || s.oracle is None {
        Err(Error::NotInitialized)
    } else {
        Ok(AdminState { oracle: Some(new_oracle), ..s })
    }
}

pub open spec fn spec_transfer_ownership(s: AdminState, new_owner: Address) -> Result<
    AdminState,
    Error,
> {
    if s.owner is None {
        Err(Error::NotInitialized)
    } else {
        Ok(AdminState { owner: Some(new_owner), ..s })
    }
}

pub open spec fn spec_queue_fee_policy(
    s: AdminState,
    platform_fee_bps: u32,
    agent_owner_fee_bps: u32,
    platform_recipient: Option<Address>,
    now: u64,
) -> Result<AdminState, Error> {
    if s.owner is None {
        Err(Error::NotInitialized)
    } else if policy_error(platform_fee_bps, agent_owner_fee_bps, platform_recipient) is Some {
        Err(policy_error(platform_fee_bps, agent_owner_fee_bps, platform_recipient).unwrap())
    } else if now + FEE_TIMELOCK_SECONDS > u64::MAX {
        Err(Error::Overflow)
    } else {
        Ok(
            AdminState {
                pending_fee_policy: Some(
                    PendingFeePolicy {
                        platform_fee_bps,
                        agent_owner_fee_bps,
                        platform_recipient,
                        executable_at: (now + FEE_TIMELOCK_SECONDS) as u64,
                    },
                ),
                ..s
            },
        )
    }
}

pub open spec fn spec_cancel_fee_policy(s: AdminState) -> Result<AdminState, Error> {
    if s.owner is None {
        Err(Error::NotInitialized)
    } else if s.pending_fee_policy is None {
        Err(Error::NothingQueued)
    } else {
        Ok(AdminState { pending_fee_policy: None, ..s })
    }
}

pub open spec fn spec_execute_fee_policy(s: AdminState, now: u64) -> Result<AdminState, Error> {
    match s.pending_fee_policy {
        None => Err(Error::NothingQueued),
        Some(q) => if now < q.executable_at {
            Err(Error::Timelocked)
        } else if policy_error(
            q.platform_fee_bps,
            q.agent_owner_fee_bps,
            q.platform_recipient,
        ) is Some {
            Err(policy_error(q.platform_fee_bps, q.agent_owner_fee_bps, q.platform_recipient).unwrap())
        } else {
            Ok(
                AdminState {
                    fee_policy: Some(
                        FeePolicy {
                            platform_fee_bps: q.platform_fee_bps,
                            agent_owner_fee_bps: q.agent_owner_fee_bps,
                            platform_recipient: q.platform_recipient,
                        },
                    ),
                    pending_fee_policy: None,
                    ..s
                },
            )
        },
    }
}

/// Checks a fee policy against the constant cap, and that a platform fee has
/// a recipient.
pub fn validate_policy(
    platform_fee_bps: u32,
    agent_owner_fee_bps: u32,
    platform_recipient: &Option<Address>,
) -> (r: Result<(), Error>)
    ensures
        r == (match policy_error(platform_fee_bps, agent_owner_fee_bps, *platform_recipient) {
            None => Ok::<(), Error>(()),
            Some(e) => Err(e),
        }),
{
    if platform_fee_bps as u64 + agent_owner_fee_bps as u64 > MAX_TOTAL_FEE_BPS as u64 {
        return Err(Error::FeeCapExceeded);
    }
    if platform_fee_bps > 0 && platform_recipient.is_none() {
        return Err(Error::FeeNeedsRecipient);
    }
    Ok(())
}

/// Accepts an escrow token whose `decimals()` answered exactly
/// [`USDC_DECIMALS`]; `reported_decimals` is `None` where it could not answer.
pub fn require_usdc_decimals(reported_decimals: Option<u32>) -> (r: Result<(), Error>)
    ensures
        r == (match decimals_error(reported_decimals) {
            None => Ok::<(), Error>(()),
            Some(e) => Err(e),
        }),
{
    match reported_decimals {
        None => Err(Error::UnsupportedToken),
        Some(d) => if d == USDC_DECIMALS {
            Ok(())
        } else {
            Err(Error::UnsupportedDecimals)
        },
    }
}

/// The owner whose authorisation every owner-only entry point needs.
pub fn require_owner(admin: &AdminState) -> (r: Result<&Address, Error>)
    ensures
        match r {
            Ok(o) => admin.owner == Some(*o),
            Err(e) => admin.owner is None && e == Error::NotInitialized,
        },
{
    match &admin.owner {
        Some(o) => Ok(o),
        None => Err(Error::NotInitialized),
    }
}

/// The escrow token.
pub fn get_usdc(admin: &AdminState) -> (r: Result<&Address, Error>)
    ensures
        match r {
            Ok(t) => admin.usdc == Some(*t),
            Err(e) => admin.usdc is None && e == Error::NotInitialized,
        },
{
    match &admin.usdc {
        Some(t) => Ok(t),
        None => Err(Error::NotInitialized),
    }
}

/// One-time initialisation: owner, oracle, escrow token and the first fee
/// policy. `reported_decimals` is what the token's `decimals()` answered.
pub fn initialize(
    admin: &mut AdminState,
    owner: Address,
    oracle: Address,
    usdc_token: Address,
    platform_fee_bps: u32,
    agent_owner_fee_bps: u32,
    platform_recipient: Option<Address>,
    reported_decimals: Option<u32>,
) -> (r: Result<(), Error>)
    ensures
        follows(
            *old(admin),
            *final(admin),
            r,
            spec_initialize(
                *old(admin),
                owner,
                oracle,
                usdc_token,
                platform_fee_bps,
                agent_owner_fee_bps,
                platform_recipient,
                reported_decimals,
            ),
        ),
{
    if admin.initialized {
        return Err(Error::AlreadyInitialized);
    }
    validate_policy(platform_fee_bps, agent_owner_fee_bps, &platform_recipient)?;
    require_usdc_decimals(reported_decimals)?;

    admin.initialized = true;
    admin.owner = Some(owner);
    admin.oracle = Some(oracle);
    admin.usdc = Some(usdc_token);
    admin.fee_policy = Some(FeePolicy { platform_fee_bps, agent_owner_fee_bps, platform_recipient });
    Ok(())
}

/// Replaces the oracle; returns the one it replaced. Owner only.
pub fn set_oracle(admin: &mut AdminState, new_oracle: Address) -> (r: Result<Address, Error>)
    ensures
        follows(*old(admin), *final(admin), r, spec_set_oracle(*old(admin), new_oracle)),
        r matches Ok(previous) ==> old(admin).oracle == Some(previous),
{
    require_owner(admin)?;
    if admin.oracle.is_none() {
        return Err(Error::NotInitialized);
    }
    let previous = admin.oracle.take().unwrap();
    admin.oracle = Some(new_oracle);
    Ok(previous)
}

/// Hands the market to a new owner; returns the previous one. Owner only.
pub fn transfer_ownership(admin: &mut AdminState, new_owner: Address) -> (r: Result<Address, Error>)
    ensures
        follows(*old(admin), *final(admin), r, spec_transfer_ownership(*old(admin), new_owner)),
        r matches Ok(previous) ==> old(admin).owner == Some(previous),
{
    if admin.owner.is_none() {
        return Err(Error::NotInitialized);
    }
    let previous = admin.owner.take().unwrap();
    admin.owner = Some(new_owner);
    Ok(previous)
}

/// Queues a fee policy change, executable once [`FEE_TIMELOCK_SECONDS`] have
/// passed after `now`. It can never exceed the constant cap. Owner only.
pub fn queue_fee_policy(
    admin: &mut AdminState,
    platform_fee_bps: u32,
    agent_owner_fee_bps: u32,
    platform_recipient: Option<Address>,
    now: u64,
) -> (r: Result<(), Error>)
    ensures
        follows(
            *old(admin),
            *final(admin),
            r,
            spec_queue_fee_policy(
                *old(admin),
                platform_fee_bps,
                agent_owner_fee_bps,
                platform_recipient,
                now,
            ),
        ),
{
    require_owner(admin)?;
    validate_policy(platform_fee_bps, agent_owner_fee_bps, &platform_recipient)?;
    let executable_at = match now.checked_add(FEE_TIMELOCK_SECONDS) {
        Some(t) => t,
        None => return Err(Error::Overflow),
    };
    admin.pending_fee_policy = Some(
        PendingFeePolicy { platform_fee_bps, agent_owner_fee_bps, platform_recipient, executable_at },
    );
    Ok(())
}

/// Drops the queued fee policy. Owner only.
pub fn cancel_fee_policy(admin: &mut AdminState) -> (r: Result<(), Error>)
    ensures
        follows(*old(admin), *final(admin), r, spec_cancel_fee_policy(*old(admin))),
{
    require_owner(admin)?;
    if admin.pending_fee_policy.is_none() {
        return Err(Error::NothingQueued);
    }
    admin.pending_fee_policy = None;
    Ok(())
}

/// Puts the queued fee policy in force once its timelock has elapsed at
/// `now`. Anyone may call it; the cap is checked again on the way out.
pub fn execute_fee_policy(admin: &mut AdminState, now: u64) -> (r: Result<(), Error>)
    ensures
        follows(*old(admin), *final(admin), r, spec_execute_fee_policy(*old(admin), now)),
{
    match &admin.pending_fee_policy {
        None => return Err(Error::NothingQueued),
        Some(queued) => {
            if now < queued.executable_at {
                return Err(Error::Timelocked);
            }
            validate_policy(
                queued.platform_fee_bps,
                queued.agent_owner_fee_bps,
                &queued.platform_recipient,
            )?;
        },
    }
    let queued = admin.pending_fee_policy.take().unwrap();
    admin.fee_policy = Some(
        FeePolicy {
            platform_fee_bps: queued.platform_fee_bps,
            agent_owner_fee_bps: queued.agent_owner_fee_bps,
            platform_recipient: queued.platform_recipient,
        },
    );
    Ok(())
}

} // verus!
