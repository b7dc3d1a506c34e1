//! What the governance rules promise across calls.

use vstd::prelude::*;

use soroban_sdk::Address;

use crate::market::admin::{
    policy_ok, spec_cancel_fee_policy, spec_execute_fee_policy, spec_initialize,
    spec_queue_fee_policy, spec_set_oracle, spec_transfer_ownership, AdminState,
};
use crate::market::types::{
    Error, FeePolicy, FEE_TIMELOCK_SECONDS, MAX_TOTAL_FEE_BPS, MIN_STAKE, USDC_DECIMALS, USDC_UNIT,
};

verus! {

/// The fee policy in force, if there is one, respects the cap and names a
/// recipient for any platform fee.
pub open spec fn policy_in_force_ok(s: AdminState) -> bool {
    s.fee_policy matches Some(p) ==> policy_ok(p)
}

/// No entry point can put in force a policy whose two fees together exceed
/// [`MAX_TOTAL_FEE_BPS`], or a platform fee without a recipient: the policy
/// in force after any successful call respects the cap whenever it did
/// before, and `initialize` and `execute_fee_policy`, the only entry points
/// that install one, install only such a policy.
pub proof fn law_fee_policy_in_force_stays_within_cap(
    s: AdminState,
    owner: Address,
    oracle: Address,
    usdc_token: Address,
    platform_fee_bps: u32,
    agent_owner_fee_bps: u32,
    platform_recipient: Option<Address>,
    reported_decimals: Option<u32>,
    now: u64,
)
    ensures
        spec_initialize(
            s,
            owner,
            oracle,
            usdc_token,
            platform_fee_bps,
            agent_owner_fee_bps,
            platform_recipient,
            reported_decimals,
        ) matches Ok(t) ==> {
            &&& t.fee_policy matches Some(p)
            &&& policy_ok(p)
            &&& p.platform_fee_bps + p.agent_owner_fee_bps <= MAX_TOTAL_FEE_BPS
        },
        spec_execute_fee_policy(s, now) matches Ok(t) ==> {
            &&& t.fee_policy matches Some(p)
            &&& policy_ok(p)
            &&& p.platform_fee_bps + p.agent_owner_fee_bps <= MAX_TOTAL_FEE_BPS
        },
        spec_set_oracle(s, oracle) matches Ok(t) ==> t.fee_policy == s.fee_policy,
        spec_transfer_ownership(s, owner) matches Ok(t) ==> t.fee_policy == s.fee_policy,
        spec_queue_fee_policy(s, platform_fee_bps, agent_owner_fee_bps, platform_recipient, now) matches Ok(t)
            ==> t.fee_policy == s.fee_policy,
        spec_cancel_fee_policy(s) matches Ok(t) ==> t.fee_policy == s.fee_policy,
        policy_in_force_ok(s) ==> {
            &&& spec_set_oracle(s, oracle) matches Ok(t) ==> policy_in_force_ok(t)
            &&& spec_transfer_ownership(s, owner) matches Ok(t) ==> policy_in_force_ok(t)
            &&& spec_queue_fee_policy(
                s,
                platform_fee_bps,
                agent_owner_fee_bps,
                platform_recipient,
                now,
            ) matches Ok(t) ==> policy_in_force_ok(t)
            &&& spec_cancel_fee_policy(s) matches Ok(t) ==> policy_in_force_ok(t)
        },
{
}

/// A policy queued at `now` cannot be executed before the timelock has
/// elapsed, and at any time from then on it is put in force exactly as
/// queued, the queue emptied and nothing else changed.
pub proof fn law_queued_policy_waits_out_the_timelock(
    s: AdminState,
    platform_fee_bps: u32,
    agent_owner_fee_bps: u32,
    platform_recipient: Option<Address>,
    now: u64,
    later: u64,
)
    requires
        spec_queue_fee_policy(s, platform_fee_bps, agent_owner_fee_bps, platform_recipient, now) is Ok,
    ensures
        ({
            let queued = spec_queue_fee_policy(
                s,
                platform_fee_bps,
                agent_owner_fee_bps,
                platform_recipient,
                now,
            ).unwrap();
            &&& later < now + FEE_TIMELOCK_SECONDS ==> spec_execute_fee_policy(queued, later) == Err::<
                AdminState,
                Error,
            >(Error::Timelocked)
            &&& later >= now + FEE_TIMELOCK_SECONDS ==> spec_execute_fee_policy(queued, later) == Ok::<
                AdminState,
                Error,
            >(
                AdminState {
                    fee_policy: Some(
                        FeePolicy { platform_fee_bps, agent_owner_fee_bps, platform_recipient },
                    ),
                    pending_fee_policy: None,
                    ..s
                },
            )
        }),
{
}

/// A cancelled queue leaves the policy in force as it was, and nothing to
/// execute.
pub proof fn law_cancelled_policy_cannot_be_executed(s: AdminState, now: u64)
    requires
        spec_cancel_fee_policy(s) is Ok,
    ensures
        spec_cancel_fee_policy(s).unwrap().fee_policy == s.fee_policy,
        spec_execute_fee_policy(spec_cancel_fee_policy(s).unwrap(), now) == Err::<AdminState, Error>(
            Error::NothingQueued,
        ),
{
}

/// Initialisation happens once: after it succeeds, every further attempt is
/// refused with `AlreadyInitialized`.
pub proof fn law_initialize_happens_once(
    s: AdminState,
    owner: Address,
    oracle: Address,
    usdc_token: Address,
    platform_fee_bps: u32,
    agent_owner_fee_bps: u32,
    platform_recipient: Option<Address>,
    reported_decimals: Option<u32>,
    owner2: Address,
    oracle2: Address,
    usdc_token2: Address,
    platform_fee_bps2: u32,
    agent_owner_fee_bps2: u32,
    platform_recipient2: Option<Address>,
    reported_decimals2: Option<u32>,
)
    requires
        spec_initialize(
            s,
            owner,
            oracle,
            usdc_token,
            platform_fee_bps,
            agent_owner_fee_bps,
            platform_recipient,
            reported_decimals,
        ) is Ok,
    ensures
        spec_initialize(
            spec_initialize(
                s,
                owner,
                oracle,
                usdc_token,
                platform_fee_bps,
                agent_owner_fee_bps,
                platform_recipient,
                reported_decimals,
            ).unwrap(),
            owner2,
            oracle2,
            usdc_token2,
            platform_fee_bps2,
            agent_owner_fee_bps2,
            platform_recipient2,
            reported_decimals2,
        ) == Err::<AdminState, Error>(Error::AlreadyInitialized),
{
}

/// Every amount constant is written at the scale of the escrow token: one
/// USDC is ten to the power [`USDC_DECIMALS`] atomic units, and the minimum
/// stake is two of them.
pub proof fn law_amounts_are_written_at_the_token_scale()
    ensures
        USDC_UNIT == vstd::arithmetic::power::pow(10, USDC_DECIMALS as nat),
        MIN_STAKE == 2 * vstd::arithmetic::power::pow(10, USDC_DECIMALS as nat),
{
    reveal_with_fuel(vstd::arithmetic::power::pow, 8);
}

/// A call of a governance entry point, with its arguments.
pub enum AdminCall {
    Initialize {
        owner: Address,
        oracle: Address,
        usdc_token: Address,
        platform_fee_bps: u32,
        agent_owner_fee_bps: u32,
        platform_recipient: Option<Address>,
        reported_decimals: Option<u32>,
    },
    SetOracle { new_oracle: Address },
    TransferOwnership { new_owner: Address },
    QueueFeePolicy {
        platform_fee_bps: u32,
        agent_owner_fee_bps: u32,
        platform_recipient: Option<Address>,
        now: u64,
    },
    CancelFeePolicy,
    ExecuteFeePolicy { now: u64 },
}

/// What the rules prescribe for the call `c` on the record `s`.
pub open spec fn spec_call(s: AdminState, c: AdminCall) -> Result<AdminState, Error> {
    match c {
        AdminCall::Initialize {
            owner,
            oracle,
            usdc_token,
            platform_fee_bps,
            agent_owner_fee_bps,
            platform_recipient,
            reported_decimals,
        } => spec_initialize(
            s,
            owner,
            oracle,
            usdc_token,
            platform_fee_bps,
            agent_owner_fee_bps,
            platform_recipient,
            reported_decimals,
        ),
        AdminCall::SetOracle { new_oracle } => spec_set_oracle(s, new_oracle),
        AdminCall::TransferOwnership { new_owner } => spec_transfer_ownership(s, new_owner),
        AdminCall::QueueFeePolicy { platform_fee_bps, agent_owner_fee_bps, platform_recipient, now } =>
            spec_queue_fee_policy(s, platform_fee_bps, agent_owner_fee_bps, platform_recipient, now),
        AdminCall::CancelFeePolicy => spec_cancel_fee_policy(s),
        AdminCall::ExecuteFeePolicy { now } => spec_execute_fee_policy(s, now),
    }
}

/// The record after the call `c`: the new record where the call succeeds,
/// the same record where it is refused.
pub open spec fn after_call(s: AdminState, c: AdminCall) -> AdminState {
    match spec_call(s, c) {
        Ok(t) => t,
        Err(_) => s,
    }
}

/// The record after the calls of `history`, in order.
pub open spec fn after_history(s: AdminState, history: Seq<AdminCall>) -> AdminState
    decreases history.len(),
{
    if history.len() == 0 {
        s
    } else {
        after_history(after_call(s, history[0]), history.drop_first())
    }
}

/// Over any history of governance calls, successful or refused, starting
/// from a market never initialised (or from any record whose policy in
/// force is within the cap), the policy in force always respects
/// [`MAX_TOTAL_FEE_BPS`] and names a recipient for any platform fee: a
/// queued policy over the cap is never installed.
pub proof fn law_fee_cap_holds_over_every_history(s: AdminState, history: Seq<AdminCall>)
    requires
        s == AdminState::empty() || policy_in_force_ok(s),
    ensures
        policy_in_force_ok(after_history(s, history)),
        after_history(s, history).fee_policy matches Some(p) ==> p.platform_fee_bps
            + p.agent_owner_fee_bps <= MAX_TOTAL_FEE_BPS && (p.platform_fee_bps == 0
            || p.platform_recipient is Some),
    decreases history.len(),
{
    if history.len() > 0 {
        let c = history[0];
        let t = after_call(s, c);
        assert(policy_in_force_ok(t));
        law_fee_cap_holds_over_every_history(t, history.drop_first());
    }
}

} // verus!
