//! When each governance entry point succeeds, and what it leaves behind,
//! stated from its inputs alone.

use vstd::prelude::*;

use soroban_sdk::Address;

use crate::market::admin::{
    spec_cancel_fee_policy, spec_execute_fee_policy, spec_initialize, spec_queue_fee_policy,
    spec_set_oracle, spec_transfer_ownership, AdminState,
};
use crate::market::types::{
    Error, FeePolicy, PendingFeePolicy, FEE_TIMELOCK_SECONDS, MAX_TOTAL_FEE_BPS, USDC_DECIMALS,
};

verus! {

/// A fee split that may be put in force: both fees together at most
/// [`MAX_TOTAL_FEE_BPS`], and a recipient for any platform fee.
pub open spec fn acceptable_fees(
    platform_fee_bps: u32,
    agent_owner_fee_bps: u32,
    platform_recipient: Option<Address>,
) -> bool {
    &&& platform_fee_bps + agent_owner_fee_bps <= MAX_TOTAL_FEE_BPS
    &&& (platform_fee_bps == 0 || platform_recipient is Some)
}

/// `initialize` succeeds exactly on a market never initialised, with an
/// acceptable fee split and a token that answers [`USDC_DECIMALS`]; it then
/// records every party and that split, and leaves the queue as it was.
pub proof fn law_initialize_succeeds_exactly_when_allowed(
    s: AdminState,
    owner: Address,
    oracle: Address,
    usdc_token: Address,
    platform_fee_bps: u32,
    agent_owner_fee_bps: u32,
    platform_recipient: Option<Address>,
    reported_decimals: Option<u32>,
)
    ensures
        spec_initialize(
            s,
            owner,
            oracle,
            usdc_token,
            platform_fee_bps,
            agent_owner_fee_bps,
            platform_recipient,
            reported_decimals,
        ) is Ok <==> {
            &&& !s.initialized
            &&& acceptable_fees(platform_fee_bps, agent_owner_fee_bps, platform_recipient)
            &&& reported_decimals == Some(USDC_DECIMALS)
        },
        spec_initialize(
            s,
            owner,
            oracle,
            usdc_token,
            platform_fee_bps,
            agent_owner_fee_bps,
            platform_recipient,
            reported_decimals,
        ) matches Ok(t) ==> {
            &&& t.initialized
            &&& t.owner == Some(owner)
            &&& t.oracle == Some(oracle)
            &&& t.usdc == Some(usdc_token)
            &&& t.fee_policy == Some(
                FeePolicy { platform_fee_bps, agent_owner_fee_bps, platform_recipient },
            )
            &&& t.pending_fee_policy == s.pending_fee_policy
        },
        s.initialized ==> spec_initialize(
            s,
            owner,
            oracle,
            usdc_token,
            platform_fee_bps,
            agent_owner_fee_bps,
            platform_recipient,
            reported_decimals,
        ) == Err::<AdminState, Error>(Error::AlreadyInitialized),
{
}

/// Replacing the oracle succeeds exactly where the market has an owner and
/// an oracle, and changes the oracle only.
pub proof fn law_set_oracle_changes_the_oracle_only(s: AdminState, new_oracle: Address)
    ensures
        spec_set_oracle(s, new_oracle) is Ok <==> (s.owner is Some && s.oracle is Some),
        spec_set_oracle(s, new_oracle) matches Ok(t) ==> {
            &&& t.oracle == Some(new_oracle)
            &&& t.owner == s.owner
            &&& t.usdc == s.usdc
            &&& t.initialized == s.initialized
            &&& t.fee_policy == s.fee_policy
            &&& t.pending_fee_policy == s.pending_fee_policy
        },
{
}

/// Handing over ownership succeeds exactly where the market has an owner,
/// and changes the owner only.
pub proof fn law_transfer_ownership_changes_the_owner_only(s: AdminState, new_owner: Address)
    ensures
        spec_transfer_ownership(s, new_owner) is Ok <==> s.owner is Some,
        spec_transfer_ownership(s, new_owner) matches Ok(t) ==> {
            &&& t.owner == Some(new_owner)
            &&& t.oracle == s.oracle
            &&& t.usdc == s.usdc
            &&& t.initialized == s.initialized
            &&& t.fee_policy == s.fee_policy
            &&& t.pending_fee_policy == s.pending_fee_policy
        },
{
}

/// Queueing succeeds for any market with an owner, any acceptable fee split
/// and any time whose timelock fits the clock, whatever is already queued:
/// the new policy replaces the queue, executable [`FEE_TIMELOCK_SECONDS`]
/// after `now`, and nothing else changes.
pub proof fn law_queue_replaces_whatever_is_queued(
    s: AdminState,
    platform_fee_bps: u32,
    agent_owner_fee_bps: u32,
    platform_recipient: Option<Address>,
    now: u64,
)
    ensures
        spec_queue_fee_policy(s, platform_fee_bps, agent_owner_fee_bps, platform_recipient, now) is Ok
            <==> {
            &&& s.owner is Some
            &&& acceptable_fees(platform_fee_bps, agent_owner_fee_bps, platform_recipient)
            &&& now + FEE_TIMELOCK_SECONDS <= u64::MAX
        },
        spec_queue_fee_policy(s, platform_fee_bps, agent_owner_fee_bps, platform_recipient, now) matches Ok(
            t,
        ) ==> {
            &&& t.pending_fee_policy == Some(
                PendingFeePolicy {
                    platform_fee_bps,
                    agent_owner_fee_bps,
                    platform_recipient,
                    executable_at: (now + FEE_TIMELOCK_SECONDS) as u64,
                },
            )
            &&& t.fee_policy == s.fee_policy
            &&& t.owner == s.owner
            &&& t.oracle == s.oracle
            &&& t.usdc == s.usdc
            &&& t.initialized == s.initialized
        },
{
}

/// Two queues in a row: the second replaces the first, and the first no
/// longer matters.
pub proof fn law_a_second_queue_replaces_the_first(
    s: AdminState,
    p1: u32,
    a1: u32,
    r1: Option<Address>,
    now1: u64,
    p2: u32,
    a2: u32,
    r2: Option<Address>,
    now2: u64,
)
    requires
        spec_queue_fee_policy(s, p1, a1, r1, now1) is Ok,
        acceptable_fees(p2, a2, r2),
        now2 + FEE_TIMELOCK_SECONDS <= u64::MAX,
    ensures
        spec_queue_fee_policy(spec_queue_fee_policy(s, p1, a1, r1, now1).unwrap(), p2, a2, r2, now2)
            == spec_queue_fee_policy(s, p2, a2, r2, now2),
        spec_queue_fee_policy(s, p2, a2, r2, now2) is Ok,
{
}

/// Cancelling succeeds exactly where the market has an owner and a policy
/// is queued, and only empties the queue.
pub proof fn law_cancel_empties_the_queue_only(s: AdminState)
    ensures
        spec_cancel_fee_policy(s) is Ok <==> (s.owner is Some && s.pending_fee_policy is Some),
        spec_cancel_fee_policy(s) matches Ok(t) ==> t == (AdminState { pending_fee_policy: None, ..s }),
{
}

/// Executing succeeds exactly where a policy is queued, its time has come
/// and its split is acceptable, whoever calls and whether or not the market
/// has an owner; it puts that split in force and empties the queue.
pub proof fn law_execute_installs_exactly_the_queued_policy(s: AdminState, now: u64)
    ensures
        spec_execute_fee_policy(s, now) is Ok <==> (s.pending_fee_policy matches Some(q) && now
            >= q.executable_at && acceptable_fees(
            q.platform_fee_bps,
            q.agent_owner_fee_bps,
            q.platform_recipient,
        )),
        spec_execute_fee_policy(s, now) matches Ok(t) ==> {
            let q = s.pending_fee_policy.unwrap();
            &&& t.fee_policy == Some(
                FeePolicy {
                    platform_fee_bps: q.platform_fee_bps,
                    agent_owner_fee_bps: q.agent_owner_fee_bps,
                    platform_recipient: q.platform_recipient,
                },
            )
            &&& t.pending_fee_policy is None
            &&& t.owner == s.owner
            &&& t.oracle == s.oracle
            &&& t.usdc == s.usdc
            &&& t.initialized == s.initialized
        },
{
}

} // verus!
