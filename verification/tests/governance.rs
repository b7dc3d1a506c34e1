use soroban_sdk::testutils::{Address as _, EnvTestConfig};
use soroban_sdk::{Address, Env};

use mimir::market::admin::{
    cancel_fee_policy, execute_fee_policy, get_usdc, initialize, queue_fee_policy,
    require_owner, require_usdc_decimals, set_oracle, transfer_ownership, validate_policy,
    AdminState,
};
use mimir::market::types::{
    Error, FeePolicy, PendingFeePolicy, FEE_TIMELOCK_SECONDS, MAX_TOTAL_FEE_BPS, USDC_DECIMALS,
};

const NOW: u64 = 1_700_000_000;

fn quiet_env() -> Env {
    Env::new_with_config(EnvTestConfig { capture_snapshot_at_drop: false })
}

struct Parties {
    owner: Address,
    oracle: Address,
    token: Address,
    platform: Address,
}

fn parties(env: &Env) -> Parties {
    Parties {
        owner: Address::generate(env),
        oracle: Address::generate(env),
        token: Address::generate(env),
        platform: Address::generate(env),
    }
}

/// An initialised market with the given fee split, the platform fee paid to
/// `p.platform`.
fn initialized(p: &Parties, platform_fee_bps: u32, agent_owner_fee_bps: u32) -> AdminState {
    let mut admin = AdminState::new();
    initialize(
        &mut admin,
        p.owner.clone(),
        p.oracle.clone(),
        p.token.clone(),
        platform_fee_bps,
        agent_owner_fee_bps,
        Some(p.platform.clone()),
        Some(USDC_DECIMALS),
    )
    .unwrap();
    admin
}

#[test]
fn validate_policy_enforces_the_cap_and_a_platform_recipient() {
    let env = quiet_env();
    let who = Some(Address::generate(&env));
    assert_eq!(validate_policy(700, 300, &who), Ok(()));
    assert_eq!(validate_policy(MAX_TOTAL_FEE_BPS, 0, &who), Ok(()));
    assert_eq!(validate_policy(701, 300, &who), Err(Error::FeeCapExceeded));
    assert_eq!(validate_policy(u32::MAX, u32::MAX, &who), Err(Error::FeeCapExceeded));
    assert_eq!(validate_policy(1, 0, &None), Err(Error::FeeNeedsRecipient));
    assert_eq!(validate_policy(0, 500, &None), Ok(()));
    // The cap is checked first.
    assert_eq!(validate_policy(2_000, 0, &None), Err(Error::FeeCapExceeded));
}

#[test]
fn require_usdc_decimals_accepts_seven_only() {
    assert_eq!(require_usdc_decimals(Some(7)), Ok(()));
    assert_eq!(require_usdc_decimals(Some(6)), Err(Error::UnsupportedDecimals));
    assert_eq!(require_usdc_decimals(None), Err(Error::UnsupportedToken));
}

#[test]
fn initialize_records_every_party_and_the_policy() {
    let env = quiet_env();
    let p = parties(&env);
    let admin = initialized(&p, 700, 300);
    assert!(admin.initialized);
    assert_eq!(admin.owner.as_ref(), Some(&p.owner));
    assert_eq!(admin.oracle.as_ref(), Some(&p.oracle));
    assert_eq!(get_usdc(&admin), Ok(&p.token));
    assert_eq!(
        admin.fee_policy,
        Some(FeePolicy { platform_fee_bps: 700, agent_owner_fee_bps: 300, platform_recipient: Some(p.platform.clone()) })
    );
    assert_eq!(admin.pending_fee_policy, None);
}

#[test]
fn initialize_refuses_a_policy_over_the_cap_and_writes_nothing() {
    let env = quiet_env();
    let p = parties(&env);
    let mut admin = AdminState::new();
    let r = initialize(&mut admin, p.owner.clone(), p.oracle.clone(), p.token.clone(), 800, 201, Some(p.platform.clone()), Some(7));
    assert_eq!(r, Err(Error::FeeCapExceeded));
    assert_eq!(admin, AdminState::new());
    let r = initialize(&mut admin, p.owner.clone(), p.oracle.clone(), p.token.clone(), 10, 0, None, Some(7));
    assert_eq!(r, Err(Error::FeeNeedsRecipient));
    assert_eq!(admin, AdminState::new());
}

#[test]
fn initialize_checks_the_policy_before_the_token() {
    let env = quiet_env();
    let p = parties(&env);
    let mut admin = AdminState::new();
    let r = initialize(&mut admin, p.owner.clone(), p.oracle.clone(), p.token.clone(), 2_000, 0, None, None);
    assert_eq!(r, Err(Error::FeeCapExceeded));
}

#[test]
fn initialize_happens_once() {
    let env = quiet_env();
    let p = parties(&env);
    let mut admin = initialized(&p, 0, 0);
    let other = parties(&env);
    let r = initialize(&mut admin, other.owner.clone(), other.oracle, other.token, 0, 0, None, Some(7));
    assert_eq!(r, Err(Error::AlreadyInitialized));
    assert_eq!(admin.owner.as_ref(), Some(&p.owner));
}

#[test]
fn owner_only_entry_points_refuse_an_uninitialized_market() {
    let env = quiet_env();
    let who = Address::generate(&env);
    let mut admin = AdminState::new();
    assert_eq!(require_owner(&admin), Err(Error::NotInitialized));
    assert_eq!(set_oracle(&mut admin, who.clone()), Err(Error::NotInitialized));
    assert_eq!(transfer_ownership(&mut admin, who.clone()), Err(Error::NotInitialized));
    assert_eq!(queue_fee_policy(&mut admin, 0, 0, None, NOW), Err(Error::NotInitialized));
    assert_eq!(cancel_fee_policy(&mut admin), Err(Error::NotInitialized));
    assert_eq!(get_usdc(&admin), Err(Error::NotInitialized));
    assert_eq!(admin, AdminState::new());
}

#[test]
fn set_oracle_replaces_the_oracle_and_returns_the_previous_one() {
    let env = quiet_env();
    let p = parties(&env);
    let mut admin = initialized(&p, 0, 0);
    assert_eq!(require_owner(&admin), Ok(&p.owner));
    let next = Address::generate(&env);
    assert_eq!(set_oracle(&mut admin, next.clone()), Ok(p.oracle.clone()));
    assert_eq!(admin.oracle, Some(next));
    assert_eq!(admin.owner.as_ref(), Some(&p.owner));
}

#[test]
fn transfer_ownership_hands_over_the_market() {
    let env = quiet_env();
    let p = parties(&env);
    let mut admin = initialized(&p, 0, 0);
    let next = Address::generate(&env);
    assert_eq!(transfer_ownership(&mut admin, next.clone()), Ok(p.owner.clone()));
    assert_eq!(require_owner(&admin), Ok(&next));
}

#[test]
fn a_queued_policy_waits_out_the_timelock() {
    let env = quiet_env();
    let p = parties(&env);
    let mut admin = initialized(&p, 100, 100);
    let recipient = Some(Address::generate(&env));
    assert_eq!(queue_fee_policy(&mut admin, 600, 400, recipient.clone(), NOW), Ok(()));
    assert_eq!(
        admin.pending_fee_policy,
        Some(PendingFeePolicy {
            platform_fee_bps: 600,
            agent_owner_fee_bps: 400,
            platform_recipient: recipient.clone(),
            executable_at: NOW + 172_800,
        })
    );
    assert_eq!(execute_fee_policy(&mut admin, NOW + FEE_TIMELOCK_SECONDS - 1), Err(Error::Timelocked));
    assert_eq!(admin.fee_policy.as_ref().unwrap().platform_fee_bps, 100);
    assert_eq!(execute_fee_policy(&mut admin, NOW + FEE_TIMELOCK_SECONDS), Ok(()));
    assert_eq!(
        admin.fee_policy,
        Some(FeePolicy { platform_fee_bps: 600, agent_owner_fee_bps: 400, platform_recipient: recipient })
    );
    assert_eq!(admin.pending_fee_policy, None);
    assert_eq!(execute_fee_policy(&mut admin, NOW + FEE_TIMELOCK_SECONDS), Err(Error::NothingQueued));
}

#[test]
fn queue_refuses_a_policy_over_the_cap() {
    let env = quiet_env();
    let p = parties(&env);
    let mut admin = initialized(&p, 0, 0);
    assert_eq!(queue_fee_policy(&mut admin, 1_001, 0, Some(p.platform.clone()), NOW), Err(Error::FeeCapExceeded));
    assert_eq!(queue_fee_policy(&mut admin, 5, 0, None, NOW), Err(Error::FeeNeedsRecipient));
    assert_eq!(admin.pending_fee_policy, None);
}

#[test]
fn queue_refuses_a_timelock_past_the_end_of_the_clock() {
    let env = quiet_env();
    let p = parties(&env);
    let mut admin = initialized(&p, 0, 0);
    let late = u64::MAX - FEE_TIMELOCK_SECONDS + 1;
    assert_eq!(queue_fee_policy(&mut admin, 0, 0, None, late), Err(Error::Overflow));
    assert_eq!(queue_fee_policy(&mut admin, 0, 0, None, late - 1), Ok(()));
    assert_eq!(admin.pending_fee_policy.as_ref().unwrap().executable_at, u64::MAX);
}

#[test]
fn a_cancelled_policy_cannot_be_executed() {
    let env = quiet_env();
    let p = parties(&env);
    let mut admin = initialized(&p, 100, 0);
    assert_eq!(cancel_fee_policy(&mut admin), Err(Error::NothingQueued));
    queue_fee_policy(&mut admin, 0, 0, None, NOW).unwrap();
    assert_eq!(cancel_fee_policy(&mut admin), Ok(()));
    assert_eq!(admin.pending_fee_policy, None);
    assert_eq!(execute_fee_policy(&mut admin, u64::MAX), Err(Error::NothingQueued));
    assert_eq!(admin.fee_policy.as_ref().unwrap().platform_fee_bps, 100);
}

#[test]
fn execute_checks_the_cap_again() {
    let env = quiet_env();
    let p = parties(&env);
    let mut admin = initialized(&p, 0, 0);
    // A queue written by some other path, over the cap.
    admin.pending_fee_policy = Some(PendingFeePolicy {
        platform_fee_bps: 900,
        agent_owner_fee_bps: 900,
        platform_recipient: Some(p.platform.clone()),
        executable_at: NOW,
    });
    assert_eq!(execute_fee_policy(&mut admin, NOW), Err(Error::FeeCapExceeded));
    assert_eq!(admin.fee_policy.as_ref().unwrap().platform_fee_bps, 0);
    assert!(admin.pending_fee_policy.is_some());
}
