use soroban_sdk::testutils::{Address as _, EnvTestConfig};
use soroban_sdk::{Address, Env};

use mimir::squad::pool::{
    claim, claim_fees, claim_in_range, create_market, create_market_in_range, deposit,
    deposit_in_range, initialize, preview_claim, preview_in_range, require_exact_intake,
    require_fee_recipient, require_oracle, require_side, resolve, resolve_in_range,
    split_in_range, withdraw_before_deadline, withdraw_in_range,
};
use mimir::squad::types::{
    ClaimResult, Error, Market, PoolState, MAX_DURATION, MAX_FEE_BPS, MAX_PARTICIPANTS_PER_SIDE,
    MIN_DURATION, RESULT_CANCELLED, SIDE_A, SIDE_B, USDC_DECIMALS,
};

const NOW: u64 = 1_700_000_000;
const DEADLINE: u64 = NOW + 3_600;

fn quiet_env() -> Env {
    Env::new_with_config(EnvTestConfig { capture_snapshot_at_drop: false })
}

fn ready_pool(env: &Env) -> PoolState {
    let mut pool = PoolState::new();
    initialize(
        &mut pool,
        Address::generate(env),
        Address::generate(env),
        Address::generate(env),
        Some(USDC_DECIMALS),
    )
    .unwrap();
    pool
}

/// A market with the given pools and depositor counts.
#[allow(clippy::too_many_arguments)]
fn market(
    env: &Env,
    fee_bps: u32,
    pool_a: i128,
    pool_b: i128,
    participants_a: u32,
    participants_b: u32,
) -> Market {
    Market {
        captain: Address::generate(env),
        deadline: DEADLINE,
        fee_bps,
        result: 0,
        resolved: false,
        pool_a,
        pool_b,
        remaining_escrow: 0,
        participants_a,
        participants_b,
        winner_claims: 0,
    }
}

/// `m` as the oracle left it after naming `result`.
fn resolved(mut m: Market, result: u32) -> Market {
    m.resolved = true;
    m.result = result;
    m.remaining_escrow = m.pool_a + m.pool_b;
    m
}

const ZERO: ClaimResult = ClaimResult { gross: 0, fee: 0, net: 0 };

#[test]
fn require_side_accepts_the_two_sides_only() {
    assert_eq!(require_side(SIDE_A), Ok(()));
    assert_eq!(require_side(SIDE_B), Ok(()));
    assert_eq!(require_side(0), Err(Error::BadSide));
    assert_eq!(require_side(RESULT_CANCELLED), Err(Error::BadSide));
}

#[test]
fn initialize_happens_once_and_records_the_parties() {
    let env = quiet_env();
    let mut pool = PoolState::new();
    assert_eq!(require_oracle(&pool), Err(Error::NotInitialized));
    assert_eq!(require_fee_recipient(&pool), Err(Error::NotInitialized));
    let (usdc, oracle, recipient) = (Address::generate(&env), Address::generate(&env), Address::generate(&env));
    assert_eq!(initialize(&mut pool, usdc.clone(), oracle.clone(), recipient.clone(), Some(7)), Ok(()));
    assert_eq!(require_oracle(&pool), Ok(&oracle));
    assert_eq!(require_fee_recipient(&pool), Ok(&recipient));
    let r = initialize(&mut pool, Address::generate(&env), Address::generate(&env), Address::generate(&env), Some(7));
    assert_eq!(r, Err(Error::AlreadyInitialized));
    assert_eq!(pool.usdc, Some(usdc));
}

#[test]
fn create_market_numbers_markets_from_one() {
    let env = quiet_env();
    let mut pool = PoolState::new();
    let captain = Address::generate(&env);
    let (id, m) = create_market(&mut pool, captain.clone(), 10, NOW + MIN_DURATION, MAX_FEE_BPS, NOW).unwrap();
    assert_eq!(id, 1);
    assert_eq!(m.captain, captain);
    assert_eq!((m.deadline, m.fee_bps, m.result, m.resolved), (NOW + MIN_DURATION, MAX_FEE_BPS, 0, false));
    assert_eq!((m.pool_a, m.pool_b, m.remaining_escrow), (0, 0, 0));
    assert_eq!((m.participants_a, m.participants_b, m.winner_claims), (0, 0, 0));
    let (id, _) = create_market(&mut pool, captain, 1, NOW + MAX_DURATION, 0, NOW).unwrap();
    assert_eq!(id, 2);
    assert_eq!(pool.market_count, 2);
}

#[test]
fn create_market_refusals() {
    let env = quiet_env();
    let mut pool = PoolState::new();
    let c = Address::generate(&env);
    assert_eq!(create_market(&mut pool, c.clone(), 0, DEADLINE, 0, NOW), Err(Error::EmptyQuestion));
    assert_eq!(create_market(&mut pool, c.clone(), 5, u64::MAX, 0, u64::MAX - MAX_DURATION + 1), Err(Error::Overflow));
    assert_eq!(create_market(&mut pool, c.clone(), 5, NOW + MIN_DURATION - 1, 0, NOW), Err(Error::BadDeadline));
    assert_eq!(create_market(&mut pool, c.clone(), 5, NOW + MAX_DURATION + 1, 0, NOW), Err(Error::BadDeadline));
    assert_eq!(create_market(&mut pool, c, 5, DEADLINE, MAX_FEE_BPS + 1, NOW), Err(Error::FeeCapExceeded));
    assert_eq!(pool.market_count, 0);
}

#[test]
fn create_market_in_range_guards_the_counter() {
    let mut pool = PoolState::new();
    assert!(create_market_in_range(&pool, 5, DEADLINE, 0, NOW));
    pool.market_count = u64::MAX;
    assert!(!create_market_in_range(&pool, 5, DEADLINE, 0, NOW));
    // A refused market never touches the counter.
    assert!(create_market_in_range(&pool, 0, DEADLINE, 0, NOW));
}

#[test]
fn a_first_deposit_takes_a_slot_and_a_top_up_does_not() {
    let env = quiet_env();
    let pool = ready_pool(&env);
    let m = market(&env, 0, 0, 0, 0, 0);
    let (m, balance) = deposit(&pool, Some(m), SIDE_A, 40, 0, NOW).unwrap();
    assert_eq!((balance, m.pool_a, m.participants_a, m.pool_b, m.participants_b), (40, 40, 1, 0, 0));
    let (m, balance) = deposit(&pool, Some(m), SIDE_A, 2, 40, NOW).unwrap();
    assert_eq!((balance, m.pool_a, m.participants_a), (42, 42, 1));
    let (m, balance) = deposit(&pool, Some(m), SIDE_B, 7, 0, NOW).unwrap();
    assert_eq!((balance, m.pool_b, m.participants_b, m.pool_a), (7, 7, 1, 42));
}

#[test]
fn deposit_refusals() {
    let env = quiet_env();
    let pool = ready_pool(&env);
    assert_eq!(deposit(&pool, None, SIDE_A, 1, 0, NOW), Err(Error::MarketNotFound));
    assert_eq!(deposit(&pool, Some(market(&env, 0, 0, 0, 0, 0)), SIDE_A, 1, 0, DEADLINE), Err(Error::MarketClosed));
    assert_eq!(deposit(&pool, Some(resolved(market(&env, 0, 1, 0, 1, 0), SIDE_A)), SIDE_A, 1, 0, NOW), Err(Error::MarketClosed));
    assert_eq!(deposit(&pool, Some(market(&env, 0, 0, 0, 0, 0)), 3, 1, 0, NOW), Err(Error::BadSide));
    assert_eq!(deposit(&pool, Some(market(&env, 0, 0, 0, 0, 0)), SIDE_A, 0, 0, NOW), Err(Error::ZeroAmount));
    let full = market(&env, 0, 200, 0, MAX_PARTICIPANTS_PER_SIDE, 0);
    assert_eq!(deposit(&pool, Some(full), SIDE_A, 1, 0, NOW), Err(Error::SideFull));
    // A depositor already on a full side may still top up.
    let full = market(&env, 0, 200, 0, MAX_PARTICIPANTS_PER_SIDE, 0);
    assert_eq!(deposit(&pool, Some(full), SIDE_A, 1, 1, NOW).map(|(m, b)| (m.pool_a, b)), Ok((201, 2)));
    let bare = PoolState::new();
    assert_eq!(deposit(&bare, Some(market(&env, 0, 0, 0, 0, 0)), SIDE_A, 1, 0, NOW), Err(Error::NotInitialized));
}

#[test]
fn deposit_in_range_guards_the_sums() {
    let env = quiet_env();
    let pool = ready_pool(&env);
    assert!(deposit_in_range(&pool, &Some(market(&env, 0, 0, 0, 0, 0)), SIDE_A, 5, 0, NOW));
    assert!(!deposit_in_range(&pool, &Some(market(&env, 0, i128::MAX, 0, 1, 0)), SIDE_A, 5, 0, NOW));
    assert!(!deposit_in_range(&pool, &Some(market(&env, 0, 0, 0, 0, 0)), SIDE_A, 5, i128::MAX, NOW));
    // A refused deposit adds nothing.
    assert!(deposit_in_range(&pool, &Some(market(&env, 0, i128::MAX, 0, 1, 0)), SIDE_A, 0, 0, NOW));
}

#[test]
fn withdrawing_a_deposit_undoes_it() {
    let env = quiet_env();
    let pool = ready_pool(&env);
    let (m, balance) = deposit(&pool, Some(market(&env, 0, 10, 20, 1, 1)), SIDE_B, 5, 0, NOW).unwrap();
    let (m, balance) = withdraw_before_deadline(&pool, Some(m), SIDE_B, 5, balance, NOW).unwrap();
    assert_eq!(balance, 0);
    assert_eq!((m.pool_a, m.pool_b, m.participants_a, m.participants_b), (10, 20, 1, 1));
}

#[test]
fn a_partial_withdrawal_keeps_the_slot() {
    let env = quiet_env();
    let pool = ready_pool(&env);
    let (m, balance) = withdraw_before_deadline(&pool, Some(market(&env, 0, 30, 0, 2, 0)), SIDE_A, 4, 10, NOW).unwrap();
    assert_eq!((balance, m.pool_a, m.participants_a), (6, 26, 2));
    let (m, balance) = withdraw_before_deadline(&pool, Some(m), SIDE_A, 6, 6, NOW).unwrap();
    assert_eq!((balance, m.pool_a, m.participants_a), (0, 20, 1));
}

#[test]
fn withdraw_refusals() {
    let env = quiet_env();
    let pool = ready_pool(&env);
    assert_eq!(withdraw_before_deadline(&pool, None, 0, 1, 1, NOW), Err(Error::BadSide));
    assert_eq!(withdraw_before_deadline(&pool, None, SIDE_A, 1, 1, NOW), Err(Error::MarketNotFound));
    let m = market(&env, 0, 5, 0, 1, 0);
    assert_eq!(withdraw_before_deadline(&pool, Some(m), SIDE_A, 1, 5, DEADLINE), Err(Error::Locked));
    let m = market(&env, 0, 5, 0, 1, 0);
    assert_eq!(withdraw_before_deadline(&pool, Some(m), SIDE_A, 6, 5, NOW), Err(Error::BadAmount));
    let m = market(&env, 0, 5, 0, 1, 0);
    assert_eq!(withdraw_before_deadline(&pool, Some(m), SIDE_A, -1, 5, NOW), Err(Error::BadAmount));
    let m = market(&env, 0, 5, 0, 1, 0);
    assert_eq!(withdraw_before_deadline(&PoolState::new(), Some(m), SIDE_A, 1, 5, NOW), Err(Error::NotInitialized));
}

#[test]
fn withdraw_in_range_guards_the_pool_and_the_count() {
    let env = quiet_env();
    let pool = ready_pool(&env);
    assert!(withdraw_in_range(&pool, &Some(market(&env, 0, 5, 0, 1, 0)), SIDE_A, 5, 5, NOW));
    assert!(!withdraw_in_range(&pool, &Some(market(&env, 0, 5, 0, 0, 0)), SIDE_A, 5, 5, NOW));
    assert!(!withdraw_in_range(&pool, &Some(market(&env, 0, i128::MIN, 0, 1, 0)), SIDE_A, 1, 5, NOW));
}

#[test]
fn resolve_seeds_the_escrow_with_both_pools() {
    let env = quiet_env();
    let pool = ready_pool(&env);
    let m = resolve(&pool, Some(market(&env, 0, 300, 700, 2, 3)), SIDE_B, DEADLINE).unwrap();
    assert_eq!((m.resolved, m.result, m.remaining_escrow), (true, SIDE_B, 1_000));
    let m = resolve(&pool, Some(market(&env, 0, 0, 0, 0, 0)), RESULT_CANCELLED, DEADLINE).unwrap();
    assert_eq!((m.resolved, m.result, m.remaining_escrow), (true, RESULT_CANCELLED, 0));
}

#[test]
fn resolve_refusals() {
    let env = quiet_env();
    let pool = ready_pool(&env);
    assert_eq!(resolve(&PoolState::new(), None, SIDE_A, DEADLINE), Err(Error::NotInitialized));
    assert_eq!(resolve(&pool, None, SIDE_A, DEADLINE), Err(Error::MarketNotFound));
    assert_eq!(resolve(&pool, Some(market(&env, 0, 1, 1, 1, 1)), SIDE_A, DEADLINE - 1), Err(Error::NotResolvable));
    let done = resolved(market(&env, 0, 1, 1, 1, 1), SIDE_A);
    assert_eq!(resolve(&pool, Some(done), SIDE_A, DEADLINE), Err(Error::NotResolvable));
    assert_eq!(resolve(&pool, Some(market(&env, 0, 1, 1, 1, 1)), 0, DEADLINE), Err(Error::BadResult));
    assert_eq!(resolve(&pool, Some(market(&env, 0, 1, 0, 1, 0)), SIDE_B, DEADLINE), Err(Error::EmptyWinner));
}

#[test]
fn resolve_in_range_guards_the_total() {
    let env = quiet_env();
    let pool = ready_pool(&env);
    assert!(resolve_in_range(&pool, &Some(market(&env, 0, 1, 1, 1, 1)), SIDE_A, DEADLINE));
    assert!(!resolve_in_range(&pool, &Some(market(&env, 0, i128::MAX, 1, 1, 1)), SIDE_A, DEADLINE));
}

#[test]
fn a_winner_gets_its_pro_rata_share_less_a_fee_on_profit() {
    let env = quiet_env();
    let mut pool = ready_pool(&env);
    // Side A holds 300 from two depositors, side B 700; A wins.
    let m = resolved(market(&env, MAX_FEE_BPS, 300, 700, 2, 3), SIDE_A);
    let (m, split, settled) = claim(&mut pool, Some(m), SIDE_A, 100, false).unwrap();
    assert!(settled);
    // 1000 * 100 / 300 = 333; profit 233; 10% of it is 23.
    assert_eq!(split, ClaimResult { gross: 333, fee: 23, net: 310 });
    assert_eq!((m.remaining_escrow, m.winner_claims), (667, 1));
    assert_eq!(pool.accrued_fees, 23);
    // The last winner takes what is left: 667; profit 467; fee 46.
    let (m, split, settled) = claim(&mut pool, Some(m), SIDE_A, 200, false).unwrap();
    assert!(settled);
    assert_eq!(split, ClaimResult { gross: 667, fee: 46, net: 621 });
    assert_eq!((m.remaining_escrow, m.winner_claims), (0, 2));
    assert_eq!(pool.accrued_fees, 69);
    assert_eq!(310 + 621 + 69, 1_000);
}

#[test]
fn a_cancellation_refunds_the_principal_without_fee() {
    let env = quiet_env();
    let mut pool = ready_pool(&env);
    let m = resolved(market(&env, MAX_FEE_BPS, 300, 700, 2, 3), RESULT_CANCELLED);
    let (m, split, settled) = claim(&mut pool, Some(m), SIDE_B, 250, false).unwrap();
    assert!(settled);
    assert_eq!(split, ClaimResult { gross: 250, fee: 0, net: 250 });
    assert_eq!((m.remaining_escrow, m.winner_claims), (750, 0));
    assert_eq!(pool.accrued_fees, 0);
    // The settled record refuses a second claim of the same position.
    assert_eq!(claim(&mut pool, Some(m), SIDE_B, 250, settled), Err(Error::AlreadyClaimed));
    assert_eq!(pool.accrued_fees, 0);
}

#[test]
fn claim_refusals() {
    let env = quiet_env();
    let mut pool = ready_pool(&env);
    assert_eq!(claim(&mut pool, None, 0, 1, false), Err(Error::BadSide));
    assert_eq!(claim(&mut pool, None, SIDE_A, 1, false), Err(Error::MarketNotFound));
    assert_eq!(claim(&mut pool, Some(market(&env, 0, 1, 1, 1, 1)), SIDE_A, 1, false), Err(Error::NotClaimable));
    let won = || resolved(market(&env, 0, 10, 10, 1, 1), SIDE_A);
    assert_eq!(claim(&mut pool, Some(won()), SIDE_A, 10, true), Err(Error::AlreadyClaimed));
    assert_eq!(claim(&mut pool, Some(won()), SIDE_A, 0, false), Err(Error::NotWinner));
    assert_eq!(claim(&mut pool, Some(won()), SIDE_B, 10, false), Err(Error::NotWinner));
    let mut bare = PoolState::new();
    assert_eq!(claim(&mut bare, Some(won()), SIDE_A, 10, false), Err(Error::NotInitialized));
    // A share whose product overflows is refused.
    let huge = resolved(market(&env, 0, i128::MAX / 2, i128::MAX / 2, 2, 1), SIDE_A);
    assert_eq!(claim(&mut pool, Some(huge), SIDE_A, 4, false), Err(Error::Overflow));
    assert_eq!(pool.accrued_fees, 0);
}

#[test]
fn claim_in_range_guards_the_escrow_and_the_fees() {
    let env = quiet_env();
    let pool = ready_pool(&env);
    let ok = resolved(market(&env, 0, 10, 10, 1, 1), SIDE_A);
    assert!(claim_in_range(&pool, &Some(ok), SIDE_A, 10, false));
    let mut short = resolved(market(&env, 0, 10, 10, 1, 1), RESULT_CANCELLED);
    short.remaining_escrow = i128::MIN + 5;
    assert!(!claim_in_range(&pool, &Some(short), SIDE_A, 10, false));
    // Where the claim is refused first, nothing traps.
    let mut short = resolved(market(&env, 0, 10, 10, 1, 1), RESULT_CANCELLED);
    short.remaining_escrow = i128::MIN + 5;
    assert!(claim_in_range(&pool, &Some(short), SIDE_A, 10, true));
    let zero_pool = resolved(market(&env, 0, 0, 10, 2, 1), SIDE_A);
    assert!(!split_in_range(&zero_pool, 5));
}

#[test]
fn claim_fees_hands_over_and_resets_the_accrual() {
    let env = quiet_env();
    let mut pool = ready_pool(&env);
    assert_eq!(claim_fees(&mut pool), Err(Error::NoFees));
    pool.accrued_fees = 69;
    assert_eq!(claim_fees(&mut pool), Ok(69));
    assert_eq!(pool.accrued_fees, 0);
    let mut bare = PoolState::new();
    assert_eq!(claim_fees(&mut bare), Err(Error::NotInitialized));
}

#[test]
fn a_preview_matches_the_claim() {
    let env = quiet_env();
    let mut pool = ready_pool(&env);
    let m = resolved(market(&env, MAX_FEE_BPS, 300, 700, 2, 3), SIDE_A);
    assert_eq!(preview_claim(Some(m), SIDE_A, 100), Ok(ClaimResult { gross: 333, fee: 23, net: 310 }));
    let m = resolved(market(&env, MAX_FEE_BPS, 300, 700, 2, 3), SIDE_A);
    let (_, split, _) = claim(&mut pool, Some(m), SIDE_A, 100, false).unwrap();
    assert_eq!(split, ClaimResult { gross: 333, fee: 23, net: 310 });
}

#[test]
fn a_preview_is_zero_where_nothing_is_owed() {
    let env = quiet_env();
    assert_eq!(preview_claim(None, SIDE_A, 1), Err(Error::MarketNotFound));
    assert_eq!(preview_claim(Some(market(&env, 0, 1, 1, 1, 1)), SIDE_A, 1), Ok(ZERO));
    assert_eq!(preview_claim(Some(resolved(market(&env, 0, 1, 1, 1, 1), SIDE_A)), SIDE_A, 0), Ok(ZERO));
    assert_eq!(preview_claim(Some(resolved(market(&env, 0, 1, 1, 1, 1), SIDE_A)), SIDE_B, 1), Ok(ZERO));
    let refund = resolved(market(&env, 0, 1, 1, 1, 1), RESULT_CANCELLED);
    assert_eq!(preview_claim(Some(refund), SIDE_B, 1), Ok(ClaimResult { gross: 1, fee: 0, net: 1 }));
    assert!(preview_in_range(&Some(market(&env, 0, 1, 1, 1, 1)), SIDE_A, 1));
}

#[test]
fn intake_must_match_the_transfer_exactly() {
    assert_eq!(require_exact_intake(100, 150, 50), Ok(()));
    assert_eq!(require_exact_intake(100, 149, 50), Err(Error::UnsupportedToken));
    assert_eq!(require_exact_intake(100, 151, 50), Err(Error::UnsupportedToken));
    assert_eq!(require_exact_intake(-1, i128::MAX, 50), Err(Error::UnsupportedToken));
}
