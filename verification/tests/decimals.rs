use soroban_sdk::testutils::{Address as _, EnvTestConfig};
use soroban_sdk::token::TokenClient;
use soroban_sdk::{Address, Env};

use mimir::market::admin::{get_usdc, initialize, AdminState};
use mimir::market::types::{Error, MIN_STAKE, USDC_DECIMALS, USDC_UNIT};
use mimir::squad::pool::{
    claim, claim_fees, create_market, deposit, get_usdc as squad_get_usdc,
    initialize as squad_initialize, resolve,
};
use mimir::squad::types::{
    Error as SquadError, PoolState, MAX_FEE_BPS, RESULT_CANCELLED, SIDE_A, SIDE_B,
    USDC_DECIMALS as SQUAD_USDC_DECIMALS,
};

/// One whole USDC in atomic units at the 7 decimals of a Stellar Asset Contract.
const USDC: i128 = 10_000_000;

const START_TIME: u64 = 1_700_000_000;
const DEFAULT_DURATION: u64 = 3_600;

/// A test ledger that leaves no snapshot file behind.
fn quiet_env() -> Env {
    Env::new_with_config(EnvTestConfig { capture_snapshot_at_drop: false })
}

/// `initialize` with a zero fee policy, so only the token's answer to
/// `decimals()` can make it fail.
fn try_init(env: &Env, admin: &mut AdminState, token: &Address, decimals: Option<u32>) -> Result<(), Error> {
    let who = Address::generate(env);
    initialize(admin, who.clone(), who, token.clone(), 0, 0, None, decimals)
}

fn try_squad_init(env: &Env, pool: &mut PoolState, token: &Address, decimals: Option<u32>) -> Result<(), SquadError> {
    let who = Address::generate(env);
    squad_initialize(pool, token.clone(), who.clone(), who, decimals)
}

#[test]
fn the_usdc_sac_reports_exactly_the_scale_the_constants_are_written_at() {
    let env = quiet_env();
    let sac = env.register_stellar_asset_contract_v2(Address::generate(&env));
    let decimals = TokenClient::new(&env, &sac.address()).decimals();
    assert_eq!(decimals, USDC_DECIMALS);
    assert_eq!(USDC_UNIT, 10i128.pow(decimals));
    assert_eq!(USDC_UNIT, USDC);
    assert_eq!(MIN_STAKE, 2 * 10i128.pow(decimals));
}

#[test]
fn initialize_rejects_a_token_at_any_other_scale() {
    for decimals in [0u32, 6, USDC_DECIMALS - 1, USDC_DECIMALS + 1, 18] {
        let env = quiet_env();
        let mut admin = AdminState::new();
        let token = Address::generate(&env);
        assert_eq!(
            try_init(&env, &mut admin, &token, Some(decimals)),
            Err(Error::UnsupportedDecimals),
            "a {decimals}-decimal token was accepted"
        );
        assert_eq!(get_usdc(&admin), Err(Error::NotInitialized));
    }
}

#[test]
fn initialize_accepts_exactly_the_usdc_scale() {
    let env = quiet_env();
    let mut admin = AdminState::new();
    let token = Address::generate(&env);
    assert_eq!(try_init(&env, &mut admin, &token, Some(USDC_DECIMALS)), Ok(()));
    assert_eq!(get_usdc(&admin), Ok(&token));
}

#[test]
fn a_rejected_initialize_leaves_the_market_initializable() {
    let env = quiet_env();
    let mut admin = AdminState::new();
    let wrong = Address::generate(&env);
    assert_eq!(try_init(&env, &mut admin, &wrong, Some(6)), Err(Error::UnsupportedDecimals));
    let sac = env.register_stellar_asset_contract_v2(Address::generate(&env)).address();
    let decimals = TokenClient::new(&env, &sac).decimals();
    assert_eq!(try_init(&env, &mut admin, &sac, Some(decimals)), Ok(()));
    assert_eq!(get_usdc(&admin), Ok(&sac));
}

#[test]
fn initialize_rejects_a_token_that_cannot_report_its_scale() {
    let env = quiet_env();
    let mut admin = AdminState::new();
    let no_decimals = Address::generate(&env);
    assert_eq!(try_init(&env, &mut admin, &no_decimals, None), Err(Error::UnsupportedToken));
    let nothing = Address::generate(&env);
    assert_eq!(try_init(&env, &mut admin, &nothing, None), Err(Error::UnsupportedToken));
    assert_eq!(get_usdc(&admin), Err(Error::NotInitialized));
}

#[test]
fn the_usdc_sac_reports_exactly_the_enforced_scale() {
    let env = quiet_env();
    let sac = env.register_stellar_asset_contract_v2(Address::generate(&env));
    assert_eq!(TokenClient::new(&env, &sac.address()).decimals(), SQUAD_USDC_DECIMALS);
}

#[test]
fn test_decimals_initialize_rejects_a_token_at_any_other_scale() {
    for decimals in [0u32, 6, SQUAD_USDC_DECIMALS - 1, SQUAD_USDC_DECIMALS + 1, 18] {
        let env = quiet_env();
        let mut pool = PoolState::new();
        let token = Address::generate(&env);
        assert_eq!(
            try_squad_init(&env, &mut pool, &token, Some(decimals)),
            Err(SquadError::UnsupportedDecimals),
            "a {decimals}-decimal token was accepted"
        );
        assert_eq!(squad_get_usdc(&pool), Err(SquadError::NotInitialized));
    }
}

#[test]
fn a_rejected_initialize_leaves_the_pool_initializable() {
    let env = quiet_env();
    let mut pool = PoolState::new();
    let wrong = Address::generate(&env);
    assert_eq!(try_squad_init(&env, &mut pool, &wrong, Some(6)), Err(SquadError::UnsupportedDecimals));
    let right = Address::generate(&env);
    assert_eq!(try_squad_init(&env, &mut pool, &right, Some(SQUAD_USDC_DECIMALS)), Ok(()));
    assert_eq!(squad_get_usdc(&pool), Ok(&right));
}

#[test]
fn test_decimals_initialize_rejects_a_token_that_cannot_report_its_scale() {
    let env = quiet_env();
    let mut pool = PoolState::new();
    let no_decimals = Address::generate(&env);
    assert_eq!(try_squad_init(&env, &mut pool, &no_decimals, None), Err(SquadError::UnsupportedToken));
    let nothing = Address::generate(&env);
    assert_eq!(try_squad_init(&env, &mut pool, &nothing, None), Err(SquadError::UnsupportedToken));
    assert_eq!(squad_get_usdc(&pool), Err(SquadError::NotInitialized));
}

/// Both pools together at exactly i64::MAX stroops, with the fee at its cap:
/// the products `claim` forms must fit, and the escrow must drain to the
/// stroop for either winning side and for a cancellation.
#[test]
fn pools_at_the_i64_ceiling_settle_exactly_without_overflow() {
    let a1_stake: i128 = (1 << 61) + 3;
    let a2_stake: i128 = (1 << 60) + 11;
    let b1_stake: i128 = (1 << 61) - 5;
    let b2_stake: i128 = i64::MAX as i128 - a1_stake - a2_stake - b1_stake;

    for result in [SIDE_A, SIDE_B, RESULT_CANCELLED] {
        let env = quiet_env();
        let mut pool = PoolState::new();
        let token = Address::generate(&env);
        try_squad_init(&env, &mut pool, &token, Some(SQUAD_USDC_DECIMALS)).unwrap();
        let captain = Address::generate(&env);
        let now = START_TIME;
        let (id, mut market) =
            create_market(&mut pool, captain, 13, now + DEFAULT_DURATION, MAX_FEE_BPS, now).unwrap();
        assert_eq!(id, 1);

        let deposits = [(SIDE_A, a1_stake), (SIDE_A, a2_stake), (SIDE_B, b1_stake), (SIDE_B, b2_stake)];
        let mut escrow: i128 = 0;
        for (side, amount) in deposits.iter() {
            let (next, balance) = deposit(&pool, Some(market), *side, *amount, 0, now).unwrap();
            assert_eq!(balance, *amount);
            market = next;
            escrow += amount;
        }
        assert_eq!(escrow, i64::MAX as i128);

        let now = now + DEFAULT_DURATION;
        market = resolve(&pool, Some(market), result, now).unwrap();

        let mut paid = 0;
        for (side, amount) in deposits.iter() {
            if result == RESULT_CANCELLED || *side == result {
                let (next, split, _) = claim(&mut pool, Some(market), *side, *amount, false).unwrap();
                market = next;
                assert!(split.net >= *amount);
                paid += split.net;
            }
        }
        let fees = if pool.accrued_fees > 0 { claim_fees(&mut pool).unwrap() } else { 0 };
        escrow -= paid + fees;

        assert_eq!(paid + fees, i64::MAX as i128, "result {result}");
        assert_eq!(escrow, 0, "result {result}");
        assert_eq!(market.remaining_escrow, 0, "result {result}");
    }
}
