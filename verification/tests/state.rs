use bakedbeans::errors::ErrorCode;
use bakedbeans::state::initialize;
use bakedbeans::state::init_user;
use bakedbeans::state::reset_user_power;
use bakedbeans::state::set_gpu_token;
use bakedbeans::state::update_prices;
use bakedbeans::state::GlobalState;
use bakedbeans::state::UserState;

fn fresh_global() -> GlobalState {
    initialize(1, 1, 2).unwrap()
}

#[test]
fn initialize_sets_genesis_state() {
    let g = initialize(1_000_000, 7, 8).unwrap();
    assert_eq!(g.authority, 7);
    assert_eq!(g.dev_wallet, 8);
    assert_eq!(g.total_mining_power, 0);
    assert_eq!(g.total_unclaimed_sol, 0);
    assert_eq!(g.total_unclaimed_gpu, 0);
    assert!(g.initialized);
    assert_eq!(g.daily_pool_percentage, 10);
    assert_eq!(g.base_buy_rate, 1000);
    assert_eq!(g.protocol_fee_val, 10);
    assert_eq!(g.gpu_penalty_bps, 1500);
    assert_eq!(g.sol_usd_price, 0);
    assert_eq!(g.gpu_usd_price, 0);
    assert_eq!(g.gpu_token_mint, 0);
}

#[test]
fn initialize_rejects_zero_seed() {
    assert_eq!(initialize(0, 1, 2), Err(ErrorCode::InvalidSeedAmount));
}

#[test]
fn init_user_zeroes_everything_and_stamps_watermark() {
    let u = init_user(42, 1_700_000_000);
    assert_eq!(u.owner, 42);
    assert_eq!(u.mining_power, 0);
    assert_eq!(u.unclaimed_earnings, 0);
    assert_eq!(u.unclaimed_gpu_earnings, 0);
    assert_eq!(u.last_claim, 1_700_000_000);
    assert_eq!(u.referrer, None);
    assert_eq!(u.total_sol_claimed, 0);
    assert_eq!(u.total_gpu_claimed, 0);
}

#[test]
fn update_prices_sets_both_prices() {
    let g = fresh_global();
    let g2 = update_prices(g, 10_000_000_000, 100_000_000).unwrap();
    assert_eq!(g2.sol_usd_price, 10_000_000_000);
    assert_eq!(g2.gpu_usd_price, 100_000_000);
    // nothing else moved
    assert_eq!(
        GlobalState { sol_usd_price: 0, gpu_usd_price: 0, ..g2 },
        g
    );
}

#[test]
fn update_prices_rejects_zero_sol_price() {
    let g = fresh_global();
    assert_eq!(update_prices(g, 0, 100_000_000), Err(ErrorCode::InvalidAmount));
}

#[test]
fn update_prices_rejects_zero_gpu_price() {
    let g = fresh_global();
    assert_eq!(update_prices(g, 10_000_000_000, 0), Err(ErrorCode::InvalidAmount));
}

#[test]
fn set_gpu_token_sets_mint() {
    let g = fresh_global();
    let g2 = set_gpu_token(g, 99).unwrap();
    assert_eq!(g2.gpu_token_mint, 99);
    assert_eq!(GlobalState { gpu_token_mint: 0, ..g2 }, g);
}

#[test]
fn set_gpu_token_rejects_unset_identity() {
    let g = fresh_global();
    assert_eq!(set_gpu_token(g, 0), Err(ErrorCode::InvalidAmount));
}

#[test]
fn reset_user_power_zeroes_user_and_adjusts_total() {
    let g = GlobalState { total_mining_power: 500, ..fresh_global() };
    let u = UserState {
        mining_power: 120,
        unclaimed_earnings: 7,
        unclaimed_gpu_earnings: 9,
        total_sol_claimed: 33,
        ..init_user(5, 10)
    };
    let (g2, u2) = reset_user_power(g, u).unwrap();
    assert_eq!(g2.total_mining_power, 380);
    assert_eq!(u2.mining_power, 0);
    assert_eq!(u2.unclaimed_earnings, 0);
    assert_eq!(u2.unclaimed_gpu_earnings, 0);
    // audit counter and watermark survive the reset
    assert_eq!(u2.total_sol_claimed, 33);
    assert_eq!(u2.last_claim, 10);
}

#[test]
fn reset_user_power_underflow_is_overflow_error() {
    let g = GlobalState { total_mining_power: 50, ..fresh_global() };
    let u = UserState { mining_power: 120, ..init_user(5, 10) };
    assert_eq!(reset_user_power(g, u), Err(ErrorCode::Overflow));
}
