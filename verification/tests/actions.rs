use bakedbeans::actions::buy_mining_power;
use bakedbeans::actions::buy_with_gpu;
use bakedbeans::errors::ErrorCode;
use bakedbeans::state::init_user;
use bakedbeans::state::initialize;
use bakedbeans::state::update_prices;
use bakedbeans::state::GlobalState;
use bakedbeans::state::UserState;

const SOL_PRICE: u64 = 10_000_000_000; // $100.00000000
const GPU_PRICE: u64 = 100_000_000; // $1.00000000

fn priced_global(total_power: u64) -> GlobalState {
    let g = initialize(1, 1, 2).unwrap();
    let g = update_prices(g, SOL_PRICE, GPU_PRICE).unwrap();
    GlobalState { total_mining_power: total_power, ..g }
}

fn fresh_user() -> UserState {
    init_user(3, 0)
}

#[test]
fn buy_credits_the_priced_mint_net_of_fee() {
    // 1 SOL at $100 into a vault already holding 1 SOL (the deposit
    // included): deposit worth $100, pool worth $100, so the mint is
    // 1e10 * 1000 / (1e10 * 2) = 500; the 10% fee leaves 450 credited
    let g = priced_global(1000);
    let u = fresh_user();
    let (g2, u2, r2) = buy_mining_power(
        g,
        u,
        None,
        3,
        1_000_000_000,
        None,
        1_000_000_000,
        0,
        777,
    )
    .unwrap();
    assert_eq!(u2.mining_power, 450);
    assert_eq!(g2.total_mining_power, 1450);
    assert_eq!(u2.last_claim, 777);
    assert_eq!(r2, None);
    // the global counter moved by exactly the buyer's change
    assert_eq!(
        g2.total_mining_power - g.total_mining_power,
        u2.mining_power - u.mining_power
    );
}

#[test]
fn buy_into_an_empty_network_mints_nothing() {
    // bootstrap case: with zero outstanding power the mint is zero, and
    // the buy still succeeds
    let g = priced_global(0);
    let u = fresh_user();
    let (g2, u2, _) = buy_mining_power(
        g,
        u,
        None,
        3,
        1_000_000_000,
        None,
        1_000_000_000,
        0,
        777,
    )
    .unwrap();
    assert_eq!(u2.mining_power, 0);
    assert_eq!(g2.total_mining_power, 0);
}

#[test]
fn buy_pays_the_referral_bonus_to_a_present_referrer() {
    let g = priced_global(1000);
    let u = fresh_user();
    let referrer = UserState { mining_power: 40, ..init_user(9, 0) };
    let (g2, u2, r2) = buy_mining_power(
        g,
        u,
        Some(referrer),
        3,
        1_000_000_000,
        Some(9),
        1_000_000_000,
        0,
        777,
    )
    .unwrap();
    // credited 450; bonus 450 / 20 = 22
    assert_eq!(u2.mining_power, 450);
    assert_eq!(u2.referrer, Some(9));
    let r2 = r2.unwrap();
    assert_eq!(r2.mining_power, 62);
    assert_eq!(g2.total_mining_power, 1000 + 450 + 22);
}

#[test]
fn buy_without_a_resolvable_referrer_skips_the_bonus() {
    let g = priced_global(1000);
    let u = fresh_user();
    let (g2, u2, r2) = buy_mining_power(
        g,
        u,
        None,
        3,
        1_000_000_000,
        Some(9),
        1_000_000_000,
        0,
        777,
    )
    .unwrap();
    // the relation still binds, but nothing is minted for the absentee
    assert_eq!(u2.referrer, Some(9));
    assert_eq!(r2, None);
    assert_eq!(g2.total_mining_power, 1450);
}

#[test]
fn buy_requires_an_initialized_ledger() {
    let g = GlobalState { initialized: false, ..priced_global(1000) };
    assert_eq!(
        buy_mining_power(g, fresh_user(), None, 3, 1, None, 1, 0, 0),
        Err(ErrorCode::NotInitialized)
    );
}

#[test]
fn buy_rejects_a_zero_amount() {
    let g = priced_global(1000);
    assert_eq!(
        buy_mining_power(g, fresh_user(), None, 3, 0, None, 1, 0, 0),
        Err(ErrorCode::InvalidAmount)
    );
}

#[test]
fn buy_requires_the_price_oracle() {
    let g = GlobalState { total_mining_power: 1000, ..initialize(1, 1, 2).unwrap() };
    assert_eq!(
        buy_mining_power(g, fresh_user(), None, 3, 1, None, 1, 0, 0),
        Err(ErrorCode::PriceNotSet)
    );
}

#[test]
fn gpu_buy_pays_the_penalty_surcharge() {
    // 2 GPU tokens at $1 are worth $2.00000000; the 15% penalty prices
    // them as $2.30000000, so the mint is 2.3e8 * 1000 / (1e10 * 2) = 11,
    // and the 10% fee leaves 10 credited
    let g = priced_global(1000);
    let u = fresh_user();
    let (g2, u2, _) = buy_with_gpu(
        g,
        u,
        None,
        3,
        2_000_000,
        None,
        1_000_000_000,
        0,
        777,
    )
    .unwrap();
    assert_eq!(u2.mining_power, 10);
    assert_eq!(g2.total_mining_power, 1010);
    assert_eq!(u2.last_claim, 777);
}

#[test]
fn gpu_buy_pays_the_referral_bonus_unconditionally_when_present() {
    let g = priced_global(100_000);
    let u = fresh_user();
    let referrer = init_user(9, 0);
    // $2000 of tokens with penalty prices as $2300: mint = 2.3e11 * 1e5 /
    // (1e10 * 2) = 1_150_000; fee leaves 1_035_000; bonus 51_750
    let (g2, u2, r2) = buy_with_gpu(
        g,
        u,
        Some(referrer),
        3,
        2_000_000_000,
        Some(9),
        1_000_000_000,
        0,
        777,
    )
    .unwrap();
    assert_eq!(u2.mining_power, 1_035_000);
    let r2 = r2.unwrap();
    assert_eq!(r2.mining_power, 51_750);
    assert_eq!(g2.total_mining_power, 100_000 + 1_035_000 + 51_750);
}

#[test]
fn gpu_buy_requires_both_prices() {
    let g = GlobalState { total_mining_power: 1000, ..initialize(1, 1, 2).unwrap() };
    assert_eq!(
        buy_with_gpu(g, fresh_user(), None, 3, 1, None, 1, 0, 0),
        Err(ErrorCode::PriceNotSet)
    );
    let g = GlobalState { gpu_usd_price: GPU_PRICE, ..g };
    assert_eq!(
        buy_with_gpu(g, fresh_user(), None, 3, 1, None, 1, 0, 0),
        Err(ErrorCode::PriceNotSet)
    );
}

#[test]
fn buy_with_self_as_referrer_is_refused() {
    let g = priced_global(1000);
    assert_eq!(
        buy_mining_power(g, fresh_user(), None, 3, 1_000_000_000, Some(3), 1_000_000_000, 0, 0),
        Err(ErrorCode::SelfReferral)
    );
}
