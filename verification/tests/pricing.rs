use bakedbeans::errors::ErrorCode;
use bakedbeans::pricing::calculate_mhs_for_usd;
use bakedbeans::pricing::fee_split;
use bakedbeans::pricing::price_deposit;
use bakedbeans::pricing::PricingStrategy;

#[test]
fn ratio_mint_from_empty_vault_follows_the_formula() {
    // deposit 1 at base rate 1000 over an empty vault with a virtual floor:
    // minted before fee = 1 * 1000 * 100 / (10_000 + 0) = 10
    let strategy = PricingStrategy::Ratio { base_rate: 1000, virtual_floor: 10_000 };
    let minted = price_deposit(&strategy, 1, 0, 0).unwrap();
    assert_eq!(minted, 10);
    // after the 10% protocol fee, credited power is 90% of the mint
    let (credited, fee) = fee_split(minted, 10).unwrap();
    assert_eq!(credited, 9);
    assert_eq!(fee, 1);
}

#[test]
fn ratio_mint_without_floor_on_empty_vault_is_division_by_zero() {
    let strategy = PricingStrategy::Ratio { base_rate: 1000, virtual_floor: 0 };
    assert_eq!(price_deposit(&strategy, 1, 0, 0), Err(ErrorCode::DivisionByZero));
}

#[test]
fn bonding_mint_follows_the_constant_product_form() {
    // 100 * 10_000 * 10_000 / ((3_000 + 2_000) * 5_000) = 400
    let strategy = PricingStrategy::BondingCurve {
        curve_supply: 10_000,
        psn: 10_000,
        psnh: 5_000,
        virtual_reserve: 2_000,
    };
    assert_eq!(price_deposit(&strategy, 100, 0, 3_000), Ok(400));
}

#[test]
fn bonding_mint_with_empty_reserves_is_division_by_zero() {
    let strategy = PricingStrategy::BondingCurve {
        curve_supply: 10_000,
        psn: 10_000,
        psnh: 5_000,
        virtual_reserve: 0,
    };
    assert_eq!(price_deposit(&strategy, 100, 0, 0), Err(ErrorCode::DivisionByZero));
}

#[test]
fn usd_mint_is_half_the_pool_share() {
    // minted = usd * total / (tvl * 2): spending the whole pool's worth
    // buys half the outstanding power
    assert_eq!(calculate_mhs_for_usd(10_000_000_000, 1000, 10_000_000_000), Ok(500));
    let strategy = PricingStrategy::UsdNormalized;
    assert_eq!(price_deposit(&strategy, 10_000_000_000, 1000, 10_000_000_000), Ok(500));
}

#[test]
fn usd_mint_rounds_down() {
    // 230_000_000 * 1000 / (10_000_000_000 * 2) = 11.5 -> 11
    assert_eq!(calculate_mhs_for_usd(230_000_000, 1000, 10_000_000_000), Ok(11));
}

#[test]
fn usd_mint_is_zero_while_pool_or_network_is_empty() {
    assert_eq!(calculate_mhs_for_usd(500, 0, 1000), Ok(0));
    assert_eq!(calculate_mhs_for_usd(500, 1000, 0), Ok(0));
}

#[test]
fn usd_mint_overflowing_the_wide_product_is_an_error() {
    assert_eq!(
        calculate_mhs_for_usd(u128::MAX / 2, 4, 1),
        Err(ErrorCode::Overflow)
    );
}

#[test]
fn usd_mint_that_does_not_fit_64_bits_is_an_error() {
    // 2^70 * 2^10 / (1 * 2) = 2^79, far beyond 64 bits
    assert_eq!(
        calculate_mhs_for_usd(1u128 << 70, 1u64 << 10, 1),
        Err(ErrorCode::Overflow)
    );
}

#[test]
fn fee_split_conserves_the_total() {
    for total in [0u64, 1, 9, 10, 99, 100, 12_345, u64::MAX / 300] {
        let (payout, fee) = fee_split(total, 10).unwrap();
        assert_eq!(payout + fee, total);
        assert_eq!(fee, total * 10 / 100);
    }
}

#[test]
fn fee_split_overflow_is_an_error() {
    assert_eq!(fee_split(u64::MAX, 200), Err(ErrorCode::Overflow));
}
