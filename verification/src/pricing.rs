use vstd::prelude::*;

use crate::errors::ErrorCode;
use crate::math::add_u128;
use crate::math::mul_u128;
use crate::math::mul_u64;
use crate::math::sub_u64;
use crate::math::u64_of_u128;

verus! {

// Pricing engine: converts a deposit of value into minted mining-power
// units, under a selectable strategy, and subtracts the protocol fee before
// anything is credited. The fee is a supply-side tax on the mint, not a
// custody transfer.

/// One of the three interchangeable pricing strategies.
pub enum PricingStrategy {
    /// `minted = deposit * base_rate * 100 / (virtual_floor + pool_value)`,
    /// where `pool_value` is the vault balance and `virtual_floor` keeps the
    /// denominator away from zero at low locked value.
    Ratio { base_rate: u64, virtual_floor: u64 },
    /// Constant-product form
    /// `minted = deposit * curve_supply * psn / ((pool_value + virtual_reserve) * psnh)`,
    /// over engine-maintained virtual reserves; `pool_value` is the vault
    /// balance and `virtual_reserve` bounds early-stage price impact.
    BondingCurve { curve_supply: u64, psn: u64, psnh: u64, virtual_reserve: u64 },
    /// `minted = deposit * total_mining_power / (pool_value * 2)`, where the
    /// deposit and `pool_value` (the aggregate locked value) are both in a
    /// common USD unit; minted is zero while either total is zero.
    UsdNormalized,
}

/// USD-normalized mint: one percent of the network's mining power costs two
/// percent of the aggregate locked value. Zero while the pool or the network
/// is empty (the bootstrap case: a first depositor is minted nothing until a
/// seeding step sets nonzero power).
pub open spec fn mhs_for_usd_spec(usd_amount: int, total_mhs: int, tvl_usd: int) -> Result<
    u64,
    ErrorCode,
> {
    if tvl_usd == 0 || total_mhs == 0 {
        Ok(0u64)
    } else if usd_amount * total_mhs > u128::MAX {
        Err(ErrorCode::Overflow)
    } else if tvl_usd * 2 > u128::MAX {
        Err(ErrorCode::Overflow)
    } else if (usd_amount * total_mhs) / (tvl_usd * 2) > u64::MAX {
        Err(ErrorCode::Overflow)
    } else {
        Ok(((usd_amount * total_mhs) / (tvl_usd * 2)) as u64)
    }
}

pub fn calculate_mhs_for_usd(usd_amount: u128, total_mhs: u64, tvl_usd: u128) -> (r: Result<
    u64,
    ErrorCode,
>)
    ensures
        r == mhs_for_usd_spec(usd_amount as int, total_mhs as int, tvl_usd as int),
{
    if tvl_usd == 0 || total_mhs == 0 {
        return Ok(0);
    }
    let numerator = match mul_u128(usd_amount, total_mhs as u128) {
        Ok(v) => v,
        Err(e) => {
            return Err(e);
        },
    };
    let denominator = match mul_u128(tvl_usd, 2) {
        Ok(v) => v,
        Err(e) => {
            return Err(e);
        },
    };
    u64_of_u128(numerator / denominator)
}

/// Protocol fee split of a minted or settled total: `fee` is the given whole
/// percentage of the total, rounded down; the rest is credited or paid out.
/// Nothing is lost: on success `payout + fee == total` exactly.
pub open spec fn fee_split_spec(total: u64, fee_val: u8) -> Result<(u64, u64), ErrorCode> {
    if total * fee_val > u64::MAX {
        Err(ErrorCode::Overflow)
    } else {
        let fee = (total * fee_val) / 100;
        if total < fee {
            Err(ErrorCode::Overflow)
        } else {
            Ok(((total - fee) as u64, fee as u64))
        }
    }
}

pub fn fee_split(total: u64, fee_val: u8) -> (r: Result<(u64, u64), ErrorCode>)
    ensures
        r == fee_split_spec(total, fee_val),
        r matches Ok(pf) ==> pf.0 + pf.1 == total,
{
    let scaled = match mul_u64(total, fee_val as u64) {
        Ok(v) => v,
        Err(e) => {
            return Err(e);
        },
    };
    let fee = scaled / 100;
    let payout = match sub_u64(total, fee) {
        Ok(v) => v,
        Err(e) => {
            return Err(e);
        },
    };
    Ok((payout, fee))
}

/// TVL-ratio mint: `deposit * base_rate * 100 / (virtual_floor + pool_value)`.
/// The `* 100` scaling is later consumed by the whole-percent protocol fee.
pub open spec fn ratio_mint_spec(
    deposit_value: int,
    base_rate: u64,
    virtual_floor: u64,
    pool_value: int,
) -> Result<u64, ErrorCode> {
    if deposit_value * base_rate > u128::MAX {
        Err(ErrorCode::Overflow)
    } else if deposit_value * base_rate * 100 > u128::MAX {
        Err(ErrorCode::Overflow)
    } else if virtual_floor + pool_value > u128::MAX {
        Err(ErrorCode::Overflow)
    } else if virtual_floor + pool_value == 0 {
        Err(ErrorCode::DivisionByZero)
    } else if deposit_value * base_rate * 100 / (virtual_floor + pool_value) > u64::MAX {
        Err(ErrorCode::Overflow)
    } else {
        Ok((deposit_value * base_rate * 100 / (virtual_floor + pool_value)) as u64)
    }
}

/// Constant-product mint over virtual reserves:
/// `deposit * curve_supply * psn / ((pool_value + virtual_reserve) * psnh)`.
pub open spec fn bonding_mint_spec(
    deposit_value: int,
    curve_supply: u64,
    psn: u64,
    psnh: u64,
    virtual_reserve: u64,
    pool_value: int,
) -> Result<u64, ErrorCode> {
    if deposit_value * curve_supply > u128::MAX {
        Err(ErrorCode::Overflow)
    } else if deposit_value * curve_supply * psn > u128::MAX {
        Err(ErrorCode::Overflow)
    } else if pool_value + virtual_reserve > u128::MAX {
        Err(ErrorCode::Overflow)
    } else if (pool_value + virtual_reserve) * psnh > u128::MAX {
        Err(ErrorCode::Overflow)
    } else if (pool_value + virtual_reserve) * psnh == 0 {
        Err(ErrorCode::DivisionByZero)
    } else if deposit_value * curve_supply * psn / ((pool_value + virtual_reserve) * psnh)
        > u64::MAX {
        Err(ErrorCode::Overflow)
    } else {
        Ok((deposit_value * curve_supply * psn / ((pool_value + virtual_reserve) * psnh)) as u64)
    }
}

/// What `price_deposit` mints, per strategy, before the protocol fee.
pub open spec fn price_deposit_spec(
    strategy: PricingStrategy,
    deposit_value: int,
    total_mining_power: u64,
    pool_value: int,
) -> Result<u64, ErrorCode> {
    match strategy {
        PricingStrategy::Ratio { base_rate, virtual_floor } => ratio_mint_spec(
            deposit_value,
            base_rate,
            virtual_floor,
            pool_value,
        ),
        PricingStrategy::BondingCurve { curve_supply, psn, psnh, virtual_reserve } => bonding_mint_spec(
            deposit_value,
            curve_supply,
            psn,
            psnh,
            virtual_reserve,
            pool_value,
        ),
        PricingStrategy::UsdNormalized => mhs_for_usd_spec(
            deposit_value,
            total_mining_power as int,
            pool_value,
        ),
    }
}

/// Converts a deposit into minted mining-power units under the selected
/// strategy. `pool_value` is the vault balance for the ratio and
/// bonding-curve strategies, and the aggregate locked value in USD for the
/// USD-normalized strategy (with `deposit_value` then also in USD). The
/// protocol fee is not yet subtracted here; see `fee_split`.
pub fn price_deposit(
    strategy: &PricingStrategy,
    deposit_value: u128,
    total_mining_power: u64,
    pool_value: u128,
) -> (r: Result<u64, ErrorCode>)
    ensures
        r == price_deposit_spec(*strategy, deposit_value as int, total_mining_power, pool_value as int),
{
    match strategy {
        PricingStrategy::Ratio { base_rate, virtual_floor } => {
            let scaled = match mul_u128(deposit_value, *base_rate as u128) {
                Ok(v) => v,
                Err(e) => {
                    return Err(e);
                },
            };
            let numerator = match mul_u128(scaled, 100) {
                Ok(v) => v,
                Err(e) => {
                    return Err(e);
                },
            };
            let denominator = match add_u128(*virtual_floor as u128, pool_value) {
                Ok(v) => v,
                Err(e) => {
                    return Err(e);
                },
            };
            if denominator == 0 {
                return Err(ErrorCode::DivisionByZero);
            }
            u64_of_u128(numerator / denominator)
        },
        PricingStrategy::BondingCurve { curve_supply, psn, psnh, virtual_reserve } => {
            let scaled = match mul_u128(deposit_value, *curve_supply as u128) {
                Ok(v) => v,
                Err(e) => {
                    return Err(e);
                },
            };
            let numerator = match mul_u128(scaled, *psn as u128) {
                Ok(v) => v,
                Err(e) => {
                    return Err(e);
                },
            };
            let reserve = match add_u128(pool_value, *virtual_reserve as u128) {
                Ok(v) => v,
                Err(e) => {
                    return Err(e);
                },
            };
            let denominator = match mul_u128(reserve, *psnh as u128) {
                Ok(v) => v,
                Err(e) => {
                    return Err(e);
                },
            };
            if denominator == 0 {
                return Err(ErrorCode::DivisionByZero);
            }
            u64_of_u128(numerator / denominator)
        },
        PricingStrategy::UsdNormalized => calculate_mhs_for_usd(
            deposit_value,
            total_mining_power,
            pool_value,
        ),
    }
}

} // verus!
