use vstd::prelude::*;

use crate::errors::ErrorCode;
use crate::math::add_u128;
use crate::math::add_u64;
use crate::math::mul_u128;
use crate::math::mul_wide;
use crate::pricing::calculate_mhs_for_usd;
use crate::pricing::fee_split_spec;
use crate::pricing::fee_split;
use crate::pricing::mhs_for_usd_spec;
use crate::referral::apply_referral_bonus;
use crate::referral::apply_referral_bonus_spec;
use crate::referral::bind_referrer;
use crate::referral::bind_referrer_spec;
use crate::state::AccountId;
use crate::state::GlobalState;
use crate::state::UserState;

verus! {

// Buy actions: a deposit is priced into minted mining power under the
// USD-normalized strategy, the protocol fee is subtracted, the remainder is
// credited to the buyer, and an optional referral bonus is minted on top.
// The deposits themselves are custody and move host-side; the engine
// consumes the observed vault balances and the deposit amount as values.

/// Crediting a mint: the protocol fee leaves the minted units (a supply-side
/// tax, transferred nowhere), the rest joins the buyer's power and the
/// global total, and the buyer's watermark advances. Returns the new global
/// and buyer states and the credited (post-fee) units.
pub open spec fn credit_minted_spec(g: GlobalState, u: UserState, mhs_bought: u64, now: i64) -> Result<
    (GlobalState, UserState, u64),
    ErrorCode,
> {
    match fee_split_spec(mhs_bought, g.protocol_fee_val) {
        Err(e) => Err(e),
        Ok(pf) => {
            if u.mining_power + pf.0 > u64::MAX {
                Err(ErrorCode::Overflow)
            } else if g.total_mining_power + pf.0 > u64::MAX {
                Err(ErrorCode::Overflow)
            } else {
                Ok(
                    (
                        GlobalState {
                            total_mining_power: (g.total_mining_power + pf.0) as u64,
                            ..g
                        },
                        UserState {
                            mining_power: (u.mining_power + pf.0) as u64,
                            last_claim: now,
                            ..u
                        },
                        pf.0,
                    ),
                )
            }
        },
    }
}

pub fn credit_minted(g: GlobalState, u: UserState, mhs_bought: u64, now: i64) -> (r: Result<
    (GlobalState, UserState, u64),
    ErrorCode,
>)
    ensures
        r == credit_minted_spec(g, u, mhs_bought, now),
{
    let (after_fee, _fee) = match fee_split(mhs_bought, g.protocol_fee_val) {
        Ok(v) => v,
        Err(e) => {
            return Err(e);
        },
    };
    let mining_power = match add_u64(u.mining_power, after_fee) {
        Ok(v) => v,
        Err(e) => {
            return Err(e);
        },
    };
    let total_mining_power = match add_u64(g.total_mining_power, after_fee) {
        Ok(v) => v,
        Err(e) => {
            return Err(e);
        },
    };
    Ok(
        (
            GlobalState { total_mining_power, ..g },
            UserState { mining_power, last_claim: now, ..u },
            after_fee,
        ),
    )
}

/// A primary-asset buy.
///
/// `vault_balance` is the primary vault as observed after the deposit has
/// moved in (the deposit backs the pool it is priced against);
/// `gpu_vault_balance` is the token vault. Both balances and the deposit
/// are first normalized to USD, the aggregate is the pool the
/// USD-normalized strategy prices against, and the credited units are the
/// mint net of the protocol fee. A present `referrer_state` (the host
/// resolved a bound, initialized referrer account) receives the bonus; an
/// absent one skips the bonus silently.
pub open spec fn buy_mining_power_spec(
    g: GlobalState,
    u: UserState,
    referrer_state: Option<UserState>,
    buyer: AccountId,
    amount: u64,
    referrer: Option<AccountId>,
    vault_balance: u64,
    gpu_vault_balance: u64,
    now: i64,
) -> Result<(GlobalState, UserState, Option<UserState>), ErrorCode> {
    if !g.initialized {
        Err(ErrorCode::NotInitialized)
    } else if amount == 0 {
        Err(ErrorCode::InvalidAmount)
    } else if g.sol_usd_price == 0 {
        Err(ErrorCode::PriceNotSet)
    } else {
        match bind_referrer_spec(u, buyer, referrer) {
            Err(e) => Err(e),
            Ok(u1) => {
                let sol_usd_value = (amount * g.sol_usd_price) / 1_000_000_000;
                let sol_tvl_usd = (vault_balance * g.sol_usd_price) / 1_000_000_000;
                let gpu_tvl_usd = (gpu_vault_balance * g.gpu_usd_price) / 1_000_000;
                if sol_tvl_usd + gpu_tvl_usd > u128::MAX {
                    Err(ErrorCode::Overflow)
                } else {
                    match mhs_for_usd_spec(
                        sol_usd_value,
                        g.total_mining_power as int,
                        sol_tvl_usd + gpu_tvl_usd,
                    ) {
                        Err(e) => Err(e),
                        Ok(mhs_bought) => match credit_minted_spec(g, u1, mhs_bought, now) {
                            Err(e) => Err(e),
                            Ok(cr) => match referrer_state {
                                None => Ok((cr.0, cr.1, None)),
                                Some(r) => match apply_referral_bonus_spec(cr.0, r, cr.2) {
                                    Err(e) => Err(e),
                                    Ok(gr) => Ok((gr.0, cr.1, Some(gr.1))),
                                },
                            },
                        },
                    }
                }
            },
        }
    }
}

pub fn buy_mining_power(
    g: GlobalState,
    u: UserState,
    referrer_state: Option<UserState>,
    buyer: AccountId,
    amount: u64,
    referrer: Option<AccountId>,
    vault_balance: u64,
    gpu_vault_balance: u64,
    now: i64,
) -> (r: Result<(GlobalState, UserState, Option<UserState>), ErrorCode>)
    ensures
        r == buy_mining_power_spec(
            g,
            u,
            referrer_state,
            buyer,
            amount,
            referrer,
            vault_balance,
            gpu_vault_balance,
            now,
        ),
{
    if !g.initialized {
        return Err(ErrorCode::NotInitialized);
    }
    if amount == 0 {
        return Err(ErrorCode::InvalidAmount);
    }
    if g.sol_usd_price == 0 {
        return Err(ErrorCode::PriceNotSet);
    }
    let u1 = match bind_referrer(u, buyer, referrer) {
        Ok(v) => v,
        Err(e) => {
            return Err(e);
        },
    };
    let sol_usd_value = mul_wide(amount, g.sol_usd_price) / 1_000_000_000;
    let sol_tvl_usd = mul_wide(vault_balance, g.sol_usd_price) / 1_000_000_000;
    let gpu_tvl_usd = mul_wide(gpu_vault_balance, g.gpu_usd_price) / 1_000_000;
    let total_tvl_usd = match add_u128(sol_tvl_usd, gpu_tvl_usd) {
        Ok(v) => v,
        Err(e) => {
            return Err(e);
        },
    };
    let mhs_bought = match calculate_mhs_for_usd(
        sol_usd_value,
        g.total_mining_power,
        total_tvl_usd,
    ) {
        Ok(v) => v,
        Err(e) => {
            return Err(e);
        },
    };
    let credited = match credit_minted(g, u1, mhs_bought, now) {
        Ok(v) => v,
        Err(e) => {
            return Err(e);
        },
    };
    match referrer_state {
        None => Ok((credited.0, credited.1, None)),
        Some(r) => {
            let bonused = match apply_referral_bonus(credited.0, r, credited.2) {
                Ok(v) => v,
                Err(e) => {
                    return Err(e);
                },
            };
            Ok((bonused.0, credited.1, Some(bonused.1)))
        },
    }
}

/// A token-asset buy, penalized relative to the primary asset.
///
/// The token deposit is normalized to USD, surcharged by the penalty in
/// basis points (the buyer pays more per credited unit), and then priced
/// exactly as a primary buy. The token amount's primary-asset equivalent is
/// computed only for its range check: an amount whose equivalent exceeds
/// the 64-bit range is refused. `sol_vault_balance` is the primary vault;
/// `gpu_vault_balance` is the token vault as observed before this deposit
/// moves in.
pub open spec fn buy_with_gpu_spec(
    g: GlobalState,
    u: UserState,
    referrer_state: Option<UserState>,
    buyer: AccountId,
    amount: u64,
    referrer: Option<AccountId>,
    sol_vault_balance: u64,
    gpu_vault_balance: u64,
    now: i64,
) -> Result<(GlobalState, UserState, Option<UserState>), ErrorCode> {
    if !g.initialized {
        Err(ErrorCode::NotInitialized)
    } else if amount == 0 {
        Err(ErrorCode::InvalidAmount)
    } else if g.gpu_usd_price == 0 {
        Err(ErrorCode::PriceNotSet)
    } else if g.sol_usd_price == 0 {
        Err(ErrorCode::PriceNotSet)
    } else {
        match bind_referrer_spec(u, buyer, referrer) {
            Err(e) => Err(e),
            Ok(u1) => {
                let gpu_usd_value = (amount * g.gpu_usd_price) / 1_000_000;
                if gpu_usd_value * 1_000_000_000 > u128::MAX {
                    Err(ErrorCode::Overflow)
                } else if gpu_usd_value * 1_000_000_000 / (g.sol_usd_price as int) > u64::MAX {
                    Err(ErrorCode::Overflow)
                } else if gpu_usd_value * (10_000 + g.gpu_penalty_bps) > u128::MAX {
                    Err(ErrorCode::Overflow)
                } else {
                    let gpu_usd_with_penalty = gpu_usd_value * (10_000 + g.gpu_penalty_bps)
                        / 10_000;
                    let sol_tvl_usd = (sol_vault_balance * g.sol_usd_price) / 1_000_000_000;
                    let gpu_tvl_usd = (gpu_vault_balance * g.gpu_usd_price) / 1_000_000;
                    if sol_tvl_usd + gpu_tvl_usd > u128::MAX {
                        Err(ErrorCode::Overflow)
                    } else {
                        match mhs_for_usd_spec(
                            gpu_usd_with_penalty,
                            g.total_mining_power as int,
                            sol_tvl_usd + gpu_tvl_usd,
                        ) {
                            Err(e) => Err(e),
                            Ok(mhs_bought) => match credit_minted_spec(g, u1, mhs_bought, now) {
                                Err(e) => Err(e),
                                Ok(cr) => match referrer_state {
                                    None => Ok((cr.0, cr.1, None)),
                                    Some(r) => match apply_referral_bonus_spec(cr.0, r, cr.2) {
                                        Err(e) => Err(e),
                                        Ok(gr) => Ok((gr.0, cr.1, Some(gr.1))),
                                    },
                                },
                            },
                        }
                    }
                }
            },
        }
    }
}

pub fn buy_with_gpu(
    g: GlobalState,
    u: UserState,
    referrer_state: Option<UserState>,
    buyer: AccountId,
    amount: u64,
    referrer: Option<AccountId>,
    sol_vault_balance: u64,
    gpu_vault_balance: u64,
    now: i64,
) -> (r: Result<(GlobalState, UserState, Option<UserState>), ErrorCode>)
    ensures
        r == buy_with_gpu_spec(
            g,
            u,
            referrer_state,
            buyer,
            amount,
            referrer,
            sol_vault_balance,
            gpu_vault_balance,
            now,
        ),
{
    if !g.initialized {
        return Err(ErrorCode::NotInitialized);
    }
    if amount == 0 {
        return Err(ErrorCode::InvalidAmount);
    }
    if g.gpu_usd_price == 0 {
        return Err(ErrorCode::PriceNotSet);
    }
    if g.sol_usd_price == 0 {
        return Err(ErrorCode::PriceNotSet);
    }
    let u1 = match bind_referrer(u, buyer, referrer) {
        Ok(v) => v,
        Err(e) => {
            return Err(e);
        },
    };
    let gpu_usd_value = mul_wide(amount, g.gpu_usd_price) / 1_000_000;
    let sol_scaled = match mul_u128(gpu_usd_value, 1_000_000_000) {
        Ok(v) => v,
        Err(e) => {
            return Err(e);
        },
    };
    let sol_equivalent = sol_scaled / (g.sol_usd_price as u128);
    if sol_equivalent > u64::MAX as u128 {
        return Err(ErrorCode::Overflow);
    }
    let penalty_scaled = match mul_u128(gpu_usd_value, 10_000 + (g.gpu_penalty_bps as u128)) {
        Ok(v) => v,
        Err(e) => {
            return Err(e);
        },
    };
    let gpu_usd_with_penalty = penalty_scaled / 10_000;
    let sol_tvl_usd = mul_wide(sol_vault_balance, g.sol_usd_price) / 1_000_000_000;
    let gpu_tvl_usd = mul_wide(gpu_vault_balance, g.gpu_usd_price) / 1_000_000;
    let total_tvl_usd = match add_u128(sol_tvl_usd, gpu_tvl_usd) {
        Ok(v) => v,
        Err(e) => {
            return Err(e);
        },
    };
    let mhs_bought = match calculate_mhs_for_usd(
        gpu_usd_with_penalty,
        g.total_mining_power,
        total_tvl_usd,
    ) {
        Ok(v) => v,
        Err(e) => {
            return Err(e);
        },
    };
    let credited = match credit_minted(g, u1, mhs_bought, now) {
        Ok(v) => v,
        Err(e) => {
            return Err(e);
        },
    };
    match referrer_state {
        None => Ok((credited.0, credited.1, None)),
        Some(r) => {
            let bonused = match apply_referral_bonus(credited.0, r, credited.2) {
                Ok(v) => v,
                Err(e) => {
                    return Err(e);
                },
            };
            Ok((bonused.0, credited.1, Some(bonused.1)))
        },
    }
}

} // verus!
