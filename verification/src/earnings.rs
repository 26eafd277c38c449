use vstd::prelude::*;

use crate::errors::ErrorCode;
use crate::math::add_u64;
use crate::math::elapsed;
use crate::math::elapsed_spec;
use crate::math::lemma_mul_le;
use crate::math::mul_u128;
use crate::math::mul_u64;
use crate::math::u64_of_u128;
use crate::math::sub_u64;
use crate::pricing::fee_split;
use crate::pricing::fee_split_spec;
use crate::state::GlobalState;
use crate::state::Settlement;
use crate::state::UserState;

verus! {

// Accrual, compounding and claim settlement.
//
// Accrual is time-prorated: a participant holding `mining_power` for `dt`
// seconds earns `mining_power / total_mining_power` of the daily
// distributable pool, scaled by `dt / 86_400`. Compounding converts accrued
// hash into more mining power fee-free; claiming settles the pending yield
// against the vaults, fee-bearing.

/// Seconds per day; also the hash cost of one unit of mining power.
pub const SECONDS_PER_DAY: u64 = 86_400;

/// Pro-rata share of the distributable pool accrued over the elapsed time.
///
/// `user_share` is the participant's fraction of the total power in parts
/// per million; `daily_pool` is the given percentage of the mineable vault
/// balance; the product, scaled back down and prorated by elapsed seconds
/// over a day, is the accrued yield. Zero total power accrues nothing. The
/// whole chain is carried in 128 bits and narrowed only at the end.
pub open spec fn earnings_spec(
    user_mhs: u64,
    total_mhs: u64,
    last_claim: i64,
    current_time: i64,
    vault_balance: u64,
    daily_percentage: u8,
) -> Result<u64, ErrorCode> {
    if total_mhs == 0 {
        Ok(0u64)
    } else {
        let dt = elapsed_spec(last_claim, current_time);
        let user_share = (user_mhs * 1_000_000) / (total_mhs as int);
        let daily_pool = (vault_balance * daily_percentage) / 100;
        if daily_pool * user_share > u128::MAX {
            Err(ErrorCode::Overflow)
        } else if (daily_pool * user_share / 1_000_000) * dt > u128::MAX {
            Err(ErrorCode::Overflow)
        } else if (daily_pool * user_share / 1_000_000) * dt / (SECONDS_PER_DAY as int)
            > u64::MAX {
            Err(ErrorCode::Overflow)
        } else {
            Ok(((daily_pool * user_share / 1_000_000) * dt / (SECONDS_PER_DAY as int)) as u64)
        }
    }
}

pub fn calculate_earnings(
    user_mhs: u64,
    total_mhs: u64,
    last_claim: i64,
    current_time: i64,
    vault_balance: u64,
    daily_percentage: u8,
) -> (r: Result<u64, ErrorCode>)
    ensures
        r == earnings_spec(
            user_mhs,
            total_mhs,
            last_claim,
            current_time,
            vault_balance,
            daily_percentage,
        ),
{
    if total_mhs == 0 {
        return Ok(0);
    }
    let time_passed = elapsed(last_claim, current_time);
    let user_share = ((user_mhs as u128) * 1_000_000) / (total_mhs as u128);
    proof {
        lemma_mul_le(vault_balance as int, daily_percentage as int, u64::MAX as int, u8::MAX as int);
    }
    let daily_pool = ((vault_balance as u128) * (daily_percentage as u128)) / 100;
    let scaled = match mul_u128(daily_pool, user_share) {
        Ok(v) => v,
        Err(e) => {
            return Err(e);
        },
    };
    let prorated = match mul_u128(scaled / 1_000_000, time_passed as u128) {
        Ok(v) => v,
        Err(e) => {
            return Err(e);
        },
    };
    u64_of_u128(prorated / (SECONDS_PER_DAY as u128))
}

/// Fee-free conversion of the accrued hash balance (stored hash plus hash
/// generated since the watermark) into additional mining power, at the
/// fixed rate of one power unit per day's worth of hash. A conversion that
/// would round down to zero power is refused rather than silently doing
/// nothing.
pub open spec fn compound_hash_spec(g: GlobalState, u: UserState, now: i64) -> Result<
    (GlobalState, UserState),
    ErrorCode,
> {
    if !g.initialized {
        Err(ErrorCode::NotInitialized)
    } else if u.mining_power == 0 {
        Err(ErrorCode::InvalidAmount)
    } else {
        let dt = elapsed_spec(u.last_claim, now);
        if dt * u.mining_power > u64::MAX {
            Err(ErrorCode::Overflow)
        } else if u.unclaimed_earnings + dt * u.mining_power > u64::MAX {
            Err(ErrorCode::Overflow)
        } else {
            let total_hash = u.unclaimed_earnings + dt * u.mining_power;
            if total_hash == 0 {
                Err(ErrorCode::InvalidAmount)
            } else {
                let new_mhs = total_hash / (SECONDS_PER_DAY as int);
                if new_mhs == 0 {
                    Err(ErrorCode::InvalidAmount)
                } else if u.mining_power + new_mhs > u64::MAX {
                    Err(ErrorCode::Overflow)
                } else if g.total_mining_power + new_mhs > u64::MAX {
                    Err(ErrorCode::Overflow)
                } else {
                    Ok(
                        (
                            GlobalState {
                                total_mining_power: (g.total_mining_power + new_mhs) as u64,
                                ..g
                            },
                            UserState {
                                mining_power: (u.mining_power + new_mhs) as u64,
                                unclaimed_earnings: 0,
                                last_claim: now,
                                ..u
                            },
                        ),
                    )
                }
            }
        }
    }
}

pub fn compound_hash(g: GlobalState, u: UserState, now: i64) -> (r: Result<
    (GlobalState, UserState),
    ErrorCode,
>)
    ensures
        r == compound_hash_spec(g, u, now),
{
    if !g.initialized {
        return Err(ErrorCode::NotInitialized);
    }
    if u.mining_power == 0 {
        return Err(ErrorCode::InvalidAmount);
    }
    let time_passed = elapsed(u.last_claim, now);
    let hash_generated = match mul_u64(time_passed, u.mining_power) {
        Ok(v) => v,
        Err(e) => {
            return Err(e);
        },
    };
    let total_hash = match add_u64(u.unclaimed_earnings, hash_generated) {
        Ok(v) => v,
        Err(e) => {
            return Err(e);
        },
    };
    if total_hash == 0 {
        return Err(ErrorCode::InvalidAmount);
    }
    let new_mhs = total_hash / SECONDS_PER_DAY;
    if new_mhs == 0 {
        return Err(ErrorCode::InvalidAmount);
    }
    let mining_power = match add_u64(u.mining_power, new_mhs) {
        Ok(v) => v,
        Err(e) => {
            return Err(e);
        },
    };
    let total_mining_power = match add_u64(g.total_mining_power, new_mhs) {
        Ok(v) => v,
        Err(e) => {
            return Err(e);
        },
    };
    Ok(
        (
            GlobalState { total_mining_power, ..g },
            UserState { mining_power, unclaimed_earnings: 0, last_claim: now, ..u },
        ),
    )
}

/// Settlement of one asset's pending total against its vault.
///
/// A zero total is skipped without failing (so a claim may settle one asset
/// and not the other). Otherwise the vault must cover the whole total; the
/// protocol fee is split off; the payout is added to the lifetime audit
/// counter; and the total leaves the global unclaimed pool. The result is
/// `(payout, fee, new global unclaimed, new lifetime claimed)`.
pub open spec fn settle_asset_spec(
    total: u64,
    vault_balance: u64,
    global_unclaimed: u64,
    fee_val: u8,
    lifetime_claimed: u64,
) -> Result<(u64, u64, u64, u64), ErrorCode> {
    if total == 0 {
        Ok((0u64, 0u64, global_unclaimed, lifetime_claimed))
    } else if vault_balance < total {
        Err(ErrorCode::InsufficientFunds)
    } else {
        match fee_split_spec(total, fee_val) {
            Err(e) => Err(e),
            Ok(pf) => {
                if lifetime_claimed + pf.0 > u64::MAX {
                    Err(ErrorCode::Overflow)
                } else if global_unclaimed < total {
                    Err(ErrorCode::Overflow)
                } else {
                    Ok(
                        (
                            pf.0,
                            pf.1,
                            (global_unclaimed - total) as u64,
                            (lifetime_claimed + pf.0) as u64,
                        ),
                    )
                }
            },
        }
    }
}

pub fn settle_asset(
    total: u64,
    vault_balance: u64,
    global_unclaimed: u64,
    fee_val: u8,
    lifetime_claimed: u64,
) -> (r: Result<(u64, u64, u64, u64), ErrorCode>)
    ensures
        r == settle_asset_spec(total, vault_balance, global_unclaimed, fee_val, lifetime_claimed),
        r matches Ok(leg) ==> leg.0 + leg.1 == total,
{
    if total == 0 {
        return Ok((0, 0, global_unclaimed, lifetime_claimed));
    }
    if vault_balance < total {
        return Err(ErrorCode::InsufficientFunds);
    }
    let (payout, fee) = match fee_split(total, fee_val) {
        Ok(v) => v,
        Err(e) => {
            return Err(e);
        },
    };
    let lifetime = match add_u64(lifetime_claimed, payout) {
        Ok(v) => v,
        Err(e) => {
            return Err(e);
        },
    };
    let remaining = match sub_u64(global_unclaimed, total) {
        Ok(v) => v,
        Err(e) => {
            return Err(e);
        },
    };
    Ok((payout, fee, remaining, lifetime))
}

/// The freshly accrued primary-asset yield a claim at `now` would add: the
/// mineable balance is the vault net of everything already owed, so pending
/// yield is never double-counted as mineable.
pub open spec fn new_sol_earnings_spec(
    g: GlobalState,
    u: UserState,
    sol_vault_balance: u64,
    now: i64,
) -> Result<u64, ErrorCode> {
    earnings_spec(
        u.mining_power,
        g.total_mining_power,
        u.last_claim,
        now,
        (sol_vault_balance - g.total_unclaimed_sol) as u64,
        g.daily_pool_percentage,
    )
}

/// The freshly accrued token-asset yield a claim at `now` would add.
pub open spec fn new_gpu_earnings_spec(
    g: GlobalState,
    u: UserState,
    gpu_vault_balance: u64,
    now: i64,
) -> Result<u64, ErrorCode> {
    earnings_spec(
        u.mining_power,
        g.total_mining_power,
        u.last_claim,
        now,
        (gpu_vault_balance - g.total_unclaimed_gpu) as u64,
        g.daily_pool_percentage,
    )
}

/// The bookkeeping and settlement tail of a claim, once both fresh accruals
/// are known: the accruals enter the participant's pending balances and the
/// global unclaimed pool first, the watermark advances, and only then is
/// the entire pending balance (not just the fresh part) settled per asset.
/// A claim with nothing pending on either asset fails with `InvalidAmount`.
pub open spec fn claim_settle_spec(
    g: GlobalState,
    u: UserState,
    sol_vault_balance: u64,
    gpu_vault_balance: u64,
    now: i64,
    new_sol: u64,
    new_gpu: u64,
) -> Result<(GlobalState, UserState, Settlement), ErrorCode> {
    if u.unclaimed_earnings + new_sol > u64::MAX {
        Err(ErrorCode::Overflow)
    } else if u.unclaimed_gpu_earnings + new_gpu > u64::MAX {
        Err(ErrorCode::Overflow)
    } else if g.total_unclaimed_sol + new_sol > u64::MAX {
        Err(ErrorCode::Overflow)
    } else if g.total_unclaimed_gpu + new_gpu > u64::MAX {
        Err(ErrorCode::Overflow)
    } else {
        let pending_sol = (u.unclaimed_earnings + new_sol) as u64;
        let pending_gpu = (u.unclaimed_gpu_earnings + new_gpu) as u64;
        let pool_sol = (g.total_unclaimed_sol + new_sol) as u64;
        let pool_gpu = (g.total_unclaimed_gpu + new_gpu) as u64;
        if pending_sol == 0 && pending_gpu == 0 {
            Err(ErrorCode::InvalidAmount)
        } else {
            match settle_asset_spec(
                pending_sol,
                sol_vault_balance,
                pool_sol,
                g.protocol_fee_val,
                u.total_sol_claimed,
            ) {
                Err(e) => Err(e),
                Ok(sol_leg) => match settle_asset_spec(
                    pending_gpu,
                    gpu_vault_balance,
                    pool_gpu,
                    g.protocol_fee_val,
                    u.total_gpu_claimed,
                ) {
                    Err(e) => Err(e),
                    Ok(gpu_leg) => Ok(
                        (
                            GlobalState {
                                total_unclaimed_sol: sol_leg.2,
                                total_unclaimed_gpu: gpu_leg.2,
                                ..g
                            },
                            UserState {
                                unclaimed_earnings: 0,
                                unclaimed_gpu_earnings: 0,
                                last_claim: now,
                                total_sol_claimed: sol_leg.3,
                                total_gpu_claimed: gpu_leg.3,
                                ..u
                            },
                            Settlement {
                                sol_payout: sol_leg.0,
                                sol_fee: sol_leg.1,
                                gpu_payout: gpu_leg.0,
                                gpu_fee: gpu_leg.1,
                            },
                        ),
                    ),
                },
            }
        }
    }
}

/// A full claim: bring the accrual current, then settle everything pending.
pub open spec fn claim_earnings_spec(
    g: GlobalState,
    u: UserState,
    sol_vault_balance: u64,
    gpu_vault_balance: u64,
    now: i64,
) -> Result<(GlobalState, UserState, Settlement), ErrorCode> {
    if !g.initialized {
        Err(ErrorCode::NotInitialized)
    } else if u.mining_power == 0 {
        Err(ErrorCode::InvalidAmount)
    } else if sol_vault_balance < g.total_unclaimed_sol {
        Err(ErrorCode::Overflow)
    } else {
        match new_sol_earnings_spec(g, u, sol_vault_balance, now) {
            Err(e) => Err(e),
            Ok(new_sol) => if gpu_vault_balance < g.total_unclaimed_gpu {
                Err(ErrorCode::Overflow)
            } else {
                match new_gpu_earnings_spec(g, u, gpu_vault_balance, now) {
                    Err(e) => Err(e),
                    Ok(new_gpu) => claim_settle_spec(
                        g,
                        u,
                        sol_vault_balance,
                        gpu_vault_balance,
                        now,
                        new_sol,
                        new_gpu,
                    ),
                }
            },
        }
    }
}

/// Claims the participant's entire pending yield on both assets.
///
/// `sol_vault_balance` and `gpu_vault_balance` are the vaults as observed
/// by the host for this action. On success the returned `Settlement` names
/// the custody transfers the host must carry out: payout to the
/// participant and fee to the protocol authority, per asset, with zero
/// legs skipped. On error nothing is owed and nothing changed.
pub fn claim_earnings(
    g: GlobalState,
    u: UserState,
    sol_vault_balance: u64,
    gpu_vault_balance: u64,
    now: i64,
) -> (r: Result<(GlobalState, UserState, Settlement), ErrorCode>)
    ensures
        r == claim_earnings_spec(g, u, sol_vault_balance, gpu_vault_balance, now),
{
    if !g.initialized {
        return Err(ErrorCode::NotInitialized);
    }
    if u.mining_power == 0 {
        return Err(ErrorCode::InvalidAmount);
    }
    let mineable_sol = match sub_u64(sol_vault_balance, g.total_unclaimed_sol) {
        Ok(v) => v,
        Err(e) => {
            return Err(e);
        },
    };
    let new_sol = match calculate_earnings(
        u.mining_power,
        g.total_mining_power,
        u.last_claim,
        now,
        mineable_sol,
        g.daily_pool_percentage,
    ) {
        Ok(v) => v,
        Err(e) => {
            return Err(e);
        },
    };
    let mineable_gpu = match sub_u64(gpu_vault_balance, g.total_unclaimed_gpu) {
        Ok(v) => v,
        Err(e) => {
            return Err(e);
        },
    };
    let new_gpu = match calculate_earnings(
        u.mining_power,
        g.total_mining_power,
        u.last_claim,
        now,
        mineable_gpu,
        g.daily_pool_percentage,
    ) {
        Ok(v) => v,
        Err(e) => {
            return Err(e);
        },
    };
    let pending_sol = match add_u64(u.unclaimed_earnings, new_sol) {
        Ok(v) => v,
        Err(e) => {
            return Err(e);
        },
    };
    let pending_gpu = match add_u64(u.unclaimed_gpu_earnings, new_gpu) {
        Ok(v) => v,
        Err(e) => {
            return Err(e);
        },
    };
    let pool_sol = match add_u64(g.total_unclaimed_sol, new_sol) {
        Ok(v) => v,
        Err(e) => {
            return Err(e);
        },
    };
    let pool_gpu = match add_u64(g.total_unclaimed_gpu, new_gpu) {
        Ok(v) => v,
        Err(e) => {
            return Err(e);
        },
    };
    if pending_sol == 0 && pending_gpu == 0 {
        return Err(ErrorCode::InvalidAmount);
    }
    let sol_leg = match settle_asset(
        pending_sol,
        sol_vault_balance,
        pool_sol,
        g.protocol_fee_val,
        u.total_sol_claimed,
    ) {
        Ok(v) => v,
        Err(e) => {
            return Err(e);
        },
    };
    let gpu_leg = match settle_asset(
        pending_gpu,
        gpu_vault_balance,
        pool_gpu,
        g.protocol_fee_val,
        u.total_gpu_claimed,
    ) {
        Ok(v) => v,
        Err(e) => {
            return Err(e);
        },
    };
    Ok(
        (
            GlobalState { total_unclaimed_sol: sol_leg.2, total_unclaimed_gpu: gpu_leg.2, ..g },
            UserState {
                unclaimed_earnings: 0,
                unclaimed_gpu_earnings: 0,
                last_claim: now,
                total_sol_claimed: sol_leg.3,
                total_gpu_claimed: gpu_leg.3,
                ..u
            },
            Settlement {
                sol_payout: sol_leg.0,
                sol_fee: sol_leg.1,
                gpu_payout: gpu_leg.0,
                gpu_fee: gpu_leg.1,
            },
        ),
    )
}

} // verus!
