use vstd::prelude::*;

use crate::errors::ErrorCode;

verus! {

/// Identity of an account as the host names it. The engine never looks
/// inside an identity; it only compares identities and stores them. The
/// zero identity is the host's "unset" placeholder.
pub type AccountId = u64;

/// The authoritative global totals and the externally set pricing
/// parameters. Created once at genesis, mutated by every action, never
/// destroyed.
#[derive(Clone, Copy, Debug, PartialEq, Eq, Structural)]
pub struct GlobalState {
    /// Role allowed to run administrative actions (host-enforced).
    pub authority: AccountId,
    /// Recipient of protocol fees.
    pub dev_wallet: AccountId,
    /// Sum of all participants' mining power.
    pub total_mining_power: u64,
    /// Unsettled primary-asset yield owed across participants.
    pub total_unclaimed_sol: u64,
    /// Unsettled token-asset yield owed across participants.
    pub total_unclaimed_gpu: u64,
    pub initialized: bool,
    /// Percentage of mineable vault value distributable per day.
    pub daily_pool_percentage: u8,
    /// Mining power per unit deposit at unit vault value (ratio strategy).
    pub base_buy_rate: u64,
    /// Protocol fee, in whole percent.
    pub protocol_fee_val: u8,
    /// Penalty on token-asset deposits, in basis points.
    pub gpu_penalty_bps: u16,
    /// Primary-asset price in USD with 8 decimals; zero until the
    /// authority sets it.
    pub sol_usd_price: u64,
    /// Token-asset price in USD with 8 decimals; zero until set.
    pub gpu_usd_price: u64,
    /// Mint of the token asset; zero until set.
    pub gpu_token_mint: AccountId,
}

/// One participant's share weight, pending yield and audit counters.
/// Created zeroed on first participation and never deleted.
#[derive(Clone, Copy, Debug, PartialEq, Eq, Structural)]
pub struct UserState {
    pub owner: AccountId,
    /// The participant's share weight.
    pub mining_power: u64,
    /// Primary-asset yield computed but not yet settled; doubles as the
    /// accrued hash balance that compounding consumes.
    pub unclaimed_earnings: u64,
    /// Token-asset yield computed but not yet settled.
    pub unclaimed_gpu_earnings: u64,
    /// Watermark for time-prorated accrual.
    pub last_claim: i64,
    /// Set at most once; never the participant itself.
    pub referrer: Option<AccountId>,
    /// Lifetime primary-asset payout, monotonically increasing.
    pub total_sol_claimed: u64,
    /// Lifetime token-asset payout, monotonically increasing.
    pub total_gpu_claimed: u64,
}

/// The custody transfers one claim asks of the host: payout to the
/// participant and fee to the protocol authority, per asset. A zero field
/// means no transfer for that leg.
#[derive(Clone, Copy, Debug, PartialEq, Eq, Structural)]
pub struct Settlement {
    pub sol_payout: u64,
    pub sol_fee: u64,
    pub gpu_payout: u64,
    pub gpu_fee: u64,
}

/// Genesis of the global ledger: totals zero, default rates, prices unset.
pub open spec fn initialize_spec(
    seed_amount: u64,
    authority: AccountId,
    dev_wallet: AccountId,
) -> Result<GlobalState, ErrorCode> {
    if seed_amount == 0 {
        Err(ErrorCode::InvalidSeedAmount)
    } else {
        Ok(
            GlobalState {
                authority,
                dev_wallet,
                total_mining_power: 0,
                total_unclaimed_sol: 0,
                total_unclaimed_gpu: 0,
                initialized: true,
                daily_pool_percentage: 10,
                base_buy_rate: 1000,
                protocol_fee_val: 10,
                gpu_penalty_bps: 1500,
                sol_usd_price: 0,
                gpu_usd_price: 0,
                gpu_token_mint: 0,
            },
        )
    }
}

/// Creates the global ledger. The seed deposit itself is custody and stays
/// with the host; the engine only rejects a zero seed.
pub fn initialize(seed_amount: u64, authority: AccountId, dev_wallet: AccountId) -> (r: Result<
    GlobalState,
    ErrorCode,
>)
    ensures
        r == initialize_spec(seed_amount, authority, dev_wallet),
{
    if seed_amount == 0 {
        return Err(ErrorCode::InvalidSeedAmount);
    }
    Ok(
        GlobalState {
            authority,
            dev_wallet,
            total_mining_power: 0,
            total_unclaimed_sol: 0,
            total_unclaimed_gpu: 0,
            initialized: true,
            daily_pool_percentage: 10,
            base_buy_rate: 1000,
            protocol_fee_val: 10,
            gpu_penalty_bps: 1500,
            sol_usd_price: 0,
            gpu_usd_price: 0,
            gpu_token_mint: 0,
        },
    )
}

/// A fresh participant: zero power and yield, watermark at `now`.
pub open spec fn init_user_spec(owner: AccountId, now: i64) -> UserState {
    UserState {
        owner,
        mining_power: 0,
        unclaimed_earnings: 0,
        unclaimed_gpu_earnings: 0,
        last_claim: now,
        referrer: None,
        total_sol_claimed: 0,
        total_gpu_claimed: 0,
    }
}

pub fn init_user(owner: AccountId, now: i64) -> (u: UserState)
    ensures
        u == init_user_spec(owner, now),
{
    UserState {
        owner,
        mining_power: 0,
        unclaimed_earnings: 0,
        unclaimed_gpu_earnings: 0,
        last_claim: now,
        referrer: None,
        total_sol_claimed: 0,
        total_gpu_claimed: 0,
    }
}

/// Oracle update: both prices must be positive; nothing else changes.
pub open spec fn update_prices_spec(
    g: GlobalState,
    sol_usd_price: u64,
    gpu_usd_price: u64,
) -> Result<GlobalState, ErrorCode> {
    if sol_usd_price == 0 {
        Err(ErrorCode::InvalidAmount)
    } else if gpu_usd_price == 0 {
        Err(ErrorCode::InvalidAmount)
    } else {
        Ok(GlobalState { sol_usd_price, gpu_usd_price, ..g })
    }
}

pub fn update_prices(g: GlobalState, sol_usd_price: u64, gpu_usd_price: u64) -> (r: Result<
    GlobalState,
    ErrorCode,
>)
    ensures
        r == update_prices_spec(g, sol_usd_price, gpu_usd_price),
{
    if sol_usd_price == 0 {
        return Err(ErrorCode::InvalidAmount);
    }
    if gpu_usd_price == 0 {
        return Err(ErrorCode::InvalidAmount);
    }
    Ok(GlobalState { sol_usd_price, gpu_usd_price, ..g })
}

/// Sets the token-asset mint; the unset (zero) identity is rejected.
pub open spec fn set_gpu_token_spec(g: GlobalState, gpu_token_mint: AccountId) -> Result<
    GlobalState,
    ErrorCode,
> {
    if gpu_token_mint == 0 {
        Err(ErrorCode::InvalidAmount)
    } else {
        Ok(GlobalState { gpu_token_mint, ..g })
    }
}

pub fn set_gpu_token(g: GlobalState, gpu_token_mint: AccountId) -> (r: Result<
    GlobalState,
    ErrorCode,
>)
    ensures
        r == set_gpu_token_spec(g, gpu_token_mint),
{
    if gpu_token_mint == 0 {
        return Err(ErrorCode::InvalidAmount);
    }
    Ok(GlobalState { gpu_token_mint, ..g })
}

/// Administrative zeroing of one participant: the participant's power
/// leaves the global total, and the participant's power and pending yield
/// are cleared. Watermark, referrer and lifetime counters stay.
pub open spec fn reset_user_power_spec(g: GlobalState, u: UserState) -> Result<
    (GlobalState, UserState),
    ErrorCode,
> {
    if g.total_mining_power < u.mining_power {
        Err(ErrorCode::Overflow)
    } else {
        Ok(
            (
                GlobalState {
                    total_mining_power: (g.total_mining_power - u.mining_power) as u64,
                    ..g
                },
                UserState {
                    mining_power: 0,
                    unclaimed_earnings: 0,
                    unclaimed_gpu_earnings: 0,
                    ..u
                },
            ),
        )
    }
}

pub fn reset_user_power(g: GlobalState, u: UserState) -> (r: Result<
    (GlobalState, UserState),
    ErrorCode,
>)
    ensures
        r == reset_user_power_spec(g, u),
{
    let total = match g.total_mining_power.checked_sub(u.mining_power) {
        Some(v) => v,
        None => {
            return Err(ErrorCode::Overflow);
        },
    };
    Ok(
        (
            GlobalState { total_mining_power: total, ..g },
            UserState { mining_power: 0, unclaimed_earnings: 0, unclaimed_gpu_earnings: 0, ..u },
        ),
    )
}

} // verus!
