use vstd::prelude::*;

use crate::errors::ErrorCode;
use crate::math::add_u64;
use crate::state::AccountId;
use crate::state::GlobalState;
use crate::state::UserState;

verus! {

// Referral ledger: a one-time referrer relation, and a secondary bonus
// minted to the referrer on qualifying buys.

/// Binds `candidate` as the buyer's referrer if none is bound yet. A buyer
/// naming itself fails with `SelfReferral`; a buyer already bound, or naming
/// nobody, is left unchanged (a designed no-op, not an error).
pub open spec fn bind_referrer_spec(
    u: UserState,
    buyer: AccountId,
    candidate: Option<AccountId>,
) -> Result<UserState, ErrorCode> {
    match candidate {
        Some(c) => if u.referrer is None {
            if c == buyer {
                Err(ErrorCode::SelfReferral)
            } else {
                Ok(UserState { referrer: Some(c), ..u })
            }
        } else {
            Ok(u)
        },
        None => Ok(u),
    }
}

pub fn bind_referrer(u: UserState, buyer: AccountId, candidate: Option<AccountId>) -> (r: Result<
    UserState,
    ErrorCode,
>)
    ensures
        r == bind_referrer_spec(u, buyer, candidate),
{
    match candidate {
        Some(c) => {
            if u.referrer.is_none() {
                if c == buyer {
                    Err(ErrorCode::SelfReferral)
                } else {
                    Ok(UserState { referrer: Some(c), ..u })
                }
            } else {
                Ok(u)
            }
        },
        None => Ok(u),
    }
}

/// The referral bonus is five percent of the credited base amount.
pub open spec fn referral_bonus_of(base_amount: u64) -> int {
    (base_amount / 20) as int
}

/// Mints the referral bonus to the referrer's state and adds the same
/// amount to the global total, keeping the power-sum invariant intact.
pub open spec fn apply_referral_bonus_spec(
    g: GlobalState,
    referrer_state: UserState,
    base_amount: u64,
) -> Result<(GlobalState, UserState), ErrorCode> {
    let bonus = referral_bonus_of(base_amount);
    if referrer_state.mining_power + bonus > u64::MAX {
        Err(ErrorCode::Overflow)
    } else if g.total_mining_power + bonus > u64::MAX {
        Err(ErrorCode::Overflow)
    } else {
        Ok(
            (
                GlobalState { total_mining_power: (g.total_mining_power + bonus) as u64, ..g },
                UserState { mining_power: (referrer_state.mining_power + bonus) as u64, ..referrer_state },
            ),
        )
    }
}

pub fn apply_referral_bonus(g: GlobalState, referrer_state: UserState, base_amount: u64) -> (r:
    Result<(GlobalState, UserState), ErrorCode>)
    ensures
        r == apply_referral_bonus_spec(g, referrer_state, base_amount),
{
    let bonus = base_amount / 20;
    let referrer_power = match add_u64(referrer_state.mining_power, bonus) {
        Ok(v) => v,
        Err(e) => {
            return Err(e);
        },
    };
    let total = match add_u64(g.total_mining_power, bonus) {
        Ok(v) => v,
        Err(e) => {
            return Err(e);
        },
    };
    Ok(
        (
            GlobalState { total_mining_power: total, ..g },
            UserState { mining_power: referrer_power, ..referrer_state },
        ),
    )
}

/// A participant whose referrer is still unbound and who names itself is
/// always refused with `SelfReferral`. (A participant already bound ignores
/// the candidate entirely, itself included: that case is a no-op.)
pub proof fn lemma_bind_self_referral_fails(u: UserState, buyer: AccountId)
    requires
        u.referrer is None,
    ensures
        bind_referrer_spec(u, buyer, Some(buyer)) == Err::<UserState, ErrorCode>(
            ErrorCode::SelfReferral,
        ),
{
}

/// Once a referrer is bound, no later bind changes it: any second bind
/// returns the state unchanged, whatever the candidate.
pub proof fn lemma_bind_is_one_time(u: UserState, buyer: AccountId, candidate: Option<AccountId>)
    requires
        u.referrer is Some,
    ensures
        bind_referrer_spec(u, buyer, candidate) == Ok::<UserState, ErrorCode>(u),
{
}

} // verus!
