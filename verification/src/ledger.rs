use vstd::prelude::*;

use vstd::arithmetic::div_mod::lemma_div_is_ordered;
use vstd::arithmetic::div_mod::lemma_div_multiples_vanish;
use vstd::arithmetic::div_mod::lemma_div_pos_is_pos;

use crate::actions::buy_mining_power_spec;
use crate::actions::buy_with_gpu_spec;
use crate::earnings::claim_earnings_spec;
use crate::earnings::compound_hash_spec;
use crate::earnings::earnings_spec;
use crate::earnings::new_gpu_earnings_spec;
use crate::earnings::new_sol_earnings_spec;
use crate::math::elapsed_spec;
use crate::math::lemma_mul_le;
use crate::errors::ErrorCode;
use crate::state::AccountId;
use crate::state::GlobalState;
use crate::state::Settlement;
use crate::state::UserState;
use crate::state::init_user_spec;
use crate::state::initialize_spec;
use crate::state::reset_user_power_spec;

verus! {

// Ledger-wide laws. The participants are modelled as a sequence of their
// states; an action touches one participant (two, when a referral bonus is
// minted) and the shared global counters, and each law says that the
// global counters still equal the participant sums afterwards.

/// Sum of all participants' mining power.
pub open spec fn total_power_of(users: Seq<UserState>) -> int
    decreases users.len(),
{
    if users.len() == 0 {
        0
    } else {
        total_power_of(users.drop_last()) + users.last().mining_power
    }
}

/// Sum of all participants' pending primary-asset yield.
pub open spec fn total_unclaimed_sol_of(users: Seq<UserState>) -> int
    decreases users.len(),
{
    if users.len() == 0 {
        0
    } else {
        total_unclaimed_sol_of(users.drop_last()) + users.last().unclaimed_earnings
    }
}

/// Sum of all participants' pending token-asset yield.
pub open spec fn total_unclaimed_gpu_of(users: Seq<UserState>) -> int
    decreases users.len(),
{
    if users.len() == 0 {
        0
    } else {
        total_unclaimed_gpu_of(users.drop_last()) + users.last().unclaimed_gpu_earnings
    }
}

/// The global power counter equals the sum of all participants' power.
pub open spec fn power_consistent(g: GlobalState, users: Seq<UserState>) -> bool {
    g.total_mining_power == total_power_of(users)
}

/// The global unclaimed counters equal the sums of the participants'
/// pending yields, per asset.
pub open spec fn unclaimed_consistent(g: GlobalState, users: Seq<UserState>) -> bool {
    &&& g.total_unclaimed_sol == total_unclaimed_sol_of(users)
    &&& g.total_unclaimed_gpu == total_unclaimed_gpu_of(users)
}

/// Replacing one participant's state shifts each sum by that
/// participant's own change.
pub proof fn lemma_sums_update(users: Seq<UserState>, i: int, v: UserState)
    requires
        0 <= i < users.len(),
    ensures
        total_power_of(users.update(i, v)) == total_power_of(users) - users[i].mining_power
            + v.mining_power,
        total_unclaimed_sol_of(users.update(i, v)) == total_unclaimed_sol_of(users)
            - users[i].unclaimed_earnings + v.unclaimed_earnings,
        total_unclaimed_gpu_of(users.update(i, v)) == total_unclaimed_gpu_of(users)
            - users[i].unclaimed_gpu_earnings + v.unclaimed_gpu_earnings,
    decreases users.len(),
{
    let s2 = users.update(i, v);
    if i == users.len() - 1 {
        assert(s2.drop_last() =~= users.drop_last());
    } else {
        assert(s2.drop_last() =~= users.drop_last().update(i, v));
        lemma_sums_update(users.drop_last(), i, v);
    }
}

/// Appending a participant adds that participant's values to each sum.
pub proof fn lemma_sums_push(users: Seq<UserState>, v: UserState)
    ensures
        total_power_of(users.push(v)) == total_power_of(users) + v.mining_power,
        total_unclaimed_sol_of(users.push(v)) == total_unclaimed_sol_of(users)
            + v.unclaimed_earnings,
        total_unclaimed_gpu_of(users.push(v)) == total_unclaimed_gpu_of(users)
            + v.unclaimed_gpu_earnings,
{
    assert(users.push(v).drop_last() =~= users);
}

/// A step that changes the global power counter by exactly one
/// participant's own power change keeps the power sum consistent.
pub proof fn lemma_power_update(
    g: GlobalState,
    users: Seq<UserState>,
    i: int,
    v: UserState,
    g2: GlobalState,
)
    requires
        power_consistent(g, users),
        0 <= i < users.len(),
        g2.total_mining_power - g.total_mining_power == v.mining_power - users[i].mining_power,
    ensures
        power_consistent(g2, users.update(i, v)),
{
    lemma_sums_update(users, i, v);
}

/// A step that changes each global unclaimed counter by exactly one
/// participant's own pending-yield change keeps the unclaimed sums
/// consistent.
pub proof fn lemma_unclaimed_update(
    g: GlobalState,
    users: Seq<UserState>,
    i: int,
    v: UserState,
    g2: GlobalState,
)
    requires
        unclaimed_consistent(g, users),
        0 <= i < users.len(),
        g2.total_unclaimed_sol - g.total_unclaimed_sol == v.unclaimed_earnings
            - users[i].unclaimed_earnings,
        g2.total_unclaimed_gpu - g.total_unclaimed_gpu == v.unclaimed_gpu_earnings
            - users[i].unclaimed_gpu_earnings,
    ensures
        unclaimed_consistent(g2, users.update(i, v)),
{
    lemma_sums_update(users, i, v);
}

/// Genesis is consistent: a fresh ledger with no participants has zero in
/// every counter and every sum.
pub proof fn lemma_initialize_consistent(
    seed_amount: u64,
    authority: AccountId,
    dev_wallet: AccountId,
    g: GlobalState,
)
    requires
        initialize_spec(seed_amount, authority, dev_wallet) == Ok::<GlobalState, ErrorCode>(g),
    ensures
        power_consistent(g, Seq::<UserState>::empty()),
        unclaimed_consistent(g, Seq::<UserState>::empty()),
{
}

/// Admitting a fresh participant keeps every sum: the newcomer carries
/// zero power and zero pending yield.
pub proof fn lemma_init_user_preserves_consistency(
    g: GlobalState,
    users: Seq<UserState>,
    owner: AccountId,
    now: i64,
)
    requires
        power_consistent(g, users),
        unclaimed_consistent(g, users),
    ensures
        power_consistent(g, users.push(init_user_spec(owner, now))),
        unclaimed_consistent(g, users.push(init_user_spec(owner, now))),
{
    lemma_sums_push(users, init_user_spec(owner, now));
}

/// A successful primary-asset buy without a referrer present credits the
/// buyer and the global counter by the same amount: both sums stay
/// consistent.
pub proof fn lemma_buy_preserves_consistency(
    g: GlobalState,
    users: Seq<UserState>,
    i: int,
    buyer: AccountId,
    amount: u64,
    referrer: Option<AccountId>,
    vault_balance: u64,
    gpu_vault_balance: u64,
    now: i64,
    g2: GlobalState,
    u2: UserState,
)
    requires
        power_consistent(g, users),
        unclaimed_consistent(g, users),
        0 <= i < users.len(),
        buy_mining_power_spec(
            g,
            users[i],
            None,
            buyer,
            amount,
            referrer,
            vault_balance,
            gpu_vault_balance,
            now,
        ) == Ok::<(GlobalState, UserState, Option<UserState>), ErrorCode>((g2, u2, None)),
    ensures
        power_consistent(g2, users.update(i, u2)),
        unclaimed_consistent(g2, users.update(i, u2)),
{
    lemma_power_update(g, users, i, u2, g2);
    lemma_unclaimed_update(g, users, i, u2, g2);
}

/// A successful primary-asset buy with a referrer present credits the
/// buyer, and mints the bonus to the referrer and the global counter
/// alike: both sums stay consistent across both touched participants.
pub proof fn lemma_buy_with_referrer_preserves_consistency(
    g: GlobalState,
    users: Seq<UserState>,
    i: int,
    j: int,
    buyer: AccountId,
    amount: u64,
    referrer: Option<AccountId>,
    vault_balance: u64,
    gpu_vault_balance: u64,
    now: i64,
    g2: GlobalState,
    u2: UserState,
    r2: UserState,
)
    requires
        power_consistent(g, users),
        unclaimed_consistent(g, users),
        0 <= i < users.len(),
        0 <= j < users.len(),
        i != j,
        buy_mining_power_spec(
            g,
            users[i],
            Some(users[j]),
            buyer,
            amount,
            referrer,
            vault_balance,
            gpu_vault_balance,
            now,
        ) == Ok::<(GlobalState, UserState, Option<UserState>), ErrorCode>((g2, u2, Some(r2))),
    ensures
        power_consistent(g2, users.update(i, u2).update(j, r2)),
        unclaimed_consistent(g2, users.update(i, u2).update(j, r2)),
{
    lemma_sums_update(users, i, u2);
    lemma_sums_update(users.update(i, u2), j, r2);
    assert(users.update(i, u2)[j] == users[j]);
}

/// A successful token-asset buy without a referrer present keeps both
/// sums consistent.
pub proof fn lemma_buy_with_gpu_preserves_consistency(
    g: GlobalState,
    users: Seq<UserState>,
    i: int,
    buyer: AccountId,
    amount: u64,
    referrer: Option<AccountId>,
    sol_vault_balance: u64,
    gpu_vault_balance: u64,
    now: i64,
    g2: GlobalState,
    u2: UserState,
)
    requires
        power_consistent(g, users),
        unclaimed_consistent(g, users),
        0 <= i < users.len(),
        buy_with_gpu_spec(
            g,
            users[i],
            None,
            buyer,
            amount,
            referrer,
            sol_vault_balance,
            gpu_vault_balance,
            now,
        ) == Ok::<(GlobalState, UserState, Option<UserState>), ErrorCode>((g2, u2, None)),
    ensures
        power_consistent(g2, users.update(i, u2)),
        unclaimed_consistent(g2, users.update(i, u2)),
{
    lemma_power_update(g, users, i, u2, g2);
    lemma_unclaimed_update(g, users, i, u2, g2);
}

/// A successful token-asset buy with a referrer present keeps both sums
/// consistent across both touched participants.
pub proof fn lemma_buy_with_gpu_referrer_preserves_consistency(
    g: GlobalState,
    users: Seq<UserState>,
    i: int,
    j: int,
    buyer: AccountId,
    amount: u64,
    referrer: Option<AccountId>,
    sol_vault_balance: u64,
    gpu_vault_balance: u64,
    now: i64,
    g2: GlobalState,
    u2: UserState,
    r2: UserState,
)
    requires
        power_consistent(g, users),
        unclaimed_consistent(g, users),
        0 <= i < users.len(),
        0 <= j < users.len(),
        i != j,
        buy_with_gpu_spec(
            g,
            users[i],
            Some(users[j]),
            buyer,
            amount,
            referrer,
            sol_vault_balance,
            gpu_vault_balance,
            now,
        ) == Ok::<(GlobalState, UserState, Option<UserState>), ErrorCode>((g2, u2, Some(r2))),
    ensures
        power_consistent(g2, users.update(i, u2).update(j, r2)),
        unclaimed_consistent(g2, users.update(i, u2).update(j, r2)),
{
    lemma_sums_update(users, i, u2);
    lemma_sums_update(users.update(i, u2), j, r2);
    assert(users.update(i, u2)[j] == users[j]);
}

/// A successful compound mints the converted units to the participant and
/// the global counter alike: the power sum stays consistent.
pub proof fn lemma_compound_preserves_power(
    g: GlobalState,
    users: Seq<UserState>,
    i: int,
    now: i64,
    g2: GlobalState,
    u2: UserState,
)
    requires
        power_consistent(g, users),
        0 <= i < users.len(),
        compound_hash_spec(g, users[i], now) == Ok::<(GlobalState, UserState), ErrorCode>(
            (g2, u2),
        ),
    ensures
        power_consistent(g2, users.update(i, u2)),
{
    lemma_power_update(g, users, i, u2, g2);
}

/// A successful compound of a participant with no pending settled yield
/// keeps the unclaimed sums consistent. (Compounding consumes the stored
/// hash balance without touching the global unclaimed counters, so the
/// sums only agree when the consumed balance was zero; in every state the
/// engine itself reaches, it is, since a claim settles the whole balance
/// in the same action that accrues it.)
pub proof fn lemma_compound_preserves_unclaimed(
    g: GlobalState,
    users: Seq<UserState>,
    i: int,
    now: i64,
    g2: GlobalState,
    u2: UserState,
)
    requires
        unclaimed_consistent(g, users),
        0 <= i < users.len(),
        users[i].unclaimed_earnings == 0,
        compound_hash_spec(g, users[i], now) == Ok::<(GlobalState, UserState), ErrorCode>(
            (g2, u2),
        ),
    ensures
        unclaimed_consistent(g2, users.update(i, u2)),
{
    lemma_unclaimed_update(g, users, i, u2, g2);
}

/// A successful claim adds the fresh accrual to the participant's pending
/// balance and the global counter alike, then settles both away together:
/// both sums stay consistent, and the power sum is untouched.
pub proof fn lemma_claim_preserves_consistency(
    g: GlobalState,
    users: Seq<UserState>,
    i: int,
    sol_vault_balance: u64,
    gpu_vault_balance: u64,
    now: i64,
    g2: GlobalState,
    u2: UserState,
    s: Settlement,
)
    requires
        power_consistent(g, users),
        unclaimed_consistent(g, users),
        0 <= i < users.len(),
        claim_earnings_spec(g, users[i], sol_vault_balance, gpu_vault_balance, now) == Ok::<
            (GlobalState, UserState, Settlement),
            ErrorCode,
        >((g2, u2, s)),
    ensures
        power_consistent(g2, users.update(i, u2)),
        unclaimed_consistent(g2, users.update(i, u2)),
{
    lemma_power_update(g, users, i, u2, g2);
    lemma_unclaimed_update(g, users, i, u2, g2);
}

/// An administrative reset removes exactly the zeroed participant's power
/// from the global counter: the power sum stays consistent.
pub proof fn lemma_reset_preserves_power(
    g: GlobalState,
    users: Seq<UserState>,
    i: int,
    g2: GlobalState,
    u2: UserState,
)
    requires
        power_consistent(g, users),
        0 <= i < users.len(),
        reset_user_power_spec(g, users[i]) == Ok::<(GlobalState, UserState), ErrorCode>((g2, u2)),
    ensures
        power_consistent(g2, users.update(i, u2)),
{
    lemma_power_update(g, users, i, u2, g2);
}

/// An administrative reset of a participant with no pending yield keeps
/// the unclaimed sums consistent. (Like compounding, the reset clears the
/// participant's pending balances without touching the global counters;
/// the sums agree when those balances were already zero, as they are in
/// every state the engine itself reaches.)
pub proof fn lemma_reset_preserves_unclaimed(
    g: GlobalState,
    users: Seq<UserState>,
    i: int,
    g2: GlobalState,
    u2: UserState,
)
    requires
        unclaimed_consistent(g, users),
        0 <= i < users.len(),
        users[i].unclaimed_earnings == 0,
        users[i].unclaimed_gpu_earnings == 0,
        reset_user_power_spec(g, users[i]) == Ok::<(GlobalState, UserState), ErrorCode>((g2, u2)),
    ensures
        unclaimed_consistent(g2, users.update(i, u2)),
{
    lemma_unclaimed_update(g, users, i, u2, g2);
}

/// Conservation of a settled claim, per asset: the payout and the fee add
/// up to the settled pending total exactly, and what the fresh accrual put
/// into the global unclaimed pool leaves it again only as those two
/// settlement legs. Rounding happens only inside the fee's floor division;
/// the truncated remainder is part of the payout, and value the formula
/// never accrued simply stays in the vault.
pub proof fn lemma_claim_conservation(
    g: GlobalState,
    u: UserState,
    sol_vault_balance: u64,
    gpu_vault_balance: u64,
    now: i64,
    g2: GlobalState,
    u2: UserState,
    s: Settlement,
)
    requires
        claim_earnings_spec(g, u, sol_vault_balance, gpu_vault_balance, now) == Ok::<
            (GlobalState, UserState, Settlement),
            ErrorCode,
        >((g2, u2, s)),
    ensures
        new_sol_earnings_spec(g, u, sol_vault_balance, now) matches Ok(e) && s.sol_payout
            + s.sol_fee == u.unclaimed_earnings + e && g.total_unclaimed_sol + e
            == g2.total_unclaimed_sol + s.sol_payout + s.sol_fee,
        new_gpu_earnings_spec(g, u, gpu_vault_balance, now) matches Ok(e) && s.gpu_payout
            + s.gpu_fee == u.unclaimed_gpu_earnings + e && g.total_unclaimed_gpu + e
            == g2.total_unclaimed_gpu + s.gpu_payout + s.gpu_fee,
{
}

/// A claim made against the whole owed pool leaves nothing unclaimed: the
/// participant's pending balances and the global counters all return to
/// zero. The engine settles the entire pending balance in the same action
/// that accrues it, so between actions the owed pool is empty — and in
/// particular never exceeds any vault balance. (Within the claim itself,
/// a vault observed below what is already owed is refused outright.)
pub proof fn lemma_claim_leaves_no_unclaimed(
    g: GlobalState,
    u: UserState,
    sol_vault_balance: u64,
    gpu_vault_balance: u64,
    now: i64,
    g2: GlobalState,
    u2: UserState,
    s: Settlement,
)
    requires
        g.total_unclaimed_sol == u.unclaimed_earnings,
        g.total_unclaimed_gpu == u.unclaimed_gpu_earnings,
        claim_earnings_spec(g, u, sol_vault_balance, gpu_vault_balance, now) == Ok::<
            (GlobalState, UserState, Settlement),
            ErrorCode,
        >((g2, u2, s)),
    ensures
        g2.total_unclaimed_sol == 0,
        g2.total_unclaimed_gpu == 0,
        u2.unclaimed_earnings == 0,
        u2.unclaimed_gpu_earnings == 0,
{
}

/// Accrual over zero elapsed time is zero — and, for any participant whose
/// power does not exceed the network total, provably free of overflow, so
/// the formula returns a clean zero rather than an error.
pub proof fn lemma_zero_elapsed_earnings(
    user_mhs: u64,
    total_mhs: u64,
    t: i64,
    vault_balance: u64,
    daily_percentage: u8,
)
    requires
        0 < total_mhs,
        user_mhs <= total_mhs,
    ensures
        earnings_spec(user_mhs, total_mhs, t, t, vault_balance, daily_percentage) == Ok::<
            u64,
            ErrorCode,
        >(0u64),
{
    assert(elapsed_spec(t, t) == 0);
    let share = (user_mhs * 1_000_000) / (total_mhs as int);
    lemma_div_is_ordered(user_mhs * 1_000_000, total_mhs * 1_000_000, total_mhs as int);
    lemma_div_multiples_vanish(1_000_000, total_mhs as int);
    assert(share <= 1_000_000);
    lemma_div_pos_is_pos(user_mhs * 1_000_000, total_mhs as int);
    let pool = (vault_balance * daily_percentage) / 100;
    lemma_mul_le(vault_balance as int, daily_percentage as int, u64::MAX as int, u8::MAX as int);
    lemma_div_is_ordered(vault_balance * daily_percentage, u64::MAX * u8::MAX, 100);
    lemma_div_pos_is_pos(vault_balance * daily_percentage, 100);
    lemma_mul_le(pool, share, u64::MAX * u8::MAX / 100, 1_000_000);
    assert(pool * share <= u128::MAX);
    assert((pool * share / 1_000_000) * elapsed_spec(t, t) == 0);
}

/// A second claim in immediate succession (no time elapsed) accrues zero
/// on both assets and fails with `InvalidAmount` instead of paying out
/// again. The first claim is taken from a settled ledger state (no pending
/// yield anywhere, power within the total — what the engine's own actions
/// always leave behind), and the vaults are observed after the host has
/// moved the first settlement out.
pub proof fn lemma_claim_idempotent(
    g: GlobalState,
    u: UserState,
    sol_vault_balance: u64,
    gpu_vault_balance: u64,
    sol_vault_after: u64,
    gpu_vault_after: u64,
    now: i64,
    g2: GlobalState,
    u2: UserState,
    s: Settlement,
)
    requires
        u.mining_power <= g.total_mining_power,
        u.unclaimed_earnings == 0,
        u.unclaimed_gpu_earnings == 0,
        g.total_unclaimed_sol == 0,
        g.total_unclaimed_gpu == 0,
        claim_earnings_spec(g, u, sol_vault_balance, gpu_vault_balance, now) == Ok::<
            (GlobalState, UserState, Settlement),
            ErrorCode,
        >((g2, u2, s)),
        sol_vault_after == sol_vault_balance - s.sol_payout - s.sol_fee,
        gpu_vault_after == gpu_vault_balance - s.gpu_payout - s.gpu_fee,
    ensures
        new_sol_earnings_spec(g2, u2, sol_vault_after, now) == Ok::<u64, ErrorCode>(0u64),
        new_gpu_earnings_spec(g2, u2, gpu_vault_after, now) == Ok::<u64, ErrorCode>(0u64),
        claim_earnings_spec(g2, u2, sol_vault_after, gpu_vault_after, now) == Err::<
            (GlobalState, UserState, Settlement),
            ErrorCode,
        >(ErrorCode::InvalidAmount),
{
    lemma_zero_elapsed_earnings(
        u2.mining_power,
        g2.total_mining_power,
        now,
        sol_vault_after,
        g2.daily_pool_percentage,
    );
    lemma_zero_elapsed_earnings(
        u2.mining_power,
        g2.total_mining_power,
        now,
        gpu_vault_after,
        g2.daily_pool_percentage,
    );
}

} // verus!
