use bakedbeans::errors::ErrorCode;
use bakedbeans::referral::apply_referral_bonus;
use bakedbeans::referral::bind_referrer;
use bakedbeans::state::init_user;
use bakedbeans::state::initialize;
use bakedbeans::state::GlobalState;
use bakedbeans::state::UserState;

#[test]
fn binding_oneself_always_fails() {
    let u = init_user(3, 0);
    assert_eq!(bind_referrer(u, 3, Some(3)), Err(ErrorCode::SelfReferral));
}

#[test]
fn binding_twice_keeps_the_original_referrer() {
    let u = init_user(3, 0);
    let u = bind_referrer(u, 3, Some(9)).unwrap();
    assert_eq!(u.referrer, Some(9));
    let u = bind_referrer(u, 3, Some(11)).unwrap();
    assert_eq!(u.referrer, Some(9));
    // even naming oneself is now a no-op, not an error
    let u = bind_referrer(u, 3, Some(3)).unwrap();
    assert_eq!(u.referrer, Some(9));
}

#[test]
fn binding_nobody_is_a_no_op() {
    let u = init_user(3, 0);
    let u2 = bind_referrer(u, 3, None).unwrap();
    assert_eq!(u2, u);
}

#[test]
fn bonus_is_five_percent_and_mirrored_in_the_total() {
    let g = GlobalState { total_mining_power: 1000, ..initialize(1, 1, 2).unwrap() };
    let r = UserState { mining_power: 40, ..init_user(9, 0) };
    let (g2, r2) = apply_referral_bonus(g, r, 500).unwrap();
    assert_eq!(r2.mining_power, 40 + 25);
    assert_eq!(g2.total_mining_power, 1000 + 25);
}

#[test]
fn bonus_rounds_down() {
    let g = GlobalState { total_mining_power: 1000, ..initialize(1, 1, 2).unwrap() };
    let r = init_user(9, 0);
    let (g2, r2) = apply_referral_bonus(g, r, 19).unwrap();
    assert_eq!(r2.mining_power, 0);
    assert_eq!(g2.total_mining_power, 1000);
}

#[test]
fn bonus_overflow_is_an_error() {
    let g = GlobalState { total_mining_power: 1000, ..initialize(1, 1, 2).unwrap() };
    let r = UserState { mining_power: u64::MAX, ..init_user(9, 0) };
    assert_eq!(apply_referral_bonus(g, r, 500), Err(ErrorCode::Overflow));
}
