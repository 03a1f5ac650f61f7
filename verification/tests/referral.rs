use dynamic_pricing_protocol::errors::PricingError;
use dynamic_pricing_protocol::liquidity::LiquidityProvider;
use dynamic_pricing_protocol::referral::{register_referral, reward_referrer, UserAccount};

#[test]
fn register_sets_referrer() {
    let mut user = UserAccount { referrer: None };
    register_referral(&mut user, 42);
    assert_eq!(user.referrer, Some(42));
}

#[test]
fn register_overwrites_previous_referrer() {
    let mut user = UserAccount { referrer: Some(1) };
    register_referral(&mut user, 2);
    assert_eq!(user.referrer, Some(2));
}

#[test]
fn reward_credits_tenth_to_referrer() {
    let user = UserAccount { referrer: Some(42) };
    let mut referrer_account = LiquidityProvider { liquidity: 0, rewards: 5, last_reward_claim: 0 };
    assert!(reward_referrer(&user, &mut referrer_account, 100).is_ok());
    assert_eq!(referrer_account.rewards, 15);
}

#[test]
fn reward_without_referrer_is_silent_no_op() {
    let user = UserAccount { referrer: None };
    let mut referrer_account = LiquidityProvider { liquidity: 0, rewards: 5, last_reward_claim: 0 };
    assert!(reward_referrer(&user, &mut referrer_account, 100).is_ok());
    assert_eq!(referrer_account.rewards, 5);
}

#[test]
fn reward_reports_overflow() {
    let user = UserAccount { referrer: Some(42) };
    let mut referrer_account =
        LiquidityProvider { liquidity: 0, rewards: u64::MAX, last_reward_claim: 0 };
    assert_eq!(reward_referrer(&user, &mut referrer_account, 100), Err(PricingError::Overflow));
    assert_eq!(referrer_account.rewards, u64::MAX);
}
