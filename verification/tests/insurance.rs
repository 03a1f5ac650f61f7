use dynamic_pricing_protocol::errors::InsuranceError;
use dynamic_pricing_protocol::insurance::{
    claim_insurance, contribute_to_insurance_pool, InsurancePool,
};
use dynamic_pricing_protocol::liquidity::LiquidityProvider;

#[test]
fn pool_contribution_grows_funds() {
    let mut pool = InsurancePool { total_funds: 100 };
    assert!(contribute_to_insurance_pool(&mut pool, 50).is_ok());
    assert_eq!(pool.total_funds, 150);
}

#[test]
fn pool_contribution_rejects_zero() {
    let mut pool = InsurancePool { total_funds: 100 };
    assert_eq!(contribute_to_insurance_pool(&mut pool, 0), Err(InsuranceError::InvalidAmount));
    assert_eq!(pool.total_funds, 100);
}

#[test]
fn pool_contribution_reports_overflow() {
    let mut pool = InsurancePool { total_funds: u64::MAX };
    assert_eq!(contribute_to_insurance_pool(&mut pool, 1), Err(InsuranceError::Overflow));
    assert_eq!(pool.total_funds, u64::MAX);
}

#[test]
fn claim_moves_funds_into_rewards() {
    let mut pool = InsurancePool { total_funds: 100 };
    let mut lp = LiquidityProvider { liquidity: 0, rewards: 5, last_reward_claim: 0 };
    assert!(claim_insurance(&mut pool, &mut lp, 40).is_ok());
    assert_eq!(pool.total_funds, 60);
    assert_eq!(lp.rewards, 45);
}

#[test]
fn claim_conserves_total_value() {
    let mut pool = InsurancePool { total_funds: 81 };
    let mut lp = LiquidityProvider { liquidity: 0, rewards: 19, last_reward_claim: 0 };
    let before = pool.total_funds + lp.rewards;
    assert!(claim_insurance(&mut pool, &mut lp, 81).is_ok());
    assert_eq!(pool.total_funds + lp.rewards, before);
}

#[test]
fn claim_above_funds_is_rejected() {
    let mut pool = InsurancePool { total_funds: 30 };
    let mut lp = LiquidityProvider { liquidity: 0, rewards: 0, last_reward_claim: 0 };
    assert_eq!(claim_insurance(&mut pool, &mut lp, 31), Err(InsuranceError::InsufficientFunds));
    assert_eq!(pool.total_funds, 30);
    assert_eq!(lp.rewards, 0);
}

#[test]
fn claim_reports_reward_overflow_without_partial_change() {
    let mut pool = InsurancePool { total_funds: 30 };
    let mut lp = LiquidityProvider { liquidity: 0, rewards: u64::MAX, last_reward_claim: 0 };
    assert_eq!(claim_insurance(&mut pool, &mut lp, 1), Err(InsuranceError::Overflow));
    assert_eq!(pool.total_funds, 30);
    assert_eq!(lp.rewards, u64::MAX);
}
