use dynamic_pricing_protocol::errors::PricingError;
use dynamic_pricing_protocol::liquidity::LiquidityProvider;
use dynamic_pricing_protocol::pricing::PriceData;
use dynamic_pricing_protocol::revenue::distribute_revenue;

fn pool_state(total_liquidity: u64) -> PriceData {
    PriceData { price: 10, demand: 0, supply: 100, total_liquidity }
}

#[test]
fn distribute_fails_without_liquidity() {
    let mut lp = LiquidityProvider { liquidity: 0, rewards: 0, last_reward_claim: 0 };
    let pd = pool_state(0);
    assert_eq!(distribute_revenue(&mut lp, &pd, 1000), Err(PricingError::NoLiquidity));
    assert_eq!(lp.rewards, 0);
}

#[test]
fn distribute_credits_proportional_share() {
    let mut lp = LiquidityProvider { liquidity: 300, rewards: 7, last_reward_claim: 0 };
    let pd = pool_state(1000);
    assert!(distribute_revenue(&mut lp, &pd, 90).is_ok());
    assert_eq!(lp.rewards, 7 + 27);
}

#[test]
fn distribute_full_owner_gets_whole_revenue() {
    let mut lp = LiquidityProvider { liquidity: 1000, rewards: 0, last_reward_claim: 0 };
    let pd = pool_state(1000);
    assert!(distribute_revenue(&mut lp, &pd, 12345).is_ok());
    assert_eq!(lp.rewards, 12345);
}

#[test]
fn distribute_rounds_share_down() {
    let mut lp = LiquidityProvider { liquidity: 1, rewards: 0, last_reward_claim: 0 };
    let pd = pool_state(3);
    assert!(distribute_revenue(&mut lp, &pd, 10).is_ok());
    assert_eq!(lp.rewards, 3);
}

#[test]
fn distribute_share_never_exceeds_revenue() {
    let mut lp = LiquidityProvider { liquidity: 999, rewards: 0, last_reward_claim: 0 };
    let pd = pool_state(1000);
    assert!(distribute_revenue(&mut lp, &pd, 77).is_ok());
    assert!(lp.rewards <= 77);
}

#[test]
fn distribute_reports_reward_overflow() {
    let mut lp = LiquidityProvider { liquidity: 1000, rewards: u64::MAX, last_reward_claim: 0 };
    let pd = pool_state(1000);
    assert_eq!(distribute_revenue(&mut lp, &pd, 1), Err(PricingError::Overflow));
    assert_eq!(lp.rewards, u64::MAX);
}
