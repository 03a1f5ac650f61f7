use vstd::prelude::*;
use crate::errors::PricingError;
use crate::pricing::PriceData;

verus! {

/// One provider's stake: the liquidity contributed, the rewards accrued so
/// far, and the time of the last reward claim, which gates vesting.
#[derive(Clone, Copy, Debug, PartialEq, Eq, Structural)]
pub struct LiquidityProvider {
    pub liquidity: u64,
    pub rewards: u64,
    pub last_reward_claim: i64,
}

/// Divisor of the fixed reward rate: each contribution accrues one percent
/// of its amount as rewards.
pub const REWARD_RATE_DIVISOR: u64 = 100;

/// Seconds that must elapse since the last claim before rewards vest.
pub const VESTING_PERIOD_SECONDS: u64 = 604800;

/// Total liquidity across a set of positions.
pub open spec fn sum_liquidity(positions: Seq<u64>) -> int
    decreases positions.len(),
{
    if positions.len() == 0 {
        0
    } else {
        positions[0] + sum_liquidity(positions.drop_first())
    }
}

/// Books a contribution: the position's liquidity grows by the amount, its
/// rewards by one percent of the amount, and the asset's aggregate liquidity
/// by the amount. A zero amount is rejected; a counter that would leave its
/// range fails the whole call and nothing changes.
pub fn contribute_liquidity(
    liquidity_provider: &mut LiquidityProvider,
    price_data: &mut PriceData,
    amount: u64,
) -> (r: Result<(), PricingError>)
    ensures
        amount == 0 ==> r == Err::<(), PricingError>(PricingError::InvalidAmount),
        amount > 0 && (old(liquidity_provider).liquidity + amount > u64::MAX || old(
            liquidity_provider,
        ).rewards + amount / REWARD_RATE_DIVISOR > u64::MAX || old(price_data).total_liquidity
            + amount > u64::MAX) ==> r == Err::<(), PricingError>(PricingError::Overflow),
        r is Ok <==> amount > 0 && old(liquidity_provider).liquidity + amount <= u64::MAX && old(
            liquidity_provider,
        ).rewards + amount / REWARD_RATE_DIVISOR <= u64::MAX && old(price_data).total_liquidity
            + amount <= u64::MAX,
        r is Ok ==> final(liquidity_provider).liquidity == old(liquidity_provider).liquidity
            + amount && final(liquidity_provider).rewards == old(liquidity_provider).rewards
            + amount / REWARD_RATE_DIVISOR && final(price_data).total_liquidity == old(
            price_data,
        ).total_liquidity + amount,
        r is Err ==> *final(liquidity_provider) == *old(liquidity_provider) && *final(price_data)
            == *old(price_data),
        final(liquidity_provider).last_reward_claim == old(liquidity_provider).last_reward_claim,
        final(price_data).price == old(price_data).price,
        final(price_data).demand == old(price_data).demand,
        final(price_data).supply == old(price_data).supply,
{
    if amount == 0 {
        return Err(PricingError::InvalidAmount);
    }
    let reward_accrual: u64 = amount / REWARD_RATE_DIVISOR;
    let grown_liquidity: Option<u64> = liquidity_provider.liquidity.checked_add(amount);
    let grown_rewards: Option<u64> = liquidity_provider.rewards.checked_add(reward_accrual);
    let grown_total: Option<u64> = price_data.total_liquidity.checked_add(amount);
    match (grown_liquidity, grown_rewards, grown_total) {
        (Some(new_liquidity), Some(new_rewards), Some(new_total)) => {
            liquidity_provider.liquidity = new_liquidity;
            liquidity_provider.rewards = new_rewards;
            price_data.total_liquidity = new_total;
            Ok(())
        },
        _ => Err(PricingError::Overflow),
    }
}

/// Claims vested rewards: only after more than the vesting period has passed
/// since the last claim, and only up to the rewards held. On success the
/// claimed amount leaves the reward balance and the claim time advances to
/// the current time.
pub fn vest_rewards(
    liquidity_provider: &mut LiquidityProvider,
    amount: u64,
    current_time: i64,
) -> (r: Result<(), PricingError>)
    ensures
        current_time - old(liquidity_provider).last_reward_claim <= VESTING_PERIOD_SECONDS ==> r
            == Err::<(), PricingError>(PricingError::VestingPeriodNotMet),
        current_time - old(liquidity_provider).last_reward_claim > VESTING_PERIOD_SECONDS && amount
            > old(liquidity_provider).rewards ==> r == Err::<(), PricingError>(
            PricingError::InsufficientRewards,
        ),
        r is Ok <==> current_time - old(liquidity_provider).last_reward_claim
            > VESTING_PERIOD_SECONDS && amount <= old(liquidity_provider).rewards,
        r is Ok ==> final(liquidity_provider).rewards == old(liquidity_provider).rewards - amount
            && final(liquidity_provider).last_reward_claim == current_time,
        r is Err ==> *final(liquidity_provider) == *old(liquidity_provider),
        final(liquidity_provider).liquidity == old(liquidity_provider).liquidity,
        final(liquidity_provider).last_reward_claim >= old(liquidity_provider).last_reward_claim,
{
    let elapsed: i128 = (current_time as i128) - (liquidity_provider.last_reward_claim as i128);
    if elapsed <= VESTING_PERIOD_SECONDS as i128 {
        return Err(PricingError::VestingPeriodNotMet);
    }
    if amount > liquidity_provider.rewards {
        return Err(PricingError::InsufficientRewards);
    }
    liquidity_provider.rewards = liquidity_provider.rewards - amount;
    liquidity_provider.last_reward_claim = current_time;
    Ok(())
}

/// Halves the rewards of a provider whose last claim lies further back than
/// the given inactivity period; an active provider is left untouched. Each
/// call that finds the window exceeded halves exactly once.
pub fn slash_inactive_provider(
    liquidity_provider: &mut LiquidityProvider,
    inactivity_period: i64,
    current_time: i64,
)
    ensures
        current_time - old(liquidity_provider).last_reward_claim > inactivity_period
            ==> final(liquidity_provider).rewards == old(liquidity_provider).rewards / 2,
        current_time - old(liquidity_provider).last_reward_claim <= inactivity_period
            ==> *final(liquidity_provider) == *old(liquidity_provider),
        final(liquidity_provider).liquidity == old(liquidity_provider).liquidity,
        final(liquidity_provider).last_reward_claim == old(liquidity_provider).last_reward_claim,
{
    let elapsed: i128 = (current_time as i128) - (liquidity_provider.last_reward_claim as i128);
    if elapsed > inactivity_period as i128 {
        liquidity_provider.rewards = liquidity_provider.rewards / 2;
    }
}

/// Replacing one position's liquidity with a larger value moves the total by
/// exactly the difference.
proof fn lemma_sum_liquidity_update(positions: Seq<u64>, i: int, updated: u64)
    requires
        0 <= i < positions.len(),
    ensures
        sum_liquidity(positions.update(i, updated)) == sum_liquidity(positions) - positions[i]
            + updated,
    decreases positions.len(),
{
    if i == 0 {
        assert(positions.update(0, updated).drop_first() =~= positions.drop_first());
    } else {
        assert(positions.update(i, updated).drop_first() =~= positions.drop_first().update(
            i - 1,
            updated,
        ));
        lemma_sum_liquidity_update(positions.drop_first(), i - 1, updated);
    }
}

/// Contributions keep the ledger and the aggregate in step: when the
/// positions' liquidity sums to the asset's recorded total and one position
/// grows by a contributed amount, the new sum equals the total grown by that
/// same amount — so the recorded total always equals the sum across all
/// positions.
pub proof fn lemma_contribution_preserves_total_liquidity(
    positions: Seq<u64>,
    i: int,
    amount: u64,
    total_liquidity: u64,
)
    requires
        0 <= i < positions.len(),
        sum_liquidity(positions) == total_liquidity,
        positions[i] + amount <= u64::MAX,
    ensures
        sum_liquidity(positions.update(i, (positions[i] + amount) as u64)) == total_liquidity
            + amount,
{
    lemma_sum_liquidity_update(positions, i, (positions[i] + amount) as u64);
}

} // verus!
