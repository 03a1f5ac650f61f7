use vstd::prelude::*;
use vstd::arithmetic::div_mod::{
    lemma_div_by_multiple,
    lemma_div_is_ordered,
    lemma_div_of0,
    lemma_div_pos_is_pos,
    lemma_fundamental_div_mod,
    lemma_mod_division_less_than_divisor,
};
use vstd::arithmetic::mul::{
    lemma_mul_inequality,
    lemma_mul_is_commutative,
    lemma_mul_is_distributive_add,
    lemma_mul_is_distributive_add_other_way,
    lemma_mul_nonnegative,
};
use crate::errors::PricingError;
use crate::liquidity::{sum_liquidity, LiquidityProvider};
use crate::pricing::PriceData;

verus! {

/// A provider's proportional share of a revenue amount, rounded down: their
/// liquidity over the asset's total liquidity, times the revenue.
pub open spec fn spec_share(liquidity: u64, total_revenue: u64, total_liquidity: u64) -> int {
    liquidity * total_revenue / (total_liquidity as int)
}

/// Sum of the proportional shares over a set of positions.
pub open spec fn sum_shares(positions: Seq<u64>, total_revenue: u64, total_liquidity: u64) -> int
    decreases positions.len(),
{
    if positions.len() == 0 {
        0
    } else {
        spec_share(positions[0], total_revenue, total_liquidity) + sum_shares(
            positions.drop_first(),
            total_revenue,
            total_liquidity,
        )
    }
}

/// Credits a provider's proportional share of a revenue amount to their
/// rewards. While no liquidity is registered there is nothing to share and
/// the call fails; the floored share never exceeds the revenue itself.
pub fn distribute_revenue(
    liquidity_provider: &mut LiquidityProvider,
    price_data: &PriceData,
    total_revenue: u64,
) -> (r: Result<(), PricingError>)
    requires
        old(liquidity_provider).liquidity <= price_data.total_liquidity,
    ensures
        price_data.total_liquidity == 0 ==> r == Err::<(), PricingError>(PricingError::NoLiquidity),
        price_data.total_liquidity > 0 && old(liquidity_provider).rewards + spec_share(
            old(liquidity_provider).liquidity,
            total_revenue,
            price_data.total_liquidity,
        ) > u64::MAX ==> r == Err::<(), PricingError>(PricingError::Overflow),
        r is Ok <==> price_data.total_liquidity > 0 && old(liquidity_provider).rewards + spec_share(
            old(liquidity_provider).liquidity,
            total_revenue,
            price_data.total_liquidity,
        ) <= u64::MAX,
        r is Ok ==> final(liquidity_provider).rewards == old(liquidity_provider).rewards
            + spec_share(
            old(liquidity_provider).liquidity,
            total_revenue,
            price_data.total_liquidity,
        ),
        r is Ok ==> final(liquidity_provider).rewards <= old(liquidity_provider).rewards
            + total_revenue,
        r is Err ==> *final(liquidity_provider) == *old(liquidity_provider),
        final(liquidity_provider).liquidity == old(liquidity_provider).liquidity,
        final(liquidity_provider).last_reward_claim == old(liquidity_provider).last_reward_claim,
{
    if price_data.total_liquidity == 0 {
        return Err(PricingError::NoLiquidity);
    }
    proof {
        lemma_mul_inequality(
            liquidity_provider.liquidity as int,
            price_data.total_liquidity as int,
            total_revenue as int,
        );
        lemma_mul_inequality(
            price_data.total_liquidity as int,
            u64::MAX as int,
            total_revenue as int,
        );
        lemma_mul_inequality(total_revenue as int, u64::MAX as int, u64::MAX as int);
        lemma_div_is_ordered(
            liquidity_provider.liquidity as int * total_revenue as int,
            price_data.total_liquidity as int * total_revenue as int,
            price_data.total_liquidity as int,
        );
        lemma_div_by_multiple(total_revenue as int, price_data.total_liquidity as int);
    }
    let share_wide: u128 = (liquidity_provider.liquidity as u128) * (total_revenue as u128) / (
    price_data.total_liquidity as u128);
    let share: u64 = share_wide as u64;
    match liquidity_provider.rewards.checked_add(share) {
        Some(new_rewards) => {
            liquidity_provider.rewards = new_rewards;
            Ok(())
        },
        None => Err(PricingError::Overflow),
    }
}

/// The sum of a set of positions' liquidity is never negative.
proof fn lemma_sum_liquidity_nonneg(positions: Seq<u64>)
    ensures
        sum_liquidity(positions) >= 0,
    decreases positions.len(),
{
    if positions.len() > 0 {
        lemma_sum_liquidity_nonneg(positions.drop_first());
    }
}

/// Floor division distributes subadditively over a sum of non-negative
/// numerators.
proof fn lemma_div_subadditive(a: int, b: int, d: int)
    requires
        a >= 0,
        b >= 0,
        d > 0,
    ensures
        a / d + b / d <= (a + b) / d,
{
    lemma_fundamental_div_mod(a, d);
    lemma_fundamental_div_mod(b, d);
    lemma_mod_division_less_than_divisor(a, d);
    lemma_mod_division_less_than_divisor(b, d);
    lemma_div_pos_is_pos(a, d);
    lemma_div_pos_is_pos(b, d);
    let quotients = a / d + b / d;
    assert(quotients * d <= a + b) by {
        lemma_mul_is_distributive_add(d, a / d, b / d);
        assert(d * (a / d) + d * (b / d) <= a + b);
        lemma_mul_is_commutative(quotients, d);
    };
    lemma_div_is_ordered(quotients * d, a + b, d);
    lemma_div_by_multiple(quotients, d);
}

/// The summed shares stay under the revenue scaled by the positions' own
/// share of the recorded total.
proof fn lemma_sum_shares_bounded(positions: Seq<u64>, total_revenue: u64, total_liquidity: u64)
    requires
        total_liquidity > 0,
    ensures
        sum_shares(positions, total_revenue, total_liquidity) <= sum_liquidity(positions)
            * total_revenue / (total_liquidity as int),
    decreases positions.len(),
{
    if positions.len() == 0 {
        lemma_div_of0(total_liquidity as int);
    } else {
        let rest = positions.drop_first();
        lemma_sum_shares_bounded(rest, total_revenue, total_liquidity);
        lemma_sum_liquidity_nonneg(rest);
        let head_scaled = positions[0] * total_revenue;
        let rest_scaled = sum_liquidity(rest) * total_revenue;
        lemma_mul_nonnegative(positions[0] as int, total_revenue as int);
        lemma_mul_nonnegative(sum_liquidity(rest), total_revenue as int);
        lemma_div_subadditive(head_scaled, rest_scaled, total_liquidity as int);
        lemma_mul_is_distributive_add_other_way(
            total_revenue as int,
            positions[0] as int,
            sum_liquidity(rest),
        );
    }
}

/// Floor rounding only ever leaves revenue undistributed: when the recorded
/// total liquidity equals the sum of the positions' liquidity, the shares
/// handed out across all positions sum to at most the revenue.
pub proof fn lemma_distribution_never_exceeds_revenue(
    positions: Seq<u64>,
    total_revenue: u64,
    total_liquidity: u64,
)
    requires
        total_liquidity > 0,
        sum_liquidity(positions) == total_liquidity,
    ensures
        sum_shares(positions, total_revenue, total_liquidity) <= total_revenue,
{
    lemma_sum_shares_bounded(positions, total_revenue, total_liquidity);
    lemma_mul_is_commutative(total_liquidity as int, total_revenue as int);
    lemma_div_by_multiple(total_revenue as int, total_liquidity as int);
    assert(sum_liquidity(positions) * total_revenue == total_revenue as int * (
    total_liquidity as int));
}

} // verus!
