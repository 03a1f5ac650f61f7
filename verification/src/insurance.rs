use vstd::prelude::*;
use crate::errors::InsuranceError;
use crate::liquidity::LiquidityProvider;

verus! {

/// The shared fund that backs provider rewards.
#[derive(Clone, Copy, Debug, PartialEq, Eq, Structural)]
pub struct InsurancePool {
    pub total_funds: u64,
}

/// Pays a positive amount into the pool; a fund total that would leave its
/// range fails the call and nothing changes.
pub fn contribute_to_insurance_pool(insurance_pool: &mut InsurancePool, amount: u64) -> (r: Result<
    (),
    InsuranceError,
>)
    ensures
        amount == 0 ==> r == Err::<(), InsuranceError>(InsuranceError::InvalidAmount),
        amount > 0 && old(insurance_pool).total_funds + amount > u64::MAX ==> r == Err::<
            (),
            InsuranceError,
        >(InsuranceError::Overflow),
        r is Ok <==> amount > 0 && old(insurance_pool).total_funds + amount <= u64::MAX,
        r is Ok ==> final(insurance_pool).total_funds == old(insurance_pool).total_funds + amount,
        r is Err ==> *final(insurance_pool) == *old(insurance_pool),
{
    if amount == 0 {
        return Err(InsuranceError::InvalidAmount);
    }
    match insurance_pool.total_funds.checked_add(amount) {
        Some(new_total) => {
            insurance_pool.total_funds = new_total;
            Ok(())
        },
        None => Err(InsuranceError::Overflow),
    }
}

/// Pays a claim out of the pool into a provider's rewards. A claim above the
/// pool's funds is rejected; on success the funds drop and the rewards grow
/// by the same amount, so nothing is created or lost.
pub fn claim_insurance(
    insurance_pool: &mut InsurancePool,
    liquidity_provider: &mut LiquidityProvider,
    amount: u64,
) -> (r: Result<(), InsuranceError>)
    ensures
        amount > old(insurance_pool).total_funds ==> r == Err::<(), InsuranceError>(
            InsuranceError::InsufficientFunds,
        ),
        amount <= old(insurance_pool).total_funds && old(liquidity_provider).rewards + amount
            > u64::MAX ==> r == Err::<(), InsuranceError>(InsuranceError::Overflow),
        r is Ok <==> amount <= old(insurance_pool).total_funds && old(liquidity_provider).rewards
            + amount <= u64::MAX,
        r is Ok ==> final(insurance_pool).total_funds == old(insurance_pool).total_funds - amount
            && final(liquidity_provider).rewards == old(liquidity_provider).rewards + amount,
        final(insurance_pool).total_funds + final(liquidity_provider).rewards == old(
            insurance_pool,
        ).total_funds + old(liquidity_provider).rewards,
        r is Err ==> *final(insurance_pool) == *old(insurance_pool) && *final(liquidity_provider)
            == *old(liquidity_provider),
        final(liquidity_provider).liquidity == old(liquidity_provider).liquidity,
        final(liquidity_provider).last_reward_claim == old(liquidity_provider).last_reward_claim,
{
    if amount > insurance_pool.total_funds {
        return Err(InsuranceError::InsufficientFunds);
    }
    match liquidity_provider.rewards.checked_add(amount) {
        Some(new_rewards) => {
            insurance_pool.total_funds = insurance_pool.total_funds - amount;
            liquidity_provider.rewards = new_rewards;
            Ok(())
        },
        None => Err(InsuranceError::Overflow),
    }
}

} // verus!
