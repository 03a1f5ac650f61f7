use vstd::prelude::*;
use crate::errors::PricingError;
use crate::liquidity::LiquidityProvider;

verus! {

/// A user's profile: the identity of whoever referred them, once one is
/// registered.
#[derive(Clone, Copy, Debug, PartialEq, Eq)]
pub struct UserAccount {
    pub referrer: Option<u64>,
}

/// Divisor of the referral reward rate: a referrer earns a tenth of each
/// rewarded amount.
pub const REFERRAL_RATE_DIVISOR: u64 = 10;

/// Records who referred a user; a later registration overwrites the link.
pub fn register_referral(user_account: &mut UserAccount, referrer: u64)
    ensures
        final(user_account).referrer == Some(referrer),
{
    user_account.referrer = Some(referrer);
}

/// Credits a tenth of a rewarded amount to the account of the user's
/// referrer. A user without a referrer is a no-op, not an error; a reward
/// balance that would leave its range fails the call and nothing changes.
pub fn reward_referrer(
    user_account: &UserAccount,
    referrer_account: &mut LiquidityProvider,
    amount: u64,
) -> (r: Result<(), PricingError>)
    ensures
        user_account.referrer is None ==> r is Ok && *final(referrer_account)
            == *old(referrer_account),
        user_account.referrer is Some && old(referrer_account).rewards + amount
            / REFERRAL_RATE_DIVISOR > u64::MAX ==> r == Err::<(), PricingError>(
            PricingError::Overflow,
        ) && *final(referrer_account) == *old(referrer_account),
        user_account.referrer is Some && old(referrer_account).rewards + amount
            / REFERRAL_RATE_DIVISOR <= u64::MAX ==> r is Ok && final(referrer_account).rewards
            == old(referrer_account).rewards + amount / REFERRAL_RATE_DIVISOR,
        final(referrer_account).liquidity == old(referrer_account).liquidity,
        final(referrer_account).last_reward_claim == old(referrer_account).last_reward_claim,
{
    match user_account.referrer {
        Some(_) => {
            match referrer_account.rewards.checked_add(amount / REFERRAL_RATE_DIVISOR) {
                Some(new_rewards) => {
                    referrer_account.rewards = new_rewards;
                    Ok(())
                },
                None => Err(PricingError::Overflow),
            }
        },
        None => Ok(()),
    }
}

} // verus!
