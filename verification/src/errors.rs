use vstd::prelude::*;

verus! {

/// Failure kinds of the price engine, liquidity ledger, revenue distributor
/// and referral registry.
#[derive(Clone, Copy, Debug, PartialEq, Eq, Structural)]
pub enum PricingError {
    /// A price of zero was supplied.
    InvalidPrice,
    /// A zero amount was supplied where a positive one is required.
    InvalidAmount,
    /// A purchase asked for more units than the current supply holds.
    SupplyExhausted,
    /// The buyer's balance does not cover the total cost.
    InsufficientBalance,
    /// Rewards were claimed before the vesting period elapsed.
    VestingPeriodNotMet,
    /// More rewards were claimed than the position holds.
    InsufficientRewards,
    /// Revenue cannot be shared while no liquidity is registered.
    NoLiquidity,
    /// A counter would exceed its representable range.
    Overflow,
}

/// Failure kinds of the governance module.
#[derive(Clone, Copy, Debug, PartialEq, Eq, Structural)]
pub enum GovernanceError {
    /// A proposed fee percentage above the allowed maximum.
    InvalidFeePercentage,
    /// The voter already cast a vote on the open proposal.
    AlreadyVoted,
    /// A vote tally or token balance would exceed its representable range.
    Overflow,
}

/// Failure kinds of the insurance pool.
#[derive(Clone, Copy, Debug, PartialEq, Eq, Structural)]
pub enum InsuranceError {
    /// A claim asked for more than the pool holds.
    InsufficientFunds,
    /// A zero amount was supplied where a positive one is required.
    InvalidAmount,
    /// The pool total or a reward balance would exceed its representable range.
    Overflow,
}

/// Failure kinds of the oracle import.
#[derive(Clone, Copy, Debug, PartialEq, Eq, Structural)]
pub enum CustomError {
    /// The oracle account bytes could not be read as a valid price account.
    OracleUnavailable,
}

} // verus!
