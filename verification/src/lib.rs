//! A dynamic-pricing and liquidity-incentive ledger.
//!
//! The crate tracks the price of a traded asset, adjusts it from supply and
//! demand signals and from an external oracle feed, and manages liquidity
//! providers who earn vested rewards, proportional revenue shares, tiered
//! transaction fees, an insurance backstop, referral incentives and a
//! token-weighted governance vote over the fee parameter. Every state
//! transition is a verified function whose contract states exactly what it
//! changes and on which inputs it fails.

pub mod errors;
pub mod governance;
pub mod insurance;
pub mod liquidity;
pub mod oracle;
pub mod pricing;
pub mod referral;
pub mod revenue;
