use vstd::prelude::*;
use vstd::arithmetic::div_mod::{lemma_div_by_multiple, lemma_div_is_ordered};
use vstd::arithmetic::mul::lemma_mul_inequality;
use crate::errors::PricingError;

verus! {

/// Market state of one asset: its current price, the running supply and
/// demand counters, and the aggregate liquidity contributed toward it.
#[derive(Clone, Copy, Debug, PartialEq, Eq, Structural)]
pub struct PriceData {
    pub price: u64,
    pub demand: u64,
    pub supply: u64,
    pub total_liquidity: u64,
}

/// Supply every asset starts with.
pub const DEFAULT_INITIAL_SUPPLY: u64 = 100;

/// Fee rate in percent for a given liquidity depth: shallow books pay the
/// most, deep books the least.
pub open spec fn spec_fee_rate(total_liquidity: u64) -> u64 {
    if total_liquidity < 1000 {
        5
    } else if total_liquidity < 5000 {
        2
    } else {
        1
    }
}

/// Fee owed on a transaction amount at a given liquidity depth.
pub open spec fn spec_fee(total_liquidity: u64, transaction_amount: u64) -> int {
    transaction_amount * spec_fee_rate(total_liquidity) / 100
}

/// Price after exponential smoothing toward an observed price.
pub open spec fn spec_smoothed(price: u64, new_price: u64, smoothing_factor: u64) -> int {
    (price * smoothing_factor + new_price) / (smoothing_factor + 1)
}

/// Price after one supply/demand adjustment: a tenth of the imbalance is
/// added or removed, and the result never drops under 1.
pub open spec fn spec_adjusted_price(price: u64, demand: u64, supply: u64) -> int {
    if demand > supply {
        price + (demand - supply) / 10
    } else if (supply - demand) / 10 < price {
        price - (supply - demand) / 10
    } else {
        1
    }
}

/// Creates the market state for a newly listed asset: the given price, no
/// demand yet, the default supply, and no liquidity.
pub fn initialize_price_data(initial_price: u64) -> (r: PriceData)
    requires
        initial_price > 0,
    ensures
        r.price == initial_price,
        r.demand == 0,
        r.supply == DEFAULT_INITIAL_SUPPLY,
        r.total_liquidity == 0,
{
    PriceData { price: initial_price, demand: 0, supply: DEFAULT_INITIAL_SUPPLY, total_liquidity: 0 }
}

/// Overwrites the price with a positive value; a zero price is rejected and
/// nothing changes.
pub fn update_price(price_data: &mut PriceData, new_price: u64) -> (r: Result<(), PricingError>)
    ensures
        new_price > 0 ==> r is Ok && final(price_data).price == new_price,
        new_price == 0 ==> r == Err::<(), PricingError>(PricingError::InvalidPrice)
            && *final(price_data) == *old(price_data),
        final(price_data).demand == old(price_data).demand,
        final(price_data).supply == old(price_data).supply,
        final(price_data).total_liquidity == old(price_data).total_liquidity,
{
    if new_price == 0 {
        return Err(PricingError::InvalidPrice);
    }
    price_data.price = new_price;
    Ok(())
}

/// Moves the price by a tenth of the supply/demand imbalance. A rising
/// adjustment that would not fit the price range fails with `Overflow`; a
/// falling one is clamped so the price never drops under 1.
pub fn adjust_price_based_on_supply_demand(price_data: &mut PriceData) -> (r: Result<
    (),
    PricingError,
>)
    requires
        old(price_data).price >= 1,
    ensures
        old(price_data).demand > old(price_data).supply && old(price_data).price + (old(
            price_data,
        ).demand - old(price_data).supply) / 10 > u64::MAX ==> r == Err::<(), PricingError>(
            PricingError::Overflow,
        ) && *final(price_data) == *old(price_data),
        old(price_data).demand > old(price_data).supply && old(price_data).price + (old(
            price_data,
        ).demand - old(price_data).supply) / 10 <= u64::MAX ==> r is Ok,
        old(price_data).demand <= old(price_data).supply ==> r is Ok,
        r is Ok ==> final(price_data).price == spec_adjusted_price(
            old(price_data).price,
            old(price_data).demand,
            old(price_data).supply,
        ),
        r is Ok ==> final(price_data).price >= 1,
        final(price_data).demand == old(price_data).demand,
        final(price_data).supply == old(price_data).supply,
        final(price_data).total_liquidity == old(price_data).total_liquidity,
{
    if price_data.demand > price_data.supply {
        let increment: u64 = (price_data.demand - price_data.supply) / 10;
        match price_data.price.checked_add(increment) {
            Some(raised) => {
                price_data.price = raised;
                Ok(())
            },
            None => Err(PricingError::Overflow),
        }
    } else {
        let decrement: u64 = (price_data.supply - price_data.demand) / 10;
        if decrement < price_data.price {
            price_data.price = price_data.price - decrement;
        } else {
            price_data.price = 1;
        }
        Ok(())
    }
}

/// Replaces the price with the weighted mean of the old price (weight
/// `smoothing_factor`) and an observed one (weight 1). A factor of 0 adopts
/// the observed price outright; a live price and a positive observed price
/// keep the smoothed price at 1 or above, so a price of 0 is never
/// persisted.
pub fn smooth_price(price_data: &mut PriceData, new_price: u64, smoothing_factor: u64)
    requires
        old(price_data).price >= 1,
        new_price > 0,
    ensures
        final(price_data).price == spec_smoothed(
            old(price_data).price,
            new_price,
            smoothing_factor,
        ),
        final(price_data).price >= 1,
        final(price_data).demand == old(price_data).demand,
        final(price_data).supply == old(price_data).supply,
        final(price_data).total_liquidity == old(price_data).total_liquidity,
{
    proof {
        lemma_mul_inequality(price_data.price as int, u64::MAX as int, smoothing_factor as int);
        lemma_mul_inequality(smoothing_factor as int, u64::MAX as int, u64::MAX as int);
        lemma_mul_inequality(1, price_data.price as int, smoothing_factor as int);
    }
    let weighted: u128 = (price_data.price as u128) * (smoothing_factor as u128) + (
    new_price as u128);
    let divisor: u128 = (smoothing_factor as u128) + 1;
    let smoothed: u128 = weighted / divisor;
    proof {
        lemma_div_is_ordered(
            weighted as int,
            u64::MAX as int * (smoothing_factor as int + 1),
            smoothing_factor as int + 1,
        );
        lemma_div_by_multiple(u64::MAX as int, smoothing_factor as int + 1);
        lemma_div_is_ordered(
            smoothing_factor as int + 1,
            weighted as int,
            smoothing_factor as int + 1,
        );
        lemma_div_by_multiple(1, smoothing_factor as int + 1);
    }
    price_data.price = smoothed as u64;
}

/// Books a purchase: the total cost is the current price times the amount,
/// and is returned for the caller to settle against the buyer's balance. A
/// cost beyond the price range fails with `Overflow`, a buyer balance under
/// the cost with `InsufficientBalance`, an amount beyond the supply with
/// `SupplyExhausted`; on success the supply shrinks and the demand grows by
/// the amount.
pub fn buy_asset(price_data: &mut PriceData, buyer_balance: u64, amount: u64) -> (r: Result<
    u64,
    PricingError,
>)
    ensures
        old(price_data).price * amount > u64::MAX ==> r == Err::<u64, PricingError>(
            PricingError::Overflow,
        ),
        old(price_data).price * amount <= u64::MAX && buyer_balance < old(price_data).price
            * amount ==> r == Err::<u64, PricingError>(PricingError::InsufficientBalance),
        old(price_data).price * amount <= buyer_balance && amount > old(price_data).supply ==> r
            == Err::<u64, PricingError>(PricingError::SupplyExhausted),
        old(price_data).price * amount <= buyer_balance && amount <= old(price_data).supply && old(
            price_data,
        ).demand + amount > u64::MAX ==> r == Err::<u64, PricingError>(PricingError::Overflow),
        r is Ok <==> old(price_data).price * amount <= buyer_balance && amount <= old(
            price_data,
        ).supply && old(price_data).demand + amount <= u64::MAX,
        r is Ok ==> r == Ok::<u64, PricingError>((old(price_data).price * amount) as u64) && final(price_data).supply == old(price_data).supply - amount && final(price_data).demand == old(
            price_data,
        ).demand + amount,
        r is Err ==> *final(price_data) == *old(price_data),
        final(price_data).price == old(price_data).price,
        final(price_data).total_liquidity == old(price_data).total_liquidity,
{
    proof {
        lemma_mul_inequality(price_data.price as int, u64::MAX as int, amount as int);
        lemma_mul_inequality(amount as int, u64::MAX as int, u64::MAX as int);
    }
    let cost_wide: u128 = (price_data.price as u128) * (amount as u128);
    if cost_wide > u64::MAX as u128 {
        return Err(PricingError::Overflow);
    }
    let total_cost: u64 = cost_wide as u64;
    if buyer_balance < total_cost {
        return Err(PricingError::InsufficientBalance);
    }
    if amount > price_data.supply {
        return Err(PricingError::SupplyExhausted);
    }
    match price_data.demand.checked_add(amount) {
        Some(new_demand) => {
            price_data.supply = price_data.supply - amount;
            price_data.demand = new_demand;
            Ok(total_cost)
        },
        None => Err(PricingError::Overflow),
    }
}

/// Computes the tiered fee for a transaction amount; the rate is read from
/// the liquidity depth and nothing is mutated.
pub fn apply_dynamic_fee(price_data: &PriceData, transaction_amount: u64) -> (fee: u64)
    ensures
        fee == spec_fee(price_data.total_liquidity, transaction_amount),
{
    let fee_percentage: u64 = if price_data.total_liquidity < 1000 {
        5
    } else if price_data.total_liquidity < 5000 {
        2
    } else {
        1
    };
    let widened: u128 = (transaction_amount as u128) * (fee_percentage as u128);
    let fee_wide: u128 = widened / 100;
    proof {
        lemma_mul_inequality(transaction_amount as int, u64::MAX as int, fee_percentage as int);
        lemma_mul_inequality(fee_percentage as int, 5, u64::MAX as int);
        lemma_div_is_ordered(widened as int, u64::MAX as int * 5, 100);
        assert(u64::MAX as int * 5 / 100 <= u64::MAX as int);
    }
    fee_wide as u64
}

/// The tiered fee never grows when liquidity deepens: across every pair of
/// liquidity depths, the deeper book pays at most what the shallower one
/// pays for the same transaction amount.
pub proof fn lemma_fee_monotonic(shallow: u64, deep: u64, transaction_amount: u64)
    requires
        shallow <= deep,
    ensures
        spec_fee(deep, transaction_amount) <= spec_fee(shallow, transaction_amount),
{
    lemma_mul_inequality(
        spec_fee_rate(deep) as int,
        spec_fee_rate(shallow) as int,
        transaction_amount as int,
    );
    lemma_div_is_ordered(
        transaction_amount * spec_fee_rate(deep),
        transaction_amount * spec_fee_rate(shallow),
        100,
    );
}

} // verus!


