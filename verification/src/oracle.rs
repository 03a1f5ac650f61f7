use vstd::prelude::*;
use crate::errors::CustomError;
use crate::pricing::PriceData;

verus! {

/// The aggregate price that a Pyth price account encodes, or nothing where
/// the bytes do not form a valid one; a function of the bytes alone (the
/// account's integers are read in the target's native byte order, which on
/// every target this crate builds for is the little-endian order Pyth
/// accounts are written in).
pub uninterp spec fn oracle_agg_price(bytes: Seq<u8>) -> Option<i64>;

/// Relies on pyth_sdk_solana::state::load_price_account: it reads raw
/// account bytes as a Pyth price account, rejecting bytes whose length,
/// magic number, version or account type do not match, and its result
/// depends on the bytes alone; the account's `agg.price` field holds the
/// aggregate price of the feed. The bytes are first copied into an
/// 8-byte-aligned buffer, which the call's cast requires of its slice but a
/// `&[u8]` does not guarantee.
#[verifier::external_body]
fn read_oracle_price(oracle_account_bytes: &[u8]) -> (r: Result<i64, CustomError>)
    ensures
        (match r {
            Ok(price) => oracle_agg_price(oracle_account_bytes@) == Some(price),
            Err(e) => oracle_agg_price(oracle_account_bytes@) is None && e
                == CustomError::OracleUnavailable,
        }),
{
    let mut aligned: Vec<u64> = vec![0u64; oracle_account_bytes.len() / 8 + 1];
    let buffer: &mut [u8] = bytemuck::cast_slice_mut(&mut aligned);
    buffer[..oracle_account_bytes.len()].copy_from_slice(oracle_account_bytes);
    match pyth_sdk_solana::state::load_price_account::<32, ()>(
        &buffer[..oracle_account_bytes.len()],
    ) {
        Ok(price_account) => Ok(price_account.agg.price),
        Err(_) => Err(CustomError::OracleUnavailable),
    }
}

/// Adopts an already-read oracle price as the current price, cast onto the
/// unsigned price representation. A price that casts to 0 is rejected, so
/// that a price of 0 is never persisted; nothing else changes.
pub fn apply_oracle_price(price_data: &mut PriceData, oracle_price: i64) -> (r: Result<
    (),
    CustomError,
>)
    ensures
        oracle_price as u64 == 0 ==> r == Err::<(), CustomError>(CustomError::OracleUnavailable)
            && *final(price_data) == *old(price_data),
        oracle_price as u64 != 0 ==> r is Ok && final(price_data).price == oracle_price as u64,
        r is Ok ==> final(price_data).price >= 1,
        final(price_data).demand == old(price_data).demand,
        final(price_data).supply == old(price_data).supply,
        final(price_data).total_liquidity == old(price_data).total_liquidity,
{
    let cast_price: u64 = #[verifier::truncate] (oracle_price as u64);
    if cast_price == 0 {
        return Err(CustomError::OracleUnavailable);
    }
    price_data.price = cast_price;
    Ok(())
}

/// Imports the price a Pyth oracle account reports: bytes that form a valid
/// price account whose aggregate price casts onto a positive unsigned price
/// set the current price to it; any others fail the call and nothing
/// changes, so a price of 0 is never persisted.
pub fn fetch_price_from_oracle(price_data: &mut PriceData, oracle_account_bytes: &[u8]) -> (r:
    Result<(), CustomError>)
    ensures
        oracle_agg_price(oracle_account_bytes@) is None ==> r == Err::<(), CustomError>(
            CustomError::OracleUnavailable,
        ) && *final(price_data) == *old(price_data),
        oracle_agg_price(oracle_account_bytes@) matches Some(p) ==> ((p as u64 == 0 ==> r
            == Err::<(), CustomError>(CustomError::OracleUnavailable) && *final(price_data)
            == *old(price_data)) && (p as u64 != 0 ==> r is Ok && final(price_data).price
            == p as u64)),
        r is Ok ==> final(price_data).price >= 1,
        final(price_data).demand == old(price_data).demand,
        final(price_data).supply == old(price_data).supply,
        final(price_data).total_liquidity == old(price_data).total_liquidity,
{
    match read_oracle_price(oracle_account_bytes) {
        Ok(oracle_price) => apply_oracle_price(price_data, oracle_price),
        Err(oracle_error) => Err(oracle_error),
    }
}

} // verus!
