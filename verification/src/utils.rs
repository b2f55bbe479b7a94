use vstd::prelude::*;

use crate::errors::TradeEscrowError;

verus! {

/// Validate an asset identifier: zero is not a valid asset.
pub fn validate_asset_id(asset_id: u64) -> (r: Result<(), TradeEscrowError>)
    ensures
        asset_id > 0 ==> r is Ok,
        asset_id == 0 ==> r == Err::<(), _>(TradeEscrowError::InvalidSignatureFormat),
{
    if asset_id > 0 {
        Ok(())
    } else {
        Err(TradeEscrowError::InvalidSignatureFormat)
    }
}

/// Turn a relative offset into an absolute deadline, bounds-checked to the
/// validation window of one second to ten minutes — the same window `lock`
/// enforces.
pub fn calculate_deadline(now: i64, offset_seconds: i64) -> (r: Result<i64, TradeEscrowError>)
    requires
        0 <= now,
        now + 600 <= i64::MAX,
    ensures
        1 <= offset_seconds <= 600 ==> r == Ok::<_, TradeEscrowError>((now + offset_seconds) as i64),
        !(1 <= offset_seconds <= 600) ==> r == Err::<i64, _>(TradeEscrowError::InvalidDeadline),
{
    if offset_seconds >= 1 && offset_seconds <= 600 {
        Ok(now + offset_seconds)
    } else {
        Err(TradeEscrowError::InvalidDeadline)
    }
}

/// Derive the creation-time nonce that makes an escrow address unique within
/// its time-granularity unit.
pub fn generate_nonce(now: i64) -> (r: u64)
    requires
        0 <= now,
    ensures
        r == now as u64,
{
    now as u64
}

/// Validate the trade principal against the buyer's price cap: the principal
/// must be positive and at most the cap.
pub fn validate_price(amount: u64, max_price: u64) -> (r: Result<(), TradeEscrowError>)
    ensures
        amount == 0 ==> r == Err::<(), _>(TradeEscrowError::InvalidSignatureFormat),
        amount > 0 && amount > max_price ==> r == Err::<(), _>(
            TradeEscrowError::PriceExceedsMaximum,
        ),
        amount > 0 && amount <= max_price ==> r is Ok,
{
    if amount == 0 {
        return Err(TradeEscrowError::InvalidSignatureFormat);
    }
    if amount > max_price {
        return Err(TradeEscrowError::PriceExceedsMaximum);
    }
    Ok(())
}

} // verus!
