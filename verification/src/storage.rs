use crate::error::MarketError;
use vstd::prelude::*;

verus! {

/// What one byte of storage costs.
pub const STORAGE_PRICE_PER_BYTE: u128 = 10_000_000_000_000_000_000;

/// A refund of one unit or less is not worth a transfer.
pub const REFUND_DUST: u128 = 1;

/// `near_sdk::env::storage_byte_cost` takes nothing and returns its constant
/// `STORAGE_PRICE_PER_BYTE`, which is 10^19.
pub assume_specification[ near_sdk::env::storage_byte_cost ]() -> (cost: u128)
    ensures
        cost == STORAGE_PRICE_PER_BYTE,
;

/// What `storage_used` bytes of storage cost.
pub open spec fn required_cost(storage_used: u64) -> nat {
    (storage_used * STORAGE_PRICE_PER_BYTE) as nat
}

/// How a call is settled that used `storage_used` bytes, came with `attached_deposit`
/// and spends `extra_spend` of it on something else. The rest of the deposit must cover
/// the storage; what is then left goes back to the caller where it is more than dust.
pub open spec fn settlement(storage_used: u64, extra_spend: u128, attached_deposit: u128) -> Result<
    Option<u128>,
    MarketError,
> {
    let left = attached_deposit - extra_spend - required_cost(storage_used);
    if left < 0 {
        Err(MarketError::StorageNotCovered)
    } else if left > REFUND_DUST {
        Ok(Some(left as u128))
    } else {
        Ok(None)
    }
}

/// Settles the storage that a call used: refuses a deposit that does not cover it, and
/// otherwise gives the amount to send back to the caller, if any.
pub fn refund_deposit(storage_used: u64, extra_spend: u128, attached_deposit: u128) -> (settled: Result<
    Option<u128>,
    MarketError,
>)
    ensures
        settled == settlement(storage_used, extra_spend, attached_deposit),
{
    assert(storage_used * STORAGE_PRICE_PER_BYTE <= u128::MAX) by (nonlinear_arith)
        requires
            storage_used <= u64::MAX,
    ;
    let required_cost: u128 = near_sdk::env::storage_byte_cost() * (storage_used as u128);
    if attached_deposit < extra_spend {
        return Err(MarketError::StorageNotCovered);
    }
    let available: u128 = attached_deposit - extra_spend;
    if required_cost > available {
        return Err(MarketError::StorageNotCovered);
    }
    let refund: u128 = available - required_cost;
    if refund > REFUND_DUST {
        Ok(Some(refund))
    } else {
        Ok(None)
    }
}

} // verus!
