//! The range policy.
//!
//! Decides whether the market price is inside the configured band and, when
//! it is not, the bounds for the replacement position.  The bound rule is
//! the offset of the price from each target: it fails whenever a bound
//! would come out negative, and positions encode bounds in signed 32-bit
//! ticks, so an offset beyond that width fails as well.  With this rule an
//! out-of-band price always leaves one offset negative, so a rebalance can
//! only complete once the rule is replaced by a real price-to-tick
//! conversion; the orchestrator treats the rule as a pluggable decision and
//! is unaffected by such a swap.

use vstd::prelude::*;

use crate::errors::CustomError;

verus! {

/// Whether `current_price` lies within the closed band
/// `[min_price, max_price]`.
pub open spec fn in_range(current_price: u64, min_price: u64, max_price: u64) -> bool {
    min_price <= current_price <= max_price
}

/// The lower bound for a replacement position, or the exact failure:
/// a negative offset is a policy failure, an offset beyond the signed
/// 32-bit tick width an arithmetic one.
pub open spec fn spec_tick_lower(current_price: u64, min_price: u64) -> Result<i32, CustomError> {
    if current_price < min_price {
        Err(CustomError::PositionOutOfRangeCheckFailed)
    } else if current_price - min_price > i32::MAX as int {
        Err(CustomError::ArithmeticOverflow)
    } else {
        Ok((current_price - min_price) as i32)
    }
}

/// The upper bound for a replacement position, or the exact failure,
/// mirror to [`spec_tick_lower`].
pub open spec fn spec_tick_upper(current_price: u64, max_price: u64) -> Result<i32, CustomError> {
    if max_price < current_price {
        Err(CustomError::PositionOutOfRangeCheckFailed)
    } else if max_price - current_price > i32::MAX as int {
        Err(CustomError::ArithmeticOverflow)
    } else {
        Ok((max_price - current_price) as i32)
    }
}

/// True exactly when `current_price` lies within the closed band
/// `[min_price, max_price]`.
pub fn is_in_range(current_price: u64, min_price: u64, max_price: u64) -> (r: bool)
    ensures
        r == in_range(current_price, min_price, max_price),
{
    min_price <= current_price && current_price <= max_price
}

/// Computes the lower tick bound for the replacement position: the offset
/// of the current price above the lower target.
pub fn determine_tick_lower(current_price: u64, min_price: u64) -> (r: Result<i32, CustomError>)
    ensures
        r == spec_tick_lower(current_price, min_price),
{
    if current_price < min_price {
        return Err(CustomError::PositionOutOfRangeCheckFailed);
    }
    let diff: u64 = current_price - min_price;
    if diff > i32::MAX as u64 {
        return Err(CustomError::ArithmeticOverflow);
    }
    Ok(diff as i32)
}

/// Computes the upper tick bound for the replacement position: the offset
/// of the upper target above the current price.
pub fn determine_tick_upper(current_price: u64, max_price: u64) -> (r: Result<i32, CustomError>)
    ensures
        r == spec_tick_upper(current_price, max_price),
{
    if max_price < current_price {
        return Err(CustomError::PositionOutOfRangeCheckFailed);
    }
    let diff: u64 = max_price - current_price;
    if diff > i32::MAX as u64 {
        return Err(CustomError::ArithmeticOverflow);
    }
    Ok(diff as i32)
}

} // verus!
