use vstd::prelude::*;
use crate::address::Address;
use crate::constants::{MAX_FEE_BPS, MAX_SLIPPAGE_BPS};
use crate::errors::SelixError;
use crate::platform::Platform;

verus! {

/// `Ok(())` when `ok`, else the given error.
pub open spec fn check(ok: bool, e: SelixError) -> Result<(), SelixError> {
    if ok {
        Ok(())
    } else {
        Err(e)
    }
}

/// Why an amount is refused against a minimum, if it is.
pub open spec fn amount_rejection(amount: u64, min_amount: u64) -> Option<SelixError> {
    if amount == 0 {
        Some(SelixError::InvalidAmount)
    } else if amount < min_amount {
        Some(SelixError::AmountTooSmall)
    } else {
        None
    }
}

/// Why a duration is refused by a venue, if it is.
pub open spec fn duration_rejection(duration: i64, platform: Platform) -> Option<SelixError> {
    if duration < platform.min_listing_duration {
        Some(SelixError::DurationTooShort)
    } else if duration > platform.max_listing_duration {
        Some(SelixError::DurationTooLong)
    } else {
        None
    }
}

pub open spec fn as_result(rejection: Option<SelixError>) -> Result<(), SelixError> {
    match rejection {
        Some(e) => Err(e),
        None => Ok(()),
    }
}

/// An amount must be positive and at least `min_amount`.
pub fn validate_amount(amount: u64, min_amount: u64) -> (r: Result<(), SelixError>)
    ensures
        r == as_result(amount_rejection(amount, min_amount)),
{
    if amount == 0 {
        return Err(SelixError::InvalidAmount);
    }
    if amount < min_amount {
        return Err(SelixError::AmountTooSmall);
    }
    Ok(())
}

/// The two assets of a listing must differ.
pub fn validate_different_mints(mint_a: &Address, mint_b: &Address) -> (r: Result<(), SelixError>)
    ensures
        r == check(mint_a@ != mint_b@, SelixError::SameTokenMints),
{
    if mint_a.same_as(mint_b) {
        return Err(SelixError::SameTokenMints);
    }
    Ok(())
}

/// A listing duration must lie within the venue's bounds.
pub fn validate_duration(duration: i64, platform: &Platform) -> (r: Result<(), SelixError>)
    ensures
        r == as_result(duration_rejection(duration, *platform)),
{
    if duration < platform.min_listing_duration {
        return Err(SelixError::DurationTooShort);
    }
    if duration > platform.max_listing_duration {
        return Err(SelixError::DurationTooLong);
    }
    Ok(())
}

/// A fee is at most 1000 basis points.
pub fn validate_fee_bps(fee_bps: u16) -> (r: Result<(), SelixError>)
    ensures
        r == check(fee_bps <= 1000, SelixError::InvalidFeeConfiguration),
{
    if fee_bps > MAX_FEE_BPS {
        return Err(SelixError::InvalidFeeConfiguration);
    }
    Ok(())
}

/// A slippage tolerance is at most 1000 basis points.
pub fn validate_slippage_bps(slippage_bps: u16) -> (r: Result<(), SelixError>)
    ensures
        r == check(slippage_bps <= 1000, SelixError::SlippageExceeded),
{
    if slippage_bps > MAX_SLIPPAGE_BPS {
        return Err(SelixError::SlippageExceeded);
    }
    Ok(())
}

/// A minimum fill cannot exceed what it applies to.
pub fn validate_min_fill_amount(min_fill: u64, total_amount: u64) -> (r: Result<(), SelixError>)
    ensures
        r == check(min_fill <= total_amount, SelixError::MinFillAmountTooLarge),
{
    if min_fill > total_amount {
        return Err(SelixError::MinFillAmountTooLarge);
    }
    Ok(())
}

pub fn validate_not_paused(platform: &Platform) -> (r: Result<(), SelixError>)
    ensures
        r == check(!platform.is_paused, SelixError::PlatformPaused),
{
    if platform.is_paused {
        return Err(SelixError::PlatformPaused);
    }
    Ok(())
}

/// A user below the venue's cap may open one more listing.
pub fn validate_listing_limit(active_count: u16, max_allowed: u16) -> (r: Result<(), SelixError>)
    ensures
        r == check(active_count < max_allowed, SelixError::MaxListingsReached),
{
    if active_count >= max_allowed {
        return Err(SelixError::MaxListingsReached);
    }
    Ok(())
}

pub fn validate_future_timestamp(timestamp: i64, current_time: i64) -> (r: Result<(), SelixError>)
    ensures
        r == check(timestamp > current_time, SelixError::ListingExpired),
{
    if timestamp <= current_time {
        return Err(SelixError::ListingExpired);
    }
    Ok(())
}

/// The shortest listing duration must be below the longest.
pub fn validate_duration_bounds(min_duration: i64, max_duration: i64) -> (r: Result<(), SelixError>)
    ensures
        r == check(min_duration < max_duration, SelixError::InvalidDurationBounds),
{
    if min_duration >= max_duration {
        return Err(SelixError::InvalidDurationBounds);
    }
    Ok(())
}

} // verus!
