use vstd::prelude::*;
use anchor_lang::prelude::{Clock, ProgramError, SolanaSysvar};
use crate::errors::SelixError;

verus! {

#[verifier::external_type_specification]
#[verifier::external_body]
pub struct ExProgramError(ProgramError);

/// Relies on `Clock::get`: reads the host's clock record and hands back its
/// unix timestamp, or the host's error where no clock can be read.
#[verifier::external_body]
fn clock_unix_timestamp() -> (r: Result<i64, ProgramError>) {
    Clock::get().map(|c| c.unix_timestamp)
}

/// The host's current unix time.
pub fn get_current_timestamp() -> (r: Result<i64, SelixError>)
    ensures
        r is Err ==> r == Err::<i64, SelixError>(SelixError::ClockUnavailable),
{
    match clock_unix_timestamp() {
        Ok(t) => Ok(t),
        Err(_) => Err(SelixError::ClockUnavailable),
    }
}

/// `now + duration`, or `ArithmeticOverflow` when it leaves `i64`.
pub fn expiry_from(current_time: i64, duration_seconds: i64) -> (r: Result<i64, SelixError>)
    ensures
        i64::MIN <= current_time + duration_seconds <= i64::MAX ==> r == Ok::<i64, SelixError>(
            (current_time + duration_seconds) as i64,
        ),
        !(i64::MIN <= current_time + duration_seconds <= i64::MAX) ==> r == Err::<i64, SelixError>(
            SelixError::ArithmeticOverflow,
        ),
{
    match current_time.checked_add(duration_seconds) {
        Some(t) => Ok(t),
        None => Err(SelixError::ArithmeticOverflow),
    }
}

pub open spec fn later_by(time: i64, duration: i64) -> int {
    time + duration
}

/// Expiry timestamp `duration_seconds` from now.
pub fn calculate_expiry(duration_seconds: i64) -> (r: Result<i64, SelixError>)
    ensures
        r matches Ok(t) ==> exists|now: i64| later_by(now, duration_seconds) == t,
        r matches Err(e) ==> e == SelixError::ClockUnavailable || e
            == SelixError::ArithmeticOverflow,
{
    let current = get_current_timestamp()?;
    let r = expiry_from(current, duration_seconds);
    proof {
        assert(later_by(current, duration_seconds) == current + duration_seconds);
    }
    r
}

/// A deadline equal to the current time has passed.
pub open spec fn deadline_passed(expiry_timestamp: i64, current_time: i64) -> bool {
    current_time >= expiry_timestamp
}

/// Whether a deadline has passed at `current_time`.
pub fn is_expired_at(expiry_timestamp: i64, current_time: i64) -> (r: bool)
    ensures
        r == deadline_passed(expiry_timestamp, current_time),
{
    current_time >= expiry_timestamp
}

/// Whether a deadline has passed now.
pub fn is_expired(expiry_timestamp: i64) -> (r: Result<bool, SelixError>)
    ensures
        r matches Ok(b) ==> exists|now: i64| b == deadline_passed(expiry_timestamp, now),
        r is Err ==> r == Err::<bool, SelixError>(SelixError::ClockUnavailable),
{
    let current = get_current_timestamp()?;
    let b = is_expired_at(expiry_timestamp, current);
    proof {
        assert(b == deadline_passed(expiry_timestamp, current));
    }
    Ok(b)
}

/// Whether a deadline is still ahead now.
pub fn is_valid(expiry_timestamp: i64) -> (r: Result<bool, SelixError>)
    ensures
        r matches Ok(b) ==> exists|now: i64| b == !deadline_passed(expiry_timestamp, now),
        r is Err ==> r == Err::<bool, SelixError>(SelixError::ClockUnavailable),
{
    let expired = is_expired(expiry_timestamp)?;
    proof {
        let now = choose|now: i64| expired == deadline_passed(expiry_timestamp, now);
        assert(!expired == !deadline_passed(expiry_timestamp, now));
    }
    Ok(!expired)
}

/// Seconds left until a deadline at `current_time`, never negative.
pub open spec fn remaining_of(expiry_timestamp: i64, current_time: i64) -> int {
    if expiry_timestamp - current_time > 0 {
        if expiry_timestamp - current_time > i64::MAX {
            i64::MAX as int
        } else {
            expiry_timestamp - current_time
        }
    } else {
        0
    }
}

/// Seconds left until a deadline at `current_time`, never negative.
pub fn remaining_time_at(expiry_timestamp: i64, current_time: i64) -> (r: i64)
    ensures
        r == remaining_of(expiry_timestamp, current_time),
{
    let diff: i128 = expiry_timestamp as i128 - current_time as i128;
    if diff <= 0 {
        0
    } else if diff > i64::MAX as i128 {
        i64::MAX
    } else {
        diff as i64
    }
}

/// Seconds left until a deadline now, never negative.
pub fn remaining_time(expiry_timestamp: i64) -> (r: Result<i64, SelixError>)
    ensures
        r matches Ok(s) ==> exists|now: i64| s == remaining_of(expiry_timestamp, now),
        r is Err ==> r == Err::<i64, SelixError>(SelixError::ClockUnavailable),
{
    let current = get_current_timestamp()?;
    let s = remaining_time_at(expiry_timestamp, current);
    proof {
        assert(s == remaining_of(expiry_timestamp, current));
    }
    Ok(s)
}

pub fn days_to_seconds(days: i64) -> (r: i64)
    requires
        i64::MIN <= days * 86400 <= i64::MAX,
    ensures
        r == days * 86400,
{
    days * crate::constants::SECONDS_PER_DAY
}

pub fn hours_to_seconds(hours: i64) -> (r: i64)
    requires
        i64::MIN <= hours * 3600 <= i64::MAX,
    ensures
        r == hours * 3600,
{
    hours * crate::constants::SECONDS_PER_HOUR
}

} // verus!
