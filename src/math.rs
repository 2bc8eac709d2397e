use vstd::prelude::*;
use crate::constants::BPS_DENOMINATOR;
use crate::errors::SelixError;

verus! {

/// `floor(amount * bps / 10_000)`.
pub open spec fn fee_of(amount: int, bps: int) -> int {
    amount * bps / 10000
}

/// Destination owed for `partial` source units at the ratio
/// `total_destination / total_source`, rounded down.
pub open spec fn proportional_of(total_source: int, total_destination: int, partial: int) -> int {
    partial * total_destination / total_source
}

/// Destination units per source unit, in basis points, rounded down.
pub open spec fn rate_of(source: int, destination: int) -> int {
    destination * 10000 / source
}

/// Largest deviation from `expected` that `bps` allows, rounded down.
pub open spec fn deviation_of(expected: int, bps: int) -> int {
    expected * bps / 10000
}

/// Whether `actual` lies in `expected ± deviation`, both bounds clamped to
/// the range of `u64`.
pub open spec fn within_slippage(expected: int, actual: int, bps: int) -> bool {
    let d = deviation_of(expected, bps);
    let lower = if expected - d < 0 { 0 } else { expected - d };
    let upper = if expected + d > u64::MAX { u64::MAX as int } else { expected + d };
    lower <= actual <= upper
}

/// Fee in basis points on `amount`, rounded down.
pub fn calculate_fee(amount: u64, fee_bps: u16) -> (r: Result<u64, SelixError>)
    ensures
        fee_of(amount as int, fee_bps as int) <= u64::MAX ==> r == Ok::<u64, SelixError>(
            fee_of(amount as int, fee_bps as int) as u64,
        ),
        fee_of(amount as int, fee_bps as int) > u64::MAX ==> r == Err::<u64, SelixError>(
            SelixError::ArithmeticOverflow,
        ),
{
    let a = amount as u128;
    let b = fee_bps as u128;
    assert(a * b <= u64::MAX * u16::MAX) by (nonlinear_arith)
        requires
            a <= u64::MAX,
            b <= u16::MAX,
    ;
    let fee = a * b / (BPS_DENOMINATOR as u128);
    if fee > u64::MAX as u128 {
        Err(SelixError::ArithmeticOverflow)
    } else {
        Ok(fee as u64)
    }
}

/// `amount` less its fee.
pub fn calculate_amount_after_fee(amount: u64, fee_bps: u16) -> (r: Result<u64, SelixError>)
    ensures
        ({
            let fee = fee_of(amount as int, fee_bps as int);
            if fee > u64::MAX {
                r == Err::<u64, SelixError>(SelixError::ArithmeticOverflow)
            } else if fee > amount {
                r == Err::<u64, SelixError>(SelixError::ArithmeticUnderflow)
            } else {
                r == Ok::<u64, SelixError>((amount - fee) as u64)
            }
        }),
{
    let fee = calculate_fee(amount, fee_bps)?;
    match amount.checked_sub(fee) {
        Some(v) => Ok(v),
        None => Err(SelixError::ArithmeticUnderflow),
    }
}

/// Proportional fill: the source part as asked, and the destination part at
/// the ratio of the totals, rounded down (in the maker's favour).
pub fn calculate_partial_amounts(total_source: u64, total_destination: u64, partial_source: u64) -> (r:
    Result<(u64, u64), SelixError>)
    ensures
        total_source == 0 ==> r == Err::<(u64, u64), SelixError>(SelixError::DivisionByZero),
        total_source > 0 && proportional_of(
            total_source as int,
            total_destination as int,
            partial_source as int,
        ) > u64::MAX ==> r == Err::<(u64, u64), SelixError>(SelixError::ArithmeticOverflow),
        total_source > 0 && proportional_of(
            total_source as int,
            total_destination as int,
            partial_source as int,
        ) <= u64::MAX ==> r == Ok::<(u64, u64), SelixError>(
            (
                partial_source,
                proportional_of(
                    total_source as int,
                    total_destination as int,
                    partial_source as int,
                ) as u64,
            ),
        ),
{
    if total_source == 0 {
        return Err(SelixError::DivisionByZero);
    }
    let p = partial_source as u128;
    let d = total_destination as u128;
    assert(p * d <= u64::MAX * u64::MAX) by (nonlinear_arith)
        requires
            p <= u64::MAX,
            d <= u64::MAX,
    ;
    let destination = p * d / (total_source as u128);
    if destination > u64::MAX as u128 {
        Err(SelixError::ArithmeticOverflow)
    } else {
        Ok((partial_source, destination as u64))
    }
}

/// Exchange rate of a pair of amounts, in basis points.
pub fn calculate_rate(source_amount: u64, destination_amount: u64) -> (r: Result<u64, SelixError>)
    ensures
        source_amount == 0 ==> r == Err::<u64, SelixError>(SelixError::DivisionByZero),
        source_amount > 0 && rate_of(source_amount as int, destination_amount as int) > u64::MAX
            ==> r == Err::<u64, SelixError>(SelixError::ArithmeticOverflow),
        source_amount > 0 && rate_of(source_amount as int, destination_amount as int) <= u64::MAX
            ==> r == Ok::<u64, SelixError>(
            rate_of(source_amount as int, destination_amount as int) as u64,
        ),
{
    if source_amount == 0 {
        return Err(SelixError::DivisionByZero);
    }
    let d = destination_amount as u128;
    assert(d * 10000 <= u64::MAX * 10000) by (nonlinear_arith)
        requires
            d <= u64::MAX,
    ;
    let rate = d * (BPS_DENOMINATOR as u128) / (source_amount as u128);
    if rate > u64::MAX as u128 {
        Err(SelixError::ArithmeticOverflow)
    } else {
        Ok(rate as u64)
    }
}

/// Whether `actual_rate` is within `max_slippage_bps` of `expected_rate`.
pub fn check_slippage(expected_rate: u64, actual_rate: u64, max_slippage_bps: u16) -> (r: Result<
    bool,
    SelixError,
>)
    ensures
        deviation_of(expected_rate as int, max_slippage_bps as int) > u64::MAX ==> r == Err::<
            bool,
            SelixError,
        >(SelixError::ArithmeticOverflow),
        deviation_of(expected_rate as int, max_slippage_bps as int) <= u64::MAX ==> r == Ok::<
            bool,
            SelixError,
        >(within_slippage(expected_rate as int, actual_rate as int, max_slippage_bps as int)),
{
    let e = expected_rate as u128;
    let b = max_slippage_bps as u128;
    assert(e * b <= u64::MAX * u16::MAX) by (nonlinear_arith)
        requires
            e <= u64::MAX,
            b <= u16::MAX,
    ;
    let deviation = e * b / (BPS_DENOMINATOR as u128);
    if deviation > u64::MAX as u128 {
        return Err(SelixError::ArithmeticOverflow);
    }
    let deviation = deviation as u64;
    let lower_bound = expected_rate.saturating_sub(deviation);
    let upper_bound = expected_rate.saturating_add(deviation);
    Ok(actual_rate >= lower_bound && actual_rate <= upper_bound)
}

} // verus!
