use vstd::prelude::*;
use crate::address::Address;
use crate::errors::SelixError;
use crate::events::SwapExecuted;
use crate::listing::{saturating_inc_u64, Listing};
use crate::math::{calculate_fee, calculate_partial_amounts, fee_of, proportional_of};
use crate::platform::Platform;
use crate::status::ListingStatus;
use crate::user_profile::{saturating_dec_u16, UserProfile};

verus! {

/// What a taker asks of one fill.
#[derive(Clone, Copy, Debug)]
pub struct ExecuteSwapParams {
    /// Source units to take out of the listing.
    pub amount_source: u64,
    /// Most destination units the taker accepts to pay for them.
    pub max_amount_destination: u64,
}

/// Destination units owed for a fill of `amount_source` units.
pub open spec fn fill_destination(listing: Listing, amount_source: u64) -> int {
    proportional_of(
        listing.amount_source_remaining as int,
        listing.amount_destination_remaining as int,
        amount_source as int,
    )
}

/// The platform fee on a fill of `amount_source` units.
pub open spec fn fill_fee(platform: Platform, listing: Listing, amount_source: u64) -> int {
    fee_of(fill_destination(listing, amount_source), platform.fee_basis_points as int)
}

/// The first reason, in order of checking, for which a fill is rejected, or
/// `None` when it goes through.
pub open spec fn swap_rejection(
    platform: Platform,
    listing: Listing,
    taker_profile: Option<UserProfile>,
    maker_profile: Option<UserProfile>,
    taker: Address,
    taker_balance: u64,
    current_time: i64,
    params: ExecuteSwapParams,
) -> Option<SelixError> {
    let dst = fill_destination(listing, params.amount_source);
    let fee = fill_fee(platform, listing, params.amount_source);
    if platform.is_paused {
        Some(SelixError::PlatformPaused)
    } else if !listing.status.is_open() {
        Some(SelixError::ListingNotActive)
    } else if listing.expired_at(current_time) {
        Some(SelixError::ListingExpired)
    } else if taker@ == listing.maker@ {
        Some(SelixError::CannotSwapOwnListing)
    } else if params.amount_source > listing.amount_source_remaining {
        Some(SelixError::SwapAmountExceedsRemaining)
    } else if params.amount_source < listing.min_fill_amount {
        Some(SelixError::FillAmountTooSmall)
    } else if listing.amount_source_remaining == 0 {
        Some(SelixError::DivisionByZero)
    } else if dst > params.max_amount_destination {
        Some(SelixError::SlippageExceeded)
    } else if fee > u64::MAX {
        Some(SelixError::ArithmeticOverflow)
    } else if fee > dst {
        Some(SelixError::ArithmeticUnderflow)
    } else if taker_balance < dst {
        Some(SelixError::InsufficientTakerBalance)
    } else if platform.total_volume_traded + dst > u128::MAX {
        Some(SelixError::ArithmeticOverflow)
    } else if platform.total_fees_collected + fee > u64::MAX {
        Some(SelixError::ArithmeticOverflow)
    } else if taker_profile is Some && (taker_profile->0.volume_as_taker + dst > u128::MAX
        || taker_profile->0.total_fees_paid + fee > u64::MAX) {
        Some(SelixError::ArithmeticOverflow)
    } else if maker_profile is Some && maker_profile->0.volume_as_maker + (dst - fee)
        > u128::MAX {
        Some(SelixError::ArithmeticOverflow)
    } else {
        None
    }
}

/// The venue's totals after a fill of `destination` units paying `fee`.
pub open spec fn platform_after_swap(platform: Platform, destination: int, fee: int) -> Platform {
    Platform {
        total_swaps_executed: saturating_inc_u64(platform.total_swaps_executed),
        total_volume_traded: (platform.total_volume_traded + destination) as u128,
        total_fees_collected: (platform.total_fees_collected + fee) as u64,
        ..platform
    }
}

/// The taker's profile after a fill of `destination` units paying `fee`.
pub open spec fn taker_after_swap(
    profile: Option<UserProfile>,
    destination: int,
    fee: int,
    now: i64,
) -> Option<UserProfile> {
    match profile {
        Some(p) => Some(
            UserProfile {
                swaps_executed: saturating_inc_u64(p.swaps_executed),
                volume_as_taker: (p.volume_as_taker + destination) as u128,
                total_fees_paid: (p.total_fees_paid + fee) as u64,
                last_activity_at: now,
                ..p
            },
        ),
        None => None,
    }
}

/// The maker's profile after a fill that paid `to_maker` units and
/// `completed` the listing or not.
pub open spec fn maker_after_swap(
    profile: Option<UserProfile>,
    to_maker: int,
    completed: bool,
    now: i64,
) -> Option<UserProfile> {
    match profile {
        Some(p) => Some(
            UserProfile {
                swaps_received: saturating_inc_u64(p.swaps_received),
                volume_as_maker: (p.volume_as_maker + to_maker) as u128,
                active_listings: if completed {
                    saturating_dec_u16(p.active_listings)
                } else {
                    p.active_listings
                },
                last_activity_at: now,
                ..p
            },
        ),
        None => None,
    }
}

/// Settles one fill of `params.amount_source` source units against
/// `listing`, for `taker`, who holds `taker_balance` destination units.
///
/// On success the listing, the platform totals and the profiles present are
/// updated, and the returned record names the three asset moves (and the
/// vault closure when the listing completes) that the caller carries out
/// in the same atomic unit. On rejection nothing changes.
pub fn execute_swap(
    platform: &mut Platform,
    listing: &mut Listing,
    taker_profile: &mut Option<UserProfile>,
    maker_profile: &mut Option<UserProfile>,
    taker: Address,
    taker_balance: u64,
    current_time: i64,
    params: ExecuteSwapParams,
) -> (r: Result<SwapExecuted, SelixError>)
    ensures
        ({
            let rejection = swap_rejection(
                *old(platform),
                *old(listing),
                *old(taker_profile),
                *old(maker_profile),
                taker,
                taker_balance,
                current_time,
                params,
            );
            match r {
                Err(e) => {
                    &&& rejection == Some(e)
                    &&& *final(platform) == *old(platform)
                    &&& *final(listing) == *old(listing)
                    &&& *final(taker_profile) == *old(taker_profile)
                    &&& *final(maker_profile) == *old(maker_profile)
                },
                Ok(ev) => {
                    let dst = fill_destination(*old(listing), params.amount_source);
                    let fee = fill_fee(*old(platform), *old(listing), params.amount_source);
                    let after = old(listing).after_fill(params.amount_source, dst as u64, current_time);
                    &&& rejection is None
                    &&& *final(listing) == after
                    &&& old(listing).wf() ==> final(listing).wf()
                    &&& *final(platform) == platform_after_swap(*old(platform), dst, fee)
                    &&& *final(taker_profile) == taker_after_swap(*old(taker_profile), dst, fee, current_time)
                    &&& *final(maker_profile) == maker_after_swap(
                        *old(maker_profile),
                        dst - fee,
                        after.status == ListingStatus::Completed,
                        current_time,
                    )
                    &&& ev == (SwapExecuted {
                        listing_id: old(listing).id,
                        maker: old(listing).maker,
                        taker,
                        token_mint_source: old(listing).token_mint_source,
                        token_mint_destination: old(listing).token_mint_destination,
                        amount_source: params.amount_source,
                        amount_destination: dst as u64,
                        fee_amount: fee as u64,
                        is_partial: after.amount_source_remaining > 0,
                        remaining_source: after.amount_source_remaining,
                        new_status: after.status,
                        timestamp: current_time,
                    })
                },
            }
        }),
{
    if platform.is_paused {
        return Err(SelixError::PlatformPaused);
    }
    if !listing.status.can_be_traded() {
        return Err(SelixError::ListingNotActive);
    }
    if listing.is_expired(current_time) {
        return Err(SelixError::ListingExpired);
    }
    if taker.same_as(&listing.maker) {
        return Err(SelixError::CannotSwapOwnListing);
    }
    if params.amount_source > listing.amount_source_remaining {
        return Err(SelixError::SwapAmountExceedsRemaining);
    }
    if params.amount_source < listing.min_fill_amount {
        return Err(SelixError::FillAmountTooSmall);
    }
    let (amount_source, amount_destination) = match calculate_partial_amounts(
        listing.amount_source_remaining,
        listing.amount_destination_remaining,
        params.amount_source,
    ) {
        Ok(pair) => pair,
        Err(e) => {
            proof {
                if listing.amount_source_remaining > 0 {
                    assert(proportional_of(
                        listing.amount_source_remaining as int,
                        listing.amount_destination_remaining as int,
                        params.amount_source as int,
                    ) <= listing.amount_destination_remaining) by (nonlinear_arith)
                        requires
                            params.amount_source <= listing.amount_source_remaining,
                            listing.amount_source_remaining > 0,
                    ;
                }
            }
            return Err(e);
        },
    };
    proof {
        assert(amount_destination <= listing.amount_destination_remaining) by (nonlinear_arith)
            requires
                amount_destination == params.amount_source as int
                    * listing.amount_destination_remaining as int
                    / listing.amount_source_remaining as int,
                params.amount_source <= listing.amount_source_remaining,
                listing.amount_source_remaining > 0,
        ;
    }
    if amount_destination > params.max_amount_destination {
        return Err(SelixError::SlippageExceeded);
    }
    let fee_amount = calculate_fee(amount_destination, platform.fee_basis_points)?;
    let amount_to_maker = match amount_destination.checked_sub(fee_amount) {
        Some(v) => v,
        None => return Err(SelixError::ArithmeticUnderflow),
    };
    if taker_balance < amount_destination {
        return Err(SelixError::InsufficientTakerBalance);
    }
    let total_volume_traded = match platform.total_volume_traded.checked_add(
        amount_destination as u128,
    ) {
        Some(v) => v,
        None => return Err(SelixError::ArithmeticOverflow),
    };
    let total_fees_collected = match platform.total_fees_collected.checked_add(fee_amount) {
        Some(v) => v,
        None => return Err(SelixError::ArithmeticOverflow),
    };
    let mut taker_volume: u128 = 0;
    let mut taker_fees: u64 = 0;
    if let Some(p) = taker_profile {
        taker_volume = match p.volume_as_taker.checked_add(amount_destination as u128) {
            Some(v) => v,
            None => return Err(SelixError::ArithmeticOverflow),
        };
        taker_fees = match p.total_fees_paid.checked_add(fee_amount) {
            Some(v) => v,
            None => return Err(SelixError::ArithmeticOverflow),
        };
    }
    let mut maker_volume: u128 = 0;
    if let Some(p) = maker_profile {
        maker_volume = match p.volume_as_maker.checked_add(amount_to_maker as u128) {
            Some(v) => v,
            None => return Err(SelixError::ArithmeticOverflow),
        };
    }
    // Every check has passed: book the fill.
    proof {
        crate::laws::lemma_fill_keeps_escrow_exact(
            *platform,
            *listing,
            *taker_profile,
            *maker_profile,
            taker,
            taker_balance,
            current_time,
            params,
            listing.amount_source_remaining,
        );
    }

    listing.amount_source_remaining = listing.amount_source_remaining - amount_source;
    listing.amount_destination_remaining = listing.amount_destination_remaining
        - amount_destination;
    listing.fill_count = listing.fill_count.saturating_add(1);
    listing.updated_at = current_time;
    let is_partial = listing.amount_source_remaining > 0;
    listing.status = if is_partial {
        ListingStatus::PartiallyFilled
    } else {
        ListingStatus::Completed
    };

    platform.total_swaps_executed = platform.total_swaps_executed.saturating_add(1);
    platform.total_volume_traded = total_volume_traded;
    platform.total_fees_collected = total_fees_collected;

    if let Some(p) = taker_profile {
        p.swaps_executed = p.swaps_executed.saturating_add(1);
        p.volume_as_taker = taker_volume;
        p.total_fees_paid = taker_fees;
        p.last_activity_at = current_time;
    }
    if let Some(p) = maker_profile {
        p.swaps_received = p.swaps_received.saturating_add(1);
        p.volume_as_maker = maker_volume;
        p.last_activity_at = current_time;
        if !is_partial {
            p.active_listings = p.active_listings.saturating_sub(1);
        }
    }

    Ok(
        SwapExecuted {
            listing_id: listing.id,
            maker: listing.maker,
            taker,
            token_mint_source: listing.token_mint_source,
            token_mint_destination: listing.token_mint_destination,
            amount_source,
            amount_destination,
            fee_amount,
            is_partial,
            remaining_source: listing.amount_source_remaining,
            new_status: listing.status,
            timestamp: current_time,
        },
    )
}

} // verus!
