use vstd::prelude::*;
use crate::address::Address;
use crate::constants::WHITELIST_SEED;
use crate::errors::SelixError;
use crate::events::{ListingCancelled, ListingCreated, ListingExpired, ListingUpdated};
use crate::listing::{saturating_inc_u64, Listing};
use crate::pda::{derive_whitelist_pda, program_address, PROGRAM_ID};
use crate::platform::Platform;
use crate::status::ListingStatus;
use crate::user_profile::{saturating_dec_u16, UserProfile};
use crate::validation::{
    amount_rejection, as_result, duration_rejection, validate_amount, validate_different_mints,
    validate_duration, validate_min_fill_amount, validate_slippage_bps,
};

verus! {

/// What a maker asks for when opening a listing.
#[derive(Clone, Copy, Debug)]
pub struct CreateListingParams {
    pub id: u64,
    pub amount_source: u64,
    pub amount_destination: u64,
    pub min_fill_amount: u64,
    pub max_slippage_bps: u16,
    pub duration_seconds: i64,
}

/// What a maker may change on an open listing; `None` leaves a field as it
/// is.
#[derive(Clone, Copy, Debug)]
pub struct UpdateListingParams {
    pub new_amount_destination: Option<u64>,
    pub new_min_fill_amount: Option<u64>,
    pub new_max_slippage_bps: Option<u16>,
    pub extend_duration_seconds: Option<i64>,
}

pub open spec fn in_i64(x: int) -> bool {
    i64::MIN <= x <= i64::MAX
}

/// Why a whitelist entry, given as its account address and its contents,
/// does not admit `mint`, if it does not.
pub open spec fn whitelist_rejection(entry: Option<(Address, crate::whitelist::TokenWhitelist)>, mint: Address) -> Option<SelixError> {
    match entry {
        None => Some(SelixError::TokenNotWhitelisted),
        Some((key, e)) => match program_address(seq![WHITELIST_SEED@, mint@], PROGRAM_ID@) {
            Some((expected, _)) => if expected != key@ {
                Some(SelixError::InvalidPDA)
            } else if !e.is_whitelisted {
                Some(SelixError::TokenNotWhitelisted)
            } else {
                None
            },
            None => Some(SelixError::InvalidPDA),
        },
    }
}

/// The first reason, in order of checking, for which a new listing is
/// refused, or `None`.
pub open spec fn create_rejection(
    platform: Platform,
    maker_profile: Option<UserProfile>,
    token_mint_source: Address,
    token_mint_destination: Address,
    source_whitelist: Option<(Address, crate::whitelist::TokenWhitelist)>,
    dest_whitelist: Option<(Address, crate::whitelist::TokenWhitelist)>,
    maker_balance: u64,
    current_time: i64,
    params: CreateListingParams,
) -> Option<SelixError> {
    if platform.is_paused {
        Some(SelixError::PlatformPaused)
    } else if amount_rejection(params.amount_source, platform.min_trade_amount) is Some {
        amount_rejection(params.amount_source, platform.min_trade_amount)
    } else if amount_rejection(params.amount_destination, platform.min_trade_amount) is Some {
        amount_rejection(params.amount_destination, platform.min_trade_amount)
    } else if params.min_fill_amount > params.amount_source {
        Some(SelixError::MinFillAmountTooLarge)
    } else if token_mint_source@ == token_mint_destination@ {
        Some(SelixError::SameTokenMints)
    } else if duration_rejection(params.duration_seconds, platform) is Some {
        duration_rejection(params.duration_seconds, platform)
    } else if params.max_slippage_bps > 1000 {
        Some(SelixError::SlippageExceeded)
    } else if platform.whitelist_enabled && whitelist_rejection(source_whitelist, token_mint_source) is Some {
        whitelist_rejection(source_whitelist, token_mint_source)
    } else if platform.whitelist_enabled && whitelist_rejection(dest_whitelist, token_mint_destination) is Some {
        whitelist_rejection(dest_whitelist, token_mint_destination)
    } else if maker_profile is Some && maker_profile->0.active_listings >= platform.max_listings_per_user {
        Some(SelixError::MaxListingsReached)
    } else if maker_balance < params.amount_source {
        Some(SelixError::InsufficientMakerBalance)
    } else if !in_i64(current_time + params.duration_seconds) {
        Some(SelixError::ArithmeticOverflow)
    } else {
        None
    }
}

/// The record of a fresh listing.
pub open spec fn new_listing(
    maker: Address,
    token_mint_source: Address,
    token_mint_destination: Address,
    current_time: i64,
    bump: u8,
    params: CreateListingParams,
) -> Listing {
    Listing {
        id: params.id,
        maker,
        token_mint_source,
        token_mint_destination,
        amount_source_total: params.amount_source,
        amount_source_remaining: params.amount_source,
        amount_destination_total: params.amount_destination,
        amount_destination_remaining: params.amount_destination,
        min_fill_amount: params.min_fill_amount,
        max_slippage_bps: params.max_slippage_bps,
        expires_at: (current_time + params.duration_seconds) as i64,
        created_at: current_time,
        updated_at: current_time,
        status: ListingStatus::Active,
        fill_count: 0,
        bump,
    }
}

/// Opens listing `params.id` of `maker`, who holds `maker_balance` source
/// units; on success `params.amount_source` units move into the listing's
/// fresh vault (the returned record says so) and the counters grow.
pub fn create_listing(
    platform: &mut Platform,
    maker_profile: &mut Option<UserProfile>,
    maker: Address,
    token_mint_source: Address,
    token_mint_destination: Address,
    source_whitelist: Option<(Address, crate::whitelist::TokenWhitelist)>,
    dest_whitelist: Option<(Address, crate::whitelist::TokenWhitelist)>,
    maker_balance: u64,
    current_time: i64,
    bump: u8,
    params: CreateListingParams,
) -> (r: Result<(Listing, ListingCreated), SelixError>)
    ensures
        ({
            let rejection = create_rejection(
                *old(platform),
                *old(maker_profile),
                token_mint_source,
                token_mint_destination,
                source_whitelist,
                dest_whitelist,
                maker_balance,
                current_time,
                params,
            );
            match r {
                Err(e) => {
                    &&& rejection == Some(e)
                    &&& *final(platform) == *old(platform)
                    &&& *final(maker_profile) == *old(maker_profile)
                },
                Ok((listing, ev)) => {
                    &&& rejection is None
                    &&& listing == new_listing(
                        maker,
                        token_mint_source,
                        token_mint_destination,
                        current_time,
                        bump,
                        params,
                    )
                    &&& listing.wf()
                    &&& *final(platform) == (Platform {
                        total_listings_created: saturating_inc_u64(old(platform).total_listings_created),
                        ..*old(platform)
                    })
                    &&& *final(maker_profile) == match *old(maker_profile) {
                        Some(p) => Some(
                            UserProfile {
                                listings_created: saturating_inc_u64(p.listings_created),
                                active_listings: if p.active_listings == u16::MAX {
                                    u16::MAX
                                } else {
                                    (p.active_listings + 1) as u16
                                },
                                last_activity_at: current_time,
                                ..p
                            },
                        ),
                        None => None,
                    }
                    &&& ev == (ListingCreated {
                        listing_id: params.id,
                        maker,
                        token_mint_source,
                        token_mint_destination,
                        amount_source: params.amount_source,
                        amount_destination: params.amount_destination,
                        min_fill_amount: params.min_fill_amount,
                        expires_at: listing.expires_at,
                        timestamp: current_time,
                    })
                },
            }
        }),
{
    if platform.is_paused {
        return Err(SelixError::PlatformPaused);
    }
    validate_amount(params.amount_source, platform.min_trade_amount)?;
    validate_amount(params.amount_destination, platform.min_trade_amount)?;
    validate_min_fill_amount(params.min_fill_amount, params.amount_source)?;
    validate_different_mints(&token_mint_source, &token_mint_destination)?;
    validate_duration(params.duration_seconds, platform)?;
    validate_slippage_bps(params.max_slippage_bps)?;
    if platform.whitelist_enabled {
        check_whitelist(&source_whitelist, &token_mint_source)?;
        check_whitelist(&dest_whitelist, &token_mint_destination)?;
    }
    if let Some(p) = maker_profile {
        if p.active_listings >= platform.max_listings_per_user {
            return Err(SelixError::MaxListingsReached);
        }
    }
    if maker_balance < params.amount_source {
        return Err(SelixError::InsufficientMakerBalance);
    }
    let expires_at = match current_time.checked_add(params.duration_seconds) {
        Some(t) => t,
        None => return Err(SelixError::ArithmeticOverflow),
    };
    let listing = Listing {
        id: params.id,
        maker,
        token_mint_source,
        token_mint_destination,
        amount_source_total: params.amount_source,
        amount_source_remaining: params.amount_source,
        amount_destination_total: params.amount_destination,
        amount_destination_remaining: params.amount_destination,
        min_fill_amount: params.min_fill_amount,
        max_slippage_bps: params.max_slippage_bps,
        expires_at,
        created_at: current_time,
        updated_at: current_time,
        status: ListingStatus::Active,
        fill_count: 0,
        bump,
    };
    if let Some(p) = maker_profile {
        p.listings_created = p.listings_created.saturating_add(1);
        p.active_listings = p.active_listings.saturating_add(1);
        p.last_activity_at = current_time;
    }
    platform.total_listings_created = platform.total_listings_created.saturating_add(1);
    let ev = ListingCreated {
        listing_id: params.id,
        maker,
        token_mint_source,
        token_mint_destination,
        amount_source: params.amount_source,
        amount_destination: params.amount_destination,
        min_fill_amount: params.min_fill_amount,
        expires_at,
        timestamp: current_time,
    };
    Ok((listing, ev))
}

/// Admits `mint` when its whitelist entry sits at the derived address for
/// that mint and says so.
pub fn check_whitelist(entry: &Option<(Address, crate::whitelist::TokenWhitelist)>, mint: &Address) -> (r: Result<(), SelixError>)
    ensures
        r == as_result(whitelist_rejection(*entry, *mint)),
{
    match entry {
        None => Err(SelixError::TokenNotWhitelisted),
        Some((key, e)) => {
            match derive_whitelist_pda(mint) {
                Some((expected, _)) => {
                    if !expected.same_as(key) {
                        Err(SelixError::InvalidPDA)
                    } else if !e.is_whitelisted {
                        Err(SelixError::TokenNotWhitelisted)
                    } else {
                        Ok(())
                    }
                },
                None => Err(SelixError::InvalidPDA),
            }
        },
    }
}

/// Destination still owed after re-pricing the listing to `new_destination`
/// in total: once anything was filled, the new total is scaled to the
/// source that remains (rounded down), so that filled parts keep their rate.
pub open spec fn repriced_remaining(listing: Listing, new_destination: u64) -> int {
    if listing.amount_source_total - listing.amount_source_remaining > 0 {
        new_destination * listing.amount_source_remaining / listing.amount_source_total as int
    } else {
        new_destination as int
    }
}

/// The first reason, in order of checking, for which an update is refused,
/// or `None`.
pub open spec fn update_rejection(
    platform: Platform,
    listing: Listing,
    caller: Address,
    current_time: i64,
    params: UpdateListingParams,
) -> Option<SelixError> {
    let ext = params.extend_duration_seconds->0;
    if caller@ != listing.maker@ {
        Some(SelixError::UnauthorizedAuthority)
    } else if platform.is_paused {
        Some(SelixError::PlatformPaused)
    } else if !listing.status.is_open() {
        Some(SelixError::InvalidListingStatus)
    } else if listing.expired_at(current_time) {
        Some(SelixError::ListingExpired)
    } else if params.new_amount_destination is Some && amount_rejection(
        params.new_amount_destination->0,
        platform.min_trade_amount,
    ) is Some {
        amount_rejection(params.new_amount_destination->0, platform.min_trade_amount)
    } else if params.new_min_fill_amount is Some && params.new_min_fill_amount->0
        > listing.amount_source_remaining {
        Some(SelixError::MinFillAmountTooLarge)
    } else if params.new_max_slippage_bps is Some && params.new_max_slippage_bps->0 > 1000 {
        Some(SelixError::SlippageExceeded)
    } else if params.extend_duration_seconds is Some && !in_i64(listing.expires_at + ext) {
        Some(SelixError::ArithmeticOverflow)
    } else if params.extend_duration_seconds is Some && !in_i64(
        current_time + platform.max_listing_duration,
    ) {
        Some(SelixError::ArithmeticOverflow)
    } else if params.extend_duration_seconds is Some && listing.expires_at + ext > current_time
        + platform.max_listing_duration {
        Some(SelixError::DurationTooLong)
    } else {
        None
    }
}

/// The listing after an accepted update.
pub open spec fn after_update(listing: Listing, current_time: i64, params: UpdateListingParams) -> Listing {
    Listing {
        amount_destination_total: match params.new_amount_destination {
            Some(d) => d,
            None => listing.amount_destination_total,
        },
        amount_destination_remaining: match params.new_amount_destination {
            Some(d) => repriced_remaining(listing, d) as u64,
            None => listing.amount_destination_remaining,
        },
        min_fill_amount: match params.new_min_fill_amount {
            Some(m) => m,
            None => listing.min_fill_amount,
        },
        max_slippage_bps: match params.new_max_slippage_bps {
            Some(b) => b,
            None => listing.max_slippage_bps,
        },
        expires_at: match params.extend_duration_seconds {
            Some(e) => (listing.expires_at + e) as i64,
            None => listing.expires_at,
        },
        updated_at: current_time,
        ..listing
    }
}

/// Re-prices, re-bounds or extends an open, unexpired listing of `caller`.
pub fn update_listing(
    platform: &Platform,
    listing: &mut Listing,
    caller: Address,
    current_time: i64,
    params: UpdateListingParams,
) -> (r: Result<ListingUpdated, SelixError>)
    requires
        old(listing).wf(),
    ensures
        ({
            let rejection = update_rejection(*platform, *old(listing), caller, current_time, params);
            match r {
                Err(e) => rejection == Some(e) && *final(listing) == *old(listing),
                Ok(ev) => {
                    &&& rejection is None
                    &&& *final(listing) == after_update(*old(listing), current_time, params)
                    &&& final(listing).wf()
                    &&& ev == (ListingUpdated {
                        listing_id: old(listing).id,
                        maker: caller,
                        old_amount_destination: old(listing).amount_destination_remaining,
                        new_amount_destination: final(listing).amount_destination_remaining,
                        timestamp: current_time,
                    })
                },
            }
        }),
{
    if !caller.same_as(&listing.maker) {
        return Err(SelixError::UnauthorizedAuthority);
    }
    if platform.is_paused {
        return Err(SelixError::PlatformPaused);
    }
    if !listing.status.is_active() {
        return Err(SelixError::InvalidListingStatus);
    }
    if listing.is_expired(current_time) {
        return Err(SelixError::ListingExpired);
    }
    let old_amount_destination = listing.amount_destination_remaining;
    let mut destination_total = listing.amount_destination_total;
    let mut destination_remaining = listing.amount_destination_remaining;
    if let Some(new_dest) = params.new_amount_destination {
        validate_amount(new_dest, platform.min_trade_amount)?;
        let filled = listing.amount_source_total - listing.amount_source_remaining;
        if filled > 0 {
            let n = new_dest as u128;
            let rem = listing.amount_source_remaining as u128;
            let total = listing.amount_source_total as u128;
            assert(n * rem <= u64::MAX * u64::MAX) by (nonlinear_arith)
                requires
                    n <= u64::MAX,
                    rem <= u64::MAX,
            ;
            let scaled = n * rem / total;
            assert(scaled <= n) by (nonlinear_arith)
                requires
                    scaled == n * rem / total as int,
                    rem <= total,
                    total > 0,
            ;
            destination_remaining = scaled as u64;
        } else {
            destination_remaining = new_dest;
        }
        destination_total = new_dest;
    }
    let mut min_fill_amount = listing.min_fill_amount;
    if let Some(new_min_fill) = params.new_min_fill_amount {
        validate_min_fill_amount(new_min_fill, listing.amount_source_remaining)?;
        min_fill_amount = new_min_fill;
    }
    let mut max_slippage_bps = listing.max_slippage_bps;
    if let Some(new_slippage) = params.new_max_slippage_bps {
        validate_slippage_bps(new_slippage)?;
        max_slippage_bps = new_slippage;
    }
    let mut expires_at = listing.expires_at;
    if let Some(extend) = params.extend_duration_seconds {
        let new_expiry = match listing.expires_at.checked_add(extend) {
            Some(t) => t,
            None => return Err(SelixError::ArithmeticOverflow),
        };
        let max_expiry = match current_time.checked_add(platform.max_listing_duration) {
            Some(t) => t,
            None => return Err(SelixError::ArithmeticOverflow),
        };
        if new_expiry > max_expiry {
            return Err(SelixError::DurationTooLong);
        }
        expires_at = new_expiry;
    }
    listing.amount_destination_total = destination_total;
    listing.amount_destination_remaining = destination_remaining;
    listing.min_fill_amount = min_fill_amount;
    listing.max_slippage_bps = max_slippage_bps;
    listing.expires_at = expires_at;
    listing.updated_at = current_time;
    Ok(
        ListingUpdated {
            listing_id: listing.id,
            maker: caller,
            old_amount_destination,
            new_amount_destination: listing.amount_destination_remaining,
            timestamp: current_time,
        },
    )
}

/// Why `caller` may not cancel `listing`, if it may not.
pub open spec fn cancel_rejection(listing: Listing, caller: Address) -> Option<SelixError> {
    if caller@ != listing.maker@ {
        Some(SelixError::UnauthorizedAuthority)
    } else if !listing.status.is_open() {
        Some(SelixError::InvalidListingStatus)
    } else {
        None
    }
}

/// Withdraws an open listing of `caller`. On success the whole vault
/// balance `vault_amount` goes back to the maker, the vault and the listing
/// are retired (the listing's last record has status `Cancelled`), and the
/// maker's profile, if any, counts one cancellation and one open listing
/// less.
pub fn cancel_listing(
    listing: &mut Listing,
    maker_profile: &mut Option<UserProfile>,
    caller: Address,
    vault_amount: u64,
    current_time: i64,
) -> (r: Result<ListingCancelled, SelixError>)
    ensures
        match r {
            Err(e) => {
                &&& cancel_rejection(*old(listing), caller) == Some(e)
                &&& *final(listing) == *old(listing)
                &&& *final(maker_profile) == *old(maker_profile)
            },
            Ok(ev) => {
                &&& cancel_rejection(*old(listing), caller) is None
                &&& old(listing).wf() ==> final(listing).wf()
                &&& *final(listing) == (Listing {
                    status: ListingStatus::Cancelled,
                    updated_at: current_time,
                    ..*old(listing)
                })
                &&& *final(maker_profile) == match *old(maker_profile) {
                    Some(p) => Some(
                        UserProfile {
                            listings_cancelled: saturating_inc_u64(p.listings_cancelled),
                            active_listings: saturating_dec_u16(p.active_listings),
                            last_activity_at: current_time,
                            ..p
                        },
                    ),
                    None => None,
                }
                &&& ev == (ListingCancelled {
                    listing_id: old(listing).id,
                    maker: old(listing).maker,
                    amount_returned: vault_amount,
                    timestamp: current_time,
                })
            },
        },
{
    if !caller.same_as(&listing.maker) {
        return Err(SelixError::UnauthorizedAuthority);
    }
    if !listing.status.can_be_cancelled() {
        return Err(SelixError::InvalidListingStatus);
    }
    if let Some(p) = maker_profile {
        p.listings_cancelled = p.listings_cancelled.saturating_add(1);
        p.active_listings = p.active_listings.saturating_sub(1);
        p.last_activity_at = current_time;
    }
    listing.status = ListingStatus::Cancelled;
    listing.updated_at = current_time;
    Ok(
        ListingCancelled {
            listing_id: listing.id,
            maker: listing.maker,
            amount_returned: vault_amount,
            timestamp: current_time,
        },
    )
}

/// Why a listing cannot be closed as expired at `current_time`, if it
/// cannot. Who asks plays no part.
pub open spec fn expire_rejection(listing: Listing, current_time: i64) -> Option<SelixError> {
    if !listing.expired_at(current_time) {
        Some(SelixError::ListingNotExpired)
    } else if listing.status.is_terminal() {
        Some(SelixError::InvalidListingStatus)
    } else {
        None
    }
}

/// Closes a listing whose expiry has passed, on behalf of anyone
/// (`closer`). On success the whole vault balance `vault_amount` goes back
/// to the maker, never to the closer, and the vault and the listing are
/// retired (the listing's last record has status `Expired`).
pub fn close_expired_listing(
    listing: &mut Listing,
    closer: Address,
    vault_amount: u64,
    current_time: i64,
) -> (r: Result<ListingExpired, SelixError>)
    ensures
        match r {
            Err(e) => expire_rejection(*old(listing), current_time) == Some(e) && *final(listing)
                == *old(listing),
            Ok(ev) => {
                &&& expire_rejection(*old(listing), current_time) is None
                &&& old(listing).wf() ==> final(listing).wf()
                &&& *final(listing) == (Listing {
                    status: ListingStatus::Expired,
                    updated_at: current_time,
                    ..*old(listing)
                })
                &&& ev == (ListingExpired {
                    listing_id: old(listing).id,
                    maker: old(listing).maker,
                    closer,
                    amount_returned: vault_amount,
                    timestamp: current_time,
                })
            },
        },
{
    if !listing.is_expired(current_time) {
        return Err(SelixError::ListingNotExpired);
    }
    match listing.status {
        ListingStatus::Completed | ListingStatus::Cancelled | ListingStatus::Expired => {
            return Err(SelixError::InvalidListingStatus);
        },
        _ => {},
    }
    listing.status = ListingStatus::Expired;
    listing.updated_at = current_time;
    Ok(
        ListingExpired {
            listing_id: listing.id,
            maker: listing.maker,
            closer,
            amount_returned: vault_amount,
            timestamp: current_time,
        },
    )
}

} // verus!
