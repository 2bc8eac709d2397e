use vstd::prelude::*;
use crate::address::Address;
use crate::errors::SelixError;
use crate::events::{
    FeeCollectorUpdated, PlatformConfigUpdated, PlatformInitialized, PlatformPaused,
    PlatformResumed, TokenWhitelistUpdated,
};
use crate::platform::Platform;
use crate::validation::{validate_duration_bounds, validate_fee_bps};
use crate::whitelist::TokenWhitelist;

verus! {

/// Configuration of a new venue.
#[derive(Clone, Copy, Debug)]
pub struct InitializePlatformParams {
    pub fee_basis_points: u16,
    pub min_listing_duration: i64,
    pub max_listing_duration: i64,
    pub min_trade_amount: u64,
    pub max_listings_per_user: u16,
}

/// Changes to a venue's configuration; `None` leaves a field as it is.
#[derive(Clone, Copy, Debug)]
pub struct UpdateConfigParams {
    pub fee_basis_points: Option<u16>,
    pub min_listing_duration: Option<i64>,
    pub max_listing_duration: Option<i64>,
    pub min_trade_amount: Option<u64>,
    pub max_listings_per_user: Option<u16>,
    pub whitelist_enabled: Option<bool>,
}

pub open spec fn or_keep<T>(o: Option<T>, current: T) -> T {
    match o {
        Some(v) => v,
        None => current,
    }
}

/// Why a venue cannot be set up with `params`, if it cannot.
pub open spec fn init_rejection(params: InitializePlatformParams) -> Option<SelixError> {
    if params.fee_basis_points > 1000 {
        Some(SelixError::InvalidFeeConfiguration)
    } else if params.min_listing_duration >= params.max_listing_duration {
        Some(SelixError::InvalidDurationBounds)
    } else if params.min_trade_amount == 0 {
        Some(SelixError::InvalidAmount)
    } else if params.max_listings_per_user == 0 {
        Some(SelixError::InvalidAmount)
    } else {
        None
    }
}

/// Sets up a venue of `authority`, unpaused, without whitelist and with
/// all totals at zero.
pub fn initialize_platform(
    authority: Address,
    fee_collector: Address,
    current_time: i64,
    bump: u8,
    params: InitializePlatformParams,
) -> (r: Result<(Platform, PlatformInitialized), SelixError>)
    ensures
        match r {
            Err(e) => init_rejection(params) == Some(e),
            Ok((p, ev)) => {
                &&& init_rejection(params) is None
                &&& p.wf()
                &&& p == (Platform {
                    authority,
                    fee_collector,
                    fee_basis_points: params.fee_basis_points,
                    min_listing_duration: params.min_listing_duration,
                    max_listing_duration: params.max_listing_duration,
                    min_trade_amount: params.min_trade_amount,
                    max_listings_per_user: params.max_listings_per_user,
                    is_paused: false,
                    whitelist_enabled: false,
                    total_listings_created: 0,
                    total_swaps_executed: 0,
                    total_volume_traded: 0,
                    total_fees_collected: 0,
                    created_at: current_time,
                    updated_at: current_time,
                    bump,
                })
                &&& ev == (PlatformInitialized {
                    authority,
                    fee_collector,
                    fee_basis_points: params.fee_basis_points,
                    timestamp: current_time,
                })
            },
        },
{
    validate_fee_bps(params.fee_basis_points)?;
    validate_duration_bounds(params.min_listing_duration, params.max_listing_duration)?;
    if params.min_trade_amount == 0 {
        return Err(SelixError::InvalidAmount);
    }
    if params.max_listings_per_user == 0 {
        return Err(SelixError::InvalidAmount);
    }
    let platform = Platform {
        authority,
        fee_collector,
        fee_basis_points: params.fee_basis_points,
        min_listing_duration: params.min_listing_duration,
        max_listing_duration: params.max_listing_duration,
        min_trade_amount: params.min_trade_amount,
        max_listings_per_user: params.max_listings_per_user,
        is_paused: false,
        whitelist_enabled: false,
        total_listings_created: 0,
        total_swaps_executed: 0,
        total_volume_traded: 0,
        total_fees_collected: 0,
        created_at: current_time,
        updated_at: current_time,
        bump,
    };
    Ok(
        (
            platform,
            PlatformInitialized {
                authority,
                fee_collector,
                fee_basis_points: params.fee_basis_points,
                timestamp: current_time,
            },
        ),
    )
}

/// Why `caller` cannot change the configuration with `params`, if it
/// cannot.
pub open spec fn config_rejection(
    platform: Platform,
    caller: Address,
    params: UpdateConfigParams,
) -> Option<SelixError> {
    if caller@ != platform.authority@ {
        Some(SelixError::UnauthorizedAuthority)
    } else if params.fee_basis_points is Some && params.fee_basis_points->0 > 1000 {
        Some(SelixError::InvalidFeeConfiguration)
    } else if or_keep(params.min_listing_duration, platform.min_listing_duration) >= or_keep(
        params.max_listing_duration,
        platform.max_listing_duration,
    ) {
        Some(SelixError::InvalidDurationBounds)
    } else if params.min_trade_amount is Some && params.min_trade_amount->0 == 0 {
        Some(SelixError::InvalidAmount)
    } else if params.max_listings_per_user is Some && params.max_listings_per_user->0 == 0 {
        Some(SelixError::InvalidAmount)
    } else {
        None
    }
}

/// Changes the configuration of a venue; only its authority may.
pub fn update_config(
    platform: &mut Platform,
    caller: Address,
    current_time: i64,
    params: UpdateConfigParams,
) -> (r: Result<PlatformConfigUpdated, SelixError>)
    ensures
        match r {
            Err(e) => {
                &&& config_rejection(*old(platform), caller, params) == Some(e)
                &&& *final(platform) == *old(platform)
            },
            Ok(ev) => {
                let p = *old(platform);
                &&& config_rejection(p, caller, params) is None
                &&& *final(platform) == (Platform {
                    fee_basis_points: or_keep(params.fee_basis_points, p.fee_basis_points),
                    min_listing_duration: or_keep(
                        params.min_listing_duration,
                        p.min_listing_duration,
                    ),
                    max_listing_duration: or_keep(
                        params.max_listing_duration,
                        p.max_listing_duration,
                    ),
                    min_trade_amount: or_keep(params.min_trade_amount, p.min_trade_amount),
                    max_listings_per_user: or_keep(
                        params.max_listings_per_user,
                        p.max_listings_per_user,
                    ),
                    whitelist_enabled: or_keep(params.whitelist_enabled, p.whitelist_enabled),
                    updated_at: current_time,
                    ..p
                })
                &&& p.wf() ==> final(platform).wf()
                &&& ev == (PlatformConfigUpdated {
                    authority: caller,
                    fee_basis_points: final(platform).fee_basis_points,
                    min_listing_duration: final(platform).min_listing_duration,
                    max_listing_duration: final(platform).max_listing_duration,
                    timestamp: current_time,
                })
            },
        },
{
    if !caller.same_as(&platform.authority) {
        return Err(SelixError::UnauthorizedAuthority);
    }
    let fee_basis_points = match params.fee_basis_points {
        Some(f) => {
            validate_fee_bps(f)?;
            f
        },
        None => platform.fee_basis_points,
    };
    let new_min = match params.min_listing_duration {
        Some(d) => d,
        None => platform.min_listing_duration,
    };
    let new_max = match params.max_listing_duration {
        Some(d) => d,
        None => platform.max_listing_duration,
    };
    validate_duration_bounds(new_min, new_max)?;
    let min_trade_amount = match params.min_trade_amount {
        Some(m) => {
            if m == 0 {
                return Err(SelixError::InvalidAmount);
            }
            m
        },
        None => platform.min_trade_amount,
    };
    let max_listings_per_user = match params.max_listings_per_user {
        Some(m) => {
            if m == 0 {
                return Err(SelixError::InvalidAmount);
            }
            m
        },
        None => platform.max_listings_per_user,
    };
    let whitelist_enabled = match params.whitelist_enabled {
        Some(w) => w,
        None => platform.whitelist_enabled,
    };
    platform.fee_basis_points = fee_basis_points;
    platform.min_listing_duration = new_min;
    platform.max_listing_duration = new_max;
    platform.min_trade_amount = min_trade_amount;
    platform.max_listings_per_user = max_listings_per_user;
    platform.whitelist_enabled = whitelist_enabled;
    platform.updated_at = current_time;
    Ok(
        PlatformConfigUpdated {
            authority: caller,
            fee_basis_points: platform.fee_basis_points,
            min_listing_duration: platform.min_listing_duration,
            max_listing_duration: platform.max_listing_duration,
            timestamp: current_time,
        },
    )
}

/// Stops all fills, listings and updates; only the authority may, and only
/// while the venue runs.
pub fn pause_platform(platform: &mut Platform, caller: Address, current_time: i64) -> (r: Result<
    PlatformPaused,
    SelixError,
>)
    ensures
        caller@ != old(platform).authority@ ==> r == Err::<PlatformPaused, SelixError>(
            SelixError::UnauthorizedAuthority,
        ),
        caller@ == old(platform).authority@ && old(platform).is_paused ==> r == Err::<
            PlatformPaused,
            SelixError,
        >(SelixError::PlatformPaused),
        r is Err ==> *final(platform) == *old(platform),
        r is Ok <==> caller@ == old(platform).authority@ && !old(platform).is_paused,
        r is Ok ==> *final(platform) == (Platform {
            is_paused: true,
            updated_at: current_time,
            ..*old(platform)
        }) && r->Ok_0 == (PlatformPaused { authority: caller, timestamp: current_time }),
{
    if !caller.same_as(&platform.authority) {
        return Err(SelixError::UnauthorizedAuthority);
    }
    if platform.is_paused {
        return Err(SelixError::PlatformPaused);
    }
    platform.is_paused = true;
    platform.updated_at = current_time;
    Ok(PlatformPaused { authority: caller, timestamp: current_time })
}

/// Lets a paused venue run again; only the authority may.
pub fn resume_platform(platform: &mut Platform, caller: Address, current_time: i64) -> (r: Result<
    PlatformResumed,
    SelixError,
>)
    ensures
        caller@ != old(platform).authority@ ==> r == Err::<PlatformResumed, SelixError>(
            SelixError::UnauthorizedAuthority,
        ),
        caller@ == old(platform).authority@ && !old(platform).is_paused ==> r == Err::<
            PlatformResumed,
            SelixError,
        >(SelixError::PlatformNotPaused),
        r is Err ==> *final(platform) == *old(platform),
        r is Ok <==> caller@ == old(platform).authority@ && old(platform).is_paused,
        r is Ok ==> *final(platform) == (Platform {
            is_paused: false,
            updated_at: current_time,
            ..*old(platform)
        }) && r->Ok_0 == (PlatformResumed { authority: caller, timestamp: current_time }),
{
    if !caller.same_as(&platform.authority) {
        return Err(SelixError::UnauthorizedAuthority);
    }
    if !platform.is_paused {
        return Err(SelixError::PlatformNotPaused);
    }
    platform.is_paused = false;
    platform.updated_at = current_time;
    Ok(PlatformResumed { authority: caller, timestamp: current_time })
}

/// Sends future fees to `new_collector`; only the authority may.
pub fn set_fee_collector(
    platform: &mut Platform,
    caller: Address,
    new_collector: Address,
    current_time: i64,
) -> (r: Result<FeeCollectorUpdated, SelixError>)
    ensures
        caller@ != old(platform).authority@ ==> r == Err::<FeeCollectorUpdated, SelixError>(
            SelixError::UnauthorizedAuthority,
        ) && *final(platform) == *old(platform),
        caller@ == old(platform).authority@ ==> r == Ok::<FeeCollectorUpdated, SelixError>(
            FeeCollectorUpdated {
                authority: caller,
                old_collector: old(platform).fee_collector,
                new_collector,
                timestamp: current_time,
            },
        ) && *final(platform) == (Platform {
            fee_collector: new_collector,
            updated_at: current_time,
            ..*old(platform)
        }),
{
    if !caller.same_as(&platform.authority) {
        return Err(SelixError::UnauthorizedAuthority);
    }
    let old_collector = platform.fee_collector;
    platform.fee_collector = new_collector;
    platform.updated_at = current_time;
    Ok(
        FeeCollectorUpdated {
            authority: caller,
            old_collector,
            new_collector,
            timestamp: current_time,
        },
    )
}

/// Admits or removes the asset `mint` from the venue's whitelist; only the
/// authority may. Returns the entry's new contents.
pub fn manage_whitelist(
    platform: &Platform,
    caller: Address,
    mint: Address,
    is_whitelisted: bool,
    current_time: i64,
    bump: u8,
) -> (r: Result<(TokenWhitelist, TokenWhitelistUpdated), SelixError>)
    ensures
        caller@ != platform.authority@ ==> r == Err::<
            (TokenWhitelist, TokenWhitelistUpdated),
            SelixError,
        >(SelixError::UnauthorizedAuthority),
        caller@ == platform.authority@ ==> r == Ok::<
            (TokenWhitelist, TokenWhitelistUpdated),
            SelixError,
        >(
            (
                TokenWhitelist { mint, is_whitelisted, updated_at: current_time, bump },
                TokenWhitelistUpdated {
                    mint,
                    is_whitelisted,
                    authority: caller,
                    timestamp: current_time,
                },
            ),
        ),
{
    if !caller.same_as(&platform.authority) {
        return Err(SelixError::UnauthorizedAuthority);
    }
    let entry = TokenWhitelist { mint, is_whitelisted, updated_at: current_time, bump };
    Ok(
        (
            entry,
            TokenWhitelistUpdated { mint, is_whitelisted, authority: caller, timestamp: current_time },
        ),
    )
}

} // verus!
