use vstd::prelude::*;
use crate::address::Address;
use crate::constants::{MAX_LISTING_DURATION, MIN_LISTING_DURATION};
use crate::errors::SelixError;
use crate::events::{UserPreferencesUpdated, UserProfileCreated};
use crate::user_profile::UserProfile;
use crate::validation::validate_slippage_bps;

verus! {

/// Preferences of a new profile.
#[derive(Clone, Copy, Debug)]
pub struct InitializeUserParams {
    pub referrer: Option<Address>,
    pub default_listing_duration: i64,
    pub default_slippage_bps: u16,
}

/// Changes to a profile's preferences; `None` leaves a field as it is.
#[derive(Clone, Copy, Debug)]
pub struct UpdatePreferencesParams {
    pub default_listing_duration: Option<i64>,
    pub default_slippage_bps: Option<u16>,
}

/// Why a default duration is refused, if it is: it must lie between five
/// minutes and thirty days.
pub open spec fn default_duration_rejection(duration: i64) -> Option<SelixError> {
    if duration < 300 {
        Some(SelixError::DurationTooShort)
    } else if duration > 2_592_000 {
        Some(SelixError::DurationTooLong)
    } else {
        None
    }
}

pub open spec fn profile_init_rejection(params: InitializeUserParams) -> Option<SelixError> {
    if default_duration_rejection(params.default_listing_duration) is Some {
        default_duration_rejection(params.default_listing_duration)
    } else if params.default_slippage_bps > 1000 {
        Some(SelixError::SlippageExceeded)
    } else {
        None
    }
}

fn validate_default_duration(duration: i64) -> (r: Result<(), SelixError>)
    ensures
        r == crate::validation::as_result(default_duration_rejection(duration)),
{
    if duration < MIN_LISTING_DURATION {
        return Err(SelixError::DurationTooShort);
    }
    if duration > MAX_LISTING_DURATION {
        return Err(SelixError::DurationTooLong);
    }
    Ok(())
}

/// Opens the profile of `user`, with all counters at zero.
pub fn initialize_user(user: Address, current_time: i64, bump: u8, params: InitializeUserParams) -> (r:
    Result<(UserProfile, UserProfileCreated), SelixError>)
    ensures
        match r {
            Err(e) => profile_init_rejection(params) == Some(e),
            Ok((p, ev)) => {
                &&& profile_init_rejection(params) is None
                &&& p == (UserProfile {
                    user,
                    referrer: params.referrer,
                    listings_created: 0,
                    listings_cancelled: 0,
                    swaps_executed: 0,
                    swaps_received: 0,
                    active_listings: 0,
                    volume_as_maker: 0,
                    volume_as_taker: 0,
                    total_fees_paid: 0,
                    default_listing_duration: params.default_listing_duration,
                    default_slippage_bps: params.default_slippage_bps,
                    created_at: current_time,
                    last_activity_at: current_time,
                    bump,
                })
                &&& ev == (UserProfileCreated {
                    user,
                    referrer: params.referrer,
                    timestamp: current_time,
                })
            },
        },
{
    validate_default_duration(params.default_listing_duration)?;
    validate_slippage_bps(params.default_slippage_bps)?;
    let profile = UserProfile {
        user,
        referrer: params.referrer,
        listings_created: 0,
        listings_cancelled: 0,
        swaps_executed: 0,
        swaps_received: 0,
        active_listings: 0,
        volume_as_maker: 0,
        volume_as_taker: 0,
        total_fees_paid: 0,
        default_listing_duration: params.default_listing_duration,
        default_slippage_bps: params.default_slippage_bps,
        created_at: current_time,
        last_activity_at: current_time,
        bump,
    };
    Ok((profile, UserProfileCreated { user, referrer: params.referrer, timestamp: current_time }))
}

pub open spec fn preferences_rejection(
    profile: UserProfile,
    caller: Address,
    params: UpdatePreferencesParams,
) -> Option<SelixError> {
    if caller@ != profile.user@ {
        Some(SelixError::UnauthorizedAuthority)
    } else if params.default_listing_duration is Some && default_duration_rejection(
        params.default_listing_duration->0,
    ) is Some {
        default_duration_rejection(params.default_listing_duration->0)
    } else if params.default_slippage_bps is Some && params.default_slippage_bps->0 > 1000 {
        Some(SelixError::SlippageExceeded)
    } else {
        None
    }
}

/// Changes the defaults of the profile of `caller`.
pub fn update_preferences(
    profile: &mut UserProfile,
    caller: Address,
    current_time: i64,
    params: UpdatePreferencesParams,
) -> (r: Result<UserPreferencesUpdated, SelixError>)
    ensures
        match r {
            Err(e) => {
                &&& preferences_rejection(*old(profile), caller, params) == Some(e)
                &&& *final(profile) == *old(profile)
            },
            Ok(ev) => {
                let p = *old(profile);
                &&& preferences_rejection(p, caller, params) is None
                &&& *final(profile) == (UserProfile {
                    default_listing_duration: crate::admin::or_keep(
                        params.default_listing_duration,
                        p.default_listing_duration,
                    ),
                    default_slippage_bps: crate::admin::or_keep(
                        params.default_slippage_bps,
                        p.default_slippage_bps,
                    ),
                    last_activity_at: current_time,
                    ..p
                })
                &&& ev == (UserPreferencesUpdated {
                    user: p.user,
                    default_listing_duration: final(profile).default_listing_duration,
                    default_slippage_bps: final(profile).default_slippage_bps,
                    timestamp: current_time,
                })
            },
        },
{
    if !caller.same_as(&profile.user) {
        return Err(SelixError::UnauthorizedAuthority);
    }
    let duration = match params.default_listing_duration {
        Some(d) => {
            validate_default_duration(d)?;
            d
        },
        None => profile.default_listing_duration,
    };
    let slippage = match params.default_slippage_bps {
        Some(s) => {
            validate_slippage_bps(s)?;
            s
        },
        None => profile.default_slippage_bps,
    };
    profile.default_listing_duration = duration;
    profile.default_slippage_bps = slippage;
    profile.last_activity_at = current_time;
    Ok(
        UserPreferencesUpdated {
            user: profile.user,
            default_listing_duration: duration,
            default_slippage_bps: slippage,
            timestamp: current_time,
        },
    )
}

} // verus!
