use vstd::prelude::*;
use crate::address::Address;
use crate::lifecycle::{
    cancel_rejection, expire_rejection, update_rejection, UpdateListingParams,
};
use crate::listing::Listing;
use crate::platform::Platform;
use crate::trading::{fill_destination, swap_rejection, ExecuteSwapParams};
use crate::user_profile::UserProfile;

verus! {

/// Every accepted fill leaves no more source and no more destination
/// remaining than before, never moves the status back, keeps a well-formed
/// listing well-formed, and, when the vault held exactly the remaining
/// source before, the vault after paying out the filled source holds exactly
/// the remaining source again.
pub proof fn lemma_fill_keeps_escrow_exact(
    platform: Platform,
    listing: Listing,
    taker_profile: Option<UserProfile>,
    maker_profile: Option<UserProfile>,
    taker: Address,
    taker_balance: u64,
    current_time: i64,
    params: ExecuteSwapParams,
    vault_balance: u64,
)
    requires
        swap_rejection(
            platform,
            listing,
            taker_profile,
            maker_profile,
            taker,
            taker_balance,
            current_time,
            params,
        ) is None,
    ensures
        ({
            let dst = fill_destination(listing, params.amount_source);
            let after = listing.after_fill(params.amount_source, dst as u64, current_time);
            &&& after.amount_source_remaining <= listing.amount_source_remaining
            &&& after.amount_destination_remaining <= listing.amount_destination_remaining
            &&& after.status.stage() >= listing.status.stage()
            &&& listing.wf() ==> after.wf()
            &&& vault_balance == listing.amount_source_remaining ==> vault_balance
                - params.amount_source == after.amount_source_remaining
        }),
{
    let dst = fill_destination(listing, params.amount_source);
    let rem = listing.amount_source_remaining as int;
    let drem = listing.amount_destination_remaining as int;
    let a = params.amount_source as int;
    assert(dst <= drem) by (nonlinear_arith)
        requires
            dst == a * drem / rem,
            0 <= a <= rem,
            rem > 0,
            drem >= 0,
    ;
    assert(dst >= 0) by (nonlinear_arith)
        requires
            dst == a * drem / rem,
            0 <= a,
            rem > 0,
            drem >= 0,
    ;
}

/// Once a listing is completed, cancelled or expired, every further fill,
/// cancellation, update or expiry closure of it is rejected (and rejected
/// operations change nothing).
pub proof fn lemma_terminal_listing_is_final(
    platform: Platform,
    listing: Listing,
    taker_profile: Option<UserProfile>,
    maker_profile: Option<UserProfile>,
    caller: Address,
    taker_balance: u64,
    current_time: i64,
    swap_params: ExecuteSwapParams,
    update_params: UpdateListingParams,
)
    requires
        listing.status.is_terminal(),
    ensures
        swap_rejection(
            platform,
            listing,
            taker_profile,
            maker_profile,
            caller,
            taker_balance,
            current_time,
            swap_params,
        ) is Some,
        cancel_rejection(listing, caller) is Some,
        update_rejection(platform, listing, caller, current_time, update_params) is Some,
        expire_rejection(listing, current_time) is Some,
{
}

} // verus!
