use selix::address::Address;
use selix::admin::{initialize_platform, InitializePlatformParams};
use selix::errors::SelixError;
use selix::lifecycle::{
    cancel_listing, close_expired_listing, create_listing, update_listing, CreateListingParams,
    UpdateListingParams,
};
use selix::listing::Listing;
use selix::pda::derive_whitelist_pda;
use selix::platform::Platform;
use selix::status::ListingStatus;
use selix::trading::{execute_swap, ExecuteSwapParams};
use selix::user::{initialize_user, InitializeUserParams};
use selix::user_profile::UserProfile;
use selix::whitelist::TokenWhitelist;

const START: i64 = 1_000_000;

fn addr(b: u8) -> Address {
    Address::new([b; 32])
}

fn maker() -> Address {
    addr(10)
}

fn mint_a() -> Address {
    addr(20)
}

fn mint_b() -> Address {
    addr(21)
}

fn venue() -> Platform {
    let params = InitializePlatformParams {
        fee_basis_points: 25,
        min_listing_duration: 300,
        max_listing_duration: 2_592_000,
        min_trade_amount: 100,
        max_listings_per_user: 10,
    };
    initialize_platform(addr(1), addr(2), START, 254, params).unwrap().0
}

fn profile(user: Address) -> UserProfile {
    let params = InitializeUserParams {
        referrer: None,
        default_listing_duration: 86_400,
        default_slippage_bps: 100,
    };
    initialize_user(user, START, 253, params).unwrap().0
}

fn listing_params() -> CreateListingParams {
    CreateListingParams {
        id: 1,
        amount_source: 1000,
        amount_destination: 2000,
        min_fill_amount: 100,
        max_slippage_bps: 100,
        duration_seconds: 86_400,
    }
}

fn open_listing(platform: &mut Platform, maker_profile: &mut Option<UserProfile>) -> Listing {
    create_listing(
        platform,
        maker_profile,
        maker(),
        mint_a(),
        mint_b(),
        None,
        None,
        5000,
        START,
        252,
        listing_params(),
    )
    .unwrap()
    .0
}

fn fill(amount_source: u64) -> ExecuteSwapParams {
    ExecuteSwapParams { amount_source, max_amount_destination: u64::MAX }
}

#[test]
fn end_to_end_two_fills_complete_the_listing() {
    let mut platform = venue();
    let mut maker_profile = Some(profile(maker()));
    let mut listing = open_listing(&mut platform, &mut maker_profile);
    let mut vault: u64 = listing.amount_source_total;
    assert_eq!(listing.status, ListingStatus::Active);
    assert_eq!(maker_profile.unwrap().active_listings, 1);
    assert_eq!(platform.total_listings_created, 1);

    let mut taker_profile = Some(profile(addr(30)));
    let ev = execute_swap(
        &mut platform,
        &mut listing,
        &mut taker_profile,
        &mut maker_profile,
        addr(30),
        10_000,
        START + 10,
        fill(500),
    )
    .unwrap();
    vault -= ev.amount_source;
    assert_eq!(ev.amount_source, 500);
    assert_eq!(ev.amount_destination, 1000);
    assert_eq!(ev.fee_amount, 2);
    assert_eq!(ev.amount_to_maker(), 998);
    assert!(ev.is_partial);
    assert_eq!(listing.status, ListingStatus::PartiallyFilled);
    assert_eq!(listing.amount_source_remaining, 500);
    assert_eq!(listing.amount_destination_remaining, 1000);
    assert_eq!(listing.fill_count, 1);
    assert_eq!(vault, listing.amount_source_remaining);
    assert_eq!(taker_profile.unwrap().volume_as_taker, 1000);
    assert_eq!(taker_profile.unwrap().total_fees_paid, 2);
    assert_eq!(maker_profile.unwrap().volume_as_maker, 998);

    let mut second_taker: Option<UserProfile> = None;
    let ev = execute_swap(
        &mut platform,
        &mut listing,
        &mut second_taker,
        &mut maker_profile,
        addr(31),
        1000,
        START + 20,
        fill(500),
    )
    .unwrap();
    vault -= ev.amount_source;
    assert_eq!(ev.amount_destination, 1000);
    assert_eq!(ev.fee_amount, 2);
    assert_eq!(ev.amount_to_maker(), 998);
    assert!(!ev.is_partial);
    assert_eq!(ev.new_status, ListingStatus::Completed);
    assert_eq!(listing.status, ListingStatus::Completed);
    assert_eq!(listing.amount_source_remaining, 0);
    assert_eq!(listing.amount_destination_remaining, 0);
    assert_eq!(vault, 0);
    assert_eq!(platform.total_swaps_executed, 2);
    assert_eq!(platform.total_volume_traded, 2000);
    assert_eq!(platform.total_fees_collected, 4);
    assert_eq!(maker_profile.unwrap().swaps_received, 2);
    assert_eq!(maker_profile.unwrap().volume_as_maker, 1996);
    assert_eq!(maker_profile.unwrap().active_listings, 0);
    assert!(second_taker.is_none());
}

#[test]
fn completed_listing_rejects_everything_and_changes_nothing() {
    let mut platform = venue();
    let mut maker_profile: Option<UserProfile> = None;
    let mut listing = open_listing(&mut platform, &mut maker_profile);
    let mut taker_profile: Option<UserProfile> = None;
    execute_swap(
        &mut platform,
        &mut listing,
        &mut taker_profile,
        &mut maker_profile,
        addr(30),
        10_000,
        START + 10,
        fill(1000),
    )
    .unwrap();
    assert_eq!(listing.status, ListingStatus::Completed);
    let listing_before = listing;
    let swaps_before = platform.total_swaps_executed;

    let r = execute_swap(
        &mut platform,
        &mut listing,
        &mut taker_profile,
        &mut maker_profile,
        addr(30),
        10_000,
        START + 20,
        fill(0),
    );
    assert_eq!(r.unwrap_err(), SelixError::ListingNotActive);
    let r = cancel_listing(&mut listing, &mut maker_profile, maker(), 0, START + 20);
    assert_eq!(r.unwrap_err(), SelixError::InvalidListingStatus);
    let update = UpdateListingParams {
        new_amount_destination: Some(3000),
        new_min_fill_amount: None,
        new_max_slippage_bps: None,
        extend_duration_seconds: None,
    };
    let r = update_listing(&platform, &mut listing, maker(), START + 20, update);
    assert_eq!(r.unwrap_err(), SelixError::InvalidListingStatus);
    let r = close_expired_listing(&mut listing, addr(40), 0, START + 10_000_000);
    assert_eq!(r.unwrap_err(), SelixError::InvalidListingStatus);

    assert_eq!(listing.status, listing_before.status);
    assert_eq!(listing.amount_source_remaining, listing_before.amount_source_remaining);
    assert_eq!(listing.amount_destination_remaining, 0);
    assert_eq!(listing.updated_at, listing_before.updated_at);
    assert_eq!(platform.total_swaps_executed, swaps_before);
}

#[test]
fn cancelled_listing_rejects_fills() {
    let mut platform = venue();
    let mut maker_profile = Some(profile(maker()));
    let mut listing = open_listing(&mut platform, &mut maker_profile);
    let ev = cancel_listing(&mut listing, &mut maker_profile, maker(), 1000, START + 5).unwrap();
    assert_eq!(ev.amount_returned, 1000);
    assert_eq!(listing.status, ListingStatus::Cancelled);
    assert_eq!(maker_profile.unwrap().listings_cancelled, 1);
    assert_eq!(maker_profile.unwrap().active_listings, 0);
    let mut taker_profile: Option<UserProfile> = None;
    let r = execute_swap(
        &mut platform,
        &mut listing,
        &mut taker_profile,
        &mut maker_profile,
        addr(30),
        10_000,
        START + 10,
        fill(500),
    );
    assert_eq!(r.unwrap_err(), SelixError::ListingNotActive);
    assert_eq!(listing.amount_source_remaining, 1000);
    let r = cancel_listing(&mut listing, &mut maker_profile, maker(), 1000, START + 6);
    assert_eq!(r.unwrap_err(), SelixError::InvalidListingStatus);
}

#[test]
fn expired_listing_is_closed_by_anyone_for_the_maker() {
    let mut platform = venue();
    let mut maker_profile: Option<UserProfile> = None;
    let mut listing = open_listing(&mut platform, &mut maker_profile);
    let vault = listing.amount_source_remaining;
    let stranger = addr(99);

    let before_deadline = listing.expires_at - 1;
    let r = close_expired_listing(&mut listing, stranger, vault, before_deadline);
    assert_eq!(r.unwrap_err(), SelixError::ListingNotExpired);
    assert_eq!(listing.status, ListingStatus::Active);

    let later = listing.expires_at + 5;
    let ev = close_expired_listing(&mut listing, stranger, vault, later).unwrap();
    assert_eq!(ev.amount_returned, 1000);
    assert_eq!(ev.maker, maker());
    assert_eq!(ev.closer, stranger);
    assert_eq!(listing.status, ListingStatus::Expired);
    assert_eq!(listing.updated_at, later);
}

#[test]
fn expiry_closes_at_the_exact_deadline_and_after_partial_fills() {
    let mut platform = venue();
    let mut maker_profile: Option<UserProfile> = None;
    let mut listing = open_listing(&mut platform, &mut maker_profile);
    let mut taker_profile: Option<UserProfile> = None;
    execute_swap(
        &mut platform,
        &mut listing,
        &mut taker_profile,
        &mut maker_profile,
        addr(30),
        10_000,
        START + 10,
        fill(300),
    )
    .unwrap();
    let deadline = listing.expires_at;
    let ev = close_expired_listing(&mut listing, addr(98), 700, deadline).unwrap();
    assert_eq!(ev.amount_returned, 700);
    assert_eq!(listing.status, ListingStatus::Expired);
}

#[test]
fn repricing_after_a_fill_scales_the_remaining_destination() {
    let mut platform = venue();
    let mut maker_profile: Option<UserProfile> = None;
    let mut listing = open_listing(&mut platform, &mut maker_profile);
    let mut taker_profile: Option<UserProfile> = None;
    execute_swap(
        &mut platform,
        &mut listing,
        &mut taker_profile,
        &mut maker_profile,
        addr(30),
        10_000,
        START + 10,
        fill(500),
    )
    .unwrap();
    assert_eq!(listing.amount_destination_remaining, 1000);
    let update = UpdateListingParams {
        new_amount_destination: Some(3000),
        new_min_fill_amount: None,
        new_max_slippage_bps: None,
        extend_duration_seconds: None,
    };
    let ev = update_listing(&platform, &mut listing, maker(), START + 20, update).unwrap();
    assert_eq!(listing.amount_destination_remaining, 1500);
    assert_eq!(listing.amount_destination_total, 3000);
    assert_eq!(ev.old_amount_destination, 1000);
    assert_eq!(ev.new_amount_destination, 1500);
}

#[test]
fn repricing_before_any_fill_sets_the_remaining_destination() {
    let mut platform = venue();
    let mut maker_profile: Option<UserProfile> = None;
    let mut listing = open_listing(&mut platform, &mut maker_profile);
    let update = UpdateListingParams {
        new_amount_destination: Some(3000),
        new_min_fill_amount: Some(200),
        new_max_slippage_bps: Some(50),
        extend_duration_seconds: Some(60),
    };
    let expiry = listing.expires_at;
    update_listing(&platform, &mut listing, maker(), START + 20, update).unwrap();
    assert_eq!(listing.amount_destination_remaining, 3000);
    assert_eq!(listing.min_fill_amount, 200);
    assert_eq!(listing.max_slippage_bps, 50);
    assert_eq!(listing.expires_at, expiry + 60);
    assert_eq!(listing.updated_at, START + 20);
}

#[test]
fn update_rejections() {
    let mut platform = venue();
    let mut maker_profile: Option<UserProfile> = None;
    let mut listing = open_listing(&mut platform, &mut maker_profile);
    let none = UpdateListingParams {
        new_amount_destination: None,
        new_min_fill_amount: None,
        new_max_slippage_bps: None,
        extend_duration_seconds: None,
    };
    let r = update_listing(&platform, &mut listing, addr(77), START, none);
    assert_eq!(r.unwrap_err(), SelixError::UnauthorizedAuthority);
    let deadline = listing.expires_at;
    let r = update_listing(&platform, &mut listing, maker(), deadline, none);
    assert_eq!(r.unwrap_err(), SelixError::ListingExpired);
    let p = UpdateListingParams { new_amount_destination: Some(50), ..none };
    let r = update_listing(&platform, &mut listing, maker(), START, p);
    assert_eq!(r.unwrap_err(), SelixError::AmountTooSmall);
    let p = UpdateListingParams { new_min_fill_amount: Some(1001), ..none };
    let r = update_listing(&platform, &mut listing, maker(), START, p);
    assert_eq!(r.unwrap_err(), SelixError::MinFillAmountTooLarge);
    let p = UpdateListingParams { new_max_slippage_bps: Some(1001), ..none };
    let r = update_listing(&platform, &mut listing, maker(), START, p);
    assert_eq!(r.unwrap_err(), SelixError::SlippageExceeded);
    let p = UpdateListingParams { extend_duration_seconds: Some(3_000_000), ..none };
    let r = update_listing(&platform, &mut listing, maker(), START, p);
    assert_eq!(r.unwrap_err(), SelixError::DurationTooLong);
    let p = UpdateListingParams { extend_duration_seconds: Some(i64::MAX), ..none };
    let r = update_listing(&platform, &mut listing, maker(), START, p);
    assert_eq!(r.unwrap_err(), SelixError::ArithmeticOverflow);
    // A rejected update with an acceptable re-pricing keeps the old price.
    let p = UpdateListingParams {
        new_amount_destination: Some(4000),
        new_max_slippage_bps: Some(5000),
        ..none
    };
    let r = update_listing(&platform, &mut listing, maker(), START, p);
    assert_eq!(r.unwrap_err(), SelixError::SlippageExceeded);
    assert_eq!(listing.amount_destination_total, 2000);
    assert_eq!(listing.amount_destination_remaining, 2000);
    platform.is_paused = true;
    let r = update_listing(&platform, &mut listing, maker(), START, none);
    assert_eq!(r.unwrap_err(), SelixError::PlatformPaused);
}

#[test]
fn swap_rejections() {
    let mut platform = venue();
    let mut maker_profile: Option<UserProfile> = None;
    let mut listing = open_listing(&mut platform, &mut maker_profile);
    let mut tp: Option<UserProfile> = None;
    let taker = addr(30);
    let mut attempt = |platform: &mut Platform, listing: &mut Listing, who, balance, at, p| {
        execute_swap(platform, listing, &mut tp, &mut maker_profile, who, balance, at, p)
            .unwrap_err()
    };
    assert_eq!(
        attempt(&mut platform, &mut listing, maker(), 10_000, START, fill(500)),
        SelixError::CannotSwapOwnListing
    );
    assert_eq!(
        attempt(&mut platform, &mut listing, taker, 10_000, START, fill(1001)),
        SelixError::SwapAmountExceedsRemaining
    );
    assert_eq!(
        attempt(&mut platform, &mut listing, taker, 10_000, START, fill(99)),
        SelixError::FillAmountTooSmall
    );
    let tight = ExecuteSwapParams { amount_source: 500, max_amount_destination: 999 };
    assert_eq!(
        attempt(&mut platform, &mut listing, taker, 10_000, START, tight),
        SelixError::SlippageExceeded
    );
    assert_eq!(
        attempt(&mut platform, &mut listing, taker, 999, START, fill(500)),
        SelixError::InsufficientTakerBalance
    );
    let deadline = listing.expires_at;
    assert_eq!(
        attempt(&mut platform, &mut listing, taker, 10_000, deadline, fill(500)),
        SelixError::ListingExpired
    );
    platform.is_paused = true;
    assert_eq!(
        attempt(&mut platform, &mut listing, taker, 10_000, START, fill(500)),
        SelixError::PlatformPaused
    );
    assert_eq!(listing.amount_source_remaining, 1000);
    assert_eq!(listing.fill_count, 0);
    assert_eq!(platform.total_swaps_executed, 0);
}

#[test]
fn volume_overflow_rejects_the_fill() {
    let mut platform = venue();
    let mut maker_profile: Option<UserProfile> = None;
    let mut listing = open_listing(&mut platform, &mut maker_profile);
    platform.total_volume_traded = u128::MAX;
    let mut tp: Option<UserProfile> = None;
    let r = execute_swap(
        &mut platform,
        &mut listing,
        &mut tp,
        &mut maker_profile,
        addr(30),
        10_000,
        START,
        fill(500),
    );
    assert_eq!(r.unwrap_err(), SelixError::ArithmeticOverflow);
    assert_eq!(listing.amount_source_remaining, 1000);
}

#[test]
fn create_rejections() {
    let mut platform = venue();
    let mut mp = Some(profile(maker()));
    let mut attempt = |platform: &mut Platform, a: Address, b: Address, balance, p| {
        create_listing(platform, &mut mp, maker(), a, b, None, None, balance, START, 1, p)
            .unwrap_err()
    };
    let base = listing_params();
    assert_eq!(
        attempt(&mut platform, mint_a(), mint_b(), 5000, CreateListingParams { amount_source: 0, ..base }),
        SelixError::InvalidAmount
    );
    assert_eq!(
        attempt(&mut platform, mint_a(), mint_b(), 5000, CreateListingParams { amount_destination: 99, ..base }),
        SelixError::AmountTooSmall
    );
    assert_eq!(
        attempt(&mut platform, mint_a(), mint_b(), 5000, CreateListingParams { min_fill_amount: 1001, ..base }),
        SelixError::MinFillAmountTooLarge
    );
    assert_eq!(
        attempt(&mut platform, mint_a(), mint_a(), 5000, base),
        SelixError::SameTokenMints
    );
    assert_eq!(
        attempt(&mut platform, mint_a(), mint_b(), 5000, CreateListingParams { duration_seconds: 299, ..base }),
        SelixError::DurationTooShort
    );
    assert_eq!(
        attempt(&mut platform, mint_a(), mint_b(), 5000, CreateListingParams { duration_seconds: 2_592_001, ..base }),
        SelixError::DurationTooLong
    );
    assert_eq!(
        attempt(&mut platform, mint_a(), mint_b(), 5000, CreateListingParams { max_slippage_bps: 1001, ..base }),
        SelixError::SlippageExceeded
    );
    assert_eq!(
        attempt(&mut platform, mint_a(), mint_b(), 999, base),
        SelixError::InsufficientMakerBalance
    );
    platform.whitelist_enabled = true;
    assert_eq!(
        attempt(&mut platform, mint_a(), mint_b(), 5000, base),
        SelixError::TokenNotWhitelisted
    );
    platform.whitelist_enabled = false;
    platform.max_listings_per_user = 0;
    assert_eq!(
        attempt(&mut platform, mint_a(), mint_b(), 5000, base),
        SelixError::MaxListingsReached
    );
    platform.is_paused = true;
    assert_eq!(
        attempt(&mut platform, mint_a(), mint_b(), 5000, base),
        SelixError::PlatformPaused
    );
    assert_eq!(platform.total_listings_created, 0);
    assert_eq!(mp.unwrap().active_listings, 0);
}

#[test]
fn whitelist_entries_are_checked_at_their_derived_address() {
    let mut platform = venue();
    platform.whitelist_enabled = true;
    let mut mp: Option<UserProfile> = None;
    let (key_a, bump_a) = derive_whitelist_pda(&mint_a()).unwrap();
    let (key_b, bump_b) = derive_whitelist_pda(&mint_b()).unwrap();
    let entry_a = TokenWhitelist { mint: mint_a(), is_whitelisted: true, updated_at: START, bump: bump_a };
    let entry_b = TokenWhitelist { mint: mint_b(), is_whitelisted: true, updated_at: START, bump: bump_b };
    let blocked_b = TokenWhitelist { is_whitelisted: false, ..entry_b };

    let r = create_listing(&mut platform, &mut mp, maker(), mint_a(), mint_b(), Some((key_b, entry_a)), Some((key_b, entry_b)), 5000, START, 1, listing_params());
    assert_eq!(r.unwrap_err(), SelixError::InvalidPDA);
    let r = create_listing(&mut platform, &mut mp, maker(), mint_a(), mint_b(), Some((key_a, entry_a)), None, 5000, START, 1, listing_params());
    assert_eq!(r.unwrap_err(), SelixError::TokenNotWhitelisted);
    let r = create_listing(&mut platform, &mut mp, maker(), mint_a(), mint_b(), Some((key_a, entry_a)), Some((key_b, blocked_b)), 5000, START, 1, listing_params());
    assert_eq!(r.unwrap_err(), SelixError::TokenNotWhitelisted);
    let r = create_listing(&mut platform, &mut mp, maker(), mint_a(), mint_b(), Some((key_a, entry_a)), Some((key_b, entry_b)), 5000, START, 1, listing_params());
    let (listing, ev) = r.unwrap();
    assert_eq!(listing.expires_at, START + 86_400);
    assert_eq!(ev.amount_source, 1000);
}

#[test]
fn only_the_maker_cancels() {
    let mut platform = venue();
    let mut maker_profile: Option<UserProfile> = None;
    let mut listing = open_listing(&mut platform, &mut maker_profile);
    let r = cancel_listing(&mut listing, &mut maker_profile, addr(55), 1000, START);
    assert_eq!(r.unwrap_err(), SelixError::UnauthorizedAuthority);
    assert_eq!(listing.status, ListingStatus::Active);
}

#[test]
fn fee_rate_above_the_whole_is_an_underflow() {
    let mut platform = venue();
    let mut maker_profile: Option<UserProfile> = None;
    let mut listing = open_listing(&mut platform, &mut maker_profile);
    platform.fee_basis_points = 20_000;
    let mut tp: Option<UserProfile> = None;
    let r = execute_swap(&mut platform, &mut listing, &mut tp, &mut maker_profile, addr(30), 10_000, START, fill(500));
    assert_eq!(r.unwrap_err(), SelixError::ArithmeticUnderflow);
    assert_eq!(listing.fill_count, 0);
}

#[test]
fn open_listing_without_source_is_a_division_by_zero() {
    let mut platform = venue();
    let mut maker_profile: Option<UserProfile> = None;
    let mut listing = open_listing(&mut platform, &mut maker_profile);
    listing.amount_source_remaining = 0;
    listing.min_fill_amount = 0;
    let mut tp: Option<UserProfile> = None;
    let r = execute_swap(&mut platform, &mut listing, &mut tp, &mut maker_profile, addr(30), 10_000, START, fill(0));
    assert_eq!(r.unwrap_err(), SelixError::DivisionByZero);
}

#[test]
fn profile_accumulator_overflow_rejects_the_fill() {
    let mut platform = venue();
    let mut maker_profile = Some(profile(maker()));
    let mut listing = open_listing(&mut platform, &mut maker_profile);
    let mut taker = profile(addr(30));
    taker.total_fees_paid = u64::MAX;
    let mut tp = Some(taker);
    let r = execute_swap(&mut platform, &mut listing, &mut tp, &mut maker_profile, addr(30), 10_000, START, fill(500));
    assert_eq!(r.unwrap_err(), SelixError::ArithmeticOverflow);
    assert_eq!(tp.unwrap().swaps_executed, 0);
    assert_eq!(platform.total_volume_traded, 0);
}

#[test]
fn counters_saturate_instead_of_failing() {
    let mut platform = venue();
    let mut maker_profile: Option<UserProfile> = None;
    let mut listing = open_listing(&mut platform, &mut maker_profile);
    platform.total_swaps_executed = u64::MAX;
    listing.fill_count = u16::MAX;
    let mut tp: Option<UserProfile> = None;
    execute_swap(&mut platform, &mut listing, &mut tp, &mut maker_profile, addr(30), 10_000, START, fill(500)).unwrap();
    assert_eq!(platform.total_swaps_executed, u64::MAX);
    assert_eq!(listing.fill_count, u16::MAX);
    assert_eq!(listing.amount_source_remaining, 500);
}
