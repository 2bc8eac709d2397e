use vstd::prelude::*;
use crate::address::Address;
use crate::status::ListingStatus;

verus! {

/// Records that the operations hand back for outside observers. Each one
/// also tells the caller which asset moves to carry out.
#[derive(Clone, Copy, Debug)]
pub struct PlatformInitialized {
    pub authority: Address,
    pub fee_collector: Address,
    pub fee_basis_points: u16,
    pub timestamp: i64,
}

#[derive(Clone, Copy, Debug)]
pub struct PlatformConfigUpdated {
    pub authority: Address,
    pub fee_basis_points: u16,
    pub min_listing_duration: i64,
    pub max_listing_duration: i64,
    pub timestamp: i64,
}

#[derive(Clone, Copy, Debug)]
pub struct PlatformPaused {
    pub authority: Address,
    pub timestamp: i64,
}

#[derive(Clone, Copy, Debug)]
pub struct PlatformResumed {
    pub authority: Address,
    pub timestamp: i64,
}

#[derive(Clone, Copy, Debug)]
pub struct FeeCollectorUpdated {
    pub authority: Address,
    pub old_collector: Address,
    pub new_collector: Address,
    pub timestamp: i64,
}

/// A new listing: `amount_source` units move from the maker into the vault.
#[derive(Clone, Copy, Debug)]
pub struct ListingCreated {
    pub listing_id: u64,
    pub maker: Address,
    pub token_mint_source: Address,
    pub token_mint_destination: Address,
    pub amount_source: u64,
    pub amount_destination: u64,
    pub min_fill_amount: u64,
    pub expires_at: i64,
    pub timestamp: i64,
}

#[derive(Clone, Copy, Debug)]
pub struct ListingUpdated {
    pub listing_id: u64,
    pub maker: Address,
    pub old_amount_destination: u64,
    pub new_amount_destination: u64,
    pub timestamp: i64,
}

/// A cancellation: `amount_returned` units move from the vault back to the
/// maker, and the vault is closed.
#[derive(Clone, Copy, Debug)]
pub struct ListingCancelled {
    pub listing_id: u64,
    pub maker: Address,
    pub amount_returned: u64,
    pub timestamp: i64,
}

/// An expiry closure: `amount_returned` units move from the vault back to
/// the maker (never to the closer), and the vault is closed.
#[derive(Clone, Copy, Debug)]
pub struct ListingExpired {
    pub listing_id: u64,
    pub maker: Address,
    pub closer: Address,
    pub amount_returned: u64,
    pub timestamp: i64,
}

/// A fill: `amount_source` units move from the vault to the taker,
/// `amount_destination - fee_amount` from the taker to the maker and
/// `fee_amount` from the taker to the fee collector; when `is_partial` is
/// false the vault is closed.
#[derive(Clone, Copy, Debug)]
pub struct SwapExecuted {
    pub listing_id: u64,
    pub maker: Address,
    pub taker: Address,
    pub token_mint_source: Address,
    pub token_mint_destination: Address,
    pub amount_source: u64,
    pub amount_destination: u64,
    pub fee_amount: u64,
    pub is_partial: bool,
    pub remaining_source: u64,
    pub new_status: ListingStatus,
    pub timestamp: i64,
}

impl SwapExecuted {
    /// What the maker receives of the destination amount.
    pub fn amount_to_maker(&self) -> (r: u64)
        requires
            self.fee_amount <= self.amount_destination,
        ensures
            r == self.amount_destination - self.fee_amount,
    {
        self.amount_destination - self.fee_amount
    }
}

#[derive(Clone, Copy, Debug)]
pub struct UserProfileCreated {
    pub user: Address,
    pub referrer: Option<Address>,
    pub timestamp: i64,
}

#[derive(Clone, Copy, Debug)]
pub struct UserPreferencesUpdated {
    pub user: Address,
    pub default_listing_duration: i64,
    pub default_slippage_bps: u16,
    pub timestamp: i64,
}

#[derive(Clone, Copy, Debug)]
pub struct TokenWhitelistUpdated {
    pub mint: Address,
    pub is_whitelisted: bool,
    pub authority: Address,
    pub timestamp: i64,
}

} // verus!
