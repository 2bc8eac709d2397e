use vstd::prelude::*;
use crate::address::Address;

verus! {

/// Configuration and running totals of one venue.
#[derive(Clone, Copy, Debug)]
pub struct Platform {
    pub authority: Address,
    pub fee_collector: Address,
    /// Fee on each fill, in basis points (0 to 1000).
    pub fee_basis_points: u16,
    pub min_listing_duration: i64,
    pub max_listing_duration: i64,
    pub min_trade_amount: u64,
    pub max_listings_per_user: u16,
    pub is_paused: bool,
    pub whitelist_enabled: bool,
    pub total_listings_created: u64,
    pub total_swaps_executed: u64,
    pub total_volume_traded: u128,
    pub total_fees_collected: u64,
    pub created_at: i64,
    pub updated_at: i64,
    pub bump: u8,
}

impl Platform {
    /// What the configuration of a venue always satisfies.
    pub open spec fn wf(self) -> bool {
        &&& self.fee_basis_points <= 1000
        &&& self.min_listing_duration < self.max_listing_duration
        &&& self.min_trade_amount > 0
        &&& self.max_listings_per_user > 0
    }

    pub open spec fn allows_duration(self, duration: i64) -> bool {
        self.min_listing_duration <= duration <= self.max_listing_duration
    }

    pub fn is_paused(&self) -> (r: bool)
        ensures
            r == self.is_paused,
    {
        self.is_paused
    }

    pub fn validate_fee(&self, fee_bps: u16) -> (r: bool)
        ensures
            r == (fee_bps <= 1000),
    {
        fee_bps <= crate::constants::MAX_FEE_BPS
    }

    pub fn validate_duration(&self, duration: i64) -> (r: bool)
        ensures
            r == self.allows_duration(duration),
    {
        duration >= self.min_listing_duration && duration <= self.max_listing_duration
    }
}

} // verus!
