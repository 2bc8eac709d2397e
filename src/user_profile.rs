use vstd::prelude::*;
use crate::address::Address;
use crate::listing::{saturating_inc_u64, saturating_sub_u64};

verus! {

/// Per-user statistics and preferences. Purely observational: no operation
/// of the venue requires one.
#[derive(Clone, Copy, Debug)]
pub struct UserProfile {
    pub user: Address,
    pub referrer: Option<Address>,
    pub listings_created: u64,
    pub listings_cancelled: u64,
    /// Fills made as taker.
    pub swaps_executed: u64,
    /// Fills received as maker.
    pub swaps_received: u64,
    pub active_listings: u16,
    pub volume_as_maker: u128,
    pub volume_as_taker: u128,
    pub total_fees_paid: u64,
    pub default_listing_duration: i64,
    pub default_slippage_bps: u16,
    pub created_at: i64,
    pub last_activity_at: i64,
    pub bump: u8,
}

/// `x + y`, held at the largest `u128`.
pub open spec fn saturating_add_u128(x: u128, y: u128) -> u128 {
    if x + y > u128::MAX {
        u128::MAX
    } else {
        (x + y) as u128
    }
}

/// `x + y`, held at the largest `u64`.
pub open spec fn saturating_add_u64(x: u64, y: u64) -> u64 {
    if x + y > u64::MAX {
        u64::MAX
    } else {
        (x + y) as u64
    }
}

/// `x - 1`, held at zero.
pub open spec fn saturating_dec_u16(x: u16) -> u16 {
    if x == 0 {
        0
    } else {
        (x - 1) as u16
    }
}

impl UserProfile {
    pub fn can_create_listing(&self, max_listings: u16) -> (r: bool)
        ensures
            r == (self.active_listings < max_listings),
    {
        self.active_listings < max_listings
    }

    pub fn increment_active_listings(&mut self)
        ensures
            *final(self) == (UserProfile {
                active_listings: if old(self).active_listings == u16::MAX {
                    u16::MAX
                } else {
                    (old(self).active_listings + 1) as u16
                },
                listings_created: saturating_inc_u64(old(self).listings_created),
                ..*old(self)
            }),
    {
        self.active_listings = self.active_listings.saturating_add(1);
        self.listings_created = self.listings_created.saturating_add(1);
    }

    pub fn decrement_active_listings(&mut self)
        ensures
            *final(self) == (UserProfile {
                active_listings: saturating_dec_u16(old(self).active_listings),
                ..*old(self)
            }),
    {
        self.active_listings = self.active_listings.saturating_sub(1);
    }

    pub fn record_listing_cancelled(&mut self)
        ensures
            *final(self) == (UserProfile {
                listings_cancelled: saturating_inc_u64(old(self).listings_cancelled),
                active_listings: saturating_dec_u16(old(self).active_listings),
                ..*old(self)
            }),
    {
        self.listings_cancelled = self.listings_cancelled.saturating_add(1);
        self.decrement_active_listings();
    }

    pub fn record_swap_as_maker(&mut self, volume: u64)
        ensures
            *final(self) == (UserProfile {
                swaps_received: saturating_inc_u64(old(self).swaps_received),
                volume_as_maker: saturating_add_u128(old(self).volume_as_maker, volume as u128),
                active_listings: saturating_dec_u16(old(self).active_listings),
                ..*old(self)
            }),
    {
        self.swaps_received = self.swaps_received.saturating_add(1);
        self.volume_as_maker = self.volume_as_maker.saturating_add(volume as u128);
        self.decrement_active_listings();
    }

    pub fn record_swap_as_taker(&mut self, volume: u64, fee: u64)
        ensures
            *final(self) == (UserProfile {
                swaps_executed: saturating_inc_u64(old(self).swaps_executed),
                volume_as_taker: saturating_add_u128(old(self).volume_as_taker, volume as u128),
                total_fees_paid: saturating_add_u64(old(self).total_fees_paid, fee),
                ..*old(self)
            }),
    {
        self.swaps_executed = self.swaps_executed.saturating_add(1);
        self.volume_as_taker = self.volume_as_taker.saturating_add(volume as u128);
        self.total_fees_paid = self.total_fees_paid.saturating_add(fee);
    }
}

} // verus!
