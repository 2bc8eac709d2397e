use vstd::prelude::*;
use crate::address::Address;
use crate::errors::SelixError;
use crate::status::ListingStatus;

verus! {

/// A maker's standing offer of `amount_source_total` units of one asset for
/// `amount_destination_total` units of another, divisible into fills.
#[derive(Clone, Copy, Debug)]
pub struct Listing {
    pub id: u64,
    pub maker: Address,
    pub token_mint_source: Address,
    pub token_mint_destination: Address,
    pub amount_source_total: u64,
    pub amount_source_remaining: u64,
    pub amount_destination_total: u64,
    pub amount_destination_remaining: u64,
    pub min_fill_amount: u64,
    pub max_slippage_bps: u16,
    pub expires_at: i64,
    pub created_at: i64,
    pub updated_at: i64,
    pub status: ListingStatus,
    pub fill_count: u16,
    pub bump: u8,
}

/// `x + 1`, held at the largest `u16`.
pub open spec fn saturating_inc_u16(x: u16) -> u16 {
    if x == u16::MAX {
        x
    } else {
        (x + 1) as u16
    }
}

/// `x + 1`, held at the largest `u64`.
pub open spec fn saturating_inc_u64(x: u64) -> u64 {
    if x == u64::MAX {
        x
    } else {
        (x + 1) as u64
    }
}

/// `x - y`, held at zero.
pub open spec fn saturating_sub_u64(x: u64, y: u64) -> u64 {
    if x < y {
        0
    } else {
        (x - y) as u64
    }
}

impl Listing {
    /// What holds of a live listing between operations: nothing remains
    /// beyond the totals, and nothing remains exactly when it is completed.
    pub open spec fn wf(self) -> bool {
        &&& self.amount_source_remaining <= self.amount_source_total
        &&& self.amount_destination_remaining <= self.amount_destination_total
        &&& (self.amount_source_remaining == 0 <==> self.status == ListingStatus::Completed)
    }

    pub open spec fn expired_at(self, now: i64) -> bool {
        now >= self.expires_at
    }

    /// The listing after a fill of `source` and `destination` units at time
    /// `now`.
    pub open spec fn after_fill(self, source: u64, destination: u64, now: i64) -> Listing {
        let remaining = (self.amount_source_remaining - source) as u64;
        Listing {
            amount_source_remaining: remaining,
            amount_destination_remaining: (self.amount_destination_remaining
                - destination) as u64,
            fill_count: saturating_inc_u16(self.fill_count),
            updated_at: now,
            status: if remaining > 0 {
                ListingStatus::PartiallyFilled
            } else {
                ListingStatus::Completed
            },
            ..self
        }
    }

    pub fn is_expired(&self, current_time: i64) -> (r: bool)
        ensures
            r == self.expired_at(current_time),
    {
        current_time >= self.expires_at
    }

    pub fn is_active(&self) -> (r: bool)
        ensures
            r == self.status.is_open(),
    {
        self.status.is_active()
    }

    pub fn can_be_traded(&self, current_time: i64) -> (r: bool)
        ensures
            r == (self.status.is_open() && !self.expired_at(current_time)),
    {
        self.status.can_be_traded() && !self.is_expired(current_time)
    }

    /// Remaining destination per remaining source unit, in basis points.
    pub fn calculate_exchange_rate(&self) -> (r: Result<u128, SelixError>)
        ensures
            self.amount_source_remaining == 0 ==> r == Err::<u128, SelixError>(
                SelixError::InvalidAmount,
            ),
            self.amount_source_remaining > 0 ==> r == Ok::<u128, SelixError>(
                (self.amount_destination_remaining as int * 10000 / self.amount_source_remaining as int) as u128,
            ),
    {
        if self.amount_source_remaining == 0 {
            return Err(SelixError::InvalidAmount);
        }
        let d = self.amount_destination_remaining as u128;
        assert(d * 10000 <= u64::MAX * 10000) by (nonlinear_arith)
            requires
                d <= u64::MAX,
        ;
        Ok(d * 10000 / (self.amount_source_remaining as u128))
    }

    /// Books a fill: both remainders shrink (held at zero), the fill count
    /// grows (held at its largest value), and the status becomes
    /// `Completed` when no source remains, `PartiallyFilled` otherwise.
    pub fn update_after_fill(&mut self, source_filled: u64, destination_filled: u64)
        ensures
            final(self).amount_source_remaining == saturating_sub_u64(
                old(self).amount_source_remaining,
                source_filled,
            ),
            final(self).amount_destination_remaining == saturating_sub_u64(
                old(self).amount_destination_remaining,
                destination_filled,
            ),
            final(self).fill_count == saturating_inc_u16(old(self).fill_count),
            final(self).status == (if final(self).amount_source_remaining == 0 {
                ListingStatus::Completed
            } else {
                ListingStatus::PartiallyFilled
            }),
            ({
                let o = *old(self);
                *final(self) == Listing {
                    amount_source_remaining: final(self).amount_source_remaining,
                    amount_destination_remaining: final(self).amount_destination_remaining,
                    fill_count: final(self).fill_count,
                    status: final(self).status,
                    ..o
                }
            }),
    {
        self.amount_source_remaining = self.amount_source_remaining.saturating_sub(source_filled);
        self.amount_destination_remaining = self.amount_destination_remaining.saturating_sub(
            destination_filled,
        );
        self.fill_count = self.fill_count.saturating_add(1);
        if self.amount_source_remaining == 0 {
            self.status = ListingStatus::Completed;
        } else {
            self.status = ListingStatus::PartiallyFilled;
        }
    }
}

} // verus!
