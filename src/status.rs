use vstd::prelude::*;

verus! {

/// Life cycle of a listing. `Completed`, `Cancelled` and `Expired` are
/// terminal.
#[derive(Clone, Copy, Debug, PartialEq, Eq, Structural)]
pub enum ListingStatus {
    /// Created but not yet active (never entered in practice).
    Pending,
    /// Accepting fills.
    Active,
    /// At least one fill happened and something remains.
    PartiallyFilled,
    /// Fully executed.
    Completed,
    /// Withdrawn by its maker.
    Cancelled,
    /// Closed after its expiry time.
    Expired,
}

impl ListingStatus {
    /// The statuses in which a listing takes fills, updates and cancellation.
    pub open spec fn is_open(self) -> bool {
        self == ListingStatus::Active || self == ListingStatus::PartiallyFilled
    }

    pub open spec fn is_terminal(self) -> bool {
        self == ListingStatus::Completed || self == ListingStatus::Cancelled || self
            == ListingStatus::Expired
    }

    /// Position in the life cycle; transitions never lower it.
    pub open spec fn stage(self) -> int {
        match self {
            ListingStatus::Pending => 0,
            ListingStatus::Active => 1,
            ListingStatus::PartiallyFilled => 2,
            _ => 3,
        }
    }

    pub fn is_active(&self) -> (r: bool)
        ensures
            r == self.is_open(),
    {
        matches!(self, ListingStatus::Active | ListingStatus::PartiallyFilled)
    }

    pub fn can_be_cancelled(&self) -> (r: bool)
        ensures
            r == self.is_open(),
    {
        matches!(self, ListingStatus::Active | ListingStatus::PartiallyFilled)
    }

    pub fn can_be_traded(&self) -> (r: bool)
        ensures
            r == self.is_open(),
    {
        matches!(self, ListingStatus::Active | ListingStatus::PartiallyFilled)
    }
}

impl Default for ListingStatus {
    fn default() -> (r: ListingStatus)
        ensures
            r == ListingStatus::Pending,
    {
        ListingStatus::Pending
    }
}

} // verus!
