use vstd::prelude::*;

verus! {

/// Every way an operation of the venue can be rejected.
#[derive(Clone, Copy, Debug, PartialEq, Eq, Structural)]
pub enum SelixError {
    PlatformPaused,
    PlatformNotPaused,
    UnauthorizedAuthority,
    InvalidFeeConfiguration,
    PlatformAlreadyInitialized,
    InvalidDurationBounds,
    InvalidAmount,
    AmountTooSmall,
    SameTokenMints,
    DurationTooShort,
    DurationTooLong,
    ListingExpired,
    ListingNotActive,
    ListingAlreadyCompleted,
    InvalidListingStatus,
    MaxListingsReached,
    MinFillAmountTooLarge,
    ListingNotExpired,
    SlippageExceeded,
    FillAmountTooSmall,
    InsufficientMakerBalance,
    InsufficientTakerBalance,
    SwapAmountExceedsRemaining,
    CannotSwapOwnListing,
    TokenNotWhitelisted,
    TokenBlacklisted,
    InvalidTokenAccount,
    TokenAccountMintMismatch,
    TokenAccountAuthorityMismatch,
    ArithmeticOverflow,
    ArithmeticUnderflow,
    DivisionByZero,
    InvalidCalculation,
    UserProfileAlreadyExists,
    UserProfileNotFound,
    InvalidReferrer,
    VaultDepositFailed,
    VaultWithdrawalFailed,
    VaultClosureFailed,
    VaultBalanceMismatch,
    InvalidPDA,
    AccountAlreadyClosed,
    InvalidAccountOwner,
    AccountNotInitialized,
    /// The host clock could not be read.
    ClockUnavailable,
}

} // verus!
