use vstd::prelude::*;

verus! {

/// Namespaces of the derived accounts, as ASCII bytes.
pub const PLATFORM_SEED: [u8; 8] = [112, 108, 97, 116, 102, 111, 114, 109];
pub const LISTING_SEED: [u8; 7] = [108, 105, 115, 116, 105, 110, 103];
pub const VAULT_SEED: [u8; 5] = [118, 97, 117, 108, 116];
pub const USER_PROFILE_SEED: [u8; 12] = [117, 115, 101, 114, 95, 112, 114, 111, 102, 105, 108, 101];
pub const WHITELIST_SEED: [u8; 9] = [119, 104, 105, 116, 101, 108, 105, 115, 116];

/// Platform defaults.
pub const DEFAULT_FEE_BPS: u16 = 25;
pub const MAX_FEE_BPS: u16 = 1000;
pub const MIN_LISTING_DURATION: i64 = 300;
pub const MAX_LISTING_DURATION: i64 = 2_592_000;
pub const DEFAULT_LISTING_DURATION: i64 = 86_400;
pub const MIN_TRADE_AMOUNT: u64 = 1000;
pub const MAX_LISTINGS_PER_USER: u16 = 100;

/// Slippage bounds.
pub const DEFAULT_SLIPPAGE_BPS: u16 = 100;
pub const MAX_SLIPPAGE_BPS: u16 = 1000;

/// Reward that a closer of an expired listing may be paid elsewhere.
pub const CLOSER_REWARD_LAMPORTS: u64 = 1_000_000;

/// Basis points per whole.
pub const BPS_DENOMINATOR: u64 = 10_000;

/// Time units.
pub const SECONDS_PER_DAY: i64 = 86_400;
pub const SECONDS_PER_HOUR: i64 = 3_600;

} // verus!
