use vstd::prelude::*;
use crate::address::Address;

verus! {

/// Whether one asset may be listed while the venue enforces its whitelist.
#[derive(Clone, Copy, Debug)]
pub struct TokenWhitelist {
    pub mint: Address,
    pub is_whitelisted: bool,
    pub updated_at: i64,
    pub bump: u8,
}

} // verus!
