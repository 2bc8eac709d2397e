use vstd::prelude::*;
use anchor_lang::prelude::Pubkey;
use crate::address::Address;
use crate::constants::{LISTING_SEED, PLATFORM_SEED, USER_PROFILE_SEED, VAULT_SEED, WHITELIST_SEED};

verus! {

/// Identity of the program that owns every derived account of the venue.
pub const PROGRAM_ID: [u8; 32] = [
    216, 215, 209, 227, 121, 37, 15, 120, 160, 116, 152, 59, 219, 219, 109, 133,
    59, 180, 56, 135, 202, 58, 8, 233, 193, 92, 154, 108, 130, 183, 127, 212,
];

/// The derived account, with its bump, for a list of seeds under a program,
/// or `None` when no bump yields an address off the curve (or the seeds are
/// too many or too long).
pub uninterp spec fn program_address(seeds: Seq<Seq<u8>>, program_id: Seq<u8>) -> Option<(Seq<u8>, u8)>;

pub open spec fn seeds_view(seeds: Seq<Vec<u8>>) -> Seq<Seq<u8>> {
    seeds.map_values(|s: Vec<u8>| s@)
}

pub open spec fn derived_view(r: Option<(Address, u8)>) -> Option<(Seq<u8>, u8)> {
    match r {
        Some((a, b)) => Some((a@, b)),
        None => None,
    }
}

/// Relies on `Pubkey::try_find_program_address`: the address and bump that
/// it finds depend on the seeds and the program id alone.
#[verifier::external_body]
fn try_find_program_address(seeds: &Vec<Vec<u8>>, program_id: &Address) -> (r: Option<(Address, u8)>)
    ensures
        derived_view(r) == program_address(seeds_view(seeds@), program_id@),
{
    let s: Vec<&[u8]> = seeds.iter().map(|v| v.as_slice()).collect();
    let program = Pubkey::new_from_array(program_id.bytes);
    Pubkey::try_find_program_address(&s, &program).map(|(k, b)| (Address { bytes: k.to_bytes() }, b))
}

pub fn bytes_to_vec(s: &[u8]) -> (r: Vec<u8>)
    ensures
        r@ == s@,
{
    let mut r: Vec<u8> = Vec::new();
    let mut i: usize = 0;
    while i < s.len()
        invariant
            0 <= i <= s@.len(),
            r@ == s@.subrange(0, i as int),
        decreases s@.len() - i,
    {
        r.push(s[i]);
        i = i + 1;
    }
    proof {
        assert(r@ =~= s@);
    }
    r
}

/// Little-endian bytes of the lowest `n` base-256 digits of `x`.
pub open spec fn le_bytes(x: nat, n: nat) -> Seq<u8>
    decreases n,
{
    if n == 0 {
        seq![]
    } else {
        seq![(x % 256) as u8] + le_bytes(x / 256, (n - 1) as nat)
    }
}

/// The eight little-endian bytes of `x`.
pub fn u64_to_le_bytes(x: u64) -> (r: Vec<u8>)
    ensures
        r@ == le_bytes(x as nat, 8),
{
    let mut r: Vec<u8> = Vec::new();
    let mut v: u64 = x;
    let mut i: usize = 0;
    while i < 8
        invariant
            0 <= i <= 8,
            r@ + le_bytes(v as nat, (8 - i) as nat) == le_bytes(x as nat, 8),
        decreases 8 - i,
    {
        proof {
            assert(le_bytes(v as nat, (8 - i) as nat) == seq![(v % 256) as u8] + le_bytes(
                (v / 256) as nat,
                (8 - i - 1) as nat,
            ));
            assert(r@.push((v % 256) as u8) + le_bytes((v / 256) as nat, (8 - i - 1) as nat)
                =~= r@ + le_bytes(v as nat, (8 - i) as nat));
        }
        r.push((v % 256) as u8);
        v = v / 256;
        i = i + 1;
    }
    proof {
        assert(r@ + seq![] =~= r@);
    }
    r
}

fn program_id() -> (r: Address)
    ensures
        r@ == PROGRAM_ID@,
{
    Address::new(PROGRAM_ID)
}

/// Derived account of the venue whose authority is `authority`.
pub fn derive_platform_pda(authority: &Address) -> (r: Option<(Address, u8)>)
    ensures
        derived_view(r) == program_address(seq![PLATFORM_SEED@, authority@], PROGRAM_ID@),
{
    let seeds = vec![bytes_to_vec(PLATFORM_SEED.as_slice()), bytes_to_vec(authority.bytes.as_slice())];
    proof {
        assert(seeds_view(seeds@) =~= seq![PLATFORM_SEED@, authority@]);
    }
    try_find_program_address(&seeds, &program_id())
}

/// Derived account of the listing `id` of `maker`.
pub fn derive_listing_pda(maker: &Address, id: u64) -> (r: Option<(Address, u8)>)
    ensures
        derived_view(r) == program_address(
            seq![LISTING_SEED@, maker@, le_bytes(id as nat, 8)],
            PROGRAM_ID@,
        ),
{
    let seeds = vec![
        bytes_to_vec(LISTING_SEED.as_slice()),
        bytes_to_vec(maker.bytes.as_slice()),
        u64_to_le_bytes(id),
    ];
    proof {
        assert(seeds_view(seeds@) =~= seq![LISTING_SEED@, maker@, le_bytes(id as nat, 8)]);
    }
    try_find_program_address(&seeds, &program_id())
}

/// Derived escrow vault of a listing account.
pub fn derive_vault_pda(listing: &Address) -> (r: Option<(Address, u8)>)
    ensures
        derived_view(r) == program_address(seq![VAULT_SEED@, listing@], PROGRAM_ID@),
{
    let seeds = vec![bytes_to_vec(VAULT_SEED.as_slice()), bytes_to_vec(listing.bytes.as_slice())];
    proof {
        assert(seeds_view(seeds@) =~= seq![VAULT_SEED@, listing@]);
    }
    try_find_program_address(&seeds, &program_id())
}

/// Derived profile account of `user`.
pub fn derive_user_profile_pda(user: &Address) -> (r: Option<(Address, u8)>)
    ensures
        derived_view(r) == program_address(seq![USER_PROFILE_SEED@, user@], PROGRAM_ID@),
{
    let seeds = vec![
        bytes_to_vec(USER_PROFILE_SEED.as_slice()),
        bytes_to_vec(user.bytes.as_slice()),
    ];
    proof {
        assert(seeds_view(seeds@) =~= seq![USER_PROFILE_SEED@, user@]);
    }
    try_find_program_address(&seeds, &program_id())
}

/// Derived whitelist entry of the asset `mint`.
pub fn derive_whitelist_pda(mint: &Address) -> (r: Option<(Address, u8)>)
    ensures
        derived_view(r) == program_address(seq![WHITELIST_SEED@, mint@], PROGRAM_ID@),
{
    let seeds = vec![bytes_to_vec(WHITELIST_SEED.as_slice()), bytes_to_vec(mint.bytes.as_slice())];
    proof {
        assert(seeds_view(seeds@) =~= seq![WHITELIST_SEED@, mint@]);
    }
    try_find_program_address(&seeds, &program_id())
}

} // verus!
