use anchor_lang::prelude::Pubkey;
use selix::address::Address;
use selix::pda::{
    derive_listing_pda, derive_platform_pda, derive_user_profile_pda, derive_vault_pda,
    derive_whitelist_pda, u64_to_le_bytes, PROGRAM_ID,
};

fn address_of(key: &Pubkey) -> Address {
    Address::new(key.to_bytes())
}

#[test]
fn test_derive_platform_pda() {
    let authority = address_of(&Pubkey::new_unique());
    let (pda, bump) = derive_platform_pda(&authority).unwrap();

    assert!(bump <= 255);

    let (pda2, bump2) = derive_platform_pda(&authority).unwrap();
    assert_eq!(pda, pda2);
    assert_eq!(bump, bump2);
}

#[test]
fn test_derive_listing_pda() {
    let maker = address_of(&Pubkey::new_unique());
    let id = 12345u64;
    let (pda, bump) = derive_listing_pda(&maker, id).unwrap();

    assert!(bump <= 255);

    let (pda2, _) = derive_listing_pda(&maker, id + 1).unwrap();
    assert_ne!(pda, pda2);
}

#[test]
fn test_derive_vault_pda() {
    let listing = address_of(&Pubkey::new_unique());
    let (pda, bump) = derive_vault_pda(&listing).unwrap();

    assert!(bump <= 255);

    let (pda2, bump2) = derive_vault_pda(&listing).unwrap();
    assert_eq!(pda, pda2);
    assert_eq!(bump, bump2);
}

#[test]
fn derived_addresses_match_the_host_derivation() {
    let program = Pubkey::new_from_array(PROGRAM_ID);
    let user = Pubkey::new_unique();
    let (expected, expected_bump) =
        Pubkey::find_program_address(&[b"user_profile", user.as_ref()], &program);
    let (pda, bump) = derive_user_profile_pda(&address_of(&user)).unwrap();
    assert_eq!(pda, address_of(&expected));
    assert_eq!(bump, expected_bump);
    assert_ne!(pda, address_of(&user));

    let maker = Pubkey::new_unique();
    let (expected, _) = Pubkey::find_program_address(
        &[b"listing", maker.as_ref(), &7u64.to_le_bytes()],
        &program,
    );
    let (pda, _) = derive_listing_pda(&address_of(&maker), 7).unwrap();
    assert_eq!(pda, address_of(&expected));
}

#[test]
fn namespaces_separate_derived_accounts() {
    let key = address_of(&Pubkey::new_unique());
    let (a, _) = derive_platform_pda(&key).unwrap();
    let (b, _) = derive_vault_pda(&key).unwrap();
    let (c, _) = derive_whitelist_pda(&key).unwrap();
    assert_ne!(a, b);
    assert_ne!(b, c);
    assert_ne!(a, c);
}

#[test]
fn listing_id_is_little_endian() {
    assert_eq!(u64_to_le_bytes(0x0102030405060708), vec![8, 7, 6, 5, 4, 3, 2, 1]);
    assert_eq!(u64_to_le_bytes(12345), 12345u64.to_le_bytes().to_vec());
}
