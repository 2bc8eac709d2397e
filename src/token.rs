use vstd::prelude::*;
use crate::address::Address;
use crate::errors::SelixError;
use crate::validation::check;

verus! {

/// What the venue reads of an asset account: which asset it holds, who
/// controls it, and its balance.
#[derive(Clone, Copy, Debug)]
pub struct TokenAccountState {
    pub mint: Address,
    pub owner: Address,
    pub amount: u64,
}

/// An account must hold `expected_mint` and be controlled by
/// `expected_authority`; the asset is checked first.
pub fn validate_token_account(
    account: &TokenAccountState,
    expected_mint: &Address,
    expected_authority: &Address,
) -> (r: Result<(), SelixError>)
    ensures
        account.mint@ != expected_mint@ ==> r == Err::<(), SelixError>(
            SelixError::TokenAccountMintMismatch,
        ),
        account.mint@ == expected_mint@ ==> r == check(
            account.owner@ == expected_authority@,
            SelixError::TokenAccountAuthorityMismatch,
        ),
{
    if !account.mint.same_as(expected_mint) {
        return Err(SelixError::TokenAccountMintMismatch);
    }
    if !account.owner.same_as(expected_authority) {
        return Err(SelixError::TokenAccountAuthorityMismatch);
    }
    Ok(())
}

/// An account must hold at least `required_amount`.
pub fn check_sufficient_balance(account: &TokenAccountState, required_amount: u64) -> (r: Result<
    (),
    SelixError,
>)
    ensures
        r == check(account.amount >= required_amount, SelixError::InsufficientMakerBalance),
{
    if account.amount < required_amount {
        return Err(SelixError::InsufficientMakerBalance);
    }
    Ok(())
}

} // verus!
