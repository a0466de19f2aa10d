use vstd::prelude::*;
use crate::errors::SSSError;
use crate::events::{AccountFrozenEvent, AccountThawedEvent};
use crate::pubkey::Pubkey;
use crate::state::StablecoinState;

verus! {

/// Authorizes freezing token account `account`; only the freeze authority may.
/// The caller performs the ledger freeze in the same transaction.
pub fn freeze_handler(
    state: &StablecoinState,
    freeze_authority: Pubkey,
    account: Pubkey,
    now: i64,
) -> (r: Result<AccountFrozenEvent, SSSError>)
    ensures
        freeze_authority != state.freeze_authority ==> r == Err::<AccountFrozenEvent, SSSError>(
            SSSError::Unauthorized,
        ),
        freeze_authority == state.freeze_authority ==> r == Ok::<AccountFrozenEvent, SSSError>(
            (AccountFrozenEvent {
                mint: state.mint,
                account,
                frozen_by: freeze_authority,
                timestamp: now,
            }),
        ),
{
    if !freeze_authority.same_as(&state.freeze_authority) {
        return Err(SSSError::Unauthorized);
    }
    Ok(AccountFrozenEvent { mint: state.mint, account, frozen_by: freeze_authority, timestamp: now })
}

/// Authorizes thawing token account `account`; only the freeze authority may.
/// The caller performs the ledger thaw in the same transaction.
pub fn thaw_handler(
    state: &StablecoinState,
    freeze_authority: Pubkey,
    account: Pubkey,
    now: i64,
) -> (r: Result<AccountThawedEvent, SSSError>)
    ensures
        freeze_authority != state.freeze_authority ==> r == Err::<AccountThawedEvent, SSSError>(
            SSSError::Unauthorized,
        ),
        freeze_authority == state.freeze_authority ==> r == Ok::<AccountThawedEvent, SSSError>(
            (AccountThawedEvent {
                mint: state.mint,
                account,
                thawed_by: freeze_authority,
                timestamp: now,
            }),
        ),
{
    if !freeze_authority.same_as(&state.freeze_authority) {
        return Err(SSSError::Unauthorized);
    }
    Ok(AccountThawedEvent { mint: state.mint, account, thawed_by: freeze_authority, timestamp: now })
}

} // verus!
