use vstd::prelude::*;
use crate::errors::SSSError;
use crate::events::TokensMinted;
use crate::pubkey::Pubkey;
use crate::state::StablecoinState;

verus! {

/// The first check that a mint of `amount` by `caller` fails, if any.
pub open spec fn mint_error(s: StablecoinState, caller: Pubkey, amount: u64) -> Option<SSSError> {
    if amount == 0 {
        Some(SSSError::InvalidAmount)
    } else if caller != s.mint_authority {
        Some(SSSError::Unauthorized)
    } else if s.total_minted + amount > u64::MAX {
        Some(SSSError::Overflow)
    } else {
        None
    }
}

/// The record after a successful mint of `amount` at time `now`.
pub open spec fn after_mint(s: StablecoinState, amount: u64, now: i64) -> StablecoinState {
    StablecoinState { total_minted: (s.total_minted + amount) as u64, updated_at: now, ..s }
}

/// Authorizes a mint of `amount` into token account `to` and counts it.
/// The caller performs the ledger mint in the same transaction.
pub fn handler(
    state: &mut StablecoinState,
    mint_authority: Pubkey,
    to: Pubkey,
    amount: u64,
    now: i64,
) -> (r: Result<TokensMinted, SSSError>)
    ensures
        match mint_error(*old(state), mint_authority, amount) {
            Some(e) => r == Err::<TokensMinted, SSSError>(e) && *final(state) == *old(state),
            None => {
                &&& *final(state) == after_mint(*old(state), amount, now)
                &&& r == Ok::<TokensMinted, SSSError>(
                    (TokensMinted {
                        mint: old(state).mint,
                        to,
                        amount,
                        minted_by: mint_authority,
                        total_minted: final(state).total_minted,
                        timestamp: now,
                    }),
                )
            },
        },
{
    if amount == 0 {
        return Err(SSSError::InvalidAmount);
    }
    if !mint_authority.same_as(&state.mint_authority) {
        return Err(SSSError::Unauthorized);
    }
    let total = match state.total_minted.checked_add(amount) {
        Some(t) => t,
        None => {
            return Err(SSSError::Overflow);
        },
    };
    state.total_minted = total;
    state.updated_at = now;
    Ok(TokensMinted {
        mint: state.mint,
        to,
        amount,
        minted_by: mint_authority,
        total_minted: total,
        timestamp: now,
    })
}

} // verus!
