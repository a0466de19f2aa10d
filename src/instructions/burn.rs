use vstd::prelude::*;
use crate::errors::SSSError;
use crate::events::TokensBurned;
use crate::pubkey::Pubkey;
use crate::state::StablecoinState;

verus! {

/// The first check that a burn of `amount` fails, if any. The burn is
/// authorized by the owner of the source balance, which the ledger checks.
pub open spec fn burn_error(s: StablecoinState, amount: u64) -> Option<SSSError> {
    if amount == 0 {
        Some(SSSError::InvalidAmount)
    } else if s.total_burned + amount > u64::MAX {
        Some(SSSError::Overflow)
    } else {
        None
    }
}

/// The record after a successful burn of `amount` at time `now`.
pub open spec fn after_burn(s: StablecoinState, amount: u64, now: i64) -> StablecoinState {
    StablecoinState { total_burned: (s.total_burned + amount) as u64, updated_at: now, ..s }
}

/// Counts a burn of `amount` from token account `from`, owned by `owner`.
/// The caller performs the ledger burn in the same transaction.
pub fn handler(
    state: &mut StablecoinState,
    owner: Pubkey,
    from: Pubkey,
    amount: u64,
    now: i64,
) -> (r: Result<TokensBurned, SSSError>)
    ensures
        match burn_error(*old(state), amount) {
            Some(e) => r == Err::<TokensBurned, SSSError>(e) && *final(state) == *old(state),
            None => {
                &&& *final(state) == after_burn(*old(state), amount, now)
                &&& r == Ok::<TokensBurned, SSSError>(
                    (TokensBurned {
                        mint: old(state).mint,
                        from,
                        amount,
                        burned_by: owner,
                        total_burned: final(state).total_burned,
                        timestamp: now,
                    }),
                )
            },
        },
{
    if amount == 0 {
        return Err(SSSError::InvalidAmount);
    }
    let total = match state.total_burned.checked_add(amount) {
        Some(t) => t,
        None => {
            return Err(SSSError::Overflow);
        },
    };
    state.total_burned = total;
    state.updated_at = now;
    Ok(TokensBurned {
        mint: state.mint,
        from,
        amount,
        burned_by: owner,
        total_burned: total,
        timestamp: now,
    })
}

} // verus!
