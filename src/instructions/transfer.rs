use vstd::prelude::*;
use crate::errors::SSSError;
use crate::events::TokensTransferred;
use crate::pubkey::Pubkey;
use crate::state::StablecoinState;

verus! {

/// The record after a transfer at time `now`: only the update time changes.
pub open spec fn after_transfer(s: StablecoinState, now: i64) -> StablecoinState {
    StablecoinState { updated_at: now, ..s }
}

/// Accepts a transfer of `amount` from token account `from` to `to`.
///
/// Authorization is ownership of the source balance, which the ledger checks
/// with its precision-checked transfer; the blacklist is not consulted here but
/// by the transfer policy check that the ledger runs within the same transfer.
pub fn handler(
    state: &mut StablecoinState,
    from: Pubkey,
    to: Pubkey,
    amount: u64,
    now: i64,
) -> (r: Result<TokensTransferred, SSSError>)
    ensures
        amount == 0 ==> r == Err::<TokensTransferred, SSSError>(SSSError::InvalidAmount)
            && *final(state) == *old(state),
        amount != 0 ==> *final(state) == after_transfer(*old(state), now) && r
            == Ok::<TokensTransferred, SSSError>(
            (TokensTransferred { mint: old(state).mint, from, to, amount, timestamp: now }),
        ),
{
    if amount == 0 {
        return Err(SSSError::InvalidAmount);
    }
    state.updated_at = now;
    Ok(TokensTransferred { mint: state.mint, from, to, amount, timestamp: now })
}

} // verus!
