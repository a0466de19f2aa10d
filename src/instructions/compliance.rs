use vstd::prelude::*;
use crate::errors::SSSError;
use crate::events::{AddressBlacklisted, AddressUnblacklisted, TokensSeized};
use crate::pubkey::Pubkey;
use crate::state::{is_blocked, BlacklistEntry, StablecoinState};

verus! {

/// The first check that blacklisting fails, given the record found for the address.
pub open spec fn blacklist_add_error(
    s: StablecoinState,
    officer: Pubkey,
    entry: Option<BlacklistEntry>,
) -> Option<SSSError> {
    if !s.is_sss2 {
        Some(SSSError::SSS2Required)
    } else if officer != s.compliance_officer {
        Some(SSSError::Unauthorized)
    } else if is_blocked(entry) {
        Some(SSSError::AlreadyBlacklisted)
    } else {
        None
    }
}

/// The first check that unblocking fails, given the record found for the address.
pub open spec fn blacklist_remove_error(
    s: StablecoinState,
    officer: Pubkey,
    entry: Option<BlacklistEntry>,
) -> Option<SSSError> {
    if !s.is_sss2 {
        Some(SSSError::SSS2Required)
    } else if officer != s.compliance_officer {
        Some(SSSError::Unauthorized)
    } else if !is_blocked(entry) {
        Some(SSSError::NotBlacklisted)
    } else {
        None
    }
}

/// The first check that a seizure fails, given the record found for the
/// owner of the target account.
pub open spec fn seize_error(
    s: StablecoinState,
    officer: Pubkey,
    amount: u64,
    entry: Option<BlacklistEntry>,
) -> Option<SSSError> {
    if !s.is_sss2 {
        Some(SSSError::SSS2Required)
    } else if !s.permanent_delegate_enabled {
        Some(SSSError::PermanentDelegateNotEnabled)
    } else if officer != s.compliance_officer {
        Some(SSSError::Unauthorized)
    } else if amount == 0 {
        Some(SSSError::InvalidAmount)
    } else if !is_blocked(entry) {
        Some(SSSError::SeizeNotBlacklisted)
    } else {
        None
    }
}

/// The active record that blacklisting `address` leaves, created or reused.
pub open spec fn blocked_entry(
    s: StablecoinState,
    address: Pubkey,
    officer: Pubkey,
    bump: u8,
    now: i64,
) -> BlacklistEntry {
    BlacklistEntry {
        stablecoin: s.mint,
        blacklisted_address: address,
        added_by: officer,
        added_at: now,
        is_active: true,
        bump,
    }
}

/// Blocks `address`. `entry` is the record of (asset, address): `None` when
/// there is none yet, in which case it is created; an inactive one is reused.
pub fn blacklist_add_handler(
    state: &StablecoinState,
    entry: &mut Option<BlacklistEntry>,
    compliance_officer: Pubkey,
    address: Pubkey,
    bump: u8,
    now: i64,
) -> (r: Result<AddressBlacklisted, SSSError>)
    ensures
        match blacklist_add_error(*state, compliance_officer, *old(entry)) {
            Some(e) => r == Err::<AddressBlacklisted, SSSError>(e) && *final(entry) == *old(entry),
            None => {
                &&& *final(entry) == Some(
                    blocked_entry(*state, address, compliance_officer, bump, now),
                )
                &&& r == Ok::<AddressBlacklisted, SSSError>(
                    (AddressBlacklisted {
                        mint: state.mint,
                        address,
                        added_by: compliance_officer,
                        timestamp: now,
                    }),
                )
            },
        },
{
    if !state.is_sss2 {
        return Err(SSSError::SSS2Required);
    }
    if !compliance_officer.same_as(&state.compliance_officer) {
        return Err(SSSError::Unauthorized);
    }
    if let Some(e) = entry {
        if e.is_active {
            return Err(SSSError::AlreadyBlacklisted);
        }
    }
    *entry = Some(
        BlacklistEntry {
            stablecoin: state.mint,
            blacklisted_address: address,
            added_by: compliance_officer,
            added_at: now,
            is_active: true,
            bump,
        },
    );
    Ok(AddressBlacklisted { mint: state.mint, address, added_by: compliance_officer, timestamp: now })
}

/// Unblocks `address` by deactivating its record, which stays in place.
pub fn blacklist_remove_handler(
    state: &StablecoinState,
    entry: &mut Option<BlacklistEntry>,
    compliance_officer: Pubkey,
    address: Pubkey,
    now: i64,
) -> (r: Result<AddressUnblacklisted, SSSError>)
    ensures
        match blacklist_remove_error(*state, compliance_officer, *old(entry)) {
            Some(e) => r == Err::<AddressUnblacklisted, SSSError>(e) && *final(entry)
                == *old(entry),
            None => {
                &&& *final(entry) == Some(
                    BlacklistEntry { is_active: false, ..old(entry)->Some_0 },
                )
                &&& r == Ok::<AddressUnblacklisted, SSSError>(
                    (AddressUnblacklisted {
                        mint: state.mint,
                        address,
                        removed_by: compliance_officer,
                        timestamp: now,
                    }),
                )
            },
        },
{
    if !state.is_sss2 {
        return Err(SSSError::SSS2Required);
    }
    if !compliance_officer.same_as(&state.compliance_officer) {
        return Err(SSSError::Unauthorized);
    }
    match entry {
        Some(e) => {
            if !e.is_active {
                return Err(SSSError::NotBlacklisted);
            }
            e.is_active = false;
        },
        None => {
            return Err(SSSError::NotBlacklisted);
        },
    }
    Ok(
        AddressUnblacklisted {
            mint: state.mint,
            address,
            removed_by: compliance_officer,
            timestamp: now,
        },
    )
}

/// Authorizes seizing `amount` from `target_account`, whose owner's record
/// is `entry`. The caller moves the value through the permanent delegate, from
/// the target to the recovery account, in the same transaction.
pub fn seize_tokens_handler(
    state: &StablecoinState,
    entry: &Option<BlacklistEntry>,
    compliance_officer: Pubkey,
    target_account: Pubkey,
    amount: u64,
    now: i64,
) -> (r: Result<TokensSeized, SSSError>)
    ensures
        match seize_error(*state, compliance_officer, amount, *entry) {
            Some(e) => r == Err::<TokensSeized, SSSError>(e),
            None => r == Ok::<TokensSeized, SSSError>(
                (TokensSeized {
                    mint: state.mint,
                    from: target_account,
                    amount,
                    seized_by: compliance_officer,
                    timestamp: now,
                }),
            ),
        },
{
    if !state.is_sss2 {
        return Err(SSSError::SSS2Required);
    }
    if !state.permanent_delegate_enabled {
        return Err(SSSError::PermanentDelegateNotEnabled);
    }
    if !compliance_officer.same_as(&state.compliance_officer) {
        return Err(SSSError::Unauthorized);
    }
    if amount == 0 {
        return Err(SSSError::InvalidAmount);
    }
    let active = match entry {
        Some(e) => e.is_active,
        None => false,
    };
    if !active {
        return Err(SSSError::SeizeNotBlacklisted);
    }
    Ok(
        TokensSeized {
            mint: state.mint,
            from: target_account,
            amount,
            seized_by: compliance_officer,
            timestamp: now,
        },
    )
}

} // verus!
