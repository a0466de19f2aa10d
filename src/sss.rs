//! The operations of the program, one per instruction, under the names that
//! callers use. Each one forwards to the handler of its instruction module and
//! carries the same contract.

use vstd::prelude::*;
use crate::errors::SSSError;
use crate::events::{
    AccountFrozenEvent, AccountThawedEvent, AddressBlacklisted, AddressUnblacklisted,
    RoleUpdated, StablecoinInitialized, TokensBurned, TokensMinted, TokensSeized,
    TokensTransferred,
};
use crate::instructions;
use crate::instructions::burn::{after_burn, burn_error};
use crate::instructions::compliance::{
    blacklist_add_error, blacklist_remove_error, blocked_entry, seize_error,
};
use crate::instructions::hook::{packed_execute, transfer_allowed, HookOutcome, DISCRIMINATOR_LEN};
use crate::instructions::initialize::{config_error, initial_state};
use crate::instructions::mint::{after_mint, mint_error};
use crate::instructions::roles::{after_update_role, role_holder, role_name, update_role_error};
use crate::instructions::transfer::after_transfer;
use crate::pubkey::Pubkey;
use crate::state::{preset_label_of, BlacklistEntry, Role, StablecoinConfig, StablecoinState};

verus! {

/// Creates the record of a new stablecoin with the minimal or the compliant preset.
pub fn initialize(
    config: StablecoinConfig,
    mint: Pubkey,
    authority: Pubkey,
    bump: u8,
    now: i64,
) -> (r: Result<(StablecoinState, StablecoinInitialized), SSSError>)
    ensures
        match config_error(config) {
            Some(e) => r == Err::<(StablecoinState, StablecoinInitialized), SSSError>(e),
            None => {
                &&& r is Ok
                &&& r->Ok_0.0 == initial_state(config, mint, authority, bump, now)
                &&& r->Ok_0.0.wf()
                &&& r->Ok_0.1.mint == mint
                &&& r->Ok_0.1.authority == authority
                &&& r->Ok_0.1.name == config.name
                &&& r->Ok_0.1.symbol == config.symbol
                &&& r->Ok_0.1.decimals == config.decimals
                &&& r->Ok_0.1.preset@ == preset_label_of(config.spec_is_sss2())
                &&& r->Ok_0.1.timestamp == now
            },
        },
{
    instructions::initialize::handler(config, mint, authority, bump, now)
}

/// Mints `amount` into token account `to`.
pub fn mint_to(
    state: &mut StablecoinState,
    mint_authority: Pubkey,
    to: Pubkey,
    amount: u64,
    now: i64,
) -> (r: Result<TokensMinted, SSSError>)
    ensures
        match mint_error(*old(state), mint_authority, amount) {
            Some(e) => r == Err::<TokensMinted, SSSError>(e) && *final(state) == *old(state),
            None => {
                &&& *final(state) == after_mint(*old(state), amount, now)
                &&& r == Ok::<TokensMinted, SSSError>(
                    (TokensMinted {
                        mint: old(state).mint,
                        to,
                        amount,
                        minted_by: mint_authority,
                        total_minted: final(state).total_minted,
                        timestamp: now,
                    }),
                )
            },
        },
{
    instructions::mint::handler(state, mint_authority, to, amount, now)
}

/// Burns `amount` from token account `from`, owned by `owner`.
pub fn burn(
    state: &mut StablecoinState,
    owner: Pubkey,
    from: Pubkey,
    amount: u64,
    now: i64,
) -> (r: Result<TokensBurned, SSSError>)
    ensures
        match burn_error(*old(state), amount) {
            Some(e) => r == Err::<TokensBurned, SSSError>(e) && *final(state) == *old(state),
            None => {
                &&& *final(state) == after_burn(*old(state), amount, now)
                &&& r == Ok::<TokensBurned, SSSError>(
                    (TokensBurned {
                        mint: old(state).mint,
                        from,
                        amount,
                        burned_by: owner,
                        total_burned: final(state).total_burned,
                        timestamp: now,
                    }),
                )
            },
        },
{
    instructions::burn::handler(state, owner, from, amount, now)
}

/// Transfers `amount` from token account `from` to `to`.
pub fn transfer(
    state: &mut StablecoinState,
    from: Pubkey,
    to: Pubkey,
    amount: u64,
    now: i64,
) -> (r: Result<TokensTransferred, SSSError>)
    ensures
        amount == 0 ==> r == Err::<TokensTransferred, SSSError>(SSSError::InvalidAmount)
            && *final(state) == *old(state),
        amount != 0 ==> *final(state) == after_transfer(*old(state), now) && r
            == Ok::<TokensTransferred, SSSError>(
            (TokensTransferred { mint: old(state).mint, from, to, amount, timestamp: now }),
        ),
{
    instructions::transfer::handler(state, from, to, amount, now)
}

/// Freezes token account `account`.
pub fn freeze_account(
    state: &StablecoinState,
    freeze_authority: Pubkey,
    account: Pubkey,
    now: i64,
) -> (r: Result<AccountFrozenEvent, SSSError>)
    ensures
        freeze_authority != state.freeze_authority ==> r == Err::<AccountFrozenEvent, SSSError>(
            SSSError::Unauthorized,
        ),
        freeze_authority == state.freeze_authority ==> r == Ok::<AccountFrozenEvent, SSSError>(
            (AccountFrozenEvent {
                mint: state.mint,
                account,
                frozen_by: freeze_authority,
                timestamp: now,
            }),
        ),
{
    instructions::freeze::freeze_handler(state, freeze_authority, account, now)
}

/// Thaws token account `account`.
pub fn thaw_account(
    state: &StablecoinState,
    freeze_authority: Pubkey,
    account: Pubkey,
    now: i64,
) -> (r: Result<AccountThawedEvent, SSSError>)
    ensures
        freeze_authority != state.freeze_authority ==> r == Err::<AccountThawedEvent, SSSError>(
            SSSError::Unauthorized,
        ),
        freeze_authority == state.freeze_authority ==> r == Ok::<AccountThawedEvent, SSSError>(
            (AccountThawedEvent {
                mint: state.mint,
                account,
                thawed_by: freeze_authority,
                timestamp: now,
            }),
        ),
{
    instructions::freeze::thaw_handler(state, freeze_authority, account, now)
}

/// Blocks `address` on a compliant asset; `entry` is its record, if any.
pub fn blacklist_add(
    state: &StablecoinState,
    entry: &mut Option<BlacklistEntry>,
    compliance_officer: Pubkey,
    address: Pubkey,
    bump: u8,
    now: i64,
) -> (r: Result<AddressBlacklisted, SSSError>)
    ensures
        match blacklist_add_error(*state, compliance_officer, *old(entry)) {
            Some(e) => r == Err::<AddressBlacklisted, SSSError>(e) && *final(entry) == *old(entry),
            None => {
                &&& *final(entry) == Some(
                    blocked_entry(*state, address, compliance_officer, bump, now),
                )
                &&& r == Ok::<AddressBlacklisted, SSSError>(
                    (AddressBlacklisted {
                        mint: state.mint,
                        address,
                        added_by: compliance_officer,
                        timestamp: now,
                    }),
                )
            },
        },
{
    instructions::compliance::blacklist_add_handler(
        state,
        entry,
        compliance_officer,
        address,
        bump,
        now,
    )
}

/// Unblocks `address` on a compliant asset by deactivating its record.
pub fn blacklist_remove(
    state: &StablecoinState,
    entry: &mut Option<BlacklistEntry>,
    compliance_officer: Pubkey,
    address: Pubkey,
    now: i64,
) -> (r: Result<AddressUnblacklisted, SSSError>)
    ensures
        match blacklist_remove_error(*state, compliance_officer, *old(entry)) {
            Some(e) => r == Err::<AddressUnblacklisted, SSSError>(e) && *final(entry)
                == *old(entry),
            None => {
                &&& *final(entry) == Some(
                    BlacklistEntry { is_active: false, ..old(entry)->Some_0 },
                )
                &&& r == Ok::<AddressUnblacklisted, SSSError>(
                    (AddressUnblacklisted {
                        mint: state.mint,
                        address,
                        removed_by: compliance_officer,
                        timestamp: now,
                    }),
                )
            },
        },
{
    instructions::compliance::blacklist_remove_handler(
        state,
        entry,
        compliance_officer,
        address,
        now,
    )
}

/// Seizes `amount` from a blacklisted owner's `target_account`.
pub fn seize_tokens(
    state: &StablecoinState,
    entry: &Option<BlacklistEntry>,
    compliance_officer: Pubkey,
    target_account: Pubkey,
    amount: u64,
    now: i64,
) -> (r: Result<TokensSeized, SSSError>)
    ensures
        match seize_error(*state, compliance_officer, amount, *entry) {
            Some(e) => r == Err::<TokensSeized, SSSError>(e),
            None => r == Ok::<TokensSeized, SSSError>(
                (TokensSeized {
                    mint: state.mint,
                    from: target_account,
                    amount,
                    seized_by: compliance_officer,
                    timestamp: now,
                }),
            ),
        },
{
    instructions::compliance::seize_tokens_handler(
        state,
        entry,
        compliance_officer,
        target_account,
        amount,
        now,
    )
}

/// Hands `role` to `new_authority`.
pub fn update_role(
    state: &mut StablecoinState,
    authority: Pubkey,
    role: Role,
    new_authority: Pubkey,
    now: i64,
) -> (r: Result<RoleUpdated, SSSError>)
    ensures
        match update_role_error(*old(state), authority, role) {
            Some(e) => r == Err::<RoleUpdated, SSSError>(e) && *final(state) == *old(state),
            None => {
                &&& *final(state) == after_update_role(*old(state), role, new_authority, now)
                &&& r is Ok
                &&& r->Ok_0.mint == old(state).mint
                &&& r->Ok_0.role@ == role_name(role)
                &&& r->Ok_0.old_authority == role_holder(*old(state), role)
                &&& r->Ok_0.new_authority == new_authority
                &&& r->Ok_0.updated_by == authority
                &&& r->Ok_0.timestamp == now
            },
        },
{
    instructions::roles::update_role_handler(state, authority, role, new_authority, now)
}

/// The transfer policy check that the ledger runs before every transfer.
pub fn transfer_hook(
    state: &StablecoinState,
    source: Pubkey,
    destination: Pubkey,
    sender_blacklist: &Option<BlacklistEntry>,
    recipient_blacklist: &Option<BlacklistEntry>,
    amount: u64,
    now: i64,
) -> (r: HookOutcome)
    ensures
        !state.transfer_hook_enabled ==> r.event is None,
        state.transfer_hook_enabled ==> r.event == Some(
            (crate::events::TransferHookExecuted {
                mint: state.mint,
                source,
                destination,
                amount,
                allowed: transfer_allowed(*state, *sender_blacklist, *recipient_blacklist),
                timestamp: now,
            }),
        ),
        transfer_allowed(*state, *sender_blacklist, *recipient_blacklist) ==> r.result is Ok,
        !transfer_allowed(*state, *sender_blacklist, *recipient_blacklist) ==> r.result == Err::<
            (),
            SSSError,
        >(SSSError::TransferBlocked),
{
    instructions::hook::transfer_hook_handler(
        state,
        source,
        destination,
        sender_blacklist,
        recipient_blacklist,
        amount,
        now,
    )
}

/// Routing of raw transfer-hook interface data: true for its Execute instruction.
pub fn fallback(data: &[u8]) -> (r: bool)
    requires
        data@.len() >= DISCRIMINATOR_LEN,
    ensures
        r == (data@.subrange(0, DISCRIMINATOR_LEN as int) == packed_execute(0).subrange(
            0,
            DISCRIMINATOR_LEN as int,
        )),
{
    instructions::hook::fallback_handler(data)
}

} // verus!
