use vstd::prelude::*;
use crate::errors::SSSError;
use crate::events::StablecoinInitialized;
use crate::pubkey::Pubkey;
use crate::state::{
    byte_len, preset_label_of, StablecoinConfig, StablecoinState, MAX_NAME_LEN, MAX_SYMBOL_LEN,
};

verus! {

/// The first check that a configuration fails, if any.
pub open spec fn config_error(config: StablecoinConfig) -> Option<SSSError> {
    if byte_len(&config.name) > MAX_NAME_LEN {
        Some(SSSError::NameTooLong)
    } else if byte_len(&config.symbol) > MAX_SYMBOL_LEN {
        Some(SSSError::SymbolTooLong)
    } else {
        None
    }
}

/// The record that initialization creates: every role held by the deploying
/// authority, the preset derived from the two capability flags, both counters
/// at zero.
pub open spec fn initial_state(
    config: StablecoinConfig,
    mint: Pubkey,
    authority: Pubkey,
    bump: u8,
    now: i64,
) -> StablecoinState {
    StablecoinState {
        mint,
        authority,
        mint_authority: authority,
        freeze_authority: authority,
        compliance_officer: authority,
        is_sss2: config.spec_is_sss2(),
        permanent_delegate_enabled: config.enable_permanent_delegate,
        transfer_hook_enabled: config.enable_transfer_hook,
        default_account_frozen: config.default_account_frozen,
        total_minted: 0,
        total_burned: 0,
        created_at: now,
        updated_at: now,
        bump,
        name: config.name,
        symbol: config.symbol,
        decimals: config.decimals,
    }
}

/// Creates the record of asset `mint`, deployed by `authority`, after checking
/// the length of name and symbol.
pub fn handler(
    config: StablecoinConfig,
    mint: Pubkey,
    authority: Pubkey,
    bump: u8,
    now: i64,
) -> (r: Result<(StablecoinState, StablecoinInitialized), SSSError>)
    ensures
        match config_error(config) {
            Some(e) => r == Err::<(StablecoinState, StablecoinInitialized), SSSError>(e),
            None => {
                &&& r is Ok
                &&& r->Ok_0.0 == initial_state(config, mint, authority, bump, now)
                &&& r->Ok_0.0.wf()
                &&& r->Ok_0.1.mint == mint
                &&& r->Ok_0.1.authority == authority
                &&& r->Ok_0.1.name == config.name
                &&& r->Ok_0.1.symbol == config.symbol
                &&& r->Ok_0.1.decimals == config.decimals
                &&& r->Ok_0.1.preset@ == preset_label_of(config.spec_is_sss2())
                &&& r->Ok_0.1.timestamp == now
            },
        },
{
    if config.name.as_str().as_bytes().len() > MAX_NAME_LEN {
        return Err(SSSError::NameTooLong);
    }
    if config.symbol.as_str().as_bytes().len() > MAX_SYMBOL_LEN {
        return Err(SSSError::SymbolTooLong);
    }
    let is_sss2 = config.is_sss2();
    let state = StablecoinState {
        mint,
        authority,
        mint_authority: authority,
        freeze_authority: authority,
        compliance_officer: authority,
        is_sss2,
        permanent_delegate_enabled: config.enable_permanent_delegate,
        transfer_hook_enabled: config.enable_transfer_hook,
        default_account_frozen: config.default_account_frozen,
        total_minted: 0,
        total_burned: 0,
        created_at: now,
        updated_at: now,
        bump,
        name: config.name.clone(),
        symbol: config.symbol.clone(),
        decimals: config.decimals,
    };
    let preset = state.preset_label();
    let event = StablecoinInitialized {
        mint,
        authority,
        name: config.name,
        symbol: config.symbol,
        decimals: config.decimals,
        preset,
        timestamp: now,
    };
    Ok((state, event))
}

} // verus!
