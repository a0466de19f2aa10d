use vstd::prelude::*;
use crate::pubkey::Pubkey;

verus! {

/// A new stablecoin record was created.
#[derive(Clone, Debug)]
pub struct StablecoinInitialized {
    pub mint: Pubkey,
    pub authority: Pubkey,
    pub name: String,
    pub symbol: String,
    pub decimals: u8,
    /// "SSS-1" or "SSS-2".
    pub preset: String,
    pub timestamp: i64,
}

#[derive(Clone, Copy, Debug)]
pub struct TokensMinted {
    pub mint: Pubkey,
    pub to: Pubkey,
    pub amount: u64,
    pub minted_by: Pubkey,
    /// The mint counter after this mint.
    pub total_minted: u64,
    pub timestamp: i64,
}

#[derive(Clone, Copy, Debug)]
pub struct TokensBurned {
    pub mint: Pubkey,
    pub from: Pubkey,
    pub amount: u64,
    pub burned_by: Pubkey,
    /// The burn counter after this burn.
    pub total_burned: u64,
    pub timestamp: i64,
}

#[derive(Clone, Copy, Debug)]
pub struct TokensTransferred {
    pub mint: Pubkey,
    pub from: Pubkey,
    pub to: Pubkey,
    pub amount: u64,
    pub timestamp: i64,
}

#[derive(Clone, Copy, Debug)]
pub struct AccountFrozenEvent {
    pub mint: Pubkey,
    pub account: Pubkey,
    pub frozen_by: Pubkey,
    pub timestamp: i64,
}

#[derive(Clone, Copy, Debug)]
pub struct AccountThawedEvent {
    pub mint: Pubkey,
    pub account: Pubkey,
    pub thawed_by: Pubkey,
    pub timestamp: i64,
}

#[derive(Clone, Copy, Debug)]
pub struct AddressBlacklisted {
    pub mint: Pubkey,
    pub address: Pubkey,
    pub added_by: Pubkey,
    pub timestamp: i64,
}

#[derive(Clone, Copy, Debug)]
pub struct AddressUnblacklisted {
    pub mint: Pubkey,
    pub address: Pubkey,
    pub removed_by: Pubkey,
    pub timestamp: i64,
}

#[derive(Clone, Copy, Debug)]
pub struct TokensSeized {
    pub mint: Pubkey,
    pub from: Pubkey,
    pub amount: u64,
    pub seized_by: Pubkey,
    pub timestamp: i64,
}

#[derive(Clone, Debug)]
pub struct RoleUpdated {
    pub mint: Pubkey,
    /// "MINT_AUTHORITY", "FREEZE_AUTHORITY" or "COMPLIANCE_OFFICER".
    pub role: String,
    pub old_authority: Pubkey,
    pub new_authority: Pubkey,
    pub updated_by: Pubkey,
    pub timestamp: i64,
}

/// The decision of the transfer policy check, emitted whether or not the
/// transfer is allowed.
#[derive(Clone, Copy, Debug)]
pub struct TransferHookExecuted {
    pub mint: Pubkey,
    pub source: Pubkey,
    pub destination: Pubkey,
    pub amount: u64,
    pub allowed: bool,
    pub timestamp: i64,
}

} // verus!
