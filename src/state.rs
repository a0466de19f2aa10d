use vstd::prelude::*;
use vstd::utf8::encode_utf8;
use crate::pubkey::Pubkey;

verus! {

/// Longest accepted name, in UTF-8 bytes.
pub const MAX_NAME_LEN: usize = 32;

/// Longest accepted symbol, in UTF-8 bytes.
pub const MAX_SYMBOL_LEN: usize = 10;

/// Length of a string in UTF-8 bytes, as `str::len` reports it.
pub open spec fn byte_len(s: &String) -> nat {
    encode_utf8(s@).len()
}

/// The preset label: "SSS-2" for the compliant preset, "SSS-1" otherwise.
pub open spec fn preset_label_of(compliant: bool) -> Seq<char> {
    if compliant {
        "SSS-2"@
    } else {
        "SSS-1"@
    }
}

/// What a new stablecoin is created with.
#[derive(Clone, Debug)]
pub struct StablecoinConfig {
    /// Human-readable name.
    pub name: String,
    /// Ticker symbol.
    pub symbol: String,
    /// Metadata URI.
    pub uri: String,
    /// Decimal places of the token.
    pub decimals: u8,
    /// Permanent delegate capability (needed for seizure).
    pub enable_permanent_delegate: bool,
    /// Transfer policy check on every transfer.
    pub enable_transfer_hook: bool,
    /// Whether new token accounts start frozen.
    pub default_account_frozen: bool,
}

impl StablecoinConfig {
    /// The compliant preset needs both the permanent delegate and the transfer hook.
    pub open spec fn spec_is_sss2(&self) -> bool {
        self.enable_permanent_delegate && self.enable_transfer_hook
    }

    #[verifier::when_used_as_spec(spec_is_sss2)]
    pub fn is_sss2(&self) -> (r: bool)
        ensures
            r == self.spec_is_sss2(),
    {
        self.enable_permanent_delegate && self.enable_transfer_hook
    }

    pub fn preset_name(&self) -> (r: &'static str)
        ensures
            r@ == preset_label_of(self.spec_is_sss2()),
    {
        if self.is_sss2() {
            "SSS-2"
        } else {
            "SSS-1"
        }
    }
}

/// The record kept for one managed asset.
#[derive(Clone, Debug)]
pub struct StablecoinState {
    /// The asset (mint) this record belongs to.
    pub mint: Pubkey,
    /// The deploying authority; the only one that may reassign roles.
    pub authority: Pubkey,
    pub mint_authority: Pubkey,
    pub freeze_authority: Pubkey,
    pub compliance_officer: Pubkey,
    /// Compliant preset: permanent delegate and transfer hook both enabled.
    pub is_sss2: bool,
    pub permanent_delegate_enabled: bool,
    pub transfer_hook_enabled: bool,
    pub default_account_frozen: bool,
    /// Everything ever minted, for audit.
    pub total_minted: u64,
    /// Everything ever burned, for audit.
    pub total_burned: u64,
    pub created_at: i64,
    pub updated_at: i64,
    /// Address derivation bump of the record.
    pub bump: u8,
    pub name: String,
    pub symbol: String,
    pub decimals: u8,
}

impl StablecoinState {
    /// Well-formed record: bounded metadata, and the preset flag derived from
    /// the two capability flags.
    pub open spec fn wf(&self) -> bool {
        &&& byte_len(&self.name) <= MAX_NAME_LEN
        &&& byte_len(&self.symbol) <= MAX_SYMBOL_LEN
        &&& self.is_sss2 == (self.permanent_delegate_enabled && self.transfer_hook_enabled)
    }

    /// Minted minus burned, floored at zero.
    pub open spec fn spec_net_supply(&self) -> u64 {
        if self.total_minted >= self.total_burned {
            (self.total_minted - self.total_burned) as u64
        } else {
            0
        }
    }

    #[verifier::when_used_as_spec(spec_net_supply)]
    pub fn net_supply(&self) -> (r: u64)
        ensures
            r == self.spec_net_supply(),
    {
        self.total_minted.saturating_sub(self.total_burned)
    }

    pub fn preset_label(&self) -> (r: String)
        ensures
            r@ == preset_label_of(self.is_sss2),
    {
        if self.is_sss2 {
            "SSS-2".to_string()
        } else {
            "SSS-1".to_string()
        }
    }
}

/// The blacklist record of one (asset, address) pair. It is deactivated,
/// never removed, when the address is unblocked.
#[derive(Clone, Copy, Debug)]
pub struct BlacklistEntry {
    /// The asset this record belongs to.
    pub stablecoin: Pubkey,
    pub blacklisted_address: Pubkey,
    pub added_by: Pubkey,
    pub added_at: i64,
    /// Only an active record blocks the address.
    pub is_active: bool,
    /// Address derivation bump of the record.
    pub bump: u8,
}

/// Whether a looked-up record blocks its address: it exists and is active.
pub open spec fn is_blocked(entry: Option<BlacklistEntry>) -> bool {
    match entry {
        Some(e) => e.is_active,
        None => false,
    }
}

/// The roles that the top-level authority may reassign.
#[derive(Clone, Copy, Debug, PartialEq, Eq, Structural)]
pub enum Role {
    MintAuthority,
    FreezeAuthority,
    ComplianceOfficer,
}

} // verus!
