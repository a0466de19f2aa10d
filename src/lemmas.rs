//! Laws that relate the operations to each other, stated over the same spec
//! functions that the handlers' contracts use.

use vstd::prelude::*;
use crate::errors::SSSError;
use crate::instructions::burn::{after_burn, burn_error};
use crate::instructions::compliance::{
    blacklist_add_error, blacklist_remove_error, blocked_entry, seize_error,
};
use crate::instructions::hook::transfer_allowed;
use crate::instructions::initialize::{config_error, initial_state};
use crate::instructions::mint::{after_mint, mint_error};
use crate::instructions::roles::update_role_error;
use crate::pubkey::Pubkey;
use crate::state::{is_blocked, BlacklistEntry, Role, StablecoinConfig, StablecoinState};

verus! {

/// A call that moves the audit counters.
pub enum SupplyOp {
    Mint { caller: Pubkey, amount: u64, now: i64 },
    Burn { amount: u64, now: i64 },
}

/// The record after one counter operation; a refused one changes nothing.
pub open spec fn apply_supply_op(s: StablecoinState, op: SupplyOp) -> StablecoinState {
    match op {
        SupplyOp::Mint { caller, amount, now } => if mint_error(s, caller, amount) is None {
            after_mint(s, amount, now)
        } else {
            s
        },
        SupplyOp::Burn { amount, now } => if burn_error(s, amount) is None {
            after_burn(s, amount, now)
        } else {
            s
        },
    }
}

/// The record after a sequence of counter operations, applied in order.
pub open spec fn apply_supply_ops(s: StablecoinState, ops: Seq<SupplyOp>) -> StablecoinState
    decreases ops.len(),
{
    if ops.len() == 0 {
        s
    } else {
        apply_supply_ops(apply_supply_op(s, ops[0]), ops.subrange(1, ops.len() as int))
    }
}

/// Every successful initialization derives the compliant preset from the two
/// capability flags, and yields a well-formed record.
pub proof fn lemma_initialized_preset(
    config: StablecoinConfig,
    mint: Pubkey,
    authority: Pubkey,
    bump: u8,
    now: i64,
)
    requires
        config_error(config) is None,
    ensures
        initial_state(config, mint, authority, bump, now).is_sss2 == (
        config.enable_permanent_delegate && config.enable_transfer_hook),
        initial_state(config, mint, authority, bump, now).wf(),
{
}

/// Over any sequence of mints and burns the two counters never decrease, the
/// record stays well-formed, and the net supply is minted minus burned,
/// saturating at zero.
pub proof fn lemma_supply_counters(s: StablecoinState, ops: Seq<SupplyOp>)
    requires
        s.wf(),
    ensures
        apply_supply_ops(s, ops).total_minted >= s.total_minted,
        apply_supply_ops(s, ops).total_burned >= s.total_burned,
        apply_supply_ops(s, ops).wf(),
        apply_supply_ops(s, ops).spec_net_supply() == (if apply_supply_ops(s, ops).total_minted
            >= apply_supply_ops(s, ops).total_burned {
            apply_supply_ops(s, ops).total_minted - apply_supply_ops(s, ops).total_burned
        } else {
            0
        }),
    decreases ops.len(),
{
    if ops.len() > 0 {
        lemma_supply_counters(apply_supply_op(s, ops[0]), ops.subrange(1, ops.len() as int));
    }
}

/// Running a sequence in two parts is running it whole.
pub proof fn lemma_supply_ops_split(s: StablecoinState, ops: Seq<SupplyOp>, i: int)
    requires
        0 <= i <= ops.len(),
    ensures
        apply_supply_ops(s, ops) == apply_supply_ops(
            apply_supply_ops(s, ops.take(i)),
            ops.skip(i),
        ),
    decreases i,
{
    if i == 0 {
        assert(ops.take(0).len() == 0);
        assert(ops.skip(0) =~= ops);
    } else {
        let rest = ops.subrange(1, ops.len() as int);
        lemma_supply_ops_split(apply_supply_op(s, ops[0]), rest, i - 1);
        assert(ops.take(i)[0] == ops[0]);
        assert(ops.take(i).subrange(1, i) =~= rest.take(i - 1));
        assert(rest.skip(i - 1) =~= ops.skip(i));
    }
}

/// Along any sequence of mints and burns, the counters after the first `i`
/// operations are at most those after the first `j`, for `i <= j`.
pub proof fn lemma_supply_counters_non_decreasing(
    s: StablecoinState,
    ops: Seq<SupplyOp>,
    i: int,
    j: int,
)
    requires
        0 <= i <= j <= ops.len(),
    ensures
        apply_supply_ops(s, ops.take(i)).total_minted <= apply_supply_ops(
            s,
            ops.take(j),
        ).total_minted,
        apply_supply_ops(s, ops.take(i)).total_burned <= apply_supply_ops(
            s,
            ops.take(j),
        ).total_burned,
{
    let prefix = ops.take(j);
    lemma_supply_ops_split(s, prefix, i);
    assert(prefix.take(i) =~= ops.take(i));
    lemma_supply_counters_monotone(apply_supply_ops(s, ops.take(i)), prefix.skip(i));
}

/// A sequence of counter operations never decreases either counter.
pub proof fn lemma_supply_counters_monotone(s: StablecoinState, ops: Seq<SupplyOp>)
    ensures
        apply_supply_ops(s, ops).total_minted >= s.total_minted,
        apply_supply_ops(s, ops).total_burned >= s.total_burned,
    decreases ops.len(),
{
    if ops.len() > 0 {
        lemma_supply_counters_monotone(
            apply_supply_op(s, ops[0]),
            ops.subrange(1, ops.len() as int),
        );
    }
}

/// Once an authorized blacklisting call has run, whatever it returned, the
/// same call again fails with `AlreadyBlacklisted`.
pub proof fn lemma_blacklist_twice(
    s: StablecoinState,
    officer: Pubkey,
    entry: Option<BlacklistEntry>,
    address: Pubkey,
    bump: u8,
    now: i64,
)
    requires
        s.is_sss2,
        officer == s.compliance_officer,
    ensures
        ({
            let after = if blacklist_add_error(s, officer, entry) is None {
                Some(blocked_entry(s, address, officer, bump, now))
            } else {
                entry
            };
            blacklist_add_error(s, officer, after) == Some(SSSError::AlreadyBlacklisted)
        }),
{
}

/// Unblocking an address without an active record fails with `NotBlacklisted`
/// when the compliance officer of a compliant asset asks.
pub proof fn lemma_unblock_inactive(
    s: StablecoinState,
    officer: Pubkey,
    entry: Option<BlacklistEntry>,
)
    requires
        s.is_sss2,
        officer == s.compliance_officer,
        !is_blocked(entry),
    ensures
        blacklist_remove_error(s, officer, entry) == Some(SSSError::NotBlacklisted),
{
}

/// On an asset whose policy check is enabled, a transfer is blocked exactly
/// when the sender or the recipient has an active record.
pub proof fn lemma_transfer_blocked_iff_party_blocked(
    s: StablecoinState,
    sender: Option<BlacklistEntry>,
    recipient: Option<BlacklistEntry>,
)
    requires
        s.transfer_hook_enabled,
    ensures
        !transfer_allowed(s, sender, recipient) <==> (is_blocked(sender) || is_blocked(
            recipient,
        )),
{
}

/// A seizure from an owner without an active record never succeeds; once the
/// preset, the caller and the amount pass, it fails with `SeizeNotBlacklisted`
/// (on a well-formed record the compliant preset already implies the
/// permanent delegate).
pub proof fn lemma_seize_needs_blacklist(
    s: StablecoinState,
    officer: Pubkey,
    amount: u64,
    entry: Option<BlacklistEntry>,
)
    requires
        s.wf(),
        !is_blocked(entry),
    ensures
        seize_error(s, officer, amount, entry) is Some,
        s.is_sss2 && officer == s.compliance_officer && amount > 0 ==> seize_error(
            s,
            officer,
            amount,
            entry,
        ) == Some(SSSError::SeizeNotBlacklisted),
{
}

/// Only the top-level authority may reassign a role, and the compliance
/// officer cannot be reassigned on a minimal-preset asset.
pub proof fn lemma_role_update_gates(s: StablecoinState, caller: Pubkey, role: Role)
    ensures
        caller != s.authority ==> update_role_error(s, caller, role) == Some(
            SSSError::Unauthorized,
        ),
        caller == s.authority && !s.is_sss2 ==> update_role_error(
            s,
            caller,
            Role::ComplianceOfficer,
        ) == Some(SSSError::SSS2Required),
{
}

} // verus!
