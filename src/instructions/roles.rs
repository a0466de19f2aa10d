use vstd::prelude::*;
use crate::errors::SSSError;
use crate::events::RoleUpdated;
use crate::pubkey::Pubkey;
use crate::state::{Role, StablecoinState};

verus! {

/// The label of a role in the audit event.
pub open spec fn role_name(role: Role) -> Seq<char> {
    match role {
        Role::MintAuthority => "MINT_AUTHORITY"@,
        Role::FreezeAuthority => "FREEZE_AUTHORITY"@,
        Role::ComplianceOfficer => "COMPLIANCE_OFFICER"@,
    }
}

/// The holder of `role` in record `s`.
pub open spec fn role_holder(s: StablecoinState, role: Role) -> Pubkey {
    match role {
        Role::MintAuthority => s.mint_authority,
        Role::FreezeAuthority => s.freeze_authority,
        Role::ComplianceOfficer => s.compliance_officer,
    }
}

/// The first check that a reassignment of `role` by `caller` fails, if any.
pub open spec fn update_role_error(s: StablecoinState, caller: Pubkey, role: Role) -> Option<
    SSSError,
> {
    if caller != s.authority {
        Some(SSSError::Unauthorized)
    } else if role == Role::ComplianceOfficer && !s.is_sss2 {
        Some(SSSError::SSS2Required)
    } else {
        None
    }
}

/// The record after `role` is handed to `holder` at time `now`.
pub open spec fn after_update_role(
    s: StablecoinState,
    role: Role,
    holder: Pubkey,
    now: i64,
) -> StablecoinState {
    match role {
        Role::MintAuthority => StablecoinState { mint_authority: holder, updated_at: now, ..s },
        Role::FreezeAuthority => StablecoinState { freeze_authority: holder, updated_at: now, ..s },
        Role::ComplianceOfficer => StablecoinState {
            compliance_officer: holder,
            updated_at: now,
            ..s
        },
    }
}

/// Hands `role` to `new_authority`. Only the top-level authority may, and the
/// compliance officer exists only under the compliant preset.
pub fn update_role_handler(
    state: &mut StablecoinState,
    authority: Pubkey,
    role: Role,
    new_authority: Pubkey,
    now: i64,
) -> (r: Result<RoleUpdated, SSSError>)
    ensures
        match update_role_error(*old(state), authority, role) {
            Some(e) => r == Err::<RoleUpdated, SSSError>(e) && *final(state) == *old(state),
            None => {
                &&& *final(state) == after_update_role(*old(state), role, new_authority, now)
                &&& r is Ok
                &&& r->Ok_0.mint == old(state).mint
                &&& r->Ok_0.role@ == role_name(role)
                &&& r->Ok_0.old_authority == role_holder(*old(state), role)
                &&& r->Ok_0.new_authority == new_authority
                &&& r->Ok_0.updated_by == authority
                &&& r->Ok_0.timestamp == now
            },
        },
{
    if !authority.same_as(&state.authority) {
        return Err(SSSError::Unauthorized);
    }
    let old_authority: Pubkey;
    let role_label: String;
    match role {
        Role::MintAuthority => {
            old_authority = state.mint_authority;
            state.mint_authority = new_authority;
            role_label = "MINT_AUTHORITY".to_string();
        },
        Role::FreezeAuthority => {
            old_authority = state.freeze_authority;
            state.freeze_authority = new_authority;
            role_label = "FREEZE_AUTHORITY".to_string();
        },
        Role::ComplianceOfficer => {
            if !state.is_sss2 {
                return Err(SSSError::SSS2Required);
            }
            old_authority = state.compliance_officer;
            state.compliance_officer = new_authority;
            role_label = "COMPLIANCE_OFFICER".to_string();
        },
    }
    state.updated_at = now;
    Ok(RoleUpdated {
        mint: state.mint,
        role: role_label,
        old_authority,
        new_authority,
        updated_by: authority,
        timestamp: now,
    })
}

} // verus!
