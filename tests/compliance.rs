use sss::errors::SSSError;
use sss::instructions::hook::matches_discriminator;
use sss::pubkey::Pubkey;
use sss::sss::{
    blacklist_add, blacklist_remove, fallback, freeze_account, initialize, seize_tokens,
    thaw_account, transfer, transfer_hook,
};
use sss::state::{BlacklistEntry, StablecoinConfig, StablecoinState};
use spl_transfer_hook_interface::instruction::TransferHookInstruction;

fn key(b: u8) -> Pubkey {
    Pubkey::new_from_array([b; 32])
}

fn new_state(delegate: bool, hook: bool) -> StablecoinState {
    let config = StablecoinConfig {
        name: "USD Coin".to_string(),
        symbol: "USDC".to_string(),
        uri: String::new(),
        decimals: 6,
        enable_permanent_delegate: delegate,
        enable_transfer_hook: hook,
        default_account_frozen: true,
    };
    initialize(config, key(1), key(2), 254, 1000).unwrap().0
}

#[test]
fn blacklist_then_transfer_scenario() {
    let mut state = new_state(true, true);
    assert!(state.is_sss2);
    let x = key(10);
    let y = key(11);
    let mut x_entry: Option<BlacklistEntry> = None;
    let none: Option<BlacklistEntry> = None;
    let ev = blacklist_add(&state, &mut x_entry, key(2), x, 250, 20).unwrap();
    assert!(ev.address == x);
    assert!(ev.added_by == key(2));
    let e = x_entry.unwrap();
    assert!(e.is_active);
    assert!(e.stablecoin == key(1));
    assert!(e.blacklisted_address == x);
    assert_eq!(e.added_at, 20);
    assert_eq!(e.bump, 250);

    transfer(&mut state, x, y, 5, 21).unwrap();
    let out = transfer_hook(&state, x, y, &x_entry, &none, 5, 21);
    assert!(matches!(out.result, Err(SSSError::TransferBlocked)));
    let dec = out.event.unwrap();
    assert!(!dec.allowed);
    assert_eq!(dec.amount, 5);
    assert!(dec.source == x);
    assert!(dec.destination == y);

    let ev = blacklist_remove(&state, &mut x_entry, key(2), x, 22).unwrap();
    assert!(ev.removed_by == key(2));
    assert!(!x_entry.unwrap().is_active);
    assert_eq!(x_entry.unwrap().added_at, 20);

    let out = transfer_hook(&state, x, y, &x_entry, &none, 5, 23);
    assert!(out.result.is_ok());
    assert!(out.event.unwrap().allowed);
    assert_eq!(out.event.unwrap().timestamp, 23);
}

#[test]
fn blacklist_twice_fails_already_blacklisted() {
    let state = new_state(true, true);
    let mut entry: Option<BlacklistEntry> = None;
    blacklist_add(&state, &mut entry, key(2), key(10), 1, 20).unwrap();
    let r = blacklist_add(&state, &mut entry, key(2), key(10), 1, 21);
    assert!(matches!(r, Err(SSSError::AlreadyBlacklisted)));
    assert_eq!(entry.unwrap().added_at, 20);
}

#[test]
fn reblocking_reuses_inactive_record() {
    let state = new_state(true, true);
    let mut entry: Option<BlacklistEntry> = None;
    blacklist_add(&state, &mut entry, key(2), key(10), 1, 20).unwrap();
    blacklist_remove(&state, &mut entry, key(2), key(10), 21).unwrap();
    blacklist_add(&state, &mut entry, key(2), key(10), 1, 30).unwrap();
    assert!(entry.unwrap().is_active);
    assert_eq!(entry.unwrap().added_at, 30);
}

#[test]
fn unblock_not_active_fails_not_blacklisted() {
    let state = new_state(true, true);
    let mut entry: Option<BlacklistEntry> = None;
    let r = blacklist_remove(&state, &mut entry, key(2), key(10), 20);
    assert!(matches!(r, Err(SSSError::NotBlacklisted)));
    assert!(entry.is_none());
    blacklist_add(&state, &mut entry, key(2), key(10), 1, 20).unwrap();
    blacklist_remove(&state, &mut entry, key(2), key(10), 21).unwrap();
    let r = blacklist_remove(&state, &mut entry, key(2), key(10), 22);
    assert!(matches!(r, Err(SSSError::NotBlacklisted)));
}

#[test]
fn blacklist_gated_by_preset_and_officer() {
    let minimal = new_state(true, false);
    let mut entry: Option<BlacklistEntry> = None;
    let r = blacklist_add(&minimal, &mut entry, key(2), key(10), 1, 20);
    assert!(matches!(r, Err(SSSError::SSS2Required)));
    let r = blacklist_remove(&minimal, &mut entry, key(2), key(10), 20);
    assert!(matches!(r, Err(SSSError::SSS2Required)));
    let state = new_state(true, true);
    let r = blacklist_add(&state, &mut entry, key(3), key(10), 1, 20);
    assert!(matches!(r, Err(SSSError::Unauthorized)));
    assert!(entry.is_none());
    blacklist_add(&state, &mut entry, key(2), key(10), 1, 20).unwrap();
    let r = blacklist_remove(&state, &mut entry, key(3), key(10), 21);
    assert!(matches!(r, Err(SSSError::Unauthorized)));
    assert!(entry.unwrap().is_active);
}

#[test]
fn hook_blocks_either_party() {
    let state = new_state(true, true);
    let mut blocked: Option<BlacklistEntry> = None;
    blacklist_add(&state, &mut blocked, key(2), key(11), 1, 20).unwrap();
    let none: Option<BlacklistEntry> = None;
    let out = transfer_hook(&state, key(10), key(11), &none, &blocked, 9, 30);
    assert!(matches!(out.result, Err(SSSError::TransferBlocked)));
    assert!(!out.event.unwrap().allowed);
    let out = transfer_hook(&state, key(10), key(11), &blocked, &blocked, 9, 30);
    assert!(matches!(out.result, Err(SSSError::TransferBlocked)));
    let out = transfer_hook(&state, key(10), key(11), &none, &none, 9, 30);
    assert!(out.result.is_ok());
    let ev = out.event.unwrap();
    assert!(ev.allowed);
    assert!(ev.mint == key(1));
    assert_eq!(ev.amount, 9);
}

#[test]
fn hook_disabled_passes_without_event() {
    let mut state = new_state(true, true);
    let mut blocked: Option<BlacklistEntry> = None;
    blacklist_add(&state, &mut blocked, key(2), key(11), 1, 20).unwrap();
    state.transfer_hook_enabled = false;
    let out = transfer_hook(&state, key(11), key(12), &blocked, &blocked, 9, 30);
    assert!(out.result.is_ok());
    assert!(out.event.is_none());
}

#[test]
fn seize_requires_blacklisted_owner() {
    let state = new_state(true, true);
    let none: Option<BlacklistEntry> = None;
    let r = seize_tokens(&state, &none, key(2), key(20), 100, 40);
    assert!(matches!(r, Err(SSSError::SeizeNotBlacklisted)));
    let mut entry: Option<BlacklistEntry> = None;
    blacklist_add(&state, &mut entry, key(2), key(10), 1, 20).unwrap();
    blacklist_remove(&state, &mut entry, key(2), key(10), 21).unwrap();
    let r = seize_tokens(&state, &entry, key(2), key(20), 100, 40);
    assert!(matches!(r, Err(SSSError::SeizeNotBlacklisted)));
    blacklist_add(&state, &mut entry, key(2), key(10), 1, 22).unwrap();
    let ev = seize_tokens(&state, &entry, key(2), key(20), 100, 40).unwrap();
    assert!(ev.from == key(20));
    assert_eq!(ev.amount, 100);
    assert!(ev.seized_by == key(2));
    assert_eq!(ev.timestamp, 40);
}

#[test]
fn seize_gates_in_order() {
    let none: Option<BlacklistEntry> = None;
    let minimal = new_state(false, true);
    let r = seize_tokens(&minimal, &none, key(2), key(20), 100, 40);
    assert!(matches!(r, Err(SSSError::SSS2Required)));
    let mut odd = new_state(true, true);
    odd.permanent_delegate_enabled = false;
    let r = seize_tokens(&odd, &none, key(2), key(20), 100, 40);
    assert!(matches!(r, Err(SSSError::PermanentDelegateNotEnabled)));
    let state = new_state(true, true);
    let r = seize_tokens(&state, &none, key(3), key(20), 100, 40);
    assert!(matches!(r, Err(SSSError::Unauthorized)));
    let r = seize_tokens(&state, &none, key(2), key(20), 0, 40);
    assert!(matches!(r, Err(SSSError::InvalidAmount)));
}

#[test]
fn freeze_and_thaw_need_freeze_authority() {
    let state = new_state(false, false);
    assert!(matches!(freeze_account(&state, key(3), key(20), 5), Err(SSSError::Unauthorized)));
    assert!(matches!(thaw_account(&state, key(3), key(20), 5), Err(SSSError::Unauthorized)));
    let ev = freeze_account(&state, key(2), key(20), 5).unwrap();
    assert!(ev.account == key(20));
    assert!(ev.frozen_by == key(2));
    let ev = thaw_account(&state, key(2), key(20), 6).unwrap();
    assert!(ev.thawed_by == key(2));
    assert_eq!(ev.timestamp, 6);
}

#[test]
fn fallback_recognises_execute() {
    let packed = TransferHookInstruction::Execute { amount: 77 }.pack();
    assert!(fallback(&packed));
    assert!(fallback(&packed[..8]));
    assert!(!fallback(&[0u8; 16]));
    let mut other = packed.clone();
    other[0] ^= 1;
    assert!(!fallback(&other));
}

#[test]
fn discriminator_prefix_match() {
    assert!(matches_discriminator(&[1, 2, 3, 4, 5, 6, 7, 8, 9], &[1, 2, 3, 4, 5, 6, 7, 8]));
    assert!(!matches_discriminator(&[1, 2, 3, 4, 5, 6, 7, 9], &[1, 2, 3, 4, 5, 6, 7, 8]));
    assert!(!matches_discriminator(&[1, 2, 3], &[1, 2, 3, 4, 5, 6, 7, 8]));
}
