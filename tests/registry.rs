use sss::errors::SSSError;
use sss::pubkey::Pubkey;
use sss::registry::BlacklistRegistry;
use sss::sss::initialize;
use sss::state::{StablecoinConfig, StablecoinState};

fn key(b: u8) -> Pubkey {
    Pubkey::new_from_array([b; 32])
}

fn state_for(mint: u8, delegate: bool, hook: bool) -> StablecoinState {
    let config = StablecoinConfig {
        name: "Euro Coin".to_string(),
        symbol: "EURC".to_string(),
        uri: String::new(),
        decimals: 2,
        enable_permanent_delegate: delegate,
        enable_transfer_hook: hook,
        default_account_frozen: false,
    };
    initialize(config, key(mint), key(2), 255, 500).unwrap().0
}

#[test]
fn registry_block_transfer_unblock_scenario() {
    let state = state_for(1, true, true);
    let mut reg = BlacklistRegistry::new();
    assert!(reg.lookup(&key(1), &key(10)).is_none());
    reg.block(&state, key(2), key(10), 7, 600).unwrap();
    let out = reg.check_transfer(&state, key(30), key(31), key(10), key(11), 50, 601);
    assert!(matches!(out.result, Err(SSSError::TransferBlocked)));
    assert!(!out.event.unwrap().allowed);
    let out = reg.check_transfer(&state, key(31), key(30), key(11), key(10), 50, 601);
    assert!(matches!(out.result, Err(SSSError::TransferBlocked)));
    reg.unblock(&state, key(2), key(10), 602).unwrap();
    let e = reg.lookup(&key(1), &key(10)).unwrap();
    assert!(!e.is_active);
    assert_eq!(e.added_at, 600);
    let out = reg.check_transfer(&state, key(30), key(31), key(10), key(11), 50, 603);
    assert!(out.result.is_ok());
    assert!(out.event.unwrap().allowed);
    assert_eq!(reg.len(), 1);
}

#[test]
fn registry_keeps_one_record_per_pair() {
    let a = state_for(1, true, true);
    let b = state_for(3, true, true);
    let mut reg = BlacklistRegistry::new();
    reg.block(&a, key(2), key(10), 7, 600).unwrap();
    assert!(matches!(reg.block(&a, key(2), key(10), 7, 601), Err(SSSError::AlreadyBlacklisted)));
    reg.block(&b, key(2), key(10), 7, 602).unwrap();
    assert_eq!(reg.len(), 2);
    reg.unblock(&a, key(2), key(10), 603).unwrap();
    reg.block(&a, key(2), key(10), 7, 604).unwrap();
    assert_eq!(reg.len(), 2);
    assert_eq!(reg.lookup(&key(1), &key(10)).unwrap().added_at, 604);
    assert!(reg.lookup(&key(3), &key(10)).unwrap().is_active);
    assert!(matches!(reg.unblock(&a, key(2), key(11), 605), Err(SSSError::NotBlacklisted)));
    assert_eq!(reg.len(), 2);
}

#[test]
fn registry_seizure_and_disabled_hook() {
    let state = state_for(1, true, true);
    let mut reg = BlacklistRegistry::new();
    let r = reg.authorize_seizure(&state, key(2), key(10), key(40), 9, 700);
    assert!(matches!(r, Err(SSSError::SeizeNotBlacklisted)));
    reg.block(&state, key(2), key(10), 7, 701).unwrap();
    let ev = reg.authorize_seizure(&state, key(2), key(10), key(40), 9, 702).unwrap();
    assert!(ev.from == key(40));
    assert_eq!(ev.amount, 9);
    let mut off = state.clone();
    off.transfer_hook_enabled = false;
    let out = reg.check_transfer(&off, key(30), key(31), key(10), key(10), 5, 703);
    assert!(out.result.is_ok());
    assert!(out.event.is_none());
    let minimal = state_for(5, false, false);
    assert!(matches!(reg.block(&minimal, key(2), key(10), 7, 704), Err(SSSError::SSS2Required)));
    assert_eq!(reg.len(), 1);
}
