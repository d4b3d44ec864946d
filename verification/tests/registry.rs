//! Registry and ownership behaviour: initialization, signer configuration
//! and ownership transfer.

use reward_vault::{config_signer, initialize, transfer_ownership, RewardVaultError};

fn key(seed: u8) -> reward_vault::Pubkey {
    [seed; 32]
}

#[test]
fn initialize_sets_owner_and_empty_registry() {
    let mut slot = None;
    let owner = key(1);
    let ev = initialize(&mut slot, &owner).unwrap();
    assert_eq!(ev.authority, owner);
    let vault = slot.unwrap();
    assert!(vault.is_owner(&owner));
    assert!(!vault.is_owner(&key(2)));
    assert!(!vault.is_valid_signer(&owner));
}

#[test]
fn initialize_twice_fails() {
    let mut slot = None;
    initialize(&mut slot, &key(1)).unwrap();
    let second = initialize(&mut slot, &key(2));
    assert_eq!(second.unwrap_err(), RewardVaultError::AlreadyInitialized);
    assert!(slot.unwrap().is_owner(&key(1)));
}

#[test]
fn add_signer_then_duplicate_fails() {
    let mut slot = None;
    let owner = key(1);
    let s1 = key(10);
    initialize(&mut slot, &owner).unwrap();
    let mut vault = slot.unwrap();

    let ev = config_signer(&mut vault, &owner, &s1, true).unwrap();
    assert_eq!(ev.signer, s1);
    assert!(ev.added);
    assert!(vault.is_valid_signer(&s1));

    let again = config_signer(&mut vault, &owner, &s1, true);
    assert_eq!(again.unwrap_err(), RewardVaultError::SignerAddedAlready);
    assert!(vault.is_valid_signer(&s1));
}

#[test]
fn config_signer_by_non_owner_fails() {
    let mut slot = None;
    let owner = key(1);
    initialize(&mut slot, &owner).unwrap();
    let mut vault = slot.unwrap();

    let outsider = key(9);
    let r = config_signer(&mut vault, &outsider, &key(10), true);
    assert_eq!(r.unwrap_err(), RewardVaultError::InvalidSignature);
    assert!(!vault.is_valid_signer(&key(10)));
}

#[test]
fn remove_absent_signer_fails() {
    let mut slot = None;
    let owner = key(1);
    initialize(&mut slot, &owner).unwrap();
    let mut vault = slot.unwrap();

    let r = config_signer(&mut vault, &owner, &key(10), false);
    assert_eq!(r.unwrap_err(), RewardVaultError::SignerNotExist);
}

#[test]
fn remove_signer_leaves_others() {
    let mut slot = None;
    let owner = key(1);
    initialize(&mut slot, &owner).unwrap();
    let mut vault = slot.unwrap();

    config_signer(&mut vault, &owner, &key(10), true).unwrap();
    config_signer(&mut vault, &owner, &key(11), true).unwrap();
    config_signer(&mut vault, &owner, &key(12), true).unwrap();

    let ev = config_signer(&mut vault, &owner, &key(11), false).unwrap();
    assert!(!ev.added);
    assert!(vault.is_valid_signer(&key(10)));
    assert!(!vault.is_valid_signer(&key(11)));
    assert!(vault.is_valid_signer(&key(12)));
}

#[test]
fn registry_capacity_is_enforced() {
    let mut slot = None;
    let owner = key(1);
    initialize(&mut slot, &owner).unwrap();
    let mut vault = slot.unwrap();

    for i in 0..reward_vault::MAX_SIGNERS {
        config_signer(&mut vault, &owner, &key(100 + i as u8), true).unwrap();
    }
    let overflow = config_signer(&mut vault, &owner, &key(200), true);
    assert_eq!(overflow.unwrap_err(), RewardVaultError::TooManySigners);
    assert!(!vault.is_valid_signer(&key(200)));
}

#[test]
fn transfer_ownership_moves_control() {
    let mut slot = None;
    let owner = key(1);
    let heir = key(2);
    initialize(&mut slot, &owner).unwrap();
    let mut vault = slot.unwrap();

    let refused = transfer_ownership(&mut vault, &heir, &heir);
    assert_eq!(refused.unwrap_err(), RewardVaultError::InvalidSignature);
    assert!(vault.is_owner(&owner));

    let ev = transfer_ownership(&mut vault, &owner, &heir).unwrap();
    assert_eq!(ev.authority, heir);
    assert!(vault.is_owner(&heir));
    assert!(!vault.is_owner(&owner));

    let old_owner_refused = config_signer(&mut vault, &owner, &key(10), true);
    assert_eq!(old_owner_refused.unwrap_err(), RewardVaultError::InvalidSignature);
    config_signer(&mut vault, &heir, &key(10), true).unwrap();
    assert!(vault.is_valid_signer(&key(10)));
}
