//! Gated fund movement: deposits, withdrawals and claims with real
//! secp256k1 co-signatures, replay protection and expiration.

use reward_vault::crypto::verify_eth_signature;
use reward_vault::{
    claim, config_signer, deposit, initialize, withdraw, ClaimParam, DepositParam, ProjectLedger,
    ReplayGuard, RewardVault, RewardVaultError, SignatureParam, WithdrawalParam,
};

fn key(seed: u8) -> reward_vault::Pubkey {
    [seed; 32]
}

fn keypair(seed: u8) -> (libsecp256k1::SecretKey, [u8; 20]) {
    let sk = libsecp256k1::SecretKey::parse(&[seed; 32]).unwrap();
    let pk = libsecp256k1::PublicKey::from_secret_key(&sk);
    let ser = pk.serialize();
    let digest = solana_program::keccak::hash(&ser[1..65]).to_bytes();
    let mut addr = [0u8; 20];
    addr.copy_from_slice(&digest[12..32]);
    (sk, addr)
}

fn cosign(message: &[u8], sk: &libsecp256k1::SecretKey, addr: [u8; 20]) -> SignatureParam {
    let digest = solana_program::keccak::hash(message).to_bytes();
    let msg = libsecp256k1::Message::parse(&digest);
    let (sig, rid) = libsecp256k1::sign(&msg, sk);
    SignatureParam { eth_address: addr, sig: sig.serialize(), recovery_id: rid.serialize() }
}

fn vault_with_signer(owner: reward_vault::Pubkey, signer: reward_vault::Pubkey) -> RewardVault {
    let mut slot = None;
    initialize(&mut slot, &owner).unwrap();
    let mut vault = slot.unwrap();
    config_signer(&mut vault, &owner, &signer, true).unwrap();
    vault
}

#[test]
fn message_bytes_are_little_endian() {
    let param = DepositParam { project_id: 1, deposit_id: 2, amount: 3, expiration_time: 4 };
    let expected = vec![
        1u8, 0, 0, 0, 0, 0, 0, 0, 2, 0, 0, 0, 0, 0, 0, 0, 3, 0, 0, 0, 0, 0, 0, 0, 4, 0, 0, 0, 0,
        0, 0, 0,
    ];
    assert_eq!(param.message_bytes(), expected);

    let negative = DepositParam { project_id: 0, deposit_id: 0, amount: 0, expiration_time: -2 };
    let tail = vec![0xFEu8, 0xFF, 0xFF, 0xFF, 0xFF, 0xFF, 0xFF, 0xFF];
    assert_eq!(negative.message_bytes()[24..32].to_vec(), tail);
}

#[test]
fn signature_verification_roundtrip() {
    let (sk, addr) = keypair(7);
    let message = b"release 30 units of asset A".to_vec();
    let sig = cosign(&message, &sk, addr);

    assert!(verify_eth_signature(&message, &sig.eth_address, &sig.sig, sig.recovery_id));

    let mut tampered = message.clone();
    tampered[0] ^= 1;
    assert!(!verify_eth_signature(&tampered, &sig.eth_address, &sig.sig, sig.recovery_id));

    let (_, other_addr) = keypair(8);
    assert!(!verify_eth_signature(&message, &other_addr, &sig.sig, sig.recovery_id));

    let mut broken = sig.sig;
    broken[5] ^= 1;
    assert!(!verify_eth_signature(&message, &sig.eth_address, &broken, sig.recovery_id));
}

#[test]
fn deposit_accumulates_per_project() {
    let (sk, addr) = keypair(3);
    let mut ledger = ProjectLedger::new();
    let mut guard = ReplayGuard::new();
    let token = key(40);
    let t0: i64 = 1_000;

    let param = DepositParam { project_id: 1, deposit_id: 1, amount: 100, expiration_time: t0 + 10 };
    let sig = cosign(&param.message_bytes(), &sk, addr);
    let ev = deposit(&mut ledger, &mut guard, &param, &token, &sig, t0).unwrap();
    assert_eq!(ev.amount, 100);
    assert_eq!(ev.project_id, 1);
    assert_eq!(ev.token, token);
    assert_eq!(ledger.total_deposited(1, &token), 100);

    let param2 = DepositParam { project_id: 1, deposit_id: 2, amount: 50, expiration_time: t0 + 10 };
    let sig2 = cosign(&param2.message_bytes(), &sk, addr);
    deposit(&mut ledger, &mut guard, &param2, &token, &sig2, t0).unwrap();
    assert_eq!(ledger.total_deposited(1, &token), 150);

    // Other keys are untouched.
    assert_eq!(ledger.total_deposited(2, &token), 0);
    assert_eq!(ledger.total_deposited(1, &key(41)), 0);
}

#[test]
fn rejected_deposits_contribute_nothing() {
    let (sk, addr) = keypair(3);
    let mut ledger = ProjectLedger::new();
    let mut guard = ReplayGuard::new();
    let token = key(40);
    let t0: i64 = 1_000;

    let param = DepositParam { project_id: 1, deposit_id: 1, amount: 100, expiration_time: t0 + 10 };
    let sig = cosign(&param.message_bytes(), &sk, addr);
    deposit(&mut ledger, &mut guard, &param, &token, &sig, t0).unwrap();

    // Expired attempt: rejected, total unchanged.
    let late = DepositParam { project_id: 1, deposit_id: 2, amount: 70, expiration_time: t0 + 10 };
    let late_sig = cosign(&late.message_bytes(), &sk, addr);
    let r = deposit(&mut ledger, &mut guard, &late, &token, &late_sig, t0 + 10);
    assert_eq!(r.unwrap_err(), RewardVaultError::ExpiredSignature);
    assert_eq!(ledger.total_deposited(1, &token), 100);

    let param2 = DepositParam { project_id: 1, deposit_id: 3, amount: 50, expiration_time: t0 + 20 };
    let sig2 = cosign(&param2.message_bytes(), &sk, addr);
    deposit(&mut ledger, &mut guard, &param2, &token, &sig2, t0).unwrap();
    assert_eq!(ledger.total_deposited(1, &token), 150);
}

#[test]
fn deposit_rejects_zero_amount() {
    let (sk, addr) = keypair(3);
    let mut ledger = ProjectLedger::new();
    let mut guard = ReplayGuard::new();
    let token = key(40);

    let param = DepositParam { project_id: 1, deposit_id: 1, amount: 0, expiration_time: 100 };
    let sig = cosign(&param.message_bytes(), &sk, addr);
    let r = deposit(&mut ledger, &mut guard, &param, &token, &sig, 0);
    assert_eq!(r.unwrap_err(), RewardVaultError::InvalidAmount);
    assert_eq!(ledger.total_deposited(1, &token), 0);
}

#[test]
fn deposit_rejects_total_overflow() {
    let (sk, addr) = keypair(3);
    let mut ledger = ProjectLedger::new();
    let mut guard = ReplayGuard::new();
    let token = key(40);

    let first =
        DepositParam { project_id: 1, deposit_id: 1, amount: u64::MAX, expiration_time: 100 };
    let sig = cosign(&first.message_bytes(), &sk, addr);
    deposit(&mut ledger, &mut guard, &first, &token, &sig, 0).unwrap();

    let second = DepositParam { project_id: 1, deposit_id: 2, amount: 1, expiration_time: 100 };
    let sig2 = cosign(&second.message_bytes(), &sk, addr);
    let r = deposit(&mut ledger, &mut guard, &second, &token, &sig2, 0);
    assert_eq!(r.unwrap_err(), RewardVaultError::InvalidAmount);
    assert_eq!(ledger.total_deposited(1, &token), u64::MAX);
}

#[test]
fn deposit_rejects_wrong_cosigner() {
    let (sk, _) = keypair(3);
    let (_, other_addr) = keypair(4);
    let mut ledger = ProjectLedger::new();
    let mut guard = ReplayGuard::new();
    let token = key(40);

    let param = DepositParam { project_id: 1, deposit_id: 1, amount: 100, expiration_time: 100 };
    let mut sig = cosign(&param.message_bytes(), &sk, other_addr);
    let r = deposit(&mut ledger, &mut guard, &param, &token, &sig, 0);
    assert_eq!(r.unwrap_err(), RewardVaultError::SigVerificationFailed);

    // A mangled recovery indicator is also a verification failure.
    let (sk2, addr2) = keypair(3);
    sig = cosign(&param.message_bytes(), &sk2, addr2);
    sig.recovery_id = 4;
    let r2 = deposit(&mut ledger, &mut guard, &param, &token, &sig, 0);
    assert_eq!(r2.unwrap_err(), RewardVaultError::SigVerificationFailed);
    assert_eq!(ledger.total_deposited(1, &token), 0);
}

#[test]
fn deposit_replay_is_rejected() {
    let (sk, addr) = keypair(3);
    let mut ledger = ProjectLedger::new();
    let mut guard = ReplayGuard::new();
    let token = key(40);

    let param = DepositParam { project_id: 1, deposit_id: 1, amount: 100, expiration_time: 100 };
    let sig = cosign(&param.message_bytes(), &sk, addr);
    deposit(&mut ledger, &mut guard, &param, &token, &sig, 0).unwrap();

    let replay = deposit(&mut ledger, &mut guard, &param, &token, &sig, 0);
    assert_eq!(replay.unwrap_err(), RewardVaultError::SignatureUsed);
    assert_eq!(ledger.total_deposited(1, &token), 100);
}

#[test]
fn withdraw_by_registered_signer_succeeds() {
    let (sk, addr) = keypair(5);
    let owner = key(1);
    let s1 = key(10);
    let vault = vault_with_signer(owner, s1);
    let mut guard = ReplayGuard::new();
    let token = key(40);
    let recipient = key(50);
    let t0: i64 = 1_000;

    let param =
        WithdrawalParam { project_id: 1, withdrawal_id: 7, amount: 30, expiration_time: t0 + 10 };
    let sig = cosign(&param.message_bytes(), &sk, addr);
    let ev = withdraw(&vault, &mut guard, &param, &s1, &token, &recipient, &sig, t0 + 5, 100)
        .unwrap();
    assert_eq!(ev.project_id, 1);
    assert_eq!(ev.withdrawal_id, 7);
    assert_eq!(ev.amount, 30);
    assert_eq!(ev.token, token);
    assert_eq!(ev.recipient, recipient);
}

#[test]
fn withdraw_replay_is_rejected() {
    let (sk, addr) = keypair(5);
    let vault = vault_with_signer(key(1), key(10));
    let mut guard = ReplayGuard::new();
    let s1 = key(10);

    let param =
        WithdrawalParam { project_id: 1, withdrawal_id: 7, amount: 30, expiration_time: 1_010 };
    let sig = cosign(&param.message_bytes(), &sk, addr);
    withdraw(&vault, &mut guard, &param, &s1, &key(40), &key(50), &sig, 1_005, 100).unwrap();

    let replay = withdraw(&vault, &mut guard, &param, &s1, &key(40), &key(50), &sig, 1_005, 100);
    assert_eq!(replay.unwrap_err(), RewardVaultError::SignatureUsed);
}

#[test]
fn withdraw_by_unregistered_identity_fails() {
    let (sk, addr) = keypair(5);
    let vault = vault_with_signer(key(1), key(10));
    let mut guard = ReplayGuard::new();

    let param =
        WithdrawalParam { project_id: 1, withdrawal_id: 7, amount: 30, expiration_time: 1_010 };
    let sig = cosign(&param.message_bytes(), &sk, addr);
    let outsider = key(33);
    let r = withdraw(&vault, &mut guard, &param, &outsider, &key(40), &key(50), &sig, 1_005, 100);
    assert_eq!(r.unwrap_err(), RewardVaultError::InvalidSignature);
}

#[test]
fn withdraw_at_expiration_time_fails() {
    let (sk, addr) = keypair(5);
    let vault = vault_with_signer(key(1), key(10));
    let mut guard = ReplayGuard::new();
    let s1 = key(10);

    let param =
        WithdrawalParam { project_id: 1, withdrawal_id: 7, amount: 30, expiration_time: 1_010 };
    let sig = cosign(&param.message_bytes(), &sk, addr);
    let r = withdraw(&vault, &mut guard, &param, &s1, &key(40), &key(50), &sig, 1_010, 100);
    assert_eq!(r.unwrap_err(), RewardVaultError::ExpiredSignature);

    let later = withdraw(&vault, &mut guard, &param, &s1, &key(40), &key(50), &sig, 2_000, 100);
    assert_eq!(later.unwrap_err(), RewardVaultError::ExpiredSignature);
}

#[test]
fn withdraw_over_custody_balance_fails() {
    let (sk, addr) = keypair(5);
    let vault = vault_with_signer(key(1), key(10));
    let mut guard = ReplayGuard::new();
    let s1 = key(10);

    let param =
        WithdrawalParam { project_id: 1, withdrawal_id: 7, amount: 130, expiration_time: 1_010 };
    let sig = cosign(&param.message_bytes(), &sk, addr);
    let r = withdraw(&vault, &mut guard, &param, &s1, &key(40), &key(50), &sig, 1_005, 100);
    assert_eq!(r.unwrap_err(), RewardVaultError::WithdrawTooMuch);
}

#[test]
fn claim_mirrors_withdraw_gating() {
    let (sk, addr) = keypair(6);
    let vault = vault_with_signer(key(1), key(10));
    let mut guard = ReplayGuard::new();
    let s1 = key(10);
    let token = key(40);
    let recipient = key(51);

    let param = ClaimParam { project_id: 2, claim_id: 9, amount: 25, expiration_time: 1_010 };
    let sig = cosign(&param.message_bytes(), &sk, addr);
    let ev = claim(&vault, &mut guard, &param, &s1, &token, &recipient, &sig, 1_005, 40).unwrap();
    assert_eq!(ev.claim_id, 9);
    assert_eq!(ev.amount, 25);
    assert_eq!(ev.recipient, recipient);

    let replay = claim(&vault, &mut guard, &param, &s1, &token, &recipient, &sig, 1_005, 40);
    assert_eq!(replay.unwrap_err(), RewardVaultError::SignatureUsed);

    let outsider = key(33);
    let param2 = ClaimParam { project_id: 2, claim_id: 10, amount: 25, expiration_time: 1_010 };
    let sig2 = cosign(&param2.message_bytes(), &sk, addr);
    let r = claim(&vault, &mut guard, &param2, &outsider, &token, &recipient, &sig2, 1_005, 40);
    assert_eq!(r.unwrap_err(), RewardVaultError::InvalidSignature);

    let at_expiry = claim(&vault, &mut guard, &param2, &s1, &token, &recipient, &sig2, 1_010, 40);
    assert_eq!(at_expiry.unwrap_err(), RewardVaultError::ExpiredSignature);
}

#[test]
fn consumed_signature_blocks_every_operation() {
    // A fingerprint consumed by a withdrawal also blocks a claim or deposit
    // presenting the same signature bytes.
    let (sk, addr) = keypair(5);
    let vault = vault_with_signer(key(1), key(10));
    let mut ledger = ProjectLedger::new();
    let mut guard = ReplayGuard::new();
    let s1 = key(10);

    let wparam =
        WithdrawalParam { project_id: 1, withdrawal_id: 7, amount: 30, expiration_time: 1_010 };
    let sig = cosign(&wparam.message_bytes(), &sk, addr);
    withdraw(&vault, &mut guard, &wparam, &s1, &key(40), &key(50), &sig, 1_005, 100).unwrap();

    // Same signature bytes presented with a deposit whose message happens
    // to be identical byte-for-byte (same field values).
    let dparam = DepositParam { project_id: 1, deposit_id: 7, amount: 30, expiration_time: 1_010 };
    let r = deposit(&mut ledger, &mut guard, &dparam, &key(40), &sig, 1_005);
    assert_eq!(r.unwrap_err(), RewardVaultError::SignatureUsed);
}
