//! The withdraw operation: moves tokens out of vault custody to a
//! recipient, gated by an expiring authorization from a registered signer.
//!
//! The invoking admin identity must be in the signer registry, and the
//! serialized withdrawal parameters must carry a valid co-signature whose
//! fingerprint the replay guard then consumes: the same authorization can
//! never fund two withdrawals. The requested amount is validated against
//! the vault's external custody balance for the asset; the deposit ledger
//! is not decremented.

use crate::bytes::{push_i64_le, push_u64_le, spec_i64_to_le_bytes};
use crate::crypto::{signature_matches, verify_eth_signature};
use crate::deposit::SignatureParam;
use crate::error::RewardVaultError;
use crate::replay::ReplayGuard;
use crate::state::{Pubkey, RewardVault};
use vstd::bytes::spec_u64_to_le_bytes;
use vstd::prelude::*;

verus! {

/// Parameters of a withdrawal, fixed by the co-signed authorization.
#[derive(Clone, Copy, Debug)]
pub struct WithdrawalParam {
    /// The project the withdrawal is charged against.
    pub project_id: u64,
    /// Caller-chosen identifier of this withdrawal, carried into the event.
    pub withdrawal_id: u64,
    /// Number of asset units to move out of custody.
    pub amount: u64,
    /// The authorization is valid strictly before this time.
    pub expiration_time: i64,
}

impl WithdrawalParam {
    /// The authorization message: the parameters serialized as the
    /// little-endian concatenation of their fields.
    pub open spec fn spec_message(self) -> Seq<u8> {
        spec_u64_to_le_bytes(self.project_id) + spec_u64_to_le_bytes(self.withdrawal_id)
            + spec_u64_to_le_bytes(self.amount) + spec_i64_to_le_bytes(self.expiration_time)
    }

    /// Serializes the parameters into the authorization message.
    pub fn message_bytes(&self) -> (r: Vec<u8>)
        ensures
            r@ == self.spec_message(),
    {
        let mut out: Vec<u8> = Vec::new();
        push_u64_le(&mut out, self.project_id);
        push_u64_le(&mut out, self.withdrawal_id);
        push_u64_le(&mut out, self.amount);
        push_i64_le(&mut out, self.expiration_time);
        out
    }
}

/// Event recording an accepted withdrawal.
#[derive(Clone, Copy, Debug)]
pub struct TokenWithdrawed {
    /// The project charged.
    pub project_id: u64,
    /// The caller-chosen withdrawal identifier.
    pub withdrawal_id: u64,
    /// The number of units moved out of custody.
    pub amount: u64,
    /// The withdrawn asset.
    pub token: Pubkey,
    /// The identity receiving the funds.
    pub recipient: Pubkey,
}

/// Whether a withdrawal must be accepted: the authorization has not
/// expired, the invoking admin is a registered signer, the co-signature
/// verifies, the amount is positive and covered by the vault's custody
/// balance, and the signature was never consumed.
pub open spec fn withdraw_ok(
    vault: RewardVault,
    guard: ReplayGuard,
    param: WithdrawalParam,
    admin: Seq<u8>,
    sig: SignatureParam,
    now: i64,
    vault_balance: u64,
) -> bool {
    &&& now < param.expiration_time
    &&& vault.is_signer(admin)
    &&& signature_matches(param.spec_message(), sig.eth_address@, sig.sig@, sig.recovery_id)
    &&& param.amount > 0
    &&& param.amount <= vault_balance
    &&& !guard.is_used(sig.fingerprint())
}

/// The failure a rejected withdrawal reports: the first failing check in
/// the order expiration, signer membership, signature, amount, balance,
/// replay.
pub open spec fn withdraw_err(
    vault: RewardVault,
    guard: ReplayGuard,
    param: WithdrawalParam,
    admin: Seq<u8>,
    sig: SignatureParam,
    now: i64,
    vault_balance: u64,
) -> RewardVaultError {
    if !(now < param.expiration_time) {
        RewardVaultError::ExpiredSignature
    } else if !vault.is_signer(admin) {
        RewardVaultError::InvalidSignature
    } else if !signature_matches(param.spec_message(), sig.eth_address@, sig.sig@, sig.recovery_id) {
        RewardVaultError::SigVerificationFailed
    } else if !(param.amount > 0) {
        RewardVaultError::InvalidAmount
    } else if !(param.amount <= vault_balance) {
        RewardVaultError::WithdrawTooMuch
    } else {
        RewardVaultError::SignatureUsed
    }
}

/// Validates a withdrawal of `param.amount` units of `token` to
/// `recipient`, invoked by `admin`, authorized by `sig`, called at time
/// `now` while the vault's custody of the asset holds `vault_balance`
/// units.
///
/// On success the caller owes the matching external transfer from vault
/// custody to the recipient — authorized by the vault's own custody
/// authority, not by the recipient — committed in the same atomic unit as
/// the replay-guard mutation made here; the returned event describes it.
/// On failure nothing is changed and the error identifies the first check
/// that failed.
pub fn withdraw(
    vault: &RewardVault,
    guard: &mut ReplayGuard,
    param: &WithdrawalParam,
    admin: &Pubkey,
    token: &Pubkey,
    recipient: &Pubkey,
    sig: &SignatureParam,
    now: i64,
    vault_balance: u64,
) -> (r: Result<TokenWithdrawed, RewardVaultError>)
    requires
        vault.wf(),
        old(guard).wf(),
    ensures
        final(guard).wf(),
        r is Ok <==> withdraw_ok(*vault, *old(guard), *param, admin@, *sig, now, vault_balance),
        match r {
            Ok(ev) => {
                &&& ev.project_id == param.project_id
                &&& ev.withdrawal_id == param.withdrawal_id
                &&& ev.amount == param.amount
                &&& ev.token == *token
                &&& ev.recipient == *recipient
                &&& final(guard).spec_used() == old(guard).spec_used().insert(sig.fingerprint())
            },
            Err(e) => {
                &&& e == withdraw_err(*vault, *old(guard), *param, admin@, *sig, now, vault_balance)
                &&& *final(guard) == *old(guard)
            },
        },
{
    if !(now < param.expiration_time) {
        return Err(RewardVaultError::ExpiredSignature);
    }
    if !vault.is_valid_signer(admin) {
        return Err(RewardVaultError::InvalidSignature);
    }
    let message = param.message_bytes();
    if !verify_eth_signature(&message, &sig.eth_address, &sig.sig, sig.recovery_id) {
        return Err(RewardVaultError::SigVerificationFailed);
    }
    if param.amount == 0 {
        return Err(RewardVaultError::InvalidAmount);
    }
    if param.amount > vault_balance {
        return Err(RewardVaultError::WithdrawTooMuch);
    }
    if let Err(e) = guard.check_and_mark(&sig.sig) {
        return Err(e);
    }
    Ok(
        TokenWithdrawed {
            project_id: param.project_id,
            withdrawal_id: param.withdrawal_id,
            amount: param.amount,
            token: *token,
            recipient: *recipient,
        },
    )
}

/// Authorization soundness for withdrawals: a withdrawal is accepted only
/// when the invoking admin identity is in the signer registry at the time
/// of the call and the co-signature over exactly its parameters verifies
/// against the claimed address.
pub proof fn lemma_withdraw_authorization_soundness(
    vault: RewardVault,
    guard: ReplayGuard,
    param: WithdrawalParam,
    admin: Seq<u8>,
    sig: SignatureParam,
    now: i64,
    vault_balance: u64,
)
    ensures
        withdraw_ok(vault, guard, param, admin, sig, now, vault_balance) ==> vault.is_signer(admin)
            && signature_matches(
            param.spec_message(),
            sig.eth_address@,
            sig.sig@,
            sig.recovery_id,
        ),
        !vault.is_signer(admin) && now < param.expiration_time ==> withdraw_err(
            vault,
            guard,
            param,
            admin,
            sig,
            now,
            vault_balance,
        ) == RewardVaultError::InvalidSignature,
{
}

/// Replay freedom for withdrawals: once a fingerprint is in the replay
/// guard — as it is after any accepted withdrawal, which inserts it — a
/// withdrawal presenting the same fingerprint is rejected, and when every
/// earlier check passes the reported failure is `SignatureUsed`.
pub proof fn lemma_withdraw_replay_freedom(
    vault: RewardVault,
    guard: ReplayGuard,
    param: WithdrawalParam,
    admin: Seq<u8>,
    sig: SignatureParam,
    now: i64,
    vault_balance: u64,
)
    requires
        guard.is_used(sig.fingerprint()),
    ensures
        !withdraw_ok(vault, guard, param, admin, sig, now, vault_balance),
        (now < param.expiration_time && vault.is_signer(admin) && signature_matches(
            param.spec_message(),
            sig.eth_address@,
            sig.sig@,
            sig.recovery_id,
        ) && param.amount > 0 && param.amount <= vault_balance) ==> withdraw_err(
            vault,
            guard,
            param,
            admin,
            sig,
            now,
            vault_balance,
        ) == RewardVaultError::SignatureUsed,
{
}

/// Expiration enforcement for withdrawals: at or past the stated
/// expiration time the withdrawal is rejected with `ExpiredSignature`;
/// strictly before it, expiration is not the reported failure.
pub proof fn lemma_withdraw_expiration_enforcement(
    vault: RewardVault,
    guard: ReplayGuard,
    param: WithdrawalParam,
    admin: Seq<u8>,
    sig: SignatureParam,
    now: i64,
    vault_balance: u64,
)
    ensures
        now >= param.expiration_time ==> !withdraw_ok(
            vault,
            guard,
            param,
            admin,
            sig,
            now,
            vault_balance,
        ) && withdraw_err(vault, guard, param, admin, sig, now, vault_balance)
            == RewardVaultError::ExpiredSignature,
        now < param.expiration_time ==> withdraw_err(
            vault,
            guard,
            param,
            admin,
            sig,
            now,
            vault_balance,
        ) != RewardVaultError::ExpiredSignature,
{
}

} // verus!
