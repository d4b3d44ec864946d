//! The deposit operation: moves tokens from a depositor into vault custody
//! under a (project, asset) key, gated by an expiring, co-signed
//! authorization.
//!
//! The authorization message is the serialized deposit parameters, co-signed
//! in the Ethereum style by the holder of the claimed external address (the
//! claimed address is bound to the call, not to the signer registry). The
//! signature's fingerprint is consumed by the replay guard, so the same
//! authorization can never fund two deposits.

use crate::bytes::{push_i64_le, push_u64_le, spec_i64_to_le_bytes};
use crate::crypto::{signature_matches, verify_eth_signature, EthAddress, SignatureBytes};
use crate::error::RewardVaultError;
use crate::ledger::ProjectLedger;
use crate::replay::ReplayGuard;
use crate::state::Pubkey;
use vstd::bytes::spec_u64_to_le_bytes;
use vstd::prelude::*;

verus! {

/// Parameters of a deposit, fixed by the co-signed authorization.
#[derive(Clone, Copy, Debug)]
pub struct DepositParam {
    /// The project the deposit is credited to.
    pub project_id: u64,
    /// Caller-chosen identifier of this deposit, carried into the event.
    pub deposit_id: u64,
    /// Number of asset units to move into custody.
    pub amount: u64,
    /// The authorization is valid strictly before this time.
    pub expiration_time: i64,
}

impl DepositParam {
    /// The authorization message: the parameters serialized as the
    /// little-endian concatenation of their fields.
    pub open spec fn spec_message(self) -> Seq<u8> {
        spec_u64_to_le_bytes(self.project_id) + spec_u64_to_le_bytes(self.deposit_id)
            + spec_u64_to_le_bytes(self.amount) + spec_i64_to_le_bytes(self.expiration_time)
    }

    /// Serializes the parameters into the authorization message.
    pub fn message_bytes(&self) -> (r: Vec<u8>)
        ensures
            r@ == self.spec_message(),
    {
        let mut out: Vec<u8> = Vec::new();
        push_u64_le(&mut out, self.project_id);
        push_u64_le(&mut out, self.deposit_id);
        push_u64_le(&mut out, self.amount);
        push_i64_le(&mut out, self.expiration_time);
        out
    }
}

/// An authorization signature presented with a gated operation: the claimed
/// co-signer identity, the signature bytes and the recovery indicator.
#[derive(Clone, Copy, Debug)]
pub struct SignatureParam {
    /// The claimed identity of the co-signer.
    pub eth_address: EthAddress,
    /// The 64-byte secp256k1 signature over the operation's message.
    pub sig: SignatureBytes,
    /// Recovery indicator for public-key recovery.
    pub recovery_id: u8,
}

impl SignatureParam {
    /// The value the replay guard tracks: the signature bytes themselves.
    pub open spec fn fingerprint(self) -> Seq<u8> {
        self.sig@
    }
}

/// Event recording an accepted deposit.
#[derive(Clone, Copy, Debug)]
pub struct TokenDeposited {
    /// The project credited.
    pub project_id: u64,
    /// The caller-chosen deposit identifier.
    pub deposit_id: u64,
    /// The deposited asset.
    pub token: Pubkey,
    /// The number of units moved into custody.
    pub amount: u64,
}

/// Whether a deposit must be accepted: the authorization has not expired,
/// the co-signature verifies against the claimed address, the amount is
/// positive and representable, and the signature was never consumed.
pub open spec fn deposit_ok(
    ledger: ProjectLedger,
    guard: ReplayGuard,
    param: DepositParam,
    token: Seq<u8>,
    sig: SignatureParam,
    now: i64,
) -> bool {
    &&& now < param.expiration_time
    &&& signature_matches(param.spec_message(), sig.eth_address@, sig.sig@, sig.recovery_id)
    &&& param.amount > 0
    &&& ledger.spec_total(param.project_id, token) + param.amount <= u64::MAX
    &&& !guard.is_used(sig.fingerprint())
}

/// The failure a rejected deposit reports: the first failing check in the
/// order expiration, signature, amount, replay.
pub open spec fn deposit_err(
    ledger: ProjectLedger,
    guard: ReplayGuard,
    param: DepositParam,
    token: Seq<u8>,
    sig: SignatureParam,
    now: i64,
) -> RewardVaultError {
    if !(now < param.expiration_time) {
        RewardVaultError::ExpiredSignature
    } else if !signature_matches(param.spec_message(), sig.eth_address@, sig.sig@, sig.recovery_id) {
        RewardVaultError::SigVerificationFailed
    } else if !(param.amount > 0 && ledger.spec_total(param.project_id, token) + param.amount
        <= u64::MAX) {
        RewardVaultError::InvalidAmount
    } else {
        RewardVaultError::SignatureUsed
    }
}

/// Validates and records a deposit of `param.amount` units of `token` to
/// project `param.project_id`, authorized by `sig` and called at time
/// `now`.
///
/// On success the caller owes the matching external transfer from the
/// depositor's custody into vault custody, committed in the same atomic
/// unit as the mutations made here; the returned event describes it. On
/// failure nothing is changed and the error identifies the first check
/// that failed.
pub fn deposit(
    ledger: &mut ProjectLedger,
    guard: &mut ReplayGuard,
    param: &DepositParam,
    token: &Pubkey,
    sig: &SignatureParam,
    now: i64,
) -> (r: Result<TokenDeposited, RewardVaultError>)
    requires
        old(ledger).wf(),
        old(guard).wf(),
    ensures
        final(ledger).wf(),
        final(guard).wf(),
        r is Ok <==> deposit_ok(*old(ledger), *old(guard), *param, token@, *sig, now),
        match r {
            Ok(ev) => {
                &&& ev.project_id == param.project_id
                &&& ev.deposit_id == param.deposit_id
                &&& ev.token == *token
                &&& ev.amount == param.amount
                &&& final(ledger).spec_total(param.project_id, token@) == old(ledger).spec_total(
                    param.project_id,
                    token@,
                ) + param.amount
                &&& final(ledger).has_record(param.project_id, token@)
                &&& forall|id2: u64, t2: Seq<u8>|
                    !(id2 == param.project_id && t2 == token@) ==> final(ledger).spec_total(
                        id2,
                        t2,
                    ) == old(ledger).spec_total(id2, t2)
                &&& final(guard).spec_used() == old(guard).spec_used().insert(sig.fingerprint())
            },
            Err(e) => {
                &&& e == deposit_err(*old(ledger), *old(guard), *param, token@, *sig, now)
                &&& *final(ledger) == *old(ledger)
                &&& *final(guard) == *old(guard)
            },
        },
{
    if !(now < param.expiration_time) {
        return Err(RewardVaultError::ExpiredSignature);
    }
    let message = param.message_bytes();
    if !verify_eth_signature(&message, &sig.eth_address, &sig.sig, sig.recovery_id) {
        return Err(RewardVaultError::SigVerificationFailed);
    }
    if param.amount == 0 {
        return Err(RewardVaultError::InvalidAmount);
    }
    let current = ledger.total_deposited(param.project_id, token);
    if current > u64::MAX - param.amount {
        return Err(RewardVaultError::InvalidAmount);
    }
    if let Err(e) = guard.check_and_mark(&sig.sig) {
        return Err(e);
    }
    ledger.record_deposit(param.project_id, token, param.amount);
    Ok(
        TokenDeposited {
            project_id: param.project_id,
            deposit_id: param.deposit_id,
            token: *token,
            amount: param.amount,
        },
    )
}

/// Authorization soundness for deposits: a deposit is accepted only when
/// the co-signature over exactly its parameters verifies against the
/// claimed address.
pub proof fn lemma_deposit_authorization_soundness(
    ledger: ProjectLedger,
    guard: ReplayGuard,
    param: DepositParam,
    token: Seq<u8>,
    sig: SignatureParam,
    now: i64,
)
    ensures
        deposit_ok(ledger, guard, param, token, sig, now) ==> signature_matches(
            param.spec_message(),
            sig.eth_address@,
            sig.sig@,
            sig.recovery_id,
        ),
{
}

/// Replay freedom for deposits: once a fingerprint is in the replay guard —
/// as it is after any accepted deposit, which inserts it — a deposit
/// presenting the same fingerprint is rejected, and when every earlier
/// check passes the reported failure is `SignatureUsed`.
pub proof fn lemma_deposit_replay_freedom(
    ledger: ProjectLedger,
    guard: ReplayGuard,
    param: DepositParam,
    token: Seq<u8>,
    sig: SignatureParam,
    now: i64,
)
    requires
        guard.is_used(sig.fingerprint()),
    ensures
        !deposit_ok(ledger, guard, param, token, sig, now),
        (now < param.expiration_time && signature_matches(
            param.spec_message(),
            sig.eth_address@,
            sig.sig@,
            sig.recovery_id,
        ) && param.amount > 0 && ledger.spec_total(param.project_id, token) + param.amount
            <= u64::MAX) ==> deposit_err(ledger, guard, param, token, sig, now)
            == RewardVaultError::SignatureUsed,
{
}

/// Expiration enforcement for deposits: at or past the stated expiration
/// time the deposit is rejected with `ExpiredSignature`; strictly before
/// it, expiration is not the reported failure.
pub proof fn lemma_deposit_expiration_enforcement(
    ledger: ProjectLedger,
    guard: ReplayGuard,
    param: DepositParam,
    token: Seq<u8>,
    sig: SignatureParam,
    now: i64,
)
    ensures
        now >= param.expiration_time ==> !deposit_ok(ledger, guard, param, token, sig, now)
            && deposit_err(ledger, guard, param, token, sig, now)
            == RewardVaultError::ExpiredSignature,
        now < param.expiration_time ==> deposit_err(ledger, guard, param, token, sig, now)
            != RewardVaultError::ExpiredSignature,
{
}

} // verus!
