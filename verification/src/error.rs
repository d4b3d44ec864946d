use vstd::prelude::*;

verus! {

/// Typed failure of a vault operation.
///
/// Every operation either applies in full or fails with one of these values
/// and leaves all vault state unchanged.
#[derive(Clone, Copy, Debug, PartialEq, Eq, Structural)]
pub enum RewardVaultError {
    /// The caller is not the vault owner, or (for gated fund movement) the
    /// invoking admin identity is not in the signer registry.
    InvalidSignature,
    /// The stated expiration time has been reached: the current time is at
    /// or past `expiration_time`.
    ExpiredSignature,
    /// The requested amount exceeds the vault's custody balance for the
    /// asset.
    WithdrawTooMuch,
    /// The identity is already present in the signer registry.
    SignerAddedAlready,
    /// The identity is absent from the signer registry.
    SignerNotExist,
    /// Cryptographic recovery of the co-signing identity failed, or the
    /// recovered identity does not match the claimed one.
    SigVerificationFailed,
    /// The authorization signature was already consumed by an earlier
    /// successful operation.
    SignatureUsed,
    /// The amount is zero, or recording it would overflow the accumulated
    /// deposit total.
    InvalidAmount,
    /// Adding the signer would grow the registry past `MAX_SIGNERS`.
    TooManySigners,
    /// The singleton vault authority record already exists.
    AlreadyInitialized,
}

} // verus!
