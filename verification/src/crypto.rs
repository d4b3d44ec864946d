//! The signature verifier: recovery of the co-signing identity from an
//! authorization signature and comparison against the claimed identity.
//!
//! An authorization message is co-signed in the Ethereum style: the signer's
//! identity is the last 20 bytes of the Keccak-256 digest of its 64-byte
//! secp256k1 public key, and the signature is a 64-byte `r || s` pair with a
//! recovery indicator from which the public key can be recovered given the
//! Keccak-256 digest of the message. The two primitives are trusted outside
//! calls; everything around them is verified.

use vstd::prelude::*;

verus! {

/// Number of bytes in a claimed co-signer identity.
pub const ETH_ADDRESS_LEN: usize = 20;

/// A claimed co-signer identity: the last 20 bytes of the Keccak-256 digest
/// of the signer's public key.
pub type EthAddress = [u8; 20];

/// A 64-byte secp256k1 ECDSA signature (`r || s`).
pub type SignatureBytes = [u8; 64];

/// The Keccak-256 digest of a byte sequence.
///
/// Left uninterpreted: it stands for what [`keccak256`] returns, which is a
/// function of the input bytes alone.
pub uninterp spec fn keccak256_of(data: Seq<u8>) -> Seq<u8>;

/// The public key recovered from a 32-byte message digest, a recovery
/// indicator and a 64-byte signature, or `None` when the signature is
/// malformed (bad recovery indicator, out-of-range scalars, no curve
/// solution).
///
/// Left uninterpreted: it stands for what [`recover_pubkey`] returns, which
/// is a function of its arguments alone.
pub uninterp spec fn secp256k1_recovered(
    digest: Seq<u8>,
    recovery_id: u8,
    signature: Seq<u8>,
) -> Option<Seq<u8>>;

/// Relies on `solana_program::keccak::hash`: the Keccak-256 digest of the
/// input, 32 bytes, a deterministic function of the input bytes alone.
#[verifier::external_body]
pub(crate) fn keccak256(data: &[u8]) -> (r: [u8; 32])
    ensures
        r@ == keccak256_of(data@),
{
    solana_program::keccak::hash(data).to_bytes()
}

/// Relies on `solana_program::secp256k1_recover::secp256k1_recover`: ECDSA
/// public-key recovery over the secp256k1 curve, a deterministic function of
/// the digest, recovery indicator and signature; it returns an error (and
/// never panics) when the recovery indicator or the signature is invalid.
/// The digest and signature lengths it checks are fixed here by the array
/// types.
#[verifier::external_body]
pub(crate) fn recover_pubkey(digest: &[u8; 32], recovery_id: u8, signature: &[u8; 64]) -> (r: Option<
    [u8; 64],
>)
    ensures
        match r {
            Some(pk) => secp256k1_recovered(digest@, recovery_id, signature@) == Some(pk@),
            None => secp256k1_recovered(digest@, recovery_id, signature@) is None,
        },
{
    match solana_program::secp256k1_recover::secp256k1_recover(
        digest.as_slice(),
        recovery_id,
        signature.as_slice(),
    ) {
        Ok(pk) => Some(pk.to_bytes()),
        Err(_) => None,
    }
}

/// The identity derived from a recovered public key: the last 20 bytes of
/// its Keccak-256 digest.
pub open spec fn eth_address_of(pubkey: Seq<u8>) -> Seq<u8> {
    keccak256_of(pubkey).subrange(12, 32)
}

/// Whether the signature over `message` was produced by the holder of
/// `claimed`: the public key recovered from the Keccak-256 digest of
/// `message` exists and derives to exactly `claimed`.
pub open spec fn signature_matches(
    message: Seq<u8>,
    claimed: Seq<u8>,
    signature: Seq<u8>,
    recovery_id: u8,
) -> bool {
    match secp256k1_recovered(keccak256_of(message), recovery_id, signature) {
        Some(pk) => eth_address_of(pk) == claimed,
        None => false,
    }
}

/// Compares the identity derived from a recovered public key against a
/// claimed identity, byte for byte.
pub fn pubkey_matches_eth_address(pubkey: &[u8; 64], claimed: &EthAddress) -> (r: bool)
    ensures
        r == (eth_address_of(pubkey@) == claimed@),
{
    let digest = keccak256(pubkey.as_slice());
    let mut i: usize = 0;
    while i < ETH_ADDRESS_LEN
        invariant
            0 <= i <= ETH_ADDRESS_LEN,
            digest@ == keccak256_of(pubkey@),
            digest@.len() == 32,
            forall|k: int| 0 <= k < i ==> digest@[12 + k] == claimed@[k],
        decreases ETH_ADDRESS_LEN - i,
    {
        if digest[12 + i] != claimed[i] {
            assert(eth_address_of(pubkey@)[i as int] != claimed@[i as int]);
            return false;
        }
        i += 1;
    }
    assert(eth_address_of(pubkey@) =~= claimed@);
    true
}

/// Decides whether `signature` is a valid authorization of `message` by the
/// holder of the identity `claimed`.
///
/// Pure and free of side effects: safe to call before any state mutation.
/// A malformed signature is reported as a `false` result, never as a panic.
pub fn verify_eth_signature(
    message: &Vec<u8>,
    claimed: &EthAddress,
    signature: &SignatureBytes,
    recovery_id: u8,
) -> (r: bool)
    ensures
        r == signature_matches(message@, claimed@, signature@, recovery_id),
{
    let digest = keccak256(message.as_slice());
    match recover_pubkey(&digest, recovery_id, signature) {
        Some(pubkey) => pubkey_matches_eth_address(&pubkey, claimed),
        None => false,
    }
}

} // verus!
