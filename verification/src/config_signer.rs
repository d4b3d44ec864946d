//! Owner-gated mutation of the signer registry: adding or removing an
//! authorized signer.

use crate::error::RewardVaultError;
use crate::state::{Pubkey, RewardVault};
use vstd::prelude::*;

verus! {

/// Event recording a successful registry change.
#[derive(Clone, Copy, Debug)]
pub struct SignerConfigured {
    /// The identity that was added or removed.
    pub signer: Pubkey,
    /// True when the identity was added, false when it was removed.
    pub added: bool,
}

/// Whether configuring `signer` must succeed: the caller is the owner and
/// the requested change is possible.
pub open spec fn config_signer_ok(
    vault: RewardVault,
    admin: Seq<u8>,
    signer: Seq<u8>,
    flag: bool,
) -> bool {
    &&& vault.spec_is_owner(admin)
    &&& (flag ==> vault.add_signer_ok(signer))
    &&& (!flag ==> vault.is_signer(signer))
}

/// The failure reported when configuring `signer` is refused: a non-owner
/// caller is rejected before the registry is consulted.
pub open spec fn config_signer_err(
    vault: RewardVault,
    admin: Seq<u8>,
    signer: Seq<u8>,
    flag: bool,
) -> RewardVaultError {
    if !vault.spec_is_owner(admin) {
        RewardVaultError::InvalidSignature
    } else if flag {
        vault.add_signer_err(signer)
    } else {
        RewardVaultError::SignerNotExist
    }
}

/// Adds (`flag` true) or removes (`flag` false) `signer` from the registry
/// of `vault`, on behalf of the caller `admin`.
///
/// Only the current owner may change the registry; any other caller is
/// rejected with `InvalidSignature`. A present signer cannot be added again
/// (`SignerAddedAlready`), an absent one cannot be removed
/// (`SignerNotExist`), and the registry never grows past `MAX_SIGNERS`
/// (`TooManySigners`). On any failure the record is unchanged.
pub fn config_signer(vault: &mut RewardVault, admin: &Pubkey, signer: &Pubkey, flag: bool) -> (r:
    Result<SignerConfigured, RewardVaultError>)
    requires
        old(vault).wf(),
    ensures
        final(vault).wf(),
        final(vault).authority == old(vault).authority,
        r is Ok <==> config_signer_ok(*old(vault), admin@, signer@, flag),
        match r {
            Ok(ev) => {
                &&& ev.signer == *signer
                &&& ev.added == flag
                &&& (flag ==> final(vault).spec_signers() == old(vault).spec_signers().push(
                    signer@,
                ))
                &&& (flag ==> final(vault).is_signer(signer@))
                &&& (!flag ==> !final(vault).is_signer(signer@))
                &&& forall|x: Seq<u8>|
                    x != signer@ ==> (final(vault).is_signer(x) <==> old(vault).is_signer(x))
            },
            Err(e) => {
                &&& e == config_signer_err(*old(vault), admin@, signer@, flag)
                &&& *final(vault) == *old(vault)
            },
        },
{
    if !vault.is_owner(admin) {
        return Err(RewardVaultError::InvalidSignature);
    }
    if flag {
        match vault.add_signer(signer) {
            Ok(()) => {
                proof {
                    let news = vault.spec_signers();
                    let olds = old(vault).spec_signers();
                    assert(news[olds.len() as int] == signer@);
                    assert forall|x: Seq<u8>|
                        x != signer@ implies (vault.is_signer(x) <==> old(vault).is_signer(
                        x,
                    )) by {
                        if olds.contains(x) {
                            let k = choose|k: int| 0 <= k < olds.len() && olds[k] == x;
                            assert(news[k] == x);
                        }
                        if news.contains(x) {
                            let k = choose|k: int| 0 <= k < news.len() && news[k] == x;
                            assert(k < olds.len());
                            assert(olds[k] == x);
                        }
                    }
                }
                Ok(SignerConfigured { signer: *signer, added: true })
            },
            Err(e) => Err(e),
        }
    } else {
        match vault.remove_signer(signer) {
            Ok(()) => Ok(SignerConfigured { signer: *signer, added: false }),
            Err(e) => Err(e),
        }
    }
}

/// Authorization soundness for registry changes: a configuration succeeds
/// only when the caller is the vault owner.
pub proof fn lemma_config_signer_owner_gated(
    vault: RewardVault,
    admin: Seq<u8>,
    signer: Seq<u8>,
    flag: bool,
)
    ensures
        config_signer_ok(vault, admin, signer, flag) ==> vault.spec_is_owner(admin),
        !vault.spec_is_owner(admin) ==> config_signer_err(vault, admin, signer, flag)
            == RewardVaultError::InvalidSignature,
{
}

} // verus!
