//! Owner-gated replacement of the vault's owning authority.

use crate::error::RewardVaultError;
use crate::state::{Pubkey, RewardVault};
use vstd::prelude::*;

verus! {

/// Event recording a successful change of the owning authority.
#[derive(Clone, Copy, Debug)]
pub struct RewardVaultOwnershipTransfered {
    /// The new owning authority.
    pub authority: Pubkey,
}

/// Replaces the owning authority of `vault` by `new_admin`, on behalf of
/// the caller `admin`.
///
/// Only the current owner may transfer ownership; any other caller is
/// rejected with `InvalidSignature` and the record is unchanged. The signer
/// registry is never touched.
pub fn transfer_ownership(vault: &mut RewardVault, admin: &Pubkey, new_admin: &Pubkey) -> (r:
    Result<RewardVaultOwnershipTransfered, RewardVaultError>)
    requires
        old(vault).wf(),
    ensures
        final(vault).wf(),
        final(vault).spec_signers() == old(vault).spec_signers(),
        r is Ok <==> old(vault).spec_is_owner(admin@),
        match r {
            Ok(ev) => {
                &&& final(vault).authority == *new_admin
                &&& ev.authority == *new_admin
            },
            Err(e) => {
                &&& e == RewardVaultError::InvalidSignature
                &&& *final(vault) == *old(vault)
            },
        },
{
    if !vault.is_owner(admin) {
        return Err(RewardVaultError::InvalidSignature);
    }
    vault.authority = *new_admin;
    proof {
        assert(vault.spec_signers() =~= old(vault).spec_signers());
    }
    Ok(RewardVaultOwnershipTransfered { authority: *new_admin })
}

} // verus!
