//! The one-time creation of the singleton vault authority record.

use crate::error::RewardVaultError;
use crate::state::{Pubkey, RewardVault};
use vstd::prelude::*;

verus! {

/// Event recording that the vault authority was created.
#[derive(Clone, Copy, Debug)]
pub struct RewardVaultInitialized {
    /// The owning authority the vault was created with.
    pub authority: Pubkey,
}

/// Creates the vault authority record in `slot` with `authority` as owner
/// and an empty signer registry.
///
/// `slot` is the deployment's single storage cell for the record: the
/// operation fails with `AlreadyInitialized` and changes nothing if the
/// record already exists, so the vault authority is created at most once.
pub fn initialize(slot: &mut Option<RewardVault>, authority: &Pubkey) -> (r: Result<
    RewardVaultInitialized,
    RewardVaultError,
>)
    ensures
        (*old(slot)) is Some ==> {
            &&& r == Err::<RewardVaultInitialized, RewardVaultError>(
                RewardVaultError::AlreadyInitialized,
            )
            &&& *final(slot) == *old(slot)
        },
        (*old(slot)) is None ==> {
            &&& r is Ok
            &&& (*final(slot)) is Some
            &&& (*final(slot))->0.wf()
            &&& (*final(slot))->0.authority@ == authority@
            &&& (*final(slot))->0.spec_signers() == Seq::<Seq<u8>>::empty()
            &&& r->Ok_0.authority@ == authority@
        },
{
    if slot.is_some() {
        return Err(RewardVaultError::AlreadyInitialized);
    }
    let vault = RewardVault { authority: *authority, signers: Vec::new() };
    proof {
        assert(vault.spec_signers() =~= Seq::<Seq<u8>>::empty());
    }
    *slot = Some(vault);
    Ok(RewardVaultInitialized { authority: *authority })
}

} // verus!
