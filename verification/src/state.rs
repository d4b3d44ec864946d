//! Persistent records of the vault: the singleton authority record with its
//! signer registry, and the per-project deposit record.

use crate::bytes::bytes_eq;
use crate::error::RewardVaultError;
use vstd::prelude::*;

verus! {

/// A 32-byte account identity, compared byte for byte.
pub type Pubkey = [u8; 32];

/// Upper bound on the size of the signer registry.
pub const MAX_SIGNERS: usize = 10;

/// The singleton vault authority: the owning identity and the ordered set
/// of identities authorized to approve fund movement.
///
/// Created once by [`crate::initialize::initialize`]; the owner is changed
/// only by [`crate::transfer_ownership::transfer_ownership`] and the signer
/// set only by [`crate::config_signer::config_signer`].
pub struct RewardVault {
    /// The identity empowered to mutate the registry and transfer
    /// ownership.
    pub authority: Pubkey,
    /// The identities authorized to approve withdrawals and claims, in
    /// insertion order, without duplicates.
    pub signers: Vec<Pubkey>,
}

impl RewardVault {
    /// The signer registry as a sequence of 32-byte identities.
    pub open spec fn spec_signers(self) -> Seq<Seq<u8>> {
        self.signers@.map(|i: int, s: Pubkey| s@)
    }

    /// Whether `id` is in the signer registry.
    pub open spec fn is_signer(self, id: Seq<u8>) -> bool {
        self.spec_signers().contains(id)
    }

    /// Whether `id` is the owning authority.
    pub open spec fn spec_is_owner(self, id: Seq<u8>) -> bool {
        self.authority@ == id
    }

    /// Structural invariant: the registry is within capacity and free of
    /// duplicates.
    pub open spec fn wf(self) -> bool {
        &&& self.signers@.len() <= MAX_SIGNERS
        &&& forall|i: int, j: int|
            #![trigger self.spec_signers()[i], self.spec_signers()[j]]
            0 <= i < j < self.signers@.len() ==> self.spec_signers()[i] != self.spec_signers()[j]
    }

    /// Whether adding `id` must succeed: it is absent and the registry has
    /// room.
    pub open spec fn add_signer_ok(self, id: Seq<u8>) -> bool {
        &&& !self.is_signer(id)
        &&& self.signers@.len() < MAX_SIGNERS
    }

    /// The failure reported when adding `id` is refused.
    pub open spec fn add_signer_err(self, id: Seq<u8>) -> RewardVaultError {
        if self.is_signer(id) {
            RewardVaultError::SignerAddedAlready
        } else {
            RewardVaultError::TooManySigners
        }
    }

    /// Membership test against the signer registry.
    pub fn is_valid_signer(&self, signer: &Pubkey) -> (r: bool)
        ensures
            r == self.is_signer(signer@),
    {
        let n = self.signers.len();
        let mut i: usize = 0;
        while i < n
            invariant
                0 <= i <= n,
                n == self.signers@.len(),
                forall|k: int| 0 <= k < i ==> self.signers@[k]@ != signer@,
            decreases n - i,
        {
            if bytes_eq(&self.signers[i], signer) {
                assert(self.spec_signers()[i as int] == signer@);
                return true;
            }
            i += 1;
        }
        assert(forall|k: int|
            0 <= k < self.spec_signers().len() ==> self.spec_signers()[k] != signer@);
        false
    }

    /// Equality test against the owning authority.
    pub fn is_owner(&self, owner: &Pubkey) -> (r: bool)
        ensures
            r == self.spec_is_owner(owner@),
    {
        bytes_eq(&self.authority, owner)
    }

    /// Appends `new_signer` to the registry.
    ///
    /// Fails with `SignerAddedAlready` if it is already present and with
    /// `TooManySigners` if the registry is full; on failure the record is
    /// unchanged.
    pub fn add_signer(&mut self, new_signer: &Pubkey) -> (r: Result<(), RewardVaultError>)
        requires
            old(self).wf(),
        ensures
            final(self).wf(),
            final(self).authority == old(self).authority,
            old(self).add_signer_ok(new_signer@) ==> {
                &&& r == Ok::<(), RewardVaultError>(())
                &&& final(self).spec_signers() == old(self).spec_signers().push(new_signer@)
            },
            !old(self).add_signer_ok(new_signer@) ==> {
                &&& r == Err::<(), RewardVaultError>(old(self).add_signer_err(new_signer@))
                &&& *final(self) == *old(self)
            },
    {
        if self.is_valid_signer(new_signer) {
            return Err(RewardVaultError::SignerAddedAlready);
        }
        if self.signers.len() >= MAX_SIGNERS {
            return Err(RewardVaultError::TooManySigners);
        }
        proof {
            assert(forall|k: int|
                0 <= k < self.spec_signers().len() ==> self.spec_signers()[k] != new_signer@);
        }
        self.signers.push(*new_signer);
        proof {
            let olds = old(self).spec_signers();
            assert(self.spec_signers() =~= olds.push(new_signer@));
            assert forall|a: int, b: int|
                0 <= a < b < self.spec_signers().len() implies self.spec_signers()[a] != self
                .spec_signers()[b] by {
                if b < olds.len() {
                    assert(self.spec_signers()[a] == olds[a]);
                    assert(self.spec_signers()[b] == olds[b]);
                } else {
                    assert(self.spec_signers()[b] == new_signer@);
                    assert(self.spec_signers()[a] == olds[a]);
                    if olds[a] == new_signer@ {
                        assert(olds.contains(new_signer@));
                    }
                }
            }
        }
        Ok(())
    }

    /// Removes `signer` from the registry.
    ///
    /// Fails with `SignerNotExist` if it is absent; on failure the record is
    /// unchanged. On success exactly the one occurrence of `signer` is
    /// gone and every other identity keeps its membership.
    pub fn remove_signer(&mut self, signer: &Pubkey) -> (r: Result<(), RewardVaultError>)
        requires
            old(self).wf(),
        ensures
            final(self).wf(),
            final(self).authority == old(self).authority,
            !old(self).is_signer(signer@) ==> {
                &&& r == Err::<(), RewardVaultError>(RewardVaultError::SignerNotExist)
                &&& *final(self) == *old(self)
            },
            old(self).is_signer(signer@) ==> {
                &&& r == Ok::<(), RewardVaultError>(())
                &&& !final(self).is_signer(signer@)
                &&& exists|i: int|
                    0 <= i < old(self).spec_signers().len()
                        && old(self).spec_signers()[i] == signer@
                        && final(self).spec_signers() == old(self).spec_signers().remove(i)
                &&& forall|x: Seq<u8>|
                    x != signer@ ==> (final(self).is_signer(x) <==> old(self).is_signer(x))
            },
    {
        let n = self.signers.len();
        let mut i: usize = 0;
        while i < n
            invariant
                0 <= i <= n,
                *self == *old(self),
                old(self).wf(),
                n == self.signers@.len(),
                forall|k: int| 0 <= k < i ==> self.signers@[k]@ != signer@,
            decreases n - i,
        {
            if bytes_eq(&self.signers[i], signer) {
                self.signers.remove(i);
                proof {
                    let iv = i as int;
                    let os = old(self).signers@;
                    os.remove_ensures(iv);
                    old(self).spec_signers().remove_ensures(iv);
                    assert(old(self).spec_signers()[iv] == signer@);
                    assert(old(self).is_signer(signer@));
                    lemma_registry_remove(old(self).spec_signers(), iv, signer@);
                    assert forall|k: int| 0 <= k < self.spec_signers().len() implies self
                        .spec_signers()[k] == old(self).spec_signers().remove(iv)[k] by {
                        if k < iv {
                            assert(self.signers@[k] == os[k]);
                            assert(old(self).spec_signers().remove(iv)[k] == old(
                                self,
                            ).spec_signers()[k]);
                        } else {
                            assert(self.signers@[k] == os[k + 1]);
                            assert(old(self).spec_signers().remove(iv)[k] == old(
                                self,
                            ).spec_signers()[k + 1]);
                        }
                    }
                    assert(self.spec_signers() =~= old(self).spec_signers().remove(iv));
                    let olds = old(self).spec_signers();
                    assert forall|a: int, b: int|
                        0 <= a < b < self.signers@.len() implies self.spec_signers()[a] != self
                        .spec_signers()[b] by {
                        let a0 = if a < iv { a } else { a + 1 };
                        let b0 = if b < iv { b } else { b + 1 };
                        assert(self.spec_signers()[a] == olds[a0]);
                        assert(self.spec_signers()[b] == olds[b0]);
                        assert(olds[a0] != olds[b0]);
                    }
                }
                return Ok(());
            }
            i += 1;
        }
        assert(forall|k: int|
            0 <= k < self.spec_signers().len() ==> self.spec_signers()[k] != signer@);
        Err(RewardVaultError::SignerNotExist)
    }
}

/// Removing index `i` from a duplicate-free sequence of identities removes
/// the membership of the identity at `i` and no other.
proof fn lemma_registry_remove(s: Seq<Seq<u8>>, i: int, id: Seq<u8>)
    requires
        0 <= i < s.len(),
        s[i] == id,
        forall|a: int, b: int| 0 <= a < b < s.len() ==> s[a] != s[b],
    ensures
        !s.remove(i).contains(id),
        forall|x: Seq<u8>| x != id ==> (s.remove(i).contains(x) <==> s.contains(x)),
{
    let t = s.remove(i);
    s.remove_ensures(i);
    assert forall|k: int| 0 <= k < t.len() implies t[k] != id by {
        if k < i {
            assert(t[k] == s[k]);
        } else {
            assert(t[k] == s[k + 1]);
        }
    }
    assert forall|x: Seq<u8>| x != id implies (t.contains(x) <==> s.contains(x)) by {
        if t.contains(x) {
            let k = choose|k: int| 0 <= k < t.len() && t[k] == x;
            if k < i {
                assert(s[k] == x);
            } else {
                assert(s[k + 1] == x);
            }
            assert(s.contains(x));
        }
        if s.contains(x) {
            let k = choose|k: int| 0 <= k < s.len() && s[k] == x;
            if k < i {
                assert(t[k] == x);
            } else {
                assert(k > i);
                assert(t[k - 1] == x);
            }
            assert(t.contains(x));
        }
    }
}

/// A per-(project, asset) custody record: the accumulated amount deposited
/// under `id` for the asset `token`.
///
/// Created by the first accepted deposit for its key and never deleted;
/// later deposits only add to `amounts`.
#[derive(Clone, Copy)]
pub struct ProjectVault {
    /// Identifier of the deposited asset.
    pub token: Pubkey,
    /// External project identifier.
    pub id: u64,
    /// Sum of all accepted deposit amounts for this key.
    pub amounts: u64,
}

} // verus!
