//! The replay guard: the set of authorization-signature fingerprints that
//! have already been consumed by a successful operation.
//!
//! A fingerprint is the 64 signature bytes themselves. A record is created
//! at the moment a gated operation passes every other check and executes,
//! and is never deleted, so a consumed authorization can never authorize a
//! second execution.

use crate::bytes::bytes_eq;
use crate::error::RewardVaultError;
use vstd::prelude::*;

verus! {

/// The collection of consumed signature fingerprints.
pub struct ReplayGuard {
    /// Consumed fingerprints, in order of consumption, without duplicates.
    pub used: Vec<[u8; 64]>,
}

impl ReplayGuard {
    /// The consumed fingerprints as a set of byte sequences.
    pub open spec fn spec_used(self) -> Set<Seq<u8>> {
        Set::new(|f: Seq<u8>| exists|i: int| 0 <= i < self.used@.len() && self.used@[i]@ == f)
    }

    /// Whether `fingerprint` was already consumed.
    pub open spec fn is_used(self, fingerprint: Seq<u8>) -> bool {
        self.spec_used().contains(fingerprint)
    }

    /// Structural invariant: one record per fingerprint.
    pub open spec fn wf(self) -> bool {
        forall|i: int, j: int| 0 <= i < j < self.used@.len() ==> self.used@[i]@ != self.used@[j]@
    }

    /// An empty guard: no signature has been consumed.
    pub fn new() -> (r: ReplayGuard)
        ensures
            r.wf(),
            r.spec_used() == Set::<Seq<u8>>::empty(),
    {
        let r = ReplayGuard { used: Vec::new() };
        proof {
            assert(r.spec_used() =~= Set::<Seq<u8>>::empty());
        }
        r
    }

    /// Consumes `fingerprint`: fails with `SignatureUsed` and changes
    /// nothing if it was consumed before, otherwise records it.
    ///
    /// This is the last guard a gated operation runs before the
    /// irreversible fund transfer; its mutation must be committed in the
    /// same atomic unit as that transfer.
    pub fn check_and_mark(&mut self, fingerprint: &[u8; 64]) -> (r: Result<(), RewardVaultError>)
        requires
            old(self).wf(),
        ensures
            final(self).wf(),
            old(self).is_used(fingerprint@) ==> {
                &&& r == Err::<(), RewardVaultError>(RewardVaultError::SignatureUsed)
                &&& *final(self) == *old(self)
            },
            !old(self).is_used(fingerprint@) ==> {
                &&& r == Ok::<(), RewardVaultError>(())
                &&& final(self).spec_used() == old(self).spec_used().insert(fingerprint@)
            },
    {
        let n = self.used.len();
        let mut i: usize = 0;
        while i < n
            invariant
                0 <= i <= n,
                *self == *old(self),
                old(self).wf(),
                n == self.used@.len(),
                forall|k: int| 0 <= k < i ==> self.used@[k]@ != fingerprint@,
            decreases n - i,
        {
            if bytes_eq(&self.used[i], fingerprint) {
                proof {
                    assert(old(self).is_used(fingerprint@));
                }
                return Err(RewardVaultError::SignatureUsed);
            }
            i += 1;
        }
        proof {
            assert(!old(self).is_used(fingerprint@));
        }
        self.used.push(*fingerprint);
        proof {
            let ov = old(self).used@;
            assert forall|a: int, b: int|
                0 <= a < b < self.used@.len() implies self.used@[a]@ != self.used@[b]@ by {
                if b < ov.len() {
                    assert(self.used@[a] == ov[a]);
                    assert(self.used@[b] == ov[b]);
                } else {
                    assert(self.used@[b]@ == fingerprint@);
                    assert(self.used@[a] == ov[a]);
                }
            }
            assert forall|f: Seq<u8>| #[trigger]
                self.spec_used().contains(f) == old(self).spec_used().insert(
                    fingerprint@,
                ).contains(f) by {
                if self.spec_used().contains(f) {
                    let k = choose|k: int| 0 <= k < self.used@.len() && self.used@[k]@ == f;
                    if k < ov.len() {
                        assert(ov[k]@ == f);
                        assert(old(self).spec_used().contains(f));
                    } else {
                        assert(f == fingerprint@);
                    }
                }
                if old(self).spec_used().contains(f) {
                    let k = choose|k: int| 0 <= k < ov.len() && ov[k]@ == f;
                    assert(self.used@[k]@ == f);
                    assert(self.spec_used().contains(f));
                }
                if f == fingerprint@ {
                    assert(self.used@[ov.len() as int]@ == f);
                    assert(self.spec_used().contains(f));
                }
            }
            assert(self.spec_used() =~= old(self).spec_used().insert(fingerprint@));
        }
        Ok(())
    }
}

} // verus!
