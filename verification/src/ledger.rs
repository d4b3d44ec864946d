//! The project ledger: one custody record per (project, asset) key,
//! accumulated by deposits.
//!
//! The record for a key is created by the first accepted deposit and only
//! ever grows; withdrawals are validated against the external custody
//! balance, not against this ledger, so no decrement is defined.

use crate::bytes::bytes_eq;
use crate::state::{ProjectVault, Pubkey};
use vstd::prelude::*;

verus! {

/// The accumulated amount the records in `s` hold for the key
/// `(project_id, token)`.
pub open spec fn total_of_records(s: Seq<ProjectVault>, project_id: u64, token: Seq<u8>) -> int
    decreases s.len(),
{
    if s.len() == 0 {
        0
    } else {
        total_of_records(s.drop_last(), project_id, token) + if s.last().id == project_id
            && s.last().token@ == token {
            s.last().amounts as int
        } else {
            0
        }
    }
}

/// All project custody records.
pub struct ProjectLedger {
    /// The records, one per (project, asset) key, in order of creation.
    pub vaults: Vec<ProjectVault>,
}

impl ProjectLedger {
    /// The accumulated deposits under `(project_id, token)`; zero when no
    /// record exists.
    pub open spec fn spec_total(self, project_id: u64, token: Seq<u8>) -> int {
        total_of_records(self.vaults@, project_id, token)
    }

    /// Whether a record for `(project_id, token)` exists.
    pub open spec fn has_record(self, project_id: u64, token: Seq<u8>) -> bool {
        exists|i: int|
            0 <= i < self.vaults@.len() && self.vaults@[i].id == project_id && self.vaults@[i].token@
                == token
    }

    /// Structural invariant: at most one record per (project, asset) key.
    pub open spec fn wf(self) -> bool {
        forall|i: int, j: int|
            0 <= i < j < self.vaults@.len() ==> !(self.vaults@[i].id == self.vaults@[j].id
                && self.vaults@[i].token@ == self.vaults@[j].token@)
    }

    /// An empty ledger: nothing deposited yet.
    pub fn new() -> (r: ProjectLedger)
        ensures
            r.wf(),
            forall|id: u64, t: Seq<u8>| r.spec_total(id, t) == 0,
            forall|id: u64, t: Seq<u8>| !r.has_record(id, t),
    {
        ProjectLedger { vaults: Vec::new() }
    }

    /// The index of the record for `(project_id, token)`, if one exists.
    fn find_record(&self, project_id: u64, token: &Pubkey) -> (r: Option<usize>)
        ensures
            match r {
                Some(i) => 0 <= i < self.vaults@.len() && self.vaults@[i as int].id == project_id
                    && self.vaults@[i as int].token@ == token@,
                None => !self.has_record(project_id, token@),
            },
    {
        let n = self.vaults.len();
        let mut i: usize = 0;
        while i < n
            invariant
                0 <= i <= n,
                n == self.vaults@.len(),
                forall|k: int|
                    0 <= k < i ==> !(self.vaults@[k].id == project_id && self.vaults@[k].token@
                        == token@),
            decreases n - i,
        {
            if self.vaults[i].id == project_id && bytes_eq(&self.vaults[i].token, token) {
                return Some(i);
            }
            i += 1;
        }
        None
    }

    /// Reads the accumulated deposits under `(project_id, token)`.
    pub fn total_deposited(&self, project_id: u64, token: &Pubkey) -> (r: u64)
        requires
            self.wf(),
        ensures
            r == self.spec_total(project_id, token@),
    {
        match self.find_record(project_id, token) {
            Some(i) => {
                proof {
                    lemma_total_single(self.vaults@, project_id, token@, i as int);
                }
                self.vaults[i].amounts
            },
            None => {
                proof {
                    lemma_total_absent(self.vaults@, project_id, token@);
                }
                0
            },
        }
    }

    /// Records an accepted deposit of `amount` under `(project_id, token)`
    /// and returns the new accumulated total for that key.
    ///
    /// The first deposit for a key creates its record; later deposits only
    /// add to it. Totals under every other key are untouched.
    pub fn record_deposit(&mut self, project_id: u64, token: &Pubkey, amount: u64) -> (new_total:
        u64)
        requires
            old(self).wf(),
            amount > 0,
            old(self).spec_total(project_id, token@) + amount <= u64::MAX,
        ensures
            final(self).wf(),
            new_total == old(self).spec_total(project_id, token@) + amount,
            final(self).spec_total(project_id, token@) == new_total,
            final(self).has_record(project_id, token@),
            forall|id2: u64, t2: Seq<u8>|
                !(id2 == project_id && t2 == token@) ==> final(self).spec_total(id2, t2) == old(
                    self,
                ).spec_total(id2, t2),
    {
        match self.find_record(project_id, token) {
            Some(i) => {
                proof {
                    lemma_total_single(self.vaults@, project_id, token@, i as int);
                }
                let current = self.vaults[i].amounts;
                let updated = ProjectVault { token: *token, id: project_id, amounts: current
                    + amount };
                self.vaults[i] = updated;
                proof {
                    lemma_total_update(old(self).vaults@, i as int, updated);
                    assert(self.vaults@ == old(self).vaults@.update(i as int, updated));
                    assert forall|a: int, b: int|
                        0 <= a < b < self.vaults@.len() implies !(self.vaults@[a].id
                        == self.vaults@[b].id && self.vaults@[a].token@ == self.vaults@[b].token@) by {
                        assert(self.vaults@[a].id == old(self).vaults@[a].id && self.vaults@[a].token@
                            == old(self).vaults@[a].token@);
                        assert(self.vaults@[b].id == old(self).vaults@[b].id && self.vaults@[b].token@
                            == old(self).vaults@[b].token@);
                    }
                }
                current + amount
            },
            None => {
                proof {
                    lemma_total_absent(self.vaults@, project_id, token@);
                }
                let created = ProjectVault { token: *token, id: project_id, amounts: amount };
                self.vaults.push(created);
                proof {
                    lemma_total_push(old(self).vaults@, created);
                    assert forall|a: int, b: int|
                        0 <= a < b < self.vaults@.len() implies !(self.vaults@[a].id
                        == self.vaults@[b].id && self.vaults@[a].token@ == self.vaults@[b].token@) by {
                        if b < old(self).vaults@.len() {
                            assert(self.vaults@[a] == old(self).vaults@[a]);
                            assert(self.vaults@[b] == old(self).vaults@[b]);
                        } else {
                            assert(self.vaults@[a] == old(self).vaults@[a]);
                            assert(self.vaults@[b] == created);
                        }
                    }
                }
                amount
            },
        }
    }
}

/// In a ledger with unique keys, the total for a key is the amount of its
/// one record.
proof fn lemma_total_single(s: Seq<ProjectVault>, project_id: u64, token: Seq<u8>, i: int)
    requires
        0 <= i < s.len(),
        s[i].id == project_id,
        s[i].token@ == token,
        forall|a: int, b: int|
            0 <= a < b < s.len() ==> !(s[a].id == s[b].id && s[a].token@ == s[b].token@),
    ensures
        total_of_records(s, project_id, token) == s[i].amounts as int,
    decreases s.len(),
{
    if i == s.len() - 1 {
        assert(forall|k: int|
            0 <= k < s.drop_last().len() ==> !(s.drop_last()[k].id == project_id
                && s.drop_last()[k].token@ == token));
        lemma_total_absent(s.drop_last(), project_id, token);
    } else {
        lemma_total_single(s.drop_last(), project_id, token, i);
    }
}

/// A ledger without a record for a key holds a zero total for it.
proof fn lemma_total_absent(s: Seq<ProjectVault>, project_id: u64, token: Seq<u8>)
    requires
        forall|k: int| 0 <= k < s.len() ==> !(s[k].id == project_id && s[k].token@ == token),
    ensures
        total_of_records(s, project_id, token) == 0,
    decreases s.len(),
{
    if s.len() > 0 {
        lemma_total_absent(s.drop_last(), project_id, token);
    }
}

/// Replacing the record at `i` by one with the same key changes that key's
/// total by the difference of the amounts and no other key's total.
proof fn lemma_total_update(s: Seq<ProjectVault>, i: int, r2: ProjectVault)
    requires
        0 <= i < s.len(),
        s[i].id == r2.id,
        s[i].token@ == r2.token@,
    ensures
        total_of_records(s.update(i, r2), r2.id, r2.token@) == total_of_records(
            s,
            r2.id,
            r2.token@,
        ) - s[i].amounts + r2.amounts,
        forall|id2: u64, t2: Seq<u8>|
            !(id2 == r2.id && t2 == r2.token@) ==> total_of_records(s.update(i, r2), id2, t2)
                == total_of_records(s, id2, t2),
    decreases s.len(),
{
    let s2 = s.update(i, r2);
    if i == s.len() - 1 {
        assert(s2.drop_last() =~= s.drop_last());
        assert(s2.last() == r2);
        assert forall|id2: u64, t2: Seq<u8>|
            !(id2 == r2.id && t2 == r2.token@) implies total_of_records(s2, id2, t2)
            == total_of_records(s, id2, t2) by {
            assert(total_of_records(s2, id2, t2) == total_of_records(s.drop_last(), id2, t2));
            assert(total_of_records(s, id2, t2) == total_of_records(s.drop_last(), id2, t2));
        }
    } else {
        assert(s2.drop_last() =~= s.drop_last().update(i, r2));
        assert(s2.last() == s.last());
        lemma_total_update(s.drop_last(), i, r2);
        assert forall|id2: u64, t2: Seq<u8>|
            !(id2 == r2.id && t2 == r2.token@) implies total_of_records(s2, id2, t2)
            == total_of_records(s, id2, t2) by {
            assert(total_of_records(s2, id2, t2) == total_of_records(s2.drop_last(), id2, t2) + (
            if s2.last().id == id2 && s2.last().token@ == t2 {
                s2.last().amounts as int
            } else {
                0
            }));
            assert(total_of_records(s, id2, t2) == total_of_records(s.drop_last(), id2, t2) + (
            if s.last().id == id2 && s.last().token@ == t2 {
                s.last().amounts as int
            } else {
                0
            }));
            assert(total_of_records(s2.drop_last(), id2, t2) == total_of_records(
                s.drop_last(),
                id2,
                t2,
            ));
        }
    }
}

/// Appending a record adds its amount to its own key's total and changes no
/// other key's total.
proof fn lemma_total_push(s: Seq<ProjectVault>, r: ProjectVault)
    ensures
        total_of_records(s.push(r), r.id, r.token@) == total_of_records(s, r.id, r.token@)
            + r.amounts,
        forall|id2: u64, t2: Seq<u8>|
            !(id2 == r.id && t2 == r.token@) ==> total_of_records(s.push(r), id2, t2)
                == total_of_records(s, id2, t2),
{
    assert(s.push(r).drop_last() =~= s);
    assert(s.push(r).last() == r);
}

/// The accumulated total after running a sequence of deposit attempts
/// against one (project, asset) key: an accepted attempt adds its amount,
/// a rejected one adds nothing.
pub open spec fn apply_deposits(initial: int, attempts: Seq<(u64, bool)>) -> int
    decreases attempts.len(),
{
    if attempts.len() == 0 {
        initial
    } else {
        apply_deposits(
            if attempts[0].1 {
                initial + attempts[0].0
            } else {
                initial
            },
            attempts.drop_first(),
        )
    }
}

/// The sum of the amounts of the accepted attempts.
pub open spec fn sum_accepted(attempts: Seq<(u64, bool)>) -> int
    decreases attempts.len(),
{
    if attempts.len() == 0 {
        0
    } else {
        (if attempts[0].1 {
            attempts[0].0 as int
        } else {
            0
        }) + sum_accepted(attempts.drop_first())
    }
}

/// Ledger accounting: over any sequence of deposit attempts against one
/// (project, asset) key, the accumulated total equals the initial total
/// plus the sum of the accepted amounts; rejected attempts contribute
/// nothing. An accepted attempt changes the total exactly as
/// [`ProjectLedger::record_deposit`] ensures, and a rejected one leaves the
/// ledger untouched as the deposit operation ensures.
pub proof fn lemma_ledger_accounting(initial: int, attempts: Seq<(u64, bool)>)
    ensures
        apply_deposits(initial, attempts) == initial + sum_accepted(attempts),
    decreases attempts.len(),
{
    if attempts.len() > 0 {
        if attempts[0].1 {
            lemma_ledger_accounting(initial + attempts[0].0, attempts.drop_first());
        } else {
            lemma_ledger_accounting(initial, attempts.drop_first());
        }
    }
}

} // verus!
