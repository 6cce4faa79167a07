//! Verification-record store semantics.
//!
//! One [`VerifiedUser`] record per (platform-user, external-account) claim.
//! The store exposes exactly the queries the workflow needs: find a user's
//! verified record, insert a pending claim, list and evict competing claims
//! to the same external name, mark a claim proven, and delete everything a
//! user owns. Each operation carries an exact contract over the store's
//! mathematical view, a sequence of [`Record`]s.

use vstd::prelude::*;

verus! {

/// One claim linking a platform user to an external account name.
pub struct VerifiedUser {
    /// Platform user identifier, in string form; not unique on its own.
    pub id: String,
    /// Claimed external account name, case-sensitive as supplied.
    pub habbo: String,
    /// False while the challenge is outstanding or abandoned; true once proven.
    pub verified: bool,
}

/// Mathematical view of a [`VerifiedUser`].
pub struct Record {
    pub id: Seq<char>,
    pub habbo: Seq<char>,
    pub verified: bool,
}

impl View for VerifiedUser {
    type V = Record;

    open spec fn view(&self) -> Record {
        Record { id: self.id@, habbo: self.habbo@, verified: self.verified }
    }
}

impl VerifiedUser {
    pub fn new(id: String, habbo: String, verified: bool) -> (r: VerifiedUser)
        ensures
            r@ == (Record { id: id@, habbo: habbo@, verified }),
    {
        VerifiedUser { id, habbo, verified }
    }
}

/// True when `r` is a verified record owned by `id`: the query that gates a
/// fresh verification attempt.
pub open spec fn is_verified_claim(r: Record, id: Seq<char>) -> bool {
    r.id == id && r.verified
}

/// True when `r` claims the external name `habbo` but belongs to someone
/// other than `except_id`: the conflict-resolution query.
pub open spec fn claims_name(r: Record, habbo: Seq<char>, except_id: Seq<char>) -> bool {
    r.habbo == habbo && r.id != except_id
}

/// True when `r` is the claim of `id` on `habbo`, whatever its flag: the
/// query that selects the record to mark verified.
pub open spec fn claim_pair(r: Record, id: Seq<char>, habbo: Seq<char>) -> bool {
    r.id == id && r.habbo == habbo
}

/// `s` with every competing claim to `habbo` removed.
pub open spec fn without_claimants(s: Seq<Record>, habbo: Seq<char>, except_id: Seq<char>) -> Seq<
    Record,
> {
    s.filter(|rec: Record| !claims_name(rec, habbo, except_id))
}

/// The owner ids of every competing claim to `habbo` in `s`, in store order.
pub open spec fn claimant_ids(s: Seq<Record>, habbo: Seq<char>, except_id: Seq<char>) -> Seq<
    Seq<char>,
> {
    s.filter(|rec: Record| claims_name(rec, habbo, except_id)).map_values(|rec: Record| rec.id)
}

/// `s` with every record owned by `id` removed.
pub open spec fn without_user(s: Seq<Record>, id: Seq<char>) -> Seq<Record> {
    s.filter(|rec: Record| rec.id != id)
}

/// How one filtering step extends a filtered prefix.
proof fn lemma_filter_one_more<A>(s: Seq<A>, pred: spec_fn(A) -> bool, i: int)
    requires
        0 <= i < s.len(),
    ensures
        pred(s[i]) ==> s.subrange(0, i + 1).filter(pred) == s.subrange(0, i).filter(pred).push(
            s[i],
        ),
        !pred(s[i]) ==> s.subrange(0, i + 1).filter(pred) == s.subrange(0, i).filter(pred),
{
    reveal(Seq::filter);
    let t = s.subrange(0, i + 1);
    assert(t.drop_last() =~= s.subrange(0, i));
    assert(t.last() == s[i]);
}

/// The in-memory verification store: a document collection of claims.
pub struct Store {
    records: Vec<VerifiedUser>,
}

impl View for Store {
    type V = Seq<Record>;

    closed spec fn view(&self) -> Seq<Record> {
        self.records@.map_values(|u: VerifiedUser| u@)
    }
}

impl Store {
    /// An empty store.
    pub fn new() -> (s: Store)
        ensures
            s@ == Seq::<Record>::empty(),
    {
        let s = Store { records: Vec::new() };
        proof {
            assert(s@ =~= Seq::<Record>::empty());
        }
        s
    }

    pub fn len(&self) -> (n: usize)
        ensures
            n == self@.len(),
    {
        self.records.len()
    }

    pub fn get(&self, i: usize) -> (r: &VerifiedUser)
        requires
            i < self@.len(),
        ensures
            r@ == self@[i as int],
    {
        &self.records[i]
    }

    /// Exact-match lookup `(id, verified == true)`: the record proving that
    /// `user_id` is already verified, if any.
    pub fn find_verified(&self, user_id: &String) -> (r: Option<&VerifiedUser>)
        ensures
            match r {
                Some(u) => is_verified_claim(u@, user_id@) && self@.contains(u@),
                None => forall|k: int|
                    0 <= k < self@.len() ==> !is_verified_claim(self@[k], user_id@),
            },
    {
        let n = self.records.len();
        let mut i: usize = 0;
        while i < n
            invariant
                n == self@.len(),
                i <= n,
                forall|k: int| 0 <= k < i ==> !is_verified_claim(self@[k], user_id@),
            decreases n - i,
        {
            if self.records[i].verified && self.records[i].id == *user_id {
                assert(self@.contains(self@[i as int]));
                return Some(&self.records[i]);
            }
            i += 1;
        }
        None
    }

    /// The `verified == true` existence gate run at the start of `/verify`.
    pub fn is_verified(&self, user_id: &String) -> (r: bool)
        ensures
            r <==> exists|k: int|
                0 <= k < self@.len() && is_verified_claim(self@[k], user_id@),
    {
        match self.find_verified(user_id) {
            Some(_) => true,
            None => false,
        }
    }

    /// Insert one fresh pending claim; the record lands at the end.
    pub fn insert_pending(&mut self, user_id: &String, habbo: &String)
        ensures
            final(self)@ == old(self)@.push(
                Record { id: user_id@, habbo: habbo@, verified: false },
            ),
    {
        let rec = VerifiedUser { id: user_id.clone(), habbo: habbo.clone(), verified: false };
        self.records.push(rec);
        proof {
            assert(final(self)@ =~= old(self)@.push(
                Record { id: user_id@, habbo: habbo@, verified: false },
            ));
        }
    }

    /// The owner ids of every other claim to `habbo`: the users whose role
    /// must be revoked when the claim of `except_id` succeeds.
    pub fn other_claimants(&self, habbo: &String, except_id: &String) -> (r: Vec<String>)
        ensures
            r.deep_view() == claimant_ids(self@, habbo@, except_id@),
    {
        let ghost pred = |rec: Record| claims_name(rec, habbo@, except_id@);
        let n = self.records.len();
        let mut r: Vec<String> = Vec::new();
        let mut i: usize = 0;
        while i < n
            invariant
                n == self@.len(),
                i <= n,
                pred == (|rec: Record| claims_name(rec, habbo@, except_id@)),
                r.deep_view() == self@.subrange(0, i as int).filter(pred).map_values(
                    |rec: Record| rec.id,
                ),
            decreases n - i,
        {
            proof {
                lemma_filter_one_more(self@, pred, i as int);
            }
            proof {
                assert(self@[i as int] == self.records@[i as int]@);
            }
            if self.records[i].habbo == *habbo && !(self.records[i].id == *except_id) {
                let ghost prev = r.deep_view();
                r.push(self.records[i].id.clone());
                proof {
                    assert(r.deep_view() =~= prev.push(self@[i as int].id));
                    assert(self@.subrange(0, i + 1).filter(pred).map_values(|rec: Record| rec.id)
                        =~= self@.subrange(0, i as int).filter(pred).map_values(
                        |rec: Record| rec.id,
                    ).push(self@[i as int].id));
                }
            } else {
                proof {
                    assert(r.deep_view() =~= self@.subrange(0, i + 1).filter(pred).map_values(
                        |rec: Record| rec.id,
                    ));
                }
            }
            i += 1;
        }
        proof {
            assert(self@.subrange(0, n as int) =~= self@);
        }
        r
    }

    /// Delete every other claim to `habbo`: conflict resolution's eviction.
    pub fn delete_claimants(&mut self, habbo: &String, except_id: &String)
        ensures
            final(self)@ == without_claimants(old(self)@, habbo@, except_id@),
    {
        let ghost orig = self@;
        let ghost keep = |rec: Record| !claims_name(rec, habbo@, except_id@);
        let ghost mut j: int = 0;
        let mut i: usize = 0;
        while i < self.records.len()
            invariant
                0 <= j <= orig.len(),
                keep == (|rec: Record| !claims_name(rec, habbo@, except_id@)),
                i == orig.subrange(0, j).filter(keep).len(),
                self@ == orig.subrange(0, j).filter(keep) + orig.skip(j),
            decreases self.records.len() - i,
        {
            proof {
                assert(orig.skip(j).len() > 0);
                assert(self@[i as int] == orig[j]);
                lemma_filter_one_more(orig, keep, j);
            }
            let matched = self.records[i].habbo == *habbo && !(self.records[i].id == *except_id);
            if matched {
                let ghost prev = self@;
                let _ = self.records.remove(i);
                proof {
                    assert(self@ =~= prev.remove(i as int));
                    assert(self@ =~= orig.subrange(0, j + 1).filter(keep) + orig.skip(j + 1));
                }
            } else {
                proof {
                    assert(self@ =~= orig.subrange(0, j + 1).filter(keep) + orig.skip(j + 1));
                }
                i += 1;
            }
            proof {
                j = j + 1;
            }
        }
        proof {
            assert(orig.skip(j).len() == 0);
            assert(orig.subrange(0, j) =~= orig);
            assert(final(self)@ =~= without_claimants(orig, habbo@, except_id@));
        }
    }

    /// Set `verified = true` on the first record matching `(user_id, habbo)`:
    /// the update run once a proof is accepted. Returns whether a record
    /// matched.
    pub fn mark_verified(&mut self, user_id: &String, habbo: &String) -> (updated: bool)
        ensures
            updated <==> exists|k: int|
                0 <= k < old(self)@.len() && claim_pair(old(self)@[k], user_id@, habbo@),
            !updated ==> final(self)@ == old(self)@,
            updated ==> exists|k: int|
                {
                    &&& 0 <= k < old(self)@.len()
                    &&& claim_pair(old(self)@[k], user_id@, habbo@)
                    &&& forall|m: int| 0 <= m < k ==> !claim_pair(old(self)@[m], user_id@, habbo@)
                    &&& final(self)@ == old(self)@.update(
                        k,
                        Record { verified: true, ..old(self)@[k] },
                    )
                },
    {
        let n = self.records.len();
        let mut i: usize = 0;
        while i < n
            invariant
                n == self@.len(),
                i <= n,
                self@ == old(self)@,
                forall|m: int| 0 <= m < i ==> !claim_pair(self@[m], user_id@, habbo@),
            decreases n - i,
        {
            if self.records[i].id == *user_id && self.records[i].habbo == *habbo {
                let rec = &mut self.records[i];
                rec.verified = true;
                proof {
                    assert(final(self)@ =~= old(self)@.update(
                        i as int,
                        Record { verified: true, ..old(self)@[i as int] },
                    ));
                }
                return true;
            }
            i += 1;
        }
        false
    }

    /// Delete every record owned by `user_id`: the `/reset` bulk delete.
    pub fn delete_user(&mut self, user_id: &String)
        ensures
            final(self)@ == without_user(old(self)@, user_id@),
    {
        let ghost orig = self@;
        let ghost keep = |rec: Record| rec.id != user_id@;
        let ghost mut j: int = 0;
        let mut i: usize = 0;
        while i < self.records.len()
            invariant
                0 <= j <= orig.len(),
                keep == (|rec: Record| rec.id != user_id@),
                i == orig.subrange(0, j).filter(keep).len(),
                self@ == orig.subrange(0, j).filter(keep) + orig.skip(j),
            decreases self.records.len() - i,
        {
            proof {
                assert(orig.skip(j).len() > 0);
                assert(self@[i as int] == orig[j]);
                lemma_filter_one_more(orig, keep, j);
            }
            if self.records[i].id == *user_id {
                let ghost prev = self@;
                let _ = self.records.remove(i);
                proof {
                    assert(self@ =~= prev.remove(i as int));
                    assert(self@ =~= orig.subrange(0, j + 1).filter(keep) + orig.skip(j + 1));
                }
            } else {
                proof {
                    assert(self@ =~= orig.subrange(0, j + 1).filter(keep) + orig.skip(j + 1));
                }
                i += 1;
            }
            proof {
                j = j + 1;
            }
        }
        proof {
            assert(orig.skip(j).len() == 0);
            assert(orig.subrange(0, j) =~= orig);
            assert(final(self)@ =~= without_user(orig, user_id@));
        }
    }
}

} // verus!
