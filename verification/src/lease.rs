//! The work-lock table: short-lived exclusive leases on object ids.
//!
//! A processor acquires a lease on `(kind, id)` before running the object's
//! handler and releases it afterwards; expired leases are reclaimable by any
//! processor. The table keeps at most one lease per key, which is what makes
//! two handlers never reconcile the same object concurrently.

use vstd::prelude::*;

verus! {

/// One row of the work-lock table.
#[derive(Debug, Clone, Copy, PartialEq, Eq, Structural)]
pub struct Lease {
    pub kind: u64,
    pub id: u128,
    pub owner: u64,
    pub expires_at: i64,
}

/// The work-lock table, keyed by `(kind, id)`.
#[derive(Debug)]
pub struct LeaseTable {
    pub leases: Vec<Lease>,
}

impl LeaseTable {
    /// At most one lease per `(kind, id)` key.
    pub open spec fn wf(&self) -> bool {
        forall|i: int, j: int|
            0 <= i < j < self.leases@.len() ==> !((#[trigger] self.leases@[i]).kind == (
            #[trigger] self.leases@[j]).kind && self.leases@[i].id == self.leases@[j].id)
    }

    /// Whether `owner` holds an unexpired lease on `(kind, id)` at `now`.
    pub open spec fn spec_holds(&self, kind: u64, id: u128, owner: u64, now: i64) -> bool {
        exists|i: int|
            0 <= i < self.leases@.len() && (#[trigger] self.leases@[i]).kind == kind
                && self.leases@[i].id == id && self.leases@[i].owner == owner
                && self.leases@[i].expires_at > now
    }

    /// Whether any unexpired lease on `(kind, id)` exists at `now`.
    pub open spec fn spec_held(&self, kind: u64, id: u128, now: i64) -> bool {
        exists|i: int|
            0 <= i < self.leases@.len() && (#[trigger] self.leases@[i]).kind == kind
                && self.leases@[i].id == id && self.leases@[i].expires_at > now
    }

    pub fn new() -> (r: LeaseTable)
        ensures
            r.wf(),
            r.leases@.len() == 0,
    {
        LeaseTable { leases: Vec::new() }
    }

    fn find_index(&self, kind: u64, id: u128) -> (r: Option<usize>)
        ensures
            match r {
                Some(i) => 0 <= i < self.leases@.len() && self.leases@[i as int].kind == kind
                    && self.leases@[i as int].id == id,
                None => forall|i: int|
                    0 <= i < self.leases@.len() ==> !((#[trigger] self.leases@[i]).kind == kind
                        && self.leases@[i].id == id),
            },
    {
        let mut i: usize = 0;
        while i < self.leases.len()
            invariant
                i <= self.leases@.len(),
                forall|j: int|
                    0 <= j < i ==> !((#[trigger] self.leases@[j]).kind == kind
                        && self.leases@[j].id == id),
            decreases self.leases@.len() - i,
        {
            if self.leases[i].kind == kind && self.leases[i].id == id {
                return Some(i);
            }
            i = i + 1;
        }
        None
    }

    /// Try to take the lease on `(kind, id)` for `owner` until `now + ttl`.
    /// Succeeds when the key is free, already ours, or expired; a live lease
    /// of another owner refuses and leaves the table untouched.
    pub fn try_acquire(&mut self, kind: u64, id: u128, owner: u64, now: i64, ttl: i64) -> (r: bool)
        requires
            old(self).wf(),
            now >= 0,
            ttl > 0,
            now + ttl <= i64::MAX,
        ensures
            final(self).wf(),
            r ==> final(self).spec_holds(kind, id, owner, now),
            !r ==> *final(self) == *old(self),
            !r ==> final(self).spec_held(kind, id, now),
            !r ==> !final(self).spec_holds(kind, id, owner, now),
            // an acquired lease never displaces a live lease of another owner
            r ==> forall|o: u64| o != owner ==> !old(self).spec_holds(kind, id, o, now),
    {
        let new_lease = Lease { kind, id, owner, expires_at: now + ttl };
        match self.find_index(kind, id) {
            None => {
                self.leases.push(new_lease);
                proof {
                    let n = self.leases@.len() - 1;
                    assert(self.leases@[n] == new_lease);
                    assert forall|o: u64| o != owner implies !old(self).spec_holds(
                        kind,
                        id,
                        o,
                        now,
                    ) by {
                        if old(self).spec_holds(kind, id, o, now) {
                            let j = choose|j: int|
                                0 <= j < old(self).leases@.len() && (
                                #[trigger] old(self).leases@[j]).kind == kind && old(
                                    self,
                                ).leases@[j].id == id && old(self).leases@[j].owner == o && old(
                                    self,
                                ).leases@[j].expires_at > now;
                            assert(false);
                        }
                    }
                }
                true
            },
            Some(i) => {
                let existing = self.leases[i];
                if existing.owner == owner || existing.expires_at <= now {
                    self.leases.set(i, new_lease);
                    proof {
                        assert(self.leases@[i as int] == new_lease);
                        assert forall|o: u64| o != owner implies !old(self).spec_holds(
                            kind,
                            id,
                            o,
                            now,
                        ) by {
                            if old(self).spec_holds(kind, id, o, now) {
                                let j = choose|j: int|
                                    0 <= j < old(self).leases@.len() && (
                                    #[trigger] old(self).leases@[j]).kind == kind && old(
                                        self,
                                    ).leases@[j].id == id && old(self).leases@[j].owner == o && old(
                                        self,
                                    ).leases@[j].expires_at > now;
                                if j != i {
                                    assert(false);
                                }
                            }
                        }
                    }
                    true
                } else {
                    false
                }
            },
        }
    }

    /// Release the lease on `(kind, id)` if `owner` holds it; releasing a
    /// lease one does not hold changes nothing.
    pub fn release(&mut self, kind: u64, id: u128, owner: u64)
        requires
            old(self).wf(),
        ensures
            final(self).wf(),
            forall|now: i64| !final(self).spec_holds(kind, id, owner, now),
            // every other claim stands exactly as before
            forall|k2: u64, i2: u128, o2: u64, n2: i64|
                !(k2 == kind && i2 == id && o2 == owner) ==> final(self).spec_holds(k2, i2, o2, n2)
                    == old(self).spec_holds(k2, i2, o2, n2),
    {
        match self.find_index(kind, id) {
            None => {
                proof {
                    assert forall|now: i64| !self.spec_holds(kind, id, owner, now) by {
                        if self.spec_holds(kind, id, owner, now) {
                            let j = choose|j: int|
                                0 <= j < self.leases@.len() && (
                                #[trigger] self.leases@[j]).kind == kind && self.leases@[j].id
                                    == id && self.leases@[j].owner == owner
                                    && self.leases@[j].expires_at > now;
                            assert(false);
                        }
                    }
                }
            },
            Some(i) => {
                if self.leases[i].owner == owner {
                    self.leases.remove(i);
                    proof {
                        assert forall|k: int, l: int|
                            0 <= k < l < self.leases@.len() implies !((
                        #[trigger] self.leases@[k]).kind == (#[trigger] self.leases@[l]).kind
                            && self.leases@[k].id == self.leases@[l].id) by {
                            let ok = if k < i {
                                k
                            } else {
                                k + 1
                            };
                            let ol = if l < i {
                                l
                            } else {
                                l + 1
                            };
                            assert(self.leases@[k] == old(self).leases@[ok]);
                            assert(self.leases@[l] == old(self).leases@[ol]);
                        }
                        assert forall|now: i64| !self.spec_holds(kind, id, owner, now) by {
                            if self.spec_holds(kind, id, owner, now) {
                                let j = choose|j: int|
                                    0 <= j < self.leases@.len() && (
                                    #[trigger] self.leases@[j]).kind == kind
                                        && self.leases@[j].id == id && self.leases@[j].owner
                                        == owner && self.leases@[j].expires_at > now;
                                if j < i {
                                    assert(old(self).leases@[j].kind == kind);
                                } else {
                                    assert(old(self).leases@[j + 1].kind == kind);
                                }
                            }
                        }
                        assert forall|k2: u64, i2: u128, o2: u64, n2: i64|
                            !(k2 == kind && i2 == id && o2 == owner) implies self.spec_holds(
                            k2,
                            i2,
                            o2,
                            n2,
                        ) == old(self).spec_holds(k2, i2, o2, n2) by {
                            if old(self).spec_holds(k2, i2, o2, n2) {
                                let j = choose|j: int|
                                    0 <= j < old(self).leases@.len() && (
                                    #[trigger] old(self).leases@[j]).kind == k2 && old(
                                        self,
                                    ).leases@[j].id == i2 && old(self).leases@[j].owner == o2
                                        && old(self).leases@[j].expires_at > n2;
                                if j < i {
                                    assert(self.leases@[j] == old(self).leases@[j]);
                                } else {
                                    assert(j != i as int);
                                    assert(self.leases@[j - 1] == old(self).leases@[j]);
                                }
                                assert(self.spec_holds(k2, i2, o2, n2));
                            }
                            if self.spec_holds(k2, i2, o2, n2) {
                                let j = choose|j: int|
                                    0 <= j < self.leases@.len() && (
                                    #[trigger] self.leases@[j]).kind == k2 && self.leases@[j].id
                                        == i2 && self.leases@[j].owner == o2
                                        && self.leases@[j].expires_at > n2;
                                if j < i {
                                    assert(old(self).leases@[j] == self.leases@[j]);
                                } else {
                                    assert(old(self).leases@[j + 1] == self.leases@[j]);
                                }
                                assert(old(self).spec_holds(k2, i2, o2, n2));
                            }
                        }
                    }
                } else {
                    proof {
                        assert forall|now: i64| !self.spec_holds(kind, id, owner, now) by {
                            if self.spec_holds(kind, id, owner, now) {
                                let j = choose|j: int|
                                    0 <= j < self.leases@.len() && (
                                    #[trigger] self.leases@[j]).kind == kind
                                        && self.leases@[j].id == id && self.leases@[j].owner
                                        == owner && self.leases@[j].expires_at > now;
                                if j != i as int {
                                    assert(false);
                                }
                            }
                        }
                    }
                }
            },
        }
    }
}

/// Mutual exclusion: in a well-formed table two owners never both hold an
/// unexpired lease on the same object at the same time — so two handlers
/// never run concurrently for one object id.
pub proof fn lemma_mutual_exclusion(t: &LeaseTable, kind: u64, id: u128, o1: u64, o2: u64, now: i64)
    requires
        t.wf(),
        t.spec_holds(kind, id, o1, now),
        t.spec_holds(kind, id, o2, now),
    ensures
        o1 == o2,
{
    let i = choose|i: int|
        0 <= i < t.leases@.len() && (#[trigger] t.leases@[i]).kind == kind && t.leases@[i].id == id
            && t.leases@[i].owner == o1 && t.leases@[i].expires_at > now;
    let j = choose|j: int|
        0 <= j < t.leases@.len() && (#[trigger] t.leases@[j]).kind == kind && t.leases@[j].id == id
            && t.leases@[j].owner == o2 && t.leases@[j].expires_at > now;
    if i != j {
        if i < j {
            assert(!(t.leases@[i].kind == t.leases@[j].kind && t.leases@[i].id == t.leases@[j].id));
        } else {
            assert(!(t.leases@[j].kind == t.leases@[i].kind && t.leases@[j].id == t.leases@[i].id));
        }
    }
}

} // verus!
