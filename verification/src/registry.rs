//! The lease registry: the record kept for every tracked lease, and the
//! id-keyed table the supervisor owns. Identifiers are unique among tracked
//! leases, and every record satisfies its validity condition.

use vstd::prelude::*;
use crate::timing::MAX_TTL_SECS;

verus! {

/// Where a tracked lease stands: granted but not yet acknowledged on the
/// stream, or acknowledged at least once. A lease that expires or is revoked
/// is removed from the registry rather than kept in a terminal state.
#[derive(Clone, Copy, Debug, PartialEq, Eq, Structural)]
pub enum LeaseState {
    /// Granted; no keep-alive acknowledgement seen yet.
    Pending,
    /// Renewed by at least one acknowledgement.
    Active,
}

/// Everything the core tracks about one lease.
#[derive(Clone, Copy, Debug, PartialEq, Eq, Structural)]
pub struct LeaseRecord {
    /// Nonzero identifier, unique among tracked leases.
    pub id: i64,
    /// Time-to-live the authority granted, in seconds.
    pub granted_ttl: i64,
    /// Absolute time at which the lease expires without a fresh renewal.
    pub deadline_ms: u64,
    /// Whether an acknowledgement has been seen.
    pub state: LeaseState,
}

/// A record the registry may hold: nonzero id, positive bounded time-to-live.
pub open spec fn record_valid(r: LeaseRecord) -> bool {
    r.id != 0 && 0 < r.granted_ttl <= MAX_TTL_SECS
}

/// No two records share an identifier.
pub open spec fn distinct_ids(s: Seq<LeaseRecord>) -> bool {
    forall|i: int, j: int| 0 <= i < j < s.len() ==> s[i].id != s[j].id
}

/// Some record carries this identifier.
pub open spec fn contains_id(s: Seq<LeaseRecord>, id: i64) -> bool {
    exists|i: int| 0 <= i < s.len() && s[i].id == id
}

/// This very record is present.
pub open spec fn contains_record(s: Seq<LeaseRecord>, r: LeaseRecord) -> bool {
    exists|i: int| 0 <= i < s.len() && s[i] == r
}

/// The registry's invariant: distinct identifiers, every record valid.
pub open spec fn registry_wf(s: Seq<LeaseRecord>) -> bool {
    &&& distinct_ids(s)
    &&& forall|i: int| 0 <= i < s.len() ==> record_valid(#[trigger] s[i])
}

/// Two records with the same identifier in a distinct-id sequence sit at the
/// same index, so they are the same record.
pub proof fn lemma_distinct_id_unique(s: Seq<LeaseRecord>, i: int, j: int)
    requires
        distinct_ids(s),
        0 <= i < s.len(),
        0 <= j < s.len(),
        s[i].id == s[j].id,
    ensures
        i == j,
{
}

/// Removing the record at `i` keeps the invariant, drops exactly that
/// identifier, and keeps every other record.
pub proof fn lemma_remove_keeps_wf(s: Seq<LeaseRecord>, i: int)
    requires
        registry_wf(s),
        0 <= i < s.len(),
    ensures
        registry_wf(s.remove(i)),
        !contains_id(s.remove(i), s[i].id),
        forall|id: i64| contains_id(s.remove(i), id) ==> contains_id(s, id),
        forall|r: LeaseRecord| contains_record(s.remove(i), r) ==> contains_record(s, r),
        forall|r: LeaseRecord|
            contains_record(s, r) && r.id != s[i].id ==> contains_record(s.remove(i), r),
        forall|id: i64| contains_id(s, id) && id != s[i].id ==> contains_id(s.remove(i), id),
{
    s.remove_ensures(i);
    let t = s.remove(i);
    assert forall|k: int| 0 <= k < t.len() implies t[k] == (if k < i {
        s[k]
    } else {
        s[k + 1]
    }) by {}
    assert forall|r: LeaseRecord| contains_record(s, r) && r.id != s[i].id implies contains_record(
        t,
        r,
    ) by {
        let j = choose|j: int| 0 <= j < s.len() && s[j] == r;
        if j < i {
            assert(t[j] == r);
        } else {
            assert(j != i);
            assert(t[j - 1] == r);
        }
    }
    assert forall|id: i64| contains_id(s, id) && id != s[i].id implies contains_id(t, id) by {
        let j = choose|j: int| 0 <= j < s.len() && s[j].id == id;
        if j < i {
            assert(t[j].id == id);
        } else {
            assert(t[j - 1].id == id);
        }
    }
}

/// The table of tracked leases, keyed by identifier.
pub struct Registry {
    entries: Vec<LeaseRecord>,
}

impl View for Registry {
    type V = Seq<LeaseRecord>;

    closed spec fn view(&self) -> Seq<LeaseRecord> {
        self.entries@
    }
}

impl Registry {
    /// An empty registry.
    pub fn new() -> (r: Self)
        ensures
            r@ == Seq::<LeaseRecord>::empty(),
    {
        Registry { entries: Vec::new() }
    }

    /// Number of tracked leases.
    pub fn len(&self) -> (n: usize)
        ensures
            n == self@.len(),
    {
        self.entries.len()
    }

    /// The record at position `i`.
    pub fn record_at(&self, i: usize) -> (r: LeaseRecord)
        requires
            i < self@.len(),
        ensures
            r == self@[i as int],
    {
        self.entries[i]
    }

    /// Position of the record carrying `id`, if any.
    pub fn find(&self, id: i64) -> (r: Option<usize>)
        ensures
            match r {
                Some(i) => i < self@.len() && self@[i as int].id == id,
                None => !contains_id(self@, id),
            },
    {
        let n = self.entries.len();
        let mut i: usize = 0;
        while i < n
            invariant
                i <= n,
                n == self.entries@.len(),
                forall|k: int| 0 <= k < i ==> self.entries@[k].id != id,
            decreases n - i,
        {
            if self.entries[i].id == id {
                return Some(i);
            }
            i = i + 1;
        }
        None
    }

    /// The record carrying `id`, if any.
    pub fn get(&self, id: i64) -> (r: Option<LeaseRecord>)
        ensures
            match r {
                Some(rec) => rec.id == id && contains_record(self@, rec),
                None => !contains_id(self@, id),
            },
    {
        match self.find(id) {
            Some(i) => Some(self.entries[i]),
            None => None,
        }
    }

    /// Whether a lease with this identifier is tracked.
    pub fn contains(&self, id: i64) -> (r: bool)
        ensures
            r == contains_id(self@, id),
    {
        match self.find(id) {
            Some(_) => true,
            None => false,
        }
    }

    /// Adds a record whose identifier is not yet tracked.
    pub fn insert(&mut self, rec: LeaseRecord)
        requires
            registry_wf(old(self)@),
            record_valid(rec),
            !contains_id(old(self)@, rec.id),
        ensures
            final(self)@ == old(self)@.push(rec),
            registry_wf(final(self)@),
    {
        self.entries.push(rec);
        proof {
            let s = old(self)@;
            let t = self@;
            assert forall|i: int, j: int| 0 <= i < j < t.len() implies t[i].id != t[j].id by {
                if j < s.len() {
                } else {
                    assert(t[j] == rec);
                    assert(s[i].id != rec.id);
                }
            }
        }
    }

    /// Removes and returns the record at position `i`.
    pub fn remove_at(&mut self, i: usize) -> (r: LeaseRecord)
        requires
            i < old(self)@.len(),
        ensures
            r == old(self)@[i as int],
            final(self)@ == old(self)@.remove(i as int),
    {
        self.entries.remove(i)
    }

    /// Drops every record.
    pub fn clear(&mut self)
        ensures
            final(self)@ == Seq::<LeaseRecord>::empty(),
    {
        self.entries.clear();
    }

    /// Replaces the record at position `i` with one carrying the same
    /// identifier.
    pub fn set_at(&mut self, i: usize, rec: LeaseRecord)
        requires
            registry_wf(old(self)@),
            i < old(self)@.len(),
            rec.id == old(self)@[i as int].id,
            record_valid(rec),
        ensures
            final(self)@ == old(self)@.update(i as int, rec),
            registry_wf(final(self)@),
    {
        self.entries[i] = rec;
    }
}

} // verus!
