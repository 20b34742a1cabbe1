//! The deadline scheduler: for each tracked lease, the next instant a renewal
//! must be sent. One entry per lease; the earliest entry decides how long the
//! supervisor loop may sleep.

use vstd::prelude::*;

verus! {

/// One pending renewal: send for `id` no later than `fire_at_ms`.
#[derive(Clone, Copy, Debug, PartialEq, Eq, Structural)]
pub struct TimerEntry {
    /// Identifier of the lease to renew.
    pub id: i64,
    /// Absolute time, in milliseconds, at which the renewal is due.
    pub fire_at_ms: u64,
}

/// No two entries share an identifier.
pub open spec fn timers_distinct(s: Seq<TimerEntry>) -> bool {
    forall|i: int, j: int| 0 <= i < j < s.len() ==> s[i].id != s[j].id
}

/// Some entry carries this identifier.
pub open spec fn timer_for(s: Seq<TimerEntry>, id: i64) -> bool {
    exists|i: int| 0 <= i < s.len() && s[i].id == id
}

/// This very entry is present.
pub open spec fn contains_timer(s: Seq<TimerEntry>, e: TimerEntry) -> bool {
    exists|i: int| 0 <= i < s.len() && s[i] == e
}

/// Removing the entry at `i` drops exactly that identifier and keeps every
/// other entry.
pub proof fn lemma_timer_remove(s: Seq<TimerEntry>, i: int)
    requires
        timers_distinct(s),
        0 <= i < s.len(),
    ensures
        timers_distinct(s.remove(i)),
        !timer_for(s.remove(i), s[i].id),
        forall|e: TimerEntry| contains_timer(s.remove(i), e) ==> contains_timer(s, e),
        forall|e: TimerEntry|
            contains_timer(s, e) && e.id != s[i].id ==> contains_timer(s.remove(i), e),
        forall|id: i64| timer_for(s.remove(i), id) ==> timer_for(s, id),
{
    s.remove_ensures(i);
    let t = s.remove(i);
    assert forall|e: TimerEntry| contains_timer(s, e) && e.id != s[i].id implies contains_timer(
        t,
        e,
    ) by {
        let j = choose|j: int| 0 <= j < s.len() && s[j] == e;
        if j < i {
            assert(t[j] == e);
        } else {
            assert(j != i);
            assert(t[j - 1] == e);
        }
    }
}

/// The time-ordered queue of pending renewals, one entry per lease.
pub struct Scheduler {
    entries: Vec<TimerEntry>,
}

impl View for Scheduler {
    type V = Seq<TimerEntry>;

    closed spec fn view(&self) -> Seq<TimerEntry> {
        self.entries@
    }
}

impl Scheduler {
    /// An empty scheduler.
    pub fn new() -> (r: Self)
        ensures
            r@ == Seq::<TimerEntry>::empty(),
    {
        Scheduler { entries: Vec::new() }
    }

    /// Number of pending renewals.
    pub fn len(&self) -> (n: usize)
        ensures
            n == self@.len(),
    {
        self.entries.len()
    }

    /// Position of the entry for `id`, if any.
    fn find(&self, id: i64) -> (r: Option<usize>)
        ensures
            match r {
                Some(i) => i < self@.len() && self@[i as int].id == id,
                None => !timer_for(self@, id),
            },
    {
        let n = self.entries.len();
        let mut i: usize = 0;
        while i < n
            invariant
                i <= n,
                n == self.entries@.len(),
                forall|k: int| 0 <= k < i ==> self.entries@[k].id != id,
            decreases n - i,
        {
            if self.entries[i].id == id {
                return Some(i);
            }
            i = i + 1;
        }
        None
    }

    /// Drops every entry.
    pub fn clear(&mut self)
        ensures
            final(self)@ == Seq::<TimerEntry>::empty(),
    {
        self.entries.clear();
    }

    /// Sets the renewal time for `id`, replacing any earlier entry for it.
    /// Entries for other leases are untouched.
    pub fn arm(&mut self, id: i64, fire_at_ms: u64)
        requires
            timers_distinct(old(self)@),
        ensures
            timers_distinct(final(self)@),
            contains_timer(final(self)@, TimerEntry { id, fire_at_ms }),
            forall|e: TimerEntry| contains_timer(final(self)@, e) && e.id == id
                ==> e == (TimerEntry { id, fire_at_ms }),
            forall|e: TimerEntry| contains_timer(final(self)@, e) && e.id != id
                ==> contains_timer(old(self)@, e),
            forall|e: TimerEntry| contains_timer(old(self)@, e) && e.id != id
                ==> contains_timer(final(self)@, e),
            forall|id2: i64| timer_for(final(self)@, id2) ==> id2 == id || timer_for(
                old(self)@,
                id2,
            ),
    {
        let entry = TimerEntry { id, fire_at_ms };
        match self.find(id) {
            Some(i) => {
                proof {
                    lemma_timer_remove(self@, i as int);
                }
                self.entries.remove(i);
                self.entries.push(entry);
                proof {
                    let mid = old(self)@.remove(i as int);
                    let t = self@;
                    assert(t == mid.push(entry));
                    assert(t[t.len() - 1] == entry);
                    assert(contains_timer(t, entry));
                    assert forall|a: int, b: int| 0 <= a < b < t.len() implies t[a].id != t[b].id by {
                        if b < mid.len() {
                        } else {
                            assert(t[b] == entry);
                            assert(!timer_for(mid, id));
                            assert(mid[a].id != id);
                        }
                    }
                    assert forall|e: TimerEntry| contains_timer(t, e) && e.id == id implies e
                        == entry by {
                        let k = choose|k: int| 0 <= k < t.len() && t[k] == e;
                        if k < mid.len() {
                            assert(contains_timer(mid, e));
                            assert(!timer_for(mid, id));
                        }
                    }
                    assert forall|e: TimerEntry| contains_timer(old(self)@, e) && e.id != id
                        implies contains_timer(t, e) by {
                        assert(contains_timer(mid, e));
                        let k = choose|k: int| 0 <= k < mid.len() && mid[k] == e;
                        assert(t[k] == e);
                    }
                    assert forall|e: TimerEntry| contains_timer(t, e) && e.id != id implies
                        contains_timer(old(self)@, e) by {
                        let k = choose|k: int| 0 <= k < t.len() && t[k] == e;
                        assert(k < mid.len());
                        assert(contains_timer(mid, e));
                    }
                }
            },
            None => {
                self.entries.push(entry);
                proof {
                    let s = old(self)@;
                    let t = self@;
                    assert(t[t.len() - 1] == entry);
                    assert(contains_timer(t, entry));
                    assert forall|a: int, b: int| 0 <= a < b < t.len() implies t[a].id != t[b].id by {
                        if b < s.len() {
                        } else {
                            assert(t[b] == entry);
                            assert(s[a].id != id);
                        }
                    }
                    assert forall|e: TimerEntry| contains_timer(s, e) && e.id != id implies
                        contains_timer(t, e) by {
                        let k = choose|k: int| 0 <= k < s.len() && s[k] == e;
                        assert(t[k] == e);
                    }
                    assert forall|e: TimerEntry| contains_timer(t, e) && e.id == id implies e
                        == entry by {
                        let k = choose|k: int| 0 <= k < t.len() && t[k] == e;
                        if k < s.len() {
                            assert(timer_for(s, id));
                        }
                    }
                }
            },
        }
    }

    /// Drops the entry for `id` if one is pending; does nothing otherwise.
    pub fn disarm(&mut self, id: i64)
        requires
            timers_distinct(old(self)@),
        ensures
            timers_distinct(final(self)@),
            !timer_for(final(self)@, id),
            forall|e: TimerEntry| contains_timer(final(self)@, e) ==> contains_timer(old(self)@, e),
            forall|e: TimerEntry| contains_timer(old(self)@, e) && e.id != id ==> contains_timer(
                final(self)@,
                e,
            ),
            !timer_for(old(self)@, id) ==> final(self)@ == old(self)@,
    {
        match self.find(id) {
            Some(i) => {
                proof {
                    lemma_timer_remove(self@, i as int);
                }
                self.entries.remove(i);
            },
            None => {},
        }
    }

    /// The earliest pending renewal time, if any renewal is pending.
    pub fn next_fire_ms(&self) -> (r: Option<u64>)
        ensures
            match r {
                Some(t) => {
                    &&& exists|i: int|
                        0 <= i < self@.len() && #[trigger] self@[i].fire_at_ms == t
                    &&& forall|i: int|
                        0 <= i < self@.len() ==> t <= #[trigger] self@[i].fire_at_ms
                },
                None => self@.len() == 0,
            },
    {
        let n = self.entries.len();
        if n == 0 {
            return None;
        }
        let mut best: u64 = self.entries[0].fire_at_ms;
        let mut i: usize = 1;
        while i < n
            invariant
                1 <= i <= n,
                n == self.entries@.len(),
                exists|k: int| 0 <= k < i && #[trigger] self.entries@[k].fire_at_ms == best,
                forall|k: int| 0 <= k < i ==> best <= #[trigger] self.entries@[k].fire_at_ms,
            decreases n - i,
        {
            let t = self.entries[i].fire_at_ms;
            if t < best {
                best = t;
            }
            i = i + 1;
        }
        proof {
            let k = choose|k: int|
                0 <= k < n && #[trigger] self.entries@[k].fire_at_ms == best;
            assert(self@[k].fire_at_ms == best);
            assert forall|j: int| 0 <= j < self@.len() implies best
                <= #[trigger] self@[j].fire_at_ms by {
                assert(best <= self.entries@[j].fire_at_ms);
            }
        }
        Some(best)
    }

    /// Removes and returns one entry due at or before `now_ms`, or returns
    /// `None`, leaving the queue unchanged, when none is due.
    pub fn pop_due(&mut self, now_ms: u64) -> (r: Option<TimerEntry>)
        requires
            timers_distinct(old(self)@),
        ensures
            timers_distinct(final(self)@),
            match r {
                Some(e) => {
                    &&& e.fire_at_ms <= now_ms
                    &&& contains_timer(old(self)@, e)
                    &&& !timer_for(final(self)@, e.id)
                    &&& forall|e2: TimerEntry| contains_timer(final(self)@, e2) ==> contains_timer(
                        old(self)@,
                        e2,
                    )
                    &&& forall|e2: TimerEntry|
                        contains_timer(old(self)@, e2) && e2.id != e.id ==> contains_timer(
                            final(self)@,
                            e2,
                        )
                },
                None => {
                    &&& final(self)@ == old(self)@
                    &&& forall|i: int|
                        0 <= i < old(self)@.len() ==> now_ms < #[trigger] old(
                            self,
                        )@[i].fire_at_ms
                },
            },
    {
        let n = self.entries.len();
        let mut i: usize = 0;
        while i < n
            invariant
                i <= n,
                n == self.entries@.len(),
                timers_distinct(self.entries@),
                self.entries@ == old(self)@,
                forall|k: int| 0 <= k < i ==> now_ms < #[trigger] self.entries@[k].fire_at_ms,
            decreases n - i,
        {
            if self.entries[i].fire_at_ms <= now_ms {
                proof {
                    lemma_timer_remove(self@, i as int);
                }
                let e = self.entries.remove(i);
                return Some(e);
            }
            i = i + 1;
        }
        None
    }
}

} // verus!
