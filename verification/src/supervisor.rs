//! The supervisor: single owner of the registry and the scheduler, the state
//! machine that survives stream failure, and the dispatcher that routes each
//! acknowledgement back to the lease it belongs to.
//!
//! The supervisor is driven from outside: the caller owns the stream, the
//! clock and the channels, and reports what happened (a response arrived, the
//! stream failed, a connection came up) together with the current time. Every
//! decision — what to send, whom to notify, what to forget — is made here and
//! returned as plain values.

use vstd::prelude::*;
use crate::registry::Registry;
use crate::registry::LeaseRecord;
use crate::registry::LeaseState;
use crate::registry::contains_id;
use crate::registry::contains_record;
use crate::registry::registry_wf;
use crate::registry::lemma_remove_keeps_wf;
use crate::registry::lemma_distinct_id_unique;
use crate::scheduler::Scheduler;
use crate::scheduler::TimerEntry;
use crate::scheduler::timers_distinct;
use crate::scheduler::timer_for;
use crate::scheduler::contains_timer;
use crate::timing::MAX_TTL_SECS;
use crate::timing::MAX_TIME_MS;
use crate::timing::INITIAL_BACKOFF_MS;
use crate::timing::MAX_BACKOFF_MS;
use crate::timing::spec_renew_interval_ms;
use crate::timing::spec_deadline_ms;
use crate::timing::renew_interval_ms;
use crate::timing::deadline_ms;
use crate::timing::next_backoff_ms;

verus! {

/// Where the supervisor stands with respect to the stream.
#[derive(Clone, Copy, Debug, PartialEq, Eq, Structural)]
pub enum Phase {
    /// No stream yet; trying to establish one.
    Connecting,
    /// A live stream; renewals flow.
    Streaming,
    /// The stream failed; reconnecting with backoff.
    Recovering,
    /// Closed for good; nothing is tracked and nothing is sent.
    ShutDown,
}

/// Why a registration was refused.
#[derive(Clone, Copy, Debug, PartialEq, Eq, Structural)]
pub enum RegisterError {
    /// The identifier zero is reserved.
    InvalidId,
    /// The granted time-to-live must be positive and within bounds.
    InvalidTtl,
    /// A lease with this identifier is already tracked.
    AlreadyTracked,
    /// The manager has shut down.
    ShutDown,
}

/// What one acknowledgement meant.
#[derive(Clone, Copy, Debug, PartialEq, Eq, Structural)]
pub enum Dispatch {
    /// The identifier is not tracked; expected after a local cancellation,
    /// nothing changes.
    Ignored,
    /// The lease was renewed and now expires at `deadline_ms`.
    Renewed {
        /// Identifier of the renewed lease.
        id: i64,
        /// Its new expiry deadline.
        deadline_ms: u64,
    },
    /// The authority declared the lease gone; it is no longer tracked.
    Revoked {
        /// Identifier of the revoked lease.
        id: i64,
    },
    /// The response is out of bounds; the stream should be torn down.
    Malformed,
}

/// The keep-alive core: stream phase, tracked leases, pending renewals, and
/// the reconnect backoff.
pub struct Supervisor {
    /// Where the supervisor stands with respect to the stream.
    pub phase: Phase,
    /// The tracked leases.
    pub registry: Registry,
    /// The pending renewals.
    pub scheduler: Scheduler,
    /// Delay before the next reconnect attempt, in milliseconds.
    pub backoff_ms: u64,
}

/// The supervisor's invariant: both tables well formed, every pending
/// renewal belongs to a tracked lease, backoff within its bounds.
pub open spec fn sup_wf(s: Supervisor) -> bool {
    &&& registry_wf(s.registry@)
    &&& timers_distinct(s.scheduler@)
    &&& forall|e: TimerEntry| #[trigger]
        contains_timer(s.scheduler@, e) ==> contains_id(s.registry@, e.id)
    &&& INITIAL_BACKOFF_MS <= s.backoff_ms <= MAX_BACKOFF_MS
}

/// What `cancel` does: the lease and its pending renewal are gone, every
/// other lease and renewal is untouched, and cancelling an untracked lease
/// changes nothing at all.
pub open spec fn cancel_transition(pre: Supervisor, post: Supervisor, id: i64) -> bool {
    &&& post.phase == pre.phase
    &&& post.backoff_ms == pre.backoff_ms
    &&& !contains_id(post.registry@, id)
    &&& !timer_for(post.scheduler@, id)
    &&& (!contains_id(pre.registry@, id) ==> post == pre)
    &&& forall|rr: LeaseRecord| #[trigger]
        contains_record(post.registry@, rr) ==> contains_record(pre.registry@, rr)
    &&& forall|rr: LeaseRecord| #[trigger]
        contains_record(pre.registry@, rr) && rr.id != id ==> contains_record(post.registry@, rr)
    &&& forall|e: TimerEntry| #[trigger]
        contains_timer(post.scheduler@, e) ==> contains_timer(pre.scheduler@, e)
    &&& forall|e: TimerEntry| #[trigger]
        contains_timer(pre.scheduler@, e) && e.id != id ==> contains_timer(post.scheduler@, e)
}

/// Some record in `s` carries `id` and a deadline already passed at
/// `now_ms`.
pub open spec fn expired_witness(s: Seq<LeaseRecord>, id: i64, now_ms: u64) -> bool {
    exists|rr: LeaseRecord|
        #![auto]
        contains_record(s, rr) && rr.id == id && rr.deadline_ms <= now_ms
}

/// What the dispatcher does with one acknowledgement `{id, ttl}` received at
/// `now_ms`, relating the state before, the state after, and the outcome.
pub open spec fn dispatch_transition(
    pre: Supervisor,
    post: Supervisor,
    id: i64,
    ttl: i64,
    now_ms: u64,
    r: Dispatch,
) -> bool {
    &&& post.phase == pre.phase
    &&& post.backoff_ms == pre.backoff_ms
    &&& ((r is Malformed) <==> !(0 <= ttl <= MAX_TTL_SECS))
    &&& ((r is Ignored) <==> (0 <= ttl <= MAX_TTL_SECS && !contains_id(pre.registry@, id)))
    &&& ((r is Revoked) <==> (ttl == 0 && contains_id(pre.registry@, id)))
    &&& ((r is Renewed) <==> (0 < ttl <= MAX_TTL_SECS && contains_id(pre.registry@, id)))
    &&& ((r is Malformed || r is Ignored) ==> post == pre)
    &&& ((r is Revoked) ==> {
        &&& r == (Dispatch::Revoked { id })
        &&& !contains_id(post.registry@, id)
        &&& !timer_for(post.scheduler@, id)
        &&& forall|rr: LeaseRecord| #[trigger]
            contains_record(post.registry@, rr) ==> contains_record(pre.registry@, rr)
        &&& forall|rr: LeaseRecord| #[trigger]
            contains_record(pre.registry@, rr) && rr.id != id ==> contains_record(
                post.registry@,
                rr,
            )
        &&& forall|e: TimerEntry| #[trigger]
            contains_timer(post.scheduler@, e) ==> contains_timer(pre.scheduler@, e)
        &&& forall|e: TimerEntry| #[trigger]
            contains_timer(pre.scheduler@, e) && e.id != id ==> contains_timer(
                post.scheduler@,
                e,
            )
    })
    &&& ((r is Renewed) ==> {
        &&& (r matches Dispatch::Renewed { id: rid, deadline_ms: d } && rid == id && d
            == spec_deadline_ms(now_ms, ttl))
        &&& exists|i: int|
            #![auto]
            {
                &&& 0 <= i < pre.registry@.len()
                &&& pre.registry@[i].id == id
                &&& post.registry@ == pre.registry@.update(i, post.registry@[i])
                &&& post.registry@[i].id == id
                &&& post.registry@[i].granted_ttl == ttl
                &&& post.registry@[i].deadline_ms == spec_deadline_ms(now_ms, ttl)
                &&& post.registry@[i].state is Active
            }
        &&& exists|e: TimerEntry|
            #![auto]
            contains_timer(post.scheduler@, e) && e.id == id && e.fire_at_ms == now_ms
                + spec_renew_interval_ms(ttl)
        &&& forall|e: TimerEntry| #[trigger]
            contains_timer(post.scheduler@, e) && e.id == id ==> e.fire_at_ms == now_ms
                + spec_renew_interval_ms(ttl)
        &&& forall|e: TimerEntry| #[trigger]
            contains_timer(post.scheduler@, e) && e.id != id ==> contains_timer(
                pre.scheduler@,
                e,
            )
        &&& forall|e: TimerEntry| #[trigger]
            contains_timer(pre.scheduler@, e) && e.id != id ==> contains_timer(
                post.scheduler@,
                e,
            )
    })
}

impl Supervisor {
    /// A fresh supervisor: connecting, tracking nothing, at the initial
    /// backoff.
    pub fn new() -> (r: Self)
        ensures
            sup_wf(r),
            r.phase is Connecting,
            r.registry@.len() == 0,
            r.scheduler@.len() == 0,
            r.backoff_ms == INITIAL_BACKOFF_MS,
    {
        Supervisor {
            phase: Phase::Connecting,
            registry: Registry::new(),
            scheduler: Scheduler::new(),
            backoff_ms: INITIAL_BACKOFF_MS,
        }
    }

    /// Starts tracking a freshly granted lease: it is recorded with its
    /// deadline `granted_ttl` seconds from `now_ms`, and its first renewal is
    /// scheduled one interval from now. Registration succeeds if and only if
    /// the manager is not shut
    /// down, the identifier is nonzero and untracked, and the time-to-live is
    /// positive and within bounds; on failure nothing changes and the error
    /// says which condition failed.
    pub fn register(&mut self, id: i64, granted_ttl: i64, now_ms: u64) -> (r: Result<
        (),
        RegisterError,
    >)
        requires
            sup_wf(*old(self)),
            now_ms <= MAX_TIME_MS,
        ensures
            sup_wf(*final(self)),
            final(self).phase == old(self).phase,
            final(self).backoff_ms == old(self).backoff_ms,
            (r is Ok) <==> (!(old(self).phase is ShutDown) && id != 0 && 0 < granted_ttl
                <= MAX_TTL_SECS && !contains_id(old(self).registry@, id)),
            r is Ok ==> final(self).registry@ == old(self).registry@.push(
                (LeaseRecord {
                    id,
                    granted_ttl,
                    deadline_ms: (now_ms + granted_ttl * 1000) as u64,
                    state: LeaseState::Pending,
                }),
            ),
            r is Ok ==> exists|e: TimerEntry|
                #![auto]
                contains_timer(final(self).scheduler@, e) && e.id == id && e.fire_at_ms == now_ms
                    + spec_renew_interval_ms(granted_ttl),
            r is Ok ==> forall|e: TimerEntry| #[trigger]
                contains_timer(old(self).scheduler@, e) ==> contains_timer(
                    final(self).scheduler@,
                    e,
                ),
            r is Ok ==> forall|e: TimerEntry| #[trigger]
                contains_timer(final(self).scheduler@, e) && e.id != id ==> contains_timer(
                    old(self).scheduler@,
                    e,
                ),
            r is Err ==> *final(self) == *old(self),
            (r == Err::<(), RegisterError>(RegisterError::ShutDown)) <==> old(self).phase
                is ShutDown,
            (r == Err::<(), RegisterError>(RegisterError::InvalidId)) <==> (!(old(self).phase
                is ShutDown) && id == 0),
            (r == Err::<(), RegisterError>(RegisterError::InvalidTtl)) <==> (!(old(self).phase
                is ShutDown) && id != 0 && !(0 < granted_ttl <= MAX_TTL_SECS)),
            (r == Err::<(), RegisterError>(RegisterError::AlreadyTracked)) <==> (!(old(
                self,
            ).phase is ShutDown) && id != 0 && 0 < granted_ttl <= MAX_TTL_SECS && contains_id(
                old(self).registry@,
                id,
            )),
    {
        if matches!(self.phase, Phase::ShutDown) {
            return Err(RegisterError::ShutDown);
        }
        if id == 0 {
            return Err(RegisterError::InvalidId);
        }
        if granted_ttl <= 0 || granted_ttl > MAX_TTL_SECS {
            return Err(RegisterError::InvalidTtl);
        }
        if self.registry.contains(id) {
            return Err(RegisterError::AlreadyTracked);
        }
        let deadline = deadline_ms(now_ms, granted_ttl);
        let rec = LeaseRecord { id, granted_ttl, deadline_ms: deadline, state: LeaseState::Pending };
        self.registry.insert(rec);
        let interval = renew_interval_ms(granted_ttl);
        self.scheduler.arm(id, now_ms + interval);
        proof {
            assert forall|e: TimerEntry| #[trigger]
                contains_timer(self.scheduler@, e) implies contains_id(self.registry@, e.id) by {
                if e.id != id {
                    assert(contains_timer(old(self).scheduler@, e));
                    assert(contains_id(old(self).registry@, e.id));
                    let k = choose|k: int|
                        0 <= k < old(self).registry@.len() && old(self).registry@[k].id == e.id;
                    assert(self.registry@[k].id == e.id);
                } else {
                    assert(self.registry@[self.registry@.len() - 1].id == id);
                }
            }
        }
        Ok(())
    }

    /// Stops tracking a lease. Idempotent and silent: cancelling a lease
    /// that is unknown — never registered, already cancelled, expired or
    /// revoked — changes nothing and is no error.
    pub fn cancel(&mut self, id: i64)
        requires
            sup_wf(*old(self)),
        ensures
            sup_wf(*final(self)),
            cancel_transition(*old(self), *final(self), id),
    {
        match self.registry.find(id) {
            Some(i) => {
                proof {
                    lemma_remove_keeps_wf(self.registry@, i as int);
                }
                self.registry.remove_at(i);
                self.scheduler.disarm(id);
                proof {
                    assert forall|e: TimerEntry| #[trigger]
                        contains_timer(self.scheduler@, e) implies contains_id(
                        self.registry@,
                        e.id,
                    ) by {
                        assert(contains_timer(old(self).scheduler@, e));
                        assert(contains_id(old(self).registry@, e.id));
                        assert(e.id != id);
                    }
                }
            },
            None => {
                proof {
                    if timer_for(self.scheduler@, id) {
                        let k = choose|k: int|
                            0 <= k < self.scheduler@.len() && self.scheduler@[k].id == id;
                        assert(contains_timer(self.scheduler@, self.scheduler@[k]));
                        assert(contains_id(self.registry@, id));
                    }
                }
            },
        }
    }
    /// Routes one acknowledgement `{id, ttl}` received at `now_ms` to the
    /// lease it belongs to. A well-formed positive `ttl` renews the tracked
    /// lease: its deadline becomes exactly `now_ms + ttl` and its next
    /// renewal is scheduled one interval from now. `ttl == 0` revokes it: the
    /// lease leaves both tables for good. An untracked identifier is ignored
    /// without any change — the expected race with a local cancellation. A
    /// `ttl` out of bounds is malformed: nothing changes and the caller must
    /// tear the stream down.
    pub fn handle_response(&mut self, id: i64, ttl: i64, now_ms: u64) -> (r: Dispatch)
        requires
            sup_wf(*old(self)),
            now_ms <= MAX_TIME_MS,
        ensures
            sup_wf(*final(self)),
            dispatch_transition(*old(self), *final(self), id, ttl, now_ms, r),
    {
        if ttl < 0 || ttl > MAX_TTL_SECS {
            return Dispatch::Malformed;
        }
        match self.registry.find(id) {
            None => Dispatch::Ignored,
            Some(i) => {
                if ttl == 0 {
                    proof {
                        lemma_remove_keeps_wf(self.registry@, i as int);
                    }
                    self.registry.remove_at(i);
                    self.scheduler.disarm(id);
                    proof {
                        assert forall|e: TimerEntry| #[trigger]
                            contains_timer(self.scheduler@, e) implies contains_id(
                            self.registry@,
                            e.id,
                        ) by {
                            assert(contains_timer(old(self).scheduler@, e));
                            assert(contains_id(old(self).registry@, e.id));
                            assert(e.id != id);
                        }
                    }
                    Dispatch::Revoked { id }
                } else {
                    let deadline = deadline_ms(now_ms, ttl);
                    let rec = LeaseRecord {
                        id,
                        granted_ttl: ttl,
                        deadline_ms: deadline,
                        state: LeaseState::Active,
                    };
                    self.registry.set_at(i, rec);
                    let interval = renew_interval_ms(ttl);
                    self.scheduler.arm(id, now_ms + interval);
                    proof {
                        assert forall|x: i64|
                            contains_id(old(self).registry@, x) implies #[trigger] contains_id(
                            self.registry@,
                            x,
                        ) by {
                            let k = choose|k: int|
                                0 <= k < old(self).registry@.len() && old(self).registry@[k].id
                                    == x;
                            assert(self.registry@[k].id == x);
                        }
                        assert forall|e: TimerEntry| #[trigger]
                            contains_timer(self.scheduler@, e) implies contains_id(
                            self.registry@,
                            e.id,
                        ) by {
                            if e.id != id {
                                assert(contains_timer(old(self).scheduler@, e));
                                assert(contains_id(old(self).registry@, e.id));
                            } else {
                                assert(self.registry@[i as int].id == id);
                            }
                        }
                        assert(self.registry@ == old(self).registry@.update(
                            i as int,
                            self.registry@[i as int],
                        ));
                    }
                    Dispatch::Renewed { id, deadline_ms: deadline }
                }
            },
        }
    }
    /// Finds one lease whose deadline has passed, stops tracking it, and
    /// returns its identifier so the caller can deliver the terminal
    /// `expired` event. Returns `None`, changing nothing, when every tracked
    /// lease still has time left.
    pub fn next_expired(&mut self, now_ms: u64) -> (r: Option<i64>)
        requires
            sup_wf(*old(self)),
        ensures
            sup_wf(*final(self)),
            final(self).phase == old(self).phase,
            final(self).backoff_ms == old(self).backoff_ms,
            match r {
                Some(id) => {
                    &&& contains_id(old(self).registry@, id)
                    &&& final(self).registry@.len() == old(self).registry@.len() - 1
                    &&& !contains_id(final(self).registry@, id)
                    &&& !timer_for(final(self).scheduler@, id)
                    &&& forall|rr: LeaseRecord| #[trigger]
                        contains_record(old(self).registry@, rr) && rr.id == id
                            ==> rr.deadline_ms <= now_ms
                    &&& forall|rr: LeaseRecord| #[trigger]
                        contains_record(final(self).registry@, rr) ==> contains_record(
                            old(self).registry@,
                            rr,
                        )
                    &&& forall|rr: LeaseRecord| #[trigger]
                        contains_record(old(self).registry@, rr) && rr.id != id
                            ==> contains_record(final(self).registry@, rr)
                    &&& forall|x: i64| #[trigger]
                        contains_id(final(self).registry@, x) ==> contains_id(
                            old(self).registry@,
                            x,
                        )
                    &&& forall|e: TimerEntry| #[trigger]
                        contains_timer(final(self).scheduler@, e) ==> contains_timer(
                            old(self).scheduler@,
                            e,
                        )
                    &&& forall|e: TimerEntry| #[trigger]
                        contains_timer(old(self).scheduler@, e) && e.id != id ==> contains_timer(
                            final(self).scheduler@,
                            e,
                        )
                },
                None => {
                    &&& *final(self) == *old(self)
                    &&& forall|rr: LeaseRecord| #[trigger]
                        contains_record(old(self).registry@, rr) ==> rr.deadline_ms > now_ms
                },
            },
    {
        let n = self.registry.len();
        let mut i: usize = 0;
        while i < n
            invariant
                i <= n,
                n == self.registry@.len(),
                sup_wf(*self),
                *self == *old(self),
                forall|k: int| 0 <= k < i ==> #[trigger] self.registry@[k].deadline_ms > now_ms,
            decreases n - i,
        {
            let rec = self.registry.record_at(i);
            if rec.deadline_ms <= now_ms {
                proof {
                    lemma_remove_keeps_wf(self.registry@, i as int);
                    assert(contains_record(self.registry@, rec));
                    assert(contains_id(self.registry@, rec.id));
                    assert forall|rr: LeaseRecord| #[trigger]
                        contains_record(self.registry@, rr) && rr.id == rec.id implies
                        rr.deadline_ms <= now_ms by {
                        let k = choose|k: int|
                            0 <= k < self.registry@.len() && self.registry@[k] == rr;
                        lemma_distinct_id_unique(self.registry@, k, i as int);
                    }
                }
                self.registry.remove_at(i);
                self.scheduler.disarm(rec.id);
                proof {
                    assert forall|e: TimerEntry| #[trigger]
                        contains_timer(self.scheduler@, e) implies contains_id(
                        self.registry@,
                        e.id,
                    ) by {
                        assert(contains_timer(old(self).scheduler@, e));
                        assert(contains_id(old(self).registry@, e.id));
                        assert(e.id != rec.id);
                    }
                }
                return Some(rec.id);
            }
            i = i + 1;
        }
        proof {
            assert forall|rr: LeaseRecord| #[trigger]
                contains_record(self.registry@, rr) implies rr.deadline_ms > now_ms by {
                let k = choose|k: int| 0 <= k < self.registry@.len() && self.registry@[k] == rr;
            }
        }
        None
    }

    /// Stops tracking every lease whose deadline has passed at `now_ms`, and
    /// returns their identifiers, each once: the leases that must receive
    /// their terminal `expired` event. Every lease with time left is kept
    /// untouched.
    pub fn expire_all(&mut self, now_ms: u64) -> (out: Vec<i64>)
        requires
            sup_wf(*old(self)),
        ensures
            sup_wf(*final(self)),
            final(self).phase == old(self).phase,
            final(self).backoff_ms == old(self).backoff_ms,
            forall|rr: LeaseRecord| #[trigger]
                contains_record(final(self).registry@, rr) ==> contains_record(
                    old(self).registry@,
                    rr,
                ) && rr.deadline_ms > now_ms,
            forall|rr: LeaseRecord| #[trigger]
                contains_record(old(self).registry@, rr) && rr.deadline_ms > now_ms
                    ==> contains_record(final(self).registry@, rr),
            forall|k: int|
                #![trigger out@[k]]
                0 <= k < out@.len() ==> expired_witness(old(self).registry@, out@[k], now_ms),
            forall|rr: LeaseRecord| #[trigger]
                contains_record(old(self).registry@, rr) && rr.deadline_ms <= now_ms
                    ==> out@.contains(rr.id),
            forall|k: int| 0 <= k < out@.len() ==> !contains_id(final(self).registry@, out@[k]),
            forall|k1: int, k2: int| 0 <= k1 < k2 < out@.len() ==> out@[k1] != out@[k2],
            forall|e: TimerEntry| #[trigger]
                contains_timer(final(self).scheduler@, e) ==> contains_timer(
                    old(self).scheduler@,
                    e,
                ),
    {
        let mut out: Vec<i64> = Vec::new();
        loop
            invariant
                sup_wf(*self),
                self.phase == old(self).phase,
                self.backoff_ms == old(self).backoff_ms,
                forall|rr: LeaseRecord| #[trigger]
                    contains_record(self.registry@, rr) ==> contains_record(
                        old(self).registry@,
                        rr,
                    ),
                forall|rr: LeaseRecord| #[trigger]
                    contains_record(old(self).registry@, rr) && rr.deadline_ms > now_ms
                        ==> contains_record(self.registry@, rr),
                forall|rr: LeaseRecord| #[trigger]
                    contains_record(old(self).registry@, rr) ==> contains_record(
                        self.registry@,
                        rr,
                    ) || (rr.deadline_ms <= now_ms && out@.contains(rr.id)),
                forall|k: int|
                    #![trigger out@[k]]
                    0 <= k < out@.len() ==> expired_witness(old(self).registry@, out@[k], now_ms),
                forall|k: int| 0 <= k < out@.len() ==> !contains_id(self.registry@, out@[k]),
                forall|k1: int, k2: int| 0 <= k1 < k2 < out@.len() ==> out@[k1] != out@[k2],
                forall|e: TimerEntry| #[trigger]
                    contains_timer(self.scheduler@, e) ==> contains_timer(
                        old(self).scheduler@,
                        e,
                    ),
            decreases self.registry@.len(),
        {
            let ghost pre = *self;
            let ghost pre_out = out@;
            match self.next_expired(now_ms) {
                Some(id) => {
                    out.push(id);
                    proof {
                        let k0 = choose|k0: int|
                            0 <= k0 < pre.registry@.len() && pre.registry@[k0].id == id;
                        let rr0 = pre.registry@[k0];
                        assert(contains_record(pre.registry@, rr0));
                        assert(rr0.deadline_ms <= now_ms);
                        assert(contains_record(old(self).registry@, rr0));
                        assert(out@ == pre_out.push(id));
                        assert(out@[out@.len() - 1] == id);
                        assert forall|k: int| 0 <= k < out@.len() implies !contains_id(
                            self.registry@,
                            out@[k],
                        ) by {
                            if k < pre_out.len() {
                                assert(out@[k] == pre_out[k]);
                                if contains_id(self.registry@, pre_out[k]) {
                                    assert(contains_id(pre.registry@, pre_out[k]));
                                }
                            }
                        }
                        assert forall|k1: int, k2: int| 0 <= k1 < k2 < out@.len() implies out@[k1]
                            != out@[k2] by {
                            if k2 == out@.len() - 1 {
                                assert(out@[k1] == pre_out[k1]);
                                assert(!contains_id(pre.registry@, pre_out[k1]));
                            }
                        }
                        assert forall|rr: LeaseRecord| #[trigger]
                            contains_record(old(self).registry@, rr) implies contains_record(
                            self.registry@,
                            rr,
                        ) || (rr.deadline_ms <= now_ms && out@.contains(rr.id)) by {
                            if contains_record(pre.registry@, rr) {
                                if rr.id == id {
                                    assert(rr.deadline_ms <= now_ms);
                                } else {
                                    assert(contains_record(self.registry@, rr));
                                }
                            } else {
                                assert(rr.deadline_ms <= now_ms && pre_out.contains(rr.id));
                                let k = choose|k: int|
                                    0 <= k < pre_out.len() && pre_out[k] == rr.id;
                                assert(out@[k] == rr.id);
                            }
                        }
                        assert forall|rr: LeaseRecord| #[trigger]
                            contains_record(old(self).registry@, rr) && rr.deadline_ms > now_ms
                            implies contains_record(self.registry@, rr) by {
                            assert(contains_record(pre.registry@, rr));
                            assert(rr.id != id);
                        }
                        assert forall|k: int| #![trigger out@[k]] 0 <= k < out@.len() implies
                            expired_witness(old(self).registry@, out@[k], now_ms) by {
                            if k < pre_out.len() {
                                assert(out@[k] == pre_out[k]);
                            } else {
                                assert(out@[k] == id);
                                assert(contains_record(old(self).registry@, rr0) && rr0.id == id
                                    && rr0.deadline_ms <= now_ms);
                            }
                        }
                    }
                },
                None => {
                    return out;
                },
            }
        }
    }
    /// The earliest instant any pending renewal is due, so the caller knows
    /// how long it may sleep; `None` when nothing is pending.
    pub fn next_wakeup_ms(&self) -> (r: Option<u64>)
        ensures
            match r {
                Some(t) => {
                    &&& exists|i: int|
                        0 <= i < self.scheduler@.len() && #[trigger] self.scheduler@[i].fire_at_ms
                            == t
                    &&& forall|i: int|
                        0 <= i < self.scheduler@.len() ==> t <= #[trigger] self.scheduler@[i].fire_at_ms
                },
                None => self.scheduler@.len() == 0,
            },
    {
        self.scheduler.next_fire_ms()
    }

    /// Takes one renewal that is due at or before `now_ms` and returns the
    /// lease to renew: the caller sends the keep-alive request for it. The
    /// timer is consumed — it is re-armed when the acknowledgement arrives —
    /// and the lease is still tracked. `None`, changing nothing, when no
    /// renewal is due yet.
    pub fn next_renewal_due(&mut self, now_ms: u64) -> (r: Option<i64>)
        requires
            sup_wf(*old(self)),
        ensures
            sup_wf(*final(self)),
            final(self).phase == old(self).phase,
            final(self).backoff_ms == old(self).backoff_ms,
            final(self).registry@ == old(self).registry@,
            match r {
                Some(id) => {
                    &&& contains_id(final(self).registry@, id)
                    &&& exists|e: TimerEntry|
                        #![auto]
                        contains_timer(old(self).scheduler@, e) && e.id == id && e.fire_at_ms
                            <= now_ms
                    &&& !timer_for(final(self).scheduler@, id)
                    &&& forall|e: TimerEntry| #[trigger]
                        contains_timer(final(self).scheduler@, e) ==> contains_timer(
                            old(self).scheduler@,
                            e,
                        )
                    &&& forall|e: TimerEntry| #[trigger]
                        contains_timer(old(self).scheduler@, e) && e.id != id ==> contains_timer(
                            final(self).scheduler@,
                            e,
                        )
                },
                None => {
                    &&& final(self).scheduler@ == old(self).scheduler@
                    &&& forall|i: int|
                        0 <= i < old(self).scheduler@.len() ==> now_ms < #[trigger] old(
                            self,
                        ).scheduler@[i].fire_at_ms
                },
            },
    {
        match self.scheduler.pop_due(now_ms) {
            Some(e) => {
                proof {
                    assert(contains_id(self.registry@, e.id));
                    assert(contains_timer(old(self).scheduler@, e) && e.fire_at_ms <= now_ms);
                    assert(exists|e2: TimerEntry|
                        #![auto]
                        contains_timer(old(self).scheduler@, e2) && e2.id == e.id && e2.fire_at_ms
                            <= now_ms);
                    assert forall|e2: TimerEntry| #[trigger]
                        contains_timer(self.scheduler@, e2) implies contains_id(
                        self.registry@,
                        e2.id,
                    ) by {
                        assert(contains_timer(old(self).scheduler@, e2));
                    }
                }
                Some(e.id)
            },
            None => None,
        }
    }

    /// The stream failed while streaming: remember to reconnect. No lease
    /// state is touched — whether a lease survives is decided when the
    /// connection comes back, against its deadline.
    pub fn stream_failed(&mut self)
        requires
            sup_wf(*old(self)),
            old(self).phase is Streaming,
        ensures
            sup_wf(*final(self)),
            final(self).phase is Recovering,
            final(self).registry@ == old(self).registry@,
            final(self).scheduler@ == old(self).scheduler@,
            final(self).backoff_ms == old(self).backoff_ms,
    {
        self.phase = Phase::Recovering;
    }

    /// A connection attempt failed: returns how long to wait before the next
    /// attempt, and doubles the stored backoff up to its bound. Lease state
    /// is untouched.
    pub fn connect_failed(&mut self) -> (delay: u64)
        requires
            sup_wf(*old(self)),
            old(self).phase is Connecting || old(self).phase is Recovering,
        ensures
            sup_wf(*final(self)),
            final(self).phase == old(self).phase,
            final(self).registry@ == old(self).registry@,
            final(self).scheduler@ == old(self).scheduler@,
            delay == old(self).backoff_ms,
            final(self).backoff_ms == if old(self).backoff_ms * 2 < MAX_BACKOFF_MS {
                old(self).backoff_ms * 2
            } else {
                MAX_BACKOFF_MS as int
            },
    {
        let delay = self.backoff_ms;
        self.backoff_ms = next_backoff_ms(self.backoff_ms);
        delay
    }

    /// A connection is up: leases whose deadline already passed while the
    /// stream was down are expired (first result, for terminal `expired`
    /// events); every surviving lease is kept, gets an immediate renewal —
    /// the second result lists the identifiers to send, in registry order,
    /// since anything in flight on the old stream is lost — and has its next
    /// renewal scheduled one interval from now. The backoff is reset and the
    /// supervisor is streaming again.
    pub fn on_connected(&mut self, now_ms: u64) -> (r: (Vec<i64>, Vec<i64>))
        requires
            sup_wf(*old(self)),
            old(self).phase is Connecting || old(self).phase is Recovering,
            now_ms <= MAX_TIME_MS,
        ensures
            sup_wf(*final(self)),
            final(self).phase is Streaming,
            final(self).backoff_ms == INITIAL_BACKOFF_MS,
            forall|rr: LeaseRecord| #[trigger]
                contains_record(final(self).registry@, rr) ==> contains_record(
                    old(self).registry@,
                    rr,
                ) && rr.deadline_ms > now_ms,
            forall|rr: LeaseRecord| #[trigger]
                contains_record(old(self).registry@, rr) && rr.deadline_ms > now_ms
                    ==> contains_record(final(self).registry@, rr),
            forall|k: int|
                #![trigger r.0@[k]]
                0 <= k < r.0@.len() ==> expired_witness(old(self).registry@, r.0@[k], now_ms),
            forall|rr: LeaseRecord| #[trigger]
                contains_record(old(self).registry@, rr) && rr.deadline_ms <= now_ms
                    ==> r.0@.contains(rr.id),
            forall|k: int| 0 <= k < r.0@.len() ==> !contains_id(final(self).registry@, r.0@[k]),
            forall|k1: int, k2: int| 0 <= k1 < k2 < r.0@.len() ==> r.0@[k1] != r.0@[k2],
            r.1@.len() == final(self).registry@.len(),
            forall|k: int|
                0 <= k < r.1@.len() ==> r.1@[k] == #[trigger] final(self).registry@[k].id,
            forall|e: TimerEntry| #[trigger]
                contains_timer(final(self).scheduler@, e) ==> exists|k: int|
                    #![auto]
                    0 <= k < final(self).registry@.len() && final(self).registry@[k].id == e.id
                        && e.fire_at_ms == now_ms + spec_renew_interval_ms(
                        final(self).registry@[k].granted_ttl,
                    ),
            forall|k: int|
                0 <= k < final(self).registry@.len() ==> timer_for(
                    final(self).scheduler@,
                    #[trigger] final(self).registry@[k].id,
                ),
    {
        let expired = self.expire_all(now_ms);
        let ghost mid = *self;
        let mut resend: Vec<i64> = Vec::new();
        let n = self.registry.len();
        let mut i: usize = 0;
        while i < n
            invariant
                i <= n,
                n == self.registry@.len(),
                sup_wf(*self),
                self.registry@ == mid.registry@,
                self.phase == mid.phase,
                self.backoff_ms == mid.backoff_ms,
                now_ms <= MAX_TIME_MS,
                resend@.len() == i,
                forall|k: int| 0 <= k < i ==> resend@[k] == #[trigger] self.registry@[k].id,
                forall|e: TimerEntry| #[trigger]
                    contains_timer(self.scheduler@, e) ==> contains_timer(mid.scheduler@, e)
                    || exists|k: int|
                        #![auto]
                        0 <= k < i && self.registry@[k].id == e.id && e.fire_at_ms == now_ms
                            + spec_renew_interval_ms(self.registry@[k].granted_ttl),
                forall|e: TimerEntry, k: int|
                    #![trigger contains_timer(self.scheduler@, e), self.registry@[k]]
                    contains_timer(self.scheduler@, e) && 0 <= k < i && self.registry@[k].id
                        == e.id ==> e.fire_at_ms == now_ms + spec_renew_interval_ms(
                        self.registry@[k].granted_ttl,
                    ),
                forall|k: int|
                    0 <= k < i ==> timer_for(
                        self.scheduler@,
                        #[trigger] self.registry@[k].id,
                    ),
            decreases n - i,
        {
            let rec = self.registry.record_at(i);
            resend.push(rec.id);
            let interval = renew_interval_ms(rec.granted_ttl);
            let ghost sched_pre = self.scheduler@;
            self.scheduler.arm(rec.id, now_ms + interval);
            proof {
                assert forall|e: TimerEntry| #[trigger]
                    contains_timer(self.scheduler@, e) implies contains_id(
                    self.registry@,
                    e.id,
                ) by {
                    if e.id != rec.id {
                        assert(contains_timer(sched_pre, e));
                    } else {
                        assert(self.registry@[i as int].id == e.id);
                    }
                }
                assert forall|e: TimerEntry, k: int|
                    #![trigger contains_timer(self.scheduler@, e), self.registry@[k]]
                    contains_timer(self.scheduler@, e) && 0 <= k < i + 1 && self.registry@[k].id
                        == e.id implies e.fire_at_ms == now_ms + spec_renew_interval_ms(
                    self.registry@[k].granted_ttl,
                ) by {
                    if e.id == rec.id {
                        lemma_distinct_id_unique(self.registry@, k, i as int);
                        assert(e == (TimerEntry { id: rec.id, fire_at_ms: (now_ms + interval) as u64 }));
                    } else {
                        assert(contains_timer(sched_pre, e));
                        assert(k != i);
                    }
                }
                assert(contains_timer(
                    self.scheduler@,
                    TimerEntry { id: rec.id, fire_at_ms: (now_ms + interval) as u64 },
                ));
                assert forall|k: int| 0 <= k < i + 1 implies timer_for(
                    self.scheduler@,
                    #[trigger] self.registry@[k].id,
                ) by {
                    if k < i {
                        let e0 = choose|e0: int|
                            0 <= e0 < sched_pre.len() && sched_pre[e0].id == self.registry@[k].id;
                        if self.registry@[k].id != rec.id {
                            assert(contains_timer(sched_pre, sched_pre[e0]));
                            assert(contains_timer(self.scheduler@, sched_pre[e0]));
                            let e1 = sched_pre[e0];
                            let w = choose|w: int|
                                0 <= w < self.scheduler@.len() && self.scheduler@[w] == e1;
                            assert(self.scheduler@[w].id == self.registry@[k].id);
                        } else {
                            assert(self.scheduler@.len() > 0);
                        }
                    }
                }
            }
            i = i + 1;
        }
        self.phase = Phase::Streaming;
        self.backoff_ms = INITIAL_BACKOFF_MS;
        proof {
            assert forall|e: TimerEntry| #[trigger]
                contains_timer(self.scheduler@, e) implies exists|k: int|
                    #![auto]
                    0 <= k < self.registry@.len() && self.registry@[k].id == e.id && e.fire_at_ms
                        == now_ms + spec_renew_interval_ms(self.registry@[k].granted_ttl) by {
                assert(contains_id(self.registry@, e.id));
                let k = choose|k: int|
                    0 <= k < self.registry@.len() && self.registry@[k].id == e.id;
                if contains_timer(mid.scheduler@, e) {
                    assert(contains_id(mid.registry@, e.id));
                    assert(e.fire_at_ms == now_ms + spec_renew_interval_ms(
                        self.registry@[k].granted_ttl,
                    ));
                } else {
                }
            }
        }
        (expired, resend)
    }

    /// Shuts the manager down for good: every tracked lease is dropped and
    /// its identifier returned, in registry order, so each handle receives
    /// its terminal closing event; afterwards nothing is tracked, nothing is
    /// pending, and nothing will be sent.
    pub fn shutdown(&mut self) -> (closed: Vec<i64>)
        requires
            sup_wf(*old(self)),
        ensures
            sup_wf(*final(self)),
            final(self).phase is ShutDown,
            final(self).registry@.len() == 0,
            final(self).scheduler@.len() == 0,
            closed@.len() == old(self).registry@.len(),
            forall|k: int|
                0 <= k < closed@.len() ==> closed@[k] == #[trigger] old(self).registry@[k].id,
    {
        let mut closed: Vec<i64> = Vec::new();
        let n = self.registry.len();
        let mut i: usize = 0;
        while i < n
            invariant
                i <= n,
                n == self.registry@.len(),
                self.registry@ == old(self).registry@,
                closed@.len() == i,
                forall|k: int| 0 <= k < i ==> closed@[k] == #[trigger] self.registry@[k].id,
            decreases n - i,
        {
            let rec = self.registry.record_at(i);
            closed.push(rec.id);
            i = i + 1;
        }
        self.registry.clear();
        self.scheduler.clear();
        self.phase = Phase::ShutDown;
        closed
    }
}

/// Once a lease is no longer tracked — it expired, was revoked, or was
/// cancelled — a later well-formed acknowledgement for its identifier is
/// ignored and changes nothing: a handle can never be told `renewed` after
/// its terminal event.
pub proof fn lemma_no_renewal_after_gone(
    pre: Supervisor,
    post: Supervisor,
    id: i64,
    ttl: i64,
    now_ms: u64,
    r: Dispatch,
)
    requires
        !contains_id(pre.registry@, id),
        0 <= ttl <= MAX_TTL_SECS,
        dispatch_transition(pre, post, id, ttl, now_ms, r),
    ensures
        r is Ignored,
        post == pre,
{
}

/// A lease is revoked at most once: an acknowledgement that revokes it
/// removes it from the registry, so no later acknowledgement for the same
/// identifier can yield `revoked` again.
pub proof fn lemma_revoked_at_most_once(
    s0: Supervisor,
    s1: Supervisor,
    s2: Supervisor,
    id: i64,
    ttl1: i64,
    now1: u64,
    ttl2: i64,
    now2: u64,
    r2: Dispatch,
)
    requires
        dispatch_transition(s0, s1, id, ttl1, now1, Dispatch::Revoked { id }),
        dispatch_transition(s1, s2, id, ttl2, now2, r2),
    ensures
        !(r2 is Revoked),
        !(r2 is Renewed),
{
}

/// The renewal cadence: after an acknowledgement renews a lease, its next
/// renewal is scheduled between a third of the granted time-to-live and the
/// full time-to-live after the acknowledgement — with a healthy stream each
/// lease is renewed at least once per `ttl` seconds and at most once per
/// `ttl / 3` seconds, never more than once per second.
pub proof fn lemma_renewal_cadence(
    pre: Supervisor,
    post: Supervisor,
    id: i64,
    ttl: i64,
    now_ms: u64,
    r: Dispatch,
)
    requires
        dispatch_transition(pre, post, id, ttl, now_ms, r),
        r is Renewed,
    ensures
        forall|e: TimerEntry| #[trigger]
            contains_timer(post.scheduler@, e) && e.id == id ==> now_ms + (ttl * 1000) / 3
                <= e.fire_at_ms <= now_ms + ttl * 1000,
        forall|e: TimerEntry| #[trigger]
            contains_timer(post.scheduler@, e) && e.id == id ==> now_ms
                + crate::timing::MIN_RENEW_INTERVAL_MS <= e.fire_at_ms,
{
    crate::timing::lemma_renew_interval_bounds(ttl);
}

/// `cancel` is idempotent: after one cancellation the lease is absent, so a
/// second cancellation for the same identifier — or one issued after the
/// lease expired or was revoked — leaves the supervisor exactly as it was,
/// with no error and no further events.
pub proof fn lemma_cancel_idempotent(s0: Supervisor, s1: Supervisor, s2: Supervisor, id: i64)
    requires
        cancel_transition(s0, s1, id),
        cancel_transition(s1, s2, id),
    ensures
        s2 == s1,
{
}

} // verus!
