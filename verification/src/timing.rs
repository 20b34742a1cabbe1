//! Time arithmetic for the keep-alive core: renewal intervals, expiry
//! deadlines, and the reconnect backoff. Times are absolute milliseconds on a
//! monotone clock supplied by the caller; time-to-live values are seconds, as
//! the protocol carries them.

use vstd::prelude::*;

verus! {

/// Largest time-to-live, in seconds, the core accepts. Anything above this is
/// treated as a malformed response; the bound keeps millisecond arithmetic
/// within machine integers.
pub const MAX_TTL_SECS: i64 = 1_000_000_000_000;

/// Largest clock reading, in milliseconds, the core accepts; keeps deadline
/// sums within `u64`.
pub const MAX_TIME_MS: u64 = 1_000_000_000_000_000_000;

/// Renewals for one lease are never sent more often than once per this many
/// milliseconds, however short the lease.
pub const MIN_RENEW_INTERVAL_MS: u64 = 1_000;

/// Delay before the first reconnect attempt, in milliseconds.
pub const INITIAL_BACKOFF_MS: u64 = 500;

/// Upper bound on the reconnect backoff, in milliseconds.
pub const MAX_BACKOFF_MS: u64 = 30_000;

/// Milliseconds between renewals for a lease granted `ttl_secs`: a third of
/// the time-to-live, bounded below by `MIN_RENEW_INTERVAL_MS`.
pub open spec fn spec_renew_interval_ms(ttl_secs: i64) -> int {
    if (ttl_secs * 1000) / 3 < MIN_RENEW_INTERVAL_MS {
        MIN_RENEW_INTERVAL_MS as int
    } else {
        (ttl_secs * 1000) / 3
    }
}

/// Absolute expiry deadline for a lease acknowledged at `now_ms` with
/// time-to-live `ttl_secs`.
pub open spec fn spec_deadline_ms(now_ms: u64, ttl_secs: i64) -> int {
    now_ms + ttl_secs * 1000
}

/// Computes the renewal interval for a lease granted `ttl_secs`.
pub fn renew_interval_ms(ttl_secs: i64) -> (r: u64)
    requires
        0 < ttl_secs <= MAX_TTL_SECS,
    ensures
        r == spec_renew_interval_ms(ttl_secs),
        MIN_RENEW_INTERVAL_MS <= r <= ttl_secs * 1000,
{
    proof {
        lemma_renew_interval_bounds(ttl_secs);
    }
    let third: i64 = (ttl_secs * 1000) / 3;
    if third < 1000 {
        1000
    } else {
        third as u64
    }
}

/// Computes the expiry deadline for a lease acknowledged at `now_ms` with
/// time-to-live `ttl_secs`.
pub fn deadline_ms(now_ms: u64, ttl_secs: i64) -> (r: u64)
    requires
        0 < ttl_secs <= MAX_TTL_SECS,
        now_ms <= MAX_TIME_MS,
    ensures
        r == spec_deadline_ms(now_ms, ttl_secs),
{
    now_ms + (ttl_secs as u64) * 1000
}

/// With a healthy stream, a lease granted `t` seconds is renewed at least
/// once per `t` seconds and at most once per `t / 3` seconds: the interval
/// between renewals lies between `t / 3` and `t`, and is at least the global
/// minimum.
pub proof fn lemma_renew_interval_bounds(t: i64)
    requires
        0 < t <= MAX_TTL_SECS,
    ensures
        (t * 1000) / 3 <= spec_renew_interval_ms(t),
        spec_renew_interval_ms(t) <= t * 1000,
        MIN_RENEW_INTERVAL_MS <= spec_renew_interval_ms(t),
{
    assert((t * 1000) / 3 <= t * 1000) by {
        assert(t * 1000 >= 1000);
    }
}

/// The reconnect delay after one more failed attempt: doubled, capped at
/// `MAX_BACKOFF_MS`.
pub fn next_backoff_ms(cur: u64) -> (r: u64)
    requires
        INITIAL_BACKOFF_MS <= cur <= MAX_BACKOFF_MS,
    ensures
        r == if cur * 2 < MAX_BACKOFF_MS { cur * 2 } else { MAX_BACKOFF_MS as int },
        INITIAL_BACKOFF_MS <= r <= MAX_BACKOFF_MS,
{
    if cur < 15_000 {
        cur * 2
    } else {
        MAX_BACKOFF_MS
    }
}

} // verus!
