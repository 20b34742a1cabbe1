//! Tests for the keep-alive core: renewal scheduling, dispatching,
//! expiry, reconnection, cancellation, shutdown, and the handle mailbox.

use etcd_lease::events::EventSlot;
use etcd_lease::events::LeaseEvent;
use etcd_lease::supervisor::Dispatch;
use etcd_lease::supervisor::Phase;
use etcd_lease::supervisor::RegisterError;
use etcd_lease::supervisor::Supervisor;
use etcd_lease::timing::deadline_ms;
use etcd_lease::timing::next_backoff_ms;
use etcd_lease::timing::renew_interval_ms;
use etcd_lease::timing::INITIAL_BACKOFF_MS;
use etcd_lease::timing::MAX_BACKOFF_MS;
use etcd_lease::timing::MAX_TTL_SECS;

fn streaming_supervisor() -> Supervisor {
    let mut sup = Supervisor::new();
    let (expired, resend) = sup.on_connected(0);
    assert!(expired.is_empty());
    assert!(resend.is_empty());
    sup
}

#[test]
fn renewal_interval_is_a_third_of_the_ttl() {
    assert_eq!(renew_interval_ms(10), 3333);
    assert_eq!(renew_interval_ms(30), 10000);
    assert_eq!(renew_interval_ms(60), 20000);
}

#[test]
fn renewal_interval_never_drops_below_one_second() {
    assert_eq!(renew_interval_ms(1), 1000);
    assert_eq!(renew_interval_ms(2), 1000);
    assert_eq!(renew_interval_ms(3), 1000);
    assert_eq!(renew_interval_ms(4), 1333);
}

#[test]
fn deadline_is_now_plus_the_ttl() {
    assert_eq!(deadline_ms(3400, 10), 13400);
    assert_eq!(deadline_ms(0, 1), 1000);
}

#[test]
fn first_renewal_and_reset_deadline() {
    // A lease granted ten seconds: first renewal due a third in, and the
    // acknowledgement resets the deadline to exactly its arrival time plus
    // the new time-to-live.
    let mut sup = streaming_supervisor();
    sup.register(5, 10, 0).unwrap();
    assert_eq!(sup.next_wakeup_ms(), Some(3333));
    assert_eq!(sup.next_renewal_due(3300), None);
    assert_eq!(sup.next_renewal_due(3333), Some(5));
    let d = sup.handle_response(5, 10, 3400);
    assert_eq!(d, Dispatch::Renewed { id: 5, deadline_ms: 13400 });
    let rec = sup.registry.get(5).unwrap();
    assert_eq!(rec.deadline_ms, 13400);
    // Second renewal one interval after the acknowledgement.
    assert_eq!(sup.next_wakeup_ms(), Some(3400 + 3333));
}

#[test]
fn renewal_updates_deadline_whatever_the_prior_ttl() {
    let mut sup = streaming_supervisor();
    sup.register(5, 10, 0).unwrap();
    let d = sup.handle_response(5, 99, 2000);
    assert_eq!(d, Dispatch::Renewed { id: 5, deadline_ms: 2000 + 99_000 });
    let rec = sup.registry.get(5).unwrap();
    assert_eq!(rec.granted_ttl, 99);
    assert_eq!(rec.deadline_ms, 101_000);
}

#[test]
fn unknown_id_is_ignored_without_changes() {
    let mut sup = streaming_supervisor();
    sup.register(5, 10, 0).unwrap();
    let before = sup.registry.len();
    let d = sup.handle_response(77, 10, 100);
    assert_eq!(d, Dispatch::Ignored);
    assert_eq!(sup.registry.len(), before);
    assert!(sup.registry.get(77).is_none());
    assert_eq!(sup.registry.get(5).unwrap().deadline_ms, 10_000);
}

#[test]
fn zero_ttl_revokes_exactly_once() {
    let mut sup = streaming_supervisor();
    sup.register(5, 10, 0).unwrap();
    let d = sup.handle_response(5, 0, 100);
    assert_eq!(d, Dispatch::Revoked { id: 5 });
    // Absent from the registry immediately after.
    assert!(sup.registry.get(5).is_none());
    assert_eq!(sup.registry.len(), 0);
    // The same response again cannot revoke a second time.
    let d2 = sup.handle_response(5, 0, 200);
    assert_eq!(d2, Dispatch::Ignored);
}

#[test]
fn negative_or_huge_ttl_is_malformed() {
    let mut sup = streaming_supervisor();
    sup.register(5, 10, 0).unwrap();
    assert_eq!(sup.handle_response(5, -1, 100), Dispatch::Malformed);
    assert_eq!(sup.handle_response(5, MAX_TTL_SECS + 1, 100), Dispatch::Malformed);
    // Nothing changed.
    assert_eq!(sup.registry.get(5).unwrap().deadline_ms, 10_000);
}

#[test]
fn cancel_is_idempotent() {
    let mut sup = streaming_supervisor();
    sup.register(5, 10, 0).unwrap();
    sup.cancel(5);
    assert!(sup.registry.get(5).is_none());
    // A second cancel, and one for a lease never seen, change nothing.
    sup.cancel(5);
    sup.cancel(1234);
    assert_eq!(sup.registry.len(), 0);
    assert_eq!(sup.next_wakeup_ms(), None);
}

#[test]
fn cancel_after_revocation_is_silent() {
    let mut sup = streaming_supervisor();
    sup.register(5, 10, 0).unwrap();
    assert_eq!(sup.handle_response(5, 0, 100), Dispatch::Revoked { id: 5 });
    sup.cancel(5);
    assert!(sup.registry.get(5).is_none());
}

#[test]
fn register_rejects_bad_input() {
    let mut sup = streaming_supervisor();
    assert_eq!(sup.register(0, 10, 0), Err(RegisterError::InvalidId));
    assert_eq!(sup.register(5, 0, 0), Err(RegisterError::InvalidTtl));
    assert_eq!(sup.register(5, -3, 0), Err(RegisterError::InvalidTtl));
    assert_eq!(sup.register(5, MAX_TTL_SECS + 1, 0), Err(RegisterError::InvalidTtl));
    sup.register(5, 10, 0).unwrap();
    assert_eq!(sup.register(5, 20, 0), Err(RegisterError::AlreadyTracked));
    // The failed attempts changed nothing but the one success.
    assert_eq!(sup.registry.len(), 1);
}

#[test]
fn register_after_shutdown_is_refused() {
    let mut sup = streaming_supervisor();
    sup.register(5, 10, 0).unwrap();
    let closed = sup.shutdown();
    assert_eq!(closed, vec![5]);
    assert_eq!(sup.phase, Phase::ShutDown);
    assert_eq!(sup.registry.len(), 0);
    assert_eq!(sup.next_wakeup_ms(), None);
    assert_eq!(sup.register(6, 10, 0), Err(RegisterError::ShutDown));
}

#[test]
fn expiry_removes_only_overdue_leases() {
    let mut sup = streaming_supervisor();
    sup.register(1, 10, 0).unwrap(); // deadline 10000
    sup.register(2, 20, 0).unwrap(); // deadline 20000
    sup.register(3, 10, 0).unwrap(); // deadline 10000, equal to lease 1
    let mut expired = sup.expire_all(10_000);
    expired.sort();
    assert_eq!(expired, vec![1, 3]);
    assert!(sup.registry.get(1).is_none());
    assert!(sup.registry.get(3).is_none());
    assert_eq!(sup.registry.get(2).unwrap().deadline_ms, 20_000);
    // Nothing more to expire at the same instant.
    assert!(sup.expire_all(10_000).is_empty());
}

#[test]
fn stream_failure_then_reconnect_in_time_keeps_the_lease() {
    // Stream fails at five seconds with the deadline at ten: reconnecting
    // before the deadline keeps the lease and resends its renewal at once.
    let mut sup = streaming_supervisor();
    sup.register(5, 10, 0).unwrap();
    sup.stream_failed();
    assert_eq!(sup.phase, Phase::Recovering);
    let (expired, resend) = sup.on_connected(8_000);
    assert!(expired.is_empty());
    assert_eq!(resend, vec![5]);
    assert_eq!(sup.phase, Phase::Streaming);
    assert!(sup.registry.get(5).is_some());
    // Next renewal one interval after the resend.
    assert_eq!(sup.next_wakeup_ms(), Some(8_000 + 3333));
}

#[test]
fn stream_failure_then_late_reconnect_expires_the_lease() {
    // Reconnection completes after the deadline: exactly one expiry, no
    // resend, and a later acknowledgement for the dead lease is ignored —
    // never an expiry followed by a renewal.
    let mut sup = streaming_supervisor();
    sup.register(5, 10, 0).unwrap();
    sup.stream_failed();
    let (expired, resend) = sup.on_connected(12_000);
    assert_eq!(expired, vec![5]);
    assert!(resend.is_empty());
    assert!(sup.registry.get(5).is_none());
    let d = sup.handle_response(5, 10, 12_500);
    assert_eq!(d, Dispatch::Ignored);
    assert!(sup.registry.get(5).is_none());
}

#[test]
fn backoff_doubles_up_to_its_bound_and_resets() {
    let mut sup = Supervisor::new();
    assert_eq!(sup.connect_failed(), 500);
    assert_eq!(sup.connect_failed(), 1000);
    assert_eq!(sup.connect_failed(), 2000);
    assert_eq!(sup.connect_failed(), 4000);
    assert_eq!(sup.connect_failed(), 8000);
    assert_eq!(sup.connect_failed(), 16000);
    assert_eq!(sup.connect_failed(), 30000);
    assert_eq!(sup.connect_failed(), 30000);
    let (_, _) = sup.on_connected(0);
    assert_eq!(sup.backoff_ms, INITIAL_BACKOFF_MS);
}

#[test]
fn backoff_step_function_is_capped() {
    assert_eq!(next_backoff_ms(INITIAL_BACKOFF_MS), 1000);
    assert_eq!(next_backoff_ms(MAX_BACKOFF_MS), MAX_BACKOFF_MS);
    assert_eq!(next_backoff_ms(15_000), 30_000);
    assert_eq!(next_backoff_ms(14_999), 29_998);
}

#[test]
fn consumed_renewal_is_rearmed_only_by_the_acknowledgement() {
    let mut sup = streaming_supervisor();
    sup.register(5, 10, 0).unwrap();
    assert_eq!(sup.next_renewal_due(4_000), Some(5));
    // The timer is consumed; nothing further is due until the response.
    assert_eq!(sup.next_renewal_due(4_000), None);
    assert_eq!(sup.next_wakeup_ms(), None);
    let d = sup.handle_response(5, 10, 4_100);
    assert_eq!(d, Dispatch::Renewed { id: 5, deadline_ms: 14_100 });
    assert_eq!(sup.next_wakeup_ms(), Some(4_100 + 3333));
}

#[test]
fn missed_deadline_without_acknowledgement_expires() {
    let mut sup = streaming_supervisor();
    sup.register(5, 10, 0).unwrap();
    assert_eq!(sup.next_renewal_due(3_333), Some(5));
    // No response ever arrives; at the deadline the lease expires.
    assert_eq!(sup.next_expired(9_999), None);
    assert_eq!(sup.next_expired(10_000), Some(5));
    assert!(sup.registry.get(5).is_none());
    assert_eq!(sup.next_expired(10_000), None);
}

#[test]
fn shutdown_returns_every_tracked_lease_once() {
    let mut sup = streaming_supervisor();
    sup.register(1, 10, 0).unwrap();
    sup.register(2, 20, 0).unwrap();
    sup.register(3, 30, 0).unwrap();
    let closed = sup.shutdown();
    assert_eq!(closed, vec![1, 2, 3]);
    assert_eq!(sup.registry.len(), 0);
}

#[test]
fn event_slot_coalesces_renewals() {
    let mut slot = EventSlot::new();
    assert_eq!(slot.take(), None);
    slot.offer(LeaseEvent::Renewed { deadline_ms: 1000 });
    slot.offer(LeaseEvent::Renewed { deadline_ms: 2000 });
    // Only the newest deadline is seen.
    assert_eq!(slot.take(), Some(LeaseEvent::Renewed { deadline_ms: 2000 }));
    assert_eq!(slot.take(), None);
}

#[test]
fn event_slot_delivers_nothing_after_a_terminal_event() {
    let mut slot = EventSlot::new();
    slot.offer(LeaseEvent::Renewed { deadline_ms: 1000 });
    slot.offer(LeaseEvent::Revoked);
    // The terminal event overwrote the unconsumed renewal; afterwards the
    // slot is closed for good.
    slot.offer(LeaseEvent::Renewed { deadline_ms: 9000 });
    assert_eq!(slot.take(), Some(LeaseEvent::Revoked));
    slot.offer(LeaseEvent::Expired);
    slot.offer(LeaseEvent::ManagerClosed);
    assert_eq!(slot.take(), None);
}
