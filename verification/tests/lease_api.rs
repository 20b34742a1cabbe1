//! Tests for the option builders, the request builders, and the response
//! wrappers of the unary lease operations.

use etcd_lease::header::ResponseHeader;
use etcd_lease::lease::grant_request;
use etcd_lease::lease::keep_alive_request;
use etcd_lease::lease::leases_request;
use etcd_lease::lease::revoke_request;
use etcd_lease::lease::time_to_live_request;
use etcd_lease::lease::LeaseGrantOptions;
use etcd_lease::lease::LeaseGrantResponse;
use etcd_lease::lease::LeaseKeepAliveOptions;
use etcd_lease::lease::LeaseKeepAliveResponse;
use etcd_lease::lease::LeaseLeasesOptions;
use etcd_lease::lease::LeaseLeasesResponse;
use etcd_lease::lease::LeaseRevokeOptions;
use etcd_lease::lease::LeaseRevokeResponse;
use etcd_lease::lease::LeaseTimeToLiveOptions;
use etcd_lease::lease::LeaseTimeToLiveResponse;
use etcd_lease::proto;

fn sample_header() -> ResponseHeader {
    ResponseHeader::new(11, 22, 33, 44)
}

#[test]
fn grant_options_build_the_request() {
    let opts = LeaseGrantOptions::new().with_ttl(60).with_id(7);
    let req = proto::LeaseGrantRequest::from(opts);
    assert_eq!(req.ttl, 60);
    assert_eq!(req.id, 7);
}

#[test]
fn grant_options_default_is_zeroed() {
    let req = proto::LeaseGrantRequest::from(LeaseGrantOptions::default());
    assert_eq!(req.ttl, 0);
    assert_eq!(req.id, 0);
}

#[test]
fn grant_request_overrides_options() {
    let opts = LeaseGrantOptions::new().with_ttl(1).with_id(2);
    let req = grant_request(30, 9, Some(opts));
    assert_eq!(req.ttl, 30);
    assert_eq!(req.id, 9);
    let req2 = grant_request(15, 4, None);
    assert_eq!(req2.ttl, 15);
    assert_eq!(req2.id, 4);
}

#[test]
fn grant_response_getters() {
    let raw = proto::LeaseGrantResponse {
        header: Some(sample_header()),
        id: 7,
        ttl: 30,
        error: vec![b'n', b'o'],
    };
    let mut resp = LeaseGrantResponse::new(raw);
    assert_eq!(resp.ttl(), 30);
    assert_eq!(resp.id(), 7);
    assert_eq!(resp.error(), &[b'n', b'o']);
    assert_eq!(resp.header().unwrap().revision(), 33);
    let taken = resp.take_header().unwrap();
    assert_eq!(taken.revision(), 33);
    assert!(resp.header().is_none());
    assert!(resp.take_header().is_none());
}

#[test]
fn revoke_request_carries_the_id() {
    let req = revoke_request(12, None);
    assert_eq!(req.id, 12);
    let req2 = revoke_request(13, Some(LeaseRevokeOptions::new().with_id(99)));
    assert_eq!(req2.id, 13);
    let raw = proto::LeaseRevokeRequest::from(LeaseRevokeOptions::default());
    assert_eq!(raw.id, 0);
}

#[test]
fn revoke_response_header_can_be_taken_once() {
    let mut resp = LeaseRevokeResponse::new(proto::LeaseRevokeResponse {
        header: Some(sample_header()),
    });
    assert!(resp.header().is_some());
    assert!(resp.take_header().is_some());
    assert!(resp.take_header().is_none());
}

#[test]
fn keep_alive_request_carries_the_id() {
    let req = keep_alive_request(5, None);
    assert_eq!(req.id, 5);
    let req2 = keep_alive_request(6, Some(LeaseKeepAliveOptions::new().with_id(1)));
    assert_eq!(req2.id, 6);
    let raw = proto::LeaseKeepAliveRequest::from(LeaseKeepAliveOptions::default());
    assert_eq!(raw.id, 0);
}

#[test]
fn keep_alive_response_getters() {
    let mut resp = LeaseKeepAliveResponse::new(proto::LeaseKeepAliveResponse {
        header: Some(sample_header()),
        id: 5,
        ttl: 10,
    });
    assert_eq!(resp.id(), 5);
    assert_eq!(resp.ttl(), 10);
    assert!(resp.take_header().is_some());
    assert!(resp.header().is_none());
    assert_eq!(resp.id(), 5);
}

#[test]
fn time_to_live_request_carries_id_and_keys() {
    let req = time_to_live_request(8, true, None);
    assert_eq!(req.id, 8);
    assert!(req.keys);
    let opts = LeaseTimeToLiveOptions::new().with_id(1).with_keys(false);
    let req2 = time_to_live_request(2, true, Some(opts));
    assert_eq!(req2.id, 2);
    assert!(req2.keys);
    let raw = proto::LeaseTimeToLiveRequest::from(LeaseTimeToLiveOptions::default());
    assert_eq!(raw.id, 0);
    assert!(!raw.keys);
}

#[test]
fn time_to_live_response_getters() {
    let mut resp = LeaseTimeToLiveResponse::new(proto::LeaseTimeToLiveResponse {
        header: Some(sample_header()),
        id: 8,
        ttl: 25,
        granted_ttl: 30,
        keys: vec![vec![b'k']],
    });
    assert_eq!(resp.id(), 8);
    assert_eq!(resp.ttl(), 25);
    assert_eq!(resp.grantedTTL(), 30);
    assert!(resp.take_header().is_some());
    assert!(resp.take_header().is_none());
}

#[test]
fn leases_request_is_empty() {
    let _req = leases_request(None);
    let _req2 = leases_request(Some(LeaseLeasesOptions::new()));
    let _raw = proto::LeaseLeasesRequest::from(LeaseLeasesOptions::default());
}

#[test]
fn leases_response_header_can_be_taken_once() {
    let mut resp = LeaseLeasesResponse::new(proto::LeaseLeasesResponse {
        header: Some(sample_header()),
        leases: vec![proto::LeaseStatus { id: 3 }, proto::LeaseStatus { id: 4 }],
    });
    assert!(resp.header().is_some());
    let taken = resp.take_header();
    assert!(taken.is_some());
    assert!(resp.take_header().is_none());
}
