//! Plain models of the wire messages exchanged with the lease authority.
//!
//! Each message holds exactly the fields the protocol carries, as plain
//! values, so the logic that builds and reads them can be verified. Encoding
//! to and from the transport's own representation happens outside the
//! library.

use vstd::prelude::*;
use crate::header::ResponseHeader;

verus! {

/// Request to create a lease. `id == 0` asks the authority to pick one.
#[derive(Clone, Copy, Debug, PartialEq, Eq, Structural)]
pub struct LeaseGrantRequest {
    /// Requested time-to-live in seconds.
    pub ttl: i64,
    /// Requested lease identifier, or zero for server-assigned.
    pub id: i64,
}

/// Response to a grant request.
#[derive(Clone, Debug)]
pub struct LeaseGrantResponse {
    /// Response metadata, if the authority attached any.
    pub header: Option<ResponseHeader>,
    /// Identifier of the granted lease.
    pub id: i64,
    /// Time-to-live the authority actually granted, in seconds.
    pub ttl: i64,
    /// Error message bytes, empty on success.
    pub error: Vec<u8>,
}

/// Request to revoke a lease.
#[derive(Clone, Copy, Debug, PartialEq, Eq, Structural)]
pub struct LeaseRevokeRequest {
    /// Identifier of the lease to revoke.
    pub id: i64,
}

/// Response to a revoke request: header only.
#[derive(Clone, Copy, Debug, PartialEq, Eq, Structural)]
pub struct LeaseRevokeResponse {
    /// Response metadata, if the authority attached any.
    pub header: Option<ResponseHeader>,
}

/// One renewal request on the keep-alive stream.
#[derive(Clone, Copy, Debug, PartialEq, Eq, Structural)]
pub struct LeaseKeepAliveRequest {
    /// Identifier of the lease to renew.
    pub id: i64,
}

/// One acknowledgement on the keep-alive stream. `ttl == 0` signals that the
/// lease no longer exists on the authority.
#[derive(Clone, Copy, Debug, PartialEq, Eq, Structural)]
pub struct LeaseKeepAliveResponse {
    /// Response metadata, if the authority attached any.
    pub header: Option<ResponseHeader>,
    /// Identifier of the lease this acknowledgement is for.
    pub id: i64,
    /// New time-to-live in seconds, or zero if the lease is gone.
    pub ttl: i64,
}

/// Request for the remaining lifetime of a lease.
#[derive(Clone, Copy, Debug, PartialEq, Eq, Structural)]
pub struct LeaseTimeToLiveRequest {
    /// Identifier of the lease queried.
    pub id: i64,
    /// Whether the attached keys should be listed in the response.
    pub keys: bool,
}

/// Response to a time-to-live query.
#[derive(Clone, Debug)]
pub struct LeaseTimeToLiveResponse {
    /// Response metadata, if the authority attached any.
    pub header: Option<ResponseHeader>,
    /// Identifier of the lease queried.
    pub id: i64,
    /// Remaining time-to-live in seconds.
    pub ttl: i64,
    /// Time-to-live granted at creation or last renewal, in seconds.
    pub granted_ttl: i64,
    /// Keys attached to the lease, when requested.
    pub keys: Vec<Vec<u8>>,
}

/// Request to list all leases. Carries no fields.
#[derive(Clone, Copy, Debug, PartialEq, Eq, Structural)]
pub struct LeaseLeasesRequest {
}

/// One lease in a listing.
#[derive(Clone, Copy, Debug, PartialEq, Eq, Structural)]
pub struct LeaseStatus {
    /// Identifier of the listed lease.
    pub id: i64,
}

/// Response to a listing request.
#[derive(Clone, Debug)]
pub struct LeaseLeasesResponse {
    /// Response metadata, if the authority attached any.
    pub header: Option<ResponseHeader>,
    /// The leases the authority currently tracks.
    pub leases: Vec<LeaseStatus>,
}

} // verus!
