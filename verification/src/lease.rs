//! Options and response wrappers for the unary lease operations, and the
//! request builders the keep-alive stream uses.

use vstd::prelude::*;
use crate::header::ResponseHeader;
use crate::proto::LeaseGrantRequest;
use crate::proto::LeaseRevokeRequest;
use crate::proto::LeaseKeepAliveRequest;
use crate::proto::LeaseTimeToLiveRequest;
use crate::proto::LeaseLeasesRequest;

verus! {

/// Options for the grant operation.
#[derive(Clone, Copy, Debug, PartialEq, Eq, Structural)]
pub struct LeaseGrantOptions(pub LeaseGrantRequest);

impl LeaseGrantOptions {
    /// Creates options with both fields zeroed.
    pub fn new() -> (r: Self)
        ensures
            r.0.ttl == 0 && r.0.id == 0,
    {
        LeaseGrantOptions(LeaseGrantRequest { ttl: 0, id: 0 })
    }

    /// Sets the requested time-to-live, keeping the identifier.
    pub fn with_ttl(self, ttl: i64) -> (r: Self)
        ensures
            r.0.ttl == ttl && r.0.id == self.0.id,
    {
        LeaseGrantOptions(LeaseGrantRequest { ttl, id: self.0.id })
    }

    /// Sets the lease identifier, keeping the time-to-live.
    pub fn with_id(self, id: i64) -> (r: Self)
        ensures
            r.0.id == id && r.0.ttl == self.0.ttl,
    {
        LeaseGrantOptions(LeaseGrantRequest { ttl: self.0.ttl, id })
    }
}

impl Default for LeaseGrantOptions {
    /// Same value as `new`.
    fn default() -> (r: Self)
        ensures
            r.0.ttl == 0 && r.0.id == 0,
    {
        LeaseGrantOptions::new()
    }
}

/// The grant request a call with these arguments puts on the wire: the given
/// options (fresh ones if none), with the identifier and time-to-live set.
pub fn grant_request(ttl: i64, id: i64, options: Option<LeaseGrantOptions>) -> (r: LeaseGrantRequest)
    ensures
        r.ttl == ttl && r.id == id,
{
    let base = match options {
        Some(o) => o,
        None => LeaseGrantOptions::new(),
    };
    base.with_id(id).with_ttl(ttl).0
}

/// Response for the grant operation.
#[derive(Clone, Debug)]
pub struct LeaseGrantResponse(pub crate::proto::LeaseGrantResponse);

impl LeaseGrantResponse {
    /// Wraps a raw grant response.
    pub fn new(resp: crate::proto::LeaseGrantResponse) -> (r: Self)
        ensures
            r.0 == resp,
    {
        LeaseGrantResponse(resp)
    }

    /// The response header, if one was attached.
    pub fn header(&self) -> (r: Option<&ResponseHeader>)
        ensures
            match r {
                Some(h) => self.0.header == Some(*h),
                None => self.0.header is None,
            },
    {
        match &self.0.header {
            Some(h) => Some(h),
            None => None,
        }
    }

    /// Takes the header out of the response, leaving `None` in its place.
    pub fn take_header(&mut self) -> (r: Option<ResponseHeader>)
        ensures
            r == old(self).0.header,
            final(self).0.header is None,
            final(self).0.id == old(self).0.id,
            final(self).0.ttl == old(self).0.ttl,
            final(self).0.error == old(self).0.error,
    {
        let h = self.0.header;
        self.0.header = None;
        h
    }

    /// The time-to-live the authority chose, in seconds.
    pub fn ttl(&self) -> (r: i64)
        ensures
            r == self.0.ttl,
    {
        self.0.ttl
    }

    /// The identifier of the granted lease.
    pub fn id(&self) -> (r: i64)
        ensures
            r == self.0.id,
    {
        self.0.id
    }

    /// The error message bytes; empty on success.
    pub fn error(&self) -> (r: &[u8])
        ensures
            r@ == self.0.error@,
    {
        self.0.error.as_slice()
    }
}

/// Options for the revoke operation.
#[derive(Clone, Copy, Debug, PartialEq, Eq, Structural)]
pub struct LeaseRevokeOptions(pub LeaseRevokeRequest);

impl LeaseRevokeOptions {
    /// Creates options with the identifier zeroed.
    pub fn new() -> (r: Self)
        ensures
            r.0.id == 0,
    {
        LeaseRevokeOptions(LeaseRevokeRequest { id: 0 })
    }

    /// Sets the lease identifier.
    pub fn with_id(self, id: i64) -> (r: Self)
        ensures
            r.0.id == id,
    {
        LeaseRevokeOptions(LeaseRevokeRequest { id })
    }
}

impl Default for LeaseRevokeOptions {
    /// Same value as `new`.
    fn default() -> (r: Self)
        ensures
            r.0.id == 0,
    {
        LeaseRevokeOptions::new()
    }
}

/// The revoke request a call for `id` puts on the wire.
pub fn revoke_request(id: i64, options: Option<LeaseRevokeOptions>) -> (r: LeaseRevokeRequest)
    ensures
        r.id == id,
{
    let base = match options {
        Some(o) => o,
        None => LeaseRevokeOptions::new(),
    };
    base.with_id(id).0
}

/// Response for the revoke operation.
#[derive(Clone, Copy, Debug, PartialEq, Eq, Structural)]
pub struct LeaseRevokeResponse(pub crate::proto::LeaseRevokeResponse);

impl LeaseRevokeResponse {
    /// Wraps a raw revoke response.
    pub fn new(resp: crate::proto::LeaseRevokeResponse) -> (r: Self)
        ensures
            r.0 == resp,
    {
        LeaseRevokeResponse(resp)
    }

    /// The response header, if one was attached.
    pub fn header(&self) -> (r: Option<&ResponseHeader>)
        ensures
            match r {
                Some(h) => self.0.header == Some(*h),
                None => self.0.header is None,
            },
    {
        match &self.0.header {
            Some(h) => Some(h),
            None => None,
        }
    }

    /// Takes the header out of the response, leaving `None` in its place.
    pub fn take_header(&mut self) -> (r: Option<ResponseHeader>)
        ensures
            r == old(self).0.header,
            final(self).0.header is None,
    {
        let h = self.0.header;
        self.0.header = None;
        h
    }
}

/// Options for one keep-alive renewal.
#[derive(Clone, Copy, Debug, PartialEq, Eq, Structural)]
pub struct LeaseKeepAliveOptions(pub LeaseKeepAliveRequest);

impl LeaseKeepAliveOptions {
    /// Creates options with the identifier zeroed.
    pub fn new() -> (r: Self)
        ensures
            r.0.id == 0,
    {
        LeaseKeepAliveOptions(LeaseKeepAliveRequest { id: 0 })
    }

    /// Sets the lease identifier.
    pub fn with_id(self, id: i64) -> (r: Self)
        ensures
            r.0.id == id,
    {
        LeaseKeepAliveOptions(LeaseKeepAliveRequest { id })
    }
}

impl Default for LeaseKeepAliveOptions {
    /// Same value as `new`.
    fn default() -> (r: Self)
        ensures
            r.0.id == 0,
    {
        LeaseKeepAliveOptions::new()
    }
}

/// The renewal request the stream sends for `id`.
pub fn keep_alive_request(id: i64, options: Option<LeaseKeepAliveOptions>) -> (r: LeaseKeepAliveRequest)
    ensures
        r.id == id,
{
    let base = match options {
        Some(o) => o,
        None => LeaseKeepAliveOptions::new(),
    };
    base.with_id(id).0
}

/// Response for one keep-alive renewal.
#[derive(Clone, Copy, Debug, PartialEq, Eq, Structural)]
pub struct LeaseKeepAliveResponse(pub crate::proto::LeaseKeepAliveResponse);

impl LeaseKeepAliveResponse {
    /// Wraps a raw keep-alive response.
    pub fn new(resp: crate::proto::LeaseKeepAliveResponse) -> (r: Self)
        ensures
            r.0 == resp,
    {
        LeaseKeepAliveResponse(resp)
    }

    /// The response header, if one was attached.
    pub fn header(&self) -> (r: Option<&ResponseHeader>)
        ensures
            match r {
                Some(h) => self.0.header == Some(*h),
                None => self.0.header is None,
            },
    {
        match &self.0.header {
            Some(h) => Some(h),
            None => None,
        }
    }

    /// Takes the header out of the response, leaving `None` in its place.
    pub fn take_header(&mut self) -> (r: Option<ResponseHeader>)
        ensures
            r == old(self).0.header,
            final(self).0.header is None,
            final(self).0.id == old(self).0.id,
            final(self).0.ttl == old(self).0.ttl,
    {
        let h = self.0.header;
        self.0.header = None;
        h
    }

    /// The new time-to-live for the lease, in seconds.
    pub fn ttl(&self) -> (r: i64)
        ensures
            r == self.0.ttl,
    {
        self.0.ttl
    }

    /// The identifier of the lease this acknowledgement renews.
    pub fn id(&self) -> (r: i64)
        ensures
            r == self.0.id,
    {
        self.0.id
    }
}

/// Options for the time-to-live query.
#[derive(Clone, Copy, Debug, PartialEq, Eq, Structural)]
pub struct LeaseTimeToLiveOptions(pub LeaseTimeToLiveRequest);

impl LeaseTimeToLiveOptions {
    /// Creates options with the identifier zeroed and keys not requested.
    pub fn new() -> (r: Self)
        ensures
            r.0.id == 0 && !r.0.keys,
    {
        LeaseTimeToLiveOptions(LeaseTimeToLiveRequest { id: 0, keys: false })
    }

    /// Sets the lease identifier, keeping the keys flag.
    pub fn with_id(self, id: i64) -> (r: Self)
        ensures
            r.0.id == id && r.0.keys == self.0.keys,
    {
        LeaseTimeToLiveOptions(LeaseTimeToLiveRequest { id, keys: self.0.keys })
    }

    /// Sets whether attached keys should be listed, keeping the identifier.
    pub fn with_keys(self, keys: bool) -> (r: Self)
        ensures
            r.0.keys == keys && r.0.id == self.0.id,
    {
        LeaseTimeToLiveOptions(LeaseTimeToLiveRequest { id: self.0.id, keys })
    }
}

impl Default for LeaseTimeToLiveOptions {
    /// Same value as `new`.
    fn default() -> (r: Self)
        ensures
            r.0.id == 0 && !r.0.keys,
    {
        LeaseTimeToLiveOptions::new()
    }
}

/// The time-to-live query a call with these arguments puts on the wire.
pub fn time_to_live_request(id: i64, keys: bool, options: Option<LeaseTimeToLiveOptions>) -> (r: LeaseTimeToLiveRequest)
    ensures
        r.id == id && r.keys == keys,
{
    let base = match options {
        Some(o) => o,
        None => LeaseTimeToLiveOptions::new(),
    };
    base.with_id(id).with_keys(keys).0
}

/// Response for the time-to-live query.
#[derive(Clone, Debug)]
pub struct LeaseTimeToLiveResponse(pub crate::proto::LeaseTimeToLiveResponse);

impl LeaseTimeToLiveResponse {
    /// Wraps a raw time-to-live response.
    pub fn new(resp: crate::proto::LeaseTimeToLiveResponse) -> (r: Self)
        ensures
            r.0 == resp,
    {
        LeaseTimeToLiveResponse(resp)
    }

    /// The response header, if one was attached.
    pub fn header(&self) -> (r: Option<&ResponseHeader>)
        ensures
            match r {
                Some(h) => self.0.header == Some(*h),
                None => self.0.header is None,
            },
    {
        match &self.0.header {
            Some(h) => Some(h),
            None => None,
        }
    }

    /// Takes the header out of the response, leaving `None` in its place.
    pub fn take_header(&mut self) -> (r: Option<ResponseHeader>)
        ensures
            r == old(self).0.header,
            final(self).0.header is None,
            final(self).0.id == old(self).0.id,
            final(self).0.ttl == old(self).0.ttl,
            final(self).0.granted_ttl == old(self).0.granted_ttl,
            final(self).0.keys == old(self).0.keys,
    {
        let h = self.0.header;
        self.0.header = None;
        h
    }

    /// The remaining time-to-live in seconds.
    pub fn ttl(&self) -> (r: i64)
        ensures
            r == self.0.ttl,
    {
        self.0.ttl
    }

    /// The identifier of the lease queried.
    pub fn id(&self) -> (r: i64)
        ensures
            r == self.0.id,
    {
        self.0.id
    }

    /// The time-to-live granted at creation or last renewal, in seconds.
    #[allow(non_snake_case)]
    pub fn grantedTTL(&self) -> (r: i64)
        ensures
            r == self.0.granted_ttl,
    {
        self.0.granted_ttl
    }
}

/// Options for the listing operation. Carries no fields.
#[derive(Clone, Copy, Debug, PartialEq, Eq, Structural)]
pub struct LeaseLeasesOptions(pub LeaseLeasesRequest);

impl LeaseLeasesOptions {
    /// Creates empty options.
    pub fn new() -> (r: Self)
        ensures
            r == (LeaseLeasesOptions(LeaseLeasesRequest {})),
    {
        LeaseLeasesOptions(LeaseLeasesRequest {})
    }
}

impl Default for LeaseLeasesOptions {
    /// Same value as `new`.
    fn default() -> (r: Self)
        ensures
            r == (LeaseLeasesOptions(LeaseLeasesRequest {})),
    {
        LeaseLeasesOptions::new()
    }
}

/// The listing request a call puts on the wire.
pub fn leases_request(options: Option<LeaseLeasesOptions>) -> (r: LeaseLeasesRequest)
    ensures
        r == (LeaseLeasesRequest {}),
{
    let base = match options {
        Some(o) => o,
        None => LeaseLeasesOptions::new(),
    };
    base.0
}

/// Response for the listing operation.
#[derive(Clone, Debug)]
pub struct LeaseLeasesResponse(pub crate::proto::LeaseLeasesResponse);

impl LeaseLeasesResponse {
    /// Wraps a raw listing response.
    pub fn new(resp: crate::proto::LeaseLeasesResponse) -> (r: Self)
        ensures
            r.0 == resp,
    {
        LeaseLeasesResponse(resp)
    }

    /// The response header, if one was attached.
    pub fn header(&self) -> (r: Option<&ResponseHeader>)
        ensures
            match r {
                Some(h) => self.0.header == Some(*h),
                None => self.0.header is None,
            },
    {
        match &self.0.header {
            Some(h) => Some(h),
            None => None,
        }
    }

    /// Takes the header out of the response, leaving `None` in its place.
    pub fn take_header(&mut self) -> (r: Option<ResponseHeader>)
        ensures
            r == old(self).0.header,
            final(self).0.header is None,
            final(self).0.leases == old(self).0.leases,
    {
        let h = self.0.header;
        self.0.header = None;
        h
    }
}

impl From<LeaseGrantOptions> for LeaseGrantRequest {
    /// Unwraps the request the options hold.
    fn from(options: LeaseGrantOptions) -> (r: LeaseGrantRequest)
    {
        options.0
    }
}

impl vstd::std_specs::convert::FromSpecImpl<LeaseGrantOptions> for LeaseGrantRequest {
    open spec fn obeys_from_spec() -> bool {
        true
    }

    open spec fn from_spec(options: LeaseGrantOptions) -> LeaseGrantRequest {
        options.0
    }
}

impl From<LeaseRevokeOptions> for LeaseRevokeRequest {
    /// Unwraps the request the options hold.
    fn from(options: LeaseRevokeOptions) -> (r: LeaseRevokeRequest)
    {
        options.0
    }
}

impl vstd::std_specs::convert::FromSpecImpl<LeaseRevokeOptions> for LeaseRevokeRequest {
    open spec fn obeys_from_spec() -> bool {
        true
    }

    open spec fn from_spec(options: LeaseRevokeOptions) -> LeaseRevokeRequest {
        options.0
    }
}

impl From<LeaseKeepAliveOptions> for LeaseKeepAliveRequest {
    /// Unwraps the request the options hold.
    fn from(options: LeaseKeepAliveOptions) -> (r: LeaseKeepAliveRequest)
    {
        options.0
    }
}

impl vstd::std_specs::convert::FromSpecImpl<LeaseKeepAliveOptions> for LeaseKeepAliveRequest {
    open spec fn obeys_from_spec() -> bool {
        true
    }

    open spec fn from_spec(options: LeaseKeepAliveOptions) -> LeaseKeepAliveRequest {
        options.0
    }
}

impl From<LeaseTimeToLiveOptions> for LeaseTimeToLiveRequest {
    /// Unwraps the request the options hold.
    fn from(options: LeaseTimeToLiveOptions) -> (r: LeaseTimeToLiveRequest)
    {
        options.0
    }
}

impl vstd::std_specs::convert::FromSpecImpl<LeaseTimeToLiveOptions> for LeaseTimeToLiveRequest {
    open spec fn obeys_from_spec() -> bool {
        true
    }

    open spec fn from_spec(options: LeaseTimeToLiveOptions) -> LeaseTimeToLiveRequest {
        options.0
    }
}

impl From<LeaseLeasesOptions> for LeaseLeasesRequest {
    /// Unwraps the request the options hold.
    fn from(options: LeaseLeasesOptions) -> (r: LeaseLeasesRequest)
    {
        options.0
    }
}

impl vstd::std_specs::convert::FromSpecImpl<LeaseLeasesOptions> for LeaseLeasesRequest {
    open spec fn obeys_from_spec() -> bool {
        true
    }

    open spec fn from_spec(options: LeaseLeasesOptions) -> LeaseLeasesRequest {
        options.0
    }
}

} // verus!
