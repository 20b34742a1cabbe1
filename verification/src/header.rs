//! Response header common to all lease RPC responses.

use vstd::prelude::*;

verus! {

/// Metadata the authority attaches to every response.
#[derive(Clone, Copy, Debug, PartialEq, Eq, Structural)]
pub struct ResponseHeader {
    /// Identifier of the cluster that answered.
    pub cluster_id: u64,
    /// Identifier of the member that answered.
    pub member_id: u64,
    /// Store revision at the time of the response.
    pub revision: i64,
    /// Raft term at the time of the response.
    pub raft_term: u64,
}

impl ResponseHeader {
    /// Creates a header from its four fields.
    pub fn new(cluster_id: u64, member_id: u64, revision: i64, raft_term: u64) -> (r: Self)
        ensures
            r == (ResponseHeader { cluster_id, member_id, revision, raft_term }),
    {
        ResponseHeader { cluster_id, member_id, revision, raft_term }
    }

    /// Store revision carried by this header.
    pub fn revision(&self) -> (r: i64)
        ensures
            r == self.revision,
    {
        self.revision
    }
}

} // verus!
