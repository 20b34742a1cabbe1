//! Client-side lease maintenance: wire-message types for the lease RPCs and a
//! verified keep-alive core that multiplexes renewals for many leases over one
//! stream, tracks each lease's expiry deadline, and survives stream failure.

pub mod events;
pub mod header;
pub mod lease;
pub mod supervisor;
pub mod proto;
pub mod registry;
pub mod scheduler;
pub mod timing;
