//! Verified core of a local domain-impersonation tool.
//!
//! The library holds the logic that manipulates security-sensitive system
//! state: certificate-chain generation, the plan for installing and removing
//! a trust anchor, the resolution-override lines added to the static hosts
//! mapping, and the lifecycle state machine that sequences startup and
//! teardown.  All file, process and network I/O is performed by the
//! surrounding binary, which feeds plain values in and carries plans out.

pub mod artifacts;
pub mod certs;
pub mod errors;
pub mod hosts;
pub mod lifecycle;
pub mod trust;
