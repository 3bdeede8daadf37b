//! Metrics-collection core of a storage-dataplane exporter.
//!
//! The crate holds the verified logic of the exporter: a version-aware
//! connection manager that holds exactly one RPC client handle, the
//! collectors that render cached pool records into labeled metric samples,
//! and the small state machine behind the diagnostic log file.

use vstd::prelude::*;

pub mod error;
pub mod grpc_client;
pub mod pool;
pub mod utils;

verus! {

/// The two mutually exclusive RPC protocol versions a manager can speak.
#[derive(Clone, Copy, Debug, PartialEq, Eq, Structural)]
pub enum ApiVersion {
    V0,
    V1,
}

} // verus!
