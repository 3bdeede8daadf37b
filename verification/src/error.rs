//! Typed errors surfaced by the exporter core.

use vstd::prelude::*;

verus! {

/// Errors that the exporter core returns to its callers.
///
/// `GrpcClientError` is returned by the connection manager's accessors when
/// the handle for the requested protocol version is absent. `InvalidURI`
/// marks a malformed endpoint at construction time; it is produced where the
/// endpoint string is parsed, outside the verified core.
#[derive(Clone, Debug, PartialEq, Eq)]
pub enum ExporterError {
    GrpcClientError(String),
    InvalidURI(String),
}

impl ExporterError {
    /// The error's text, for diagnostics.
    pub fn message(&self) -> (r: String)
        ensures
            (self matches ExporterError::GrpcClientError(m) ==> r@ == m@),
            (self matches ExporterError::InvalidURI(m) ==> r@ == m@),
    {
        match self {
            ExporterError::GrpcClientError(m) => m.clone(),
            ExporterError::InvalidURI(m) => m.clone(),
        }
    }
}

} // verus!
