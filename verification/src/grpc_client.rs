//! Version-aware RPC connection manager.
//!
//! The manager owns exactly one client handle, matching the protocol version
//! chosen at construction. Establishing the connection is an endless retry
//! loop: each attempt either times out, fails in the transport, or succeeds;
//! failures are absorbed and followed by a fixed backoff sleep. The attempts
//! themselves are network work that the unverified runtime performs; this
//! module holds the decision that drives the loop (`connect_step`) and a
//! driver over a finite record of attempt outcomes (`run_connect_loop`).

use vstd::prelude::*;

use crate::ApiVersion;
use crate::error::ExporterError;

verus! {

/// Seconds slept between two connect attempts.
pub const BACKOFF_SECS: u64 = 10;

/// Timeouts for the RPC connection: one bound for establishing the
/// connection, one for each request on it.
#[derive(Debug)]
pub struct Timeouts {
    connect: core::time::Duration,
    request: core::time::Duration,
}

impl Clone for Timeouts {
    fn clone(&self) -> (r: Self)
        ensures
            r == *self,
    {
        Timeouts { connect: self.connect, request: self.request }
    }
}

impl Timeouts {
    /// The connect timeout, as stored.
    pub closed spec fn spec_connect(&self) -> core::time::Duration {
        self.connect
    }

    /// The request timeout, as stored.
    pub closed spec fn spec_request(&self) -> core::time::Duration {
        self.request
    }

    /// Return a new `Self` with the connect and request timeouts.
    pub fn new(connect: core::time::Duration, request: core::time::Duration) -> (r: Self)
        ensures
            r.spec_connect() == connect,
            r.spec_request() == request,
    {
        Self { connect, request }
    }

    /// Timeout to establish connection to the node.
    pub fn connect(&self) -> (r: core::time::Duration)
        ensures
            r == self.spec_connect(),
    {
        self.connect
    }

    /// Timeout for the request itself.
    pub fn request(&self) -> (r: core::time::Duration)
        ensures
            r == self.spec_request(),
    {
        self.request
    }
}

/// Immutable context for the RPC client: where to connect, within which
/// bounds, and over which protocol version.
#[derive(Debug)]
pub struct GrpcContext {
    pub endpoint: String,
    pub timeouts: Timeouts,
    pub api_version: ApiVersion,
}

impl GrpcContext {
    /// Initialize context.
    pub fn new(endpoint: String, timeouts: Timeouts, api_version: ApiVersion) -> (r: Self)
        ensures
            r.endpoint@ == endpoint@,
            r.timeouts == timeouts,
            r.api_version == api_version,
    {
        Self { endpoint, timeouts, api_version }
    }
}

impl Clone for GrpcContext {
    fn clone(&self) -> (r: Self)
        ensures
            r.endpoint@ == self.endpoint@,
            r.timeouts == self.timeouts,
            r.api_version == self.api_version,
    {
        GrpcContext {
            endpoint: self.endpoint.clone(),
            timeouts: Timeouts { connect: self.timeouts.connect, request: self.timeouts.request },
            api_version: self.api_version,
        }
    }
}

/// Handle to a live protocol-version-0 client. The token identifies the
/// transport connection that the runtime opened; the handle is cheap to
/// duplicate and every copy refers to the same connection.
#[derive(Clone, Copy, Debug, PartialEq, Eq, Structural)]
pub struct ClientHandleV0 {
    pub token: u64,
}

/// Handle to a live protocol-version-1 (pool-service) client.
#[derive(Clone, Copy, Debug, PartialEq, Eq, Structural)]
pub struct ClientHandleV1 {
    pub token: u64,
}

/// The outcome of one bounded connect attempt, as the runtime observed it.
#[derive(Clone, Copy, Debug, PartialEq, Eq, Structural)]
pub enum ConnectAttempt {
    /// The attempt exceeded the connect timeout.
    TimedOut,
    /// The attempt completed but the transport reported an error.
    TransportError,
    /// A protocol-version-0 client was opened.
    ConnectedV0(ClientHandleV0),
    /// A protocol-version-1 client was opened.
    ConnectedV1(ClientHandleV1),
}

/// Whether an attempt outcome is the success the manager is waiting for:
/// a handle of exactly the protocol version it was built for.
pub open spec fn attempt_succeeds(v: ApiVersion, a: ConnectAttempt) -> bool {
    match a {
        ConnectAttempt::ConnectedV0(_) => v == ApiVersion::V0,
        ConnectAttempt::ConnectedV1(_) => v == ApiVersion::V1,
        _ => false,
    }
}

/// What the connect loop does after one attempt: sleep and try again, or
/// finish with the constructed manager.
pub enum ConnectStep {
    /// The attempt failed; sleep this many seconds, then retry.
    Retry(u64),
    /// The attempt succeeded; the manager is ready.
    Done(GrpcClient),
}

/// Dataplane RPC client manager. Holds the connection context and exactly
/// one client handle, matching the context's protocol version.
#[derive(Debug)]
pub struct GrpcClient {
    ctx: GrpcContext,
    v0_client: Option<ClientHandleV0>,
    v1_client: Option<ClientHandleV1>,
}

impl GrpcClient {
    /// The protocol version the manager was built for.
    pub closed spec fn spec_api_version(&self) -> ApiVersion {
        self.ctx.api_version
    }

    /// The endpoint the manager connected to.
    pub closed spec fn spec_endpoint(&self) -> Seq<char> {
        self.ctx.endpoint@
    }

    /// The stored protocol-version-0 handle, if any.
    pub closed spec fn spec_v0(&self) -> Option<ClientHandleV0> {
        self.v0_client
    }

    /// The stored protocol-version-1 handle, if any.
    pub closed spec fn spec_v1(&self) -> Option<ClientHandleV1> {
        self.v1_client
    }

    /// Well-formedness: exactly one handle is populated, and it is the one
    /// of the context's protocol version.
    pub open spec fn wf(&self) -> bool {
        &&& (self.spec_v0() is Some <==> self.spec_api_version() == ApiVersion::V0)
        &&& (self.spec_v1() is Some <==> self.spec_api_version() == ApiVersion::V1)
    }

    /// Decide the loop's next move from one attempt outcome. A success of
    /// the context's protocol version finishes the loop with a well-formed
    /// manager holding that handle; every other outcome is absorbed and
    /// answered with the fixed backoff.
    pub fn connect_step(context: &GrpcContext, attempt: ConnectAttempt) -> (r: ConnectStep)
        ensures
            attempt_succeeds(context.api_version, attempt) <==> r is Done,
            (r matches ConnectStep::Done(c) ==> {
                &&& c.wf()
                &&& c.spec_api_version() == context.api_version
                &&& c.spec_endpoint() == context.endpoint@
                &&& (attempt matches ConnectAttempt::ConnectedV0(h) ==> c.spec_v0() == Some(h))
                &&& (attempt matches ConnectAttempt::ConnectedV1(h) ==> c.spec_v1() == Some(h))
            }),
            (r matches ConnectStep::Retry(b) ==> b == BACKOFF_SECS),
    {
        match context.api_version {
            ApiVersion::V0 => {
                match attempt {
                    ConnectAttempt::ConnectedV0(h) => ConnectStep::Done(GrpcClient {
                        ctx: context.clone(),
                        v0_client: Some(h),
                        v1_client: None,
                    }),
                    _ => ConnectStep::Retry(BACKOFF_SECS),
                }
            },
            ApiVersion::V1 => {
                match attempt {
                    ConnectAttempt::ConnectedV1(h) => ConnectStep::Done(GrpcClient {
                        ctx: context.clone(),
                        v0_client: None,
                        v1_client: Some(h),
                    }),
                    _ => ConnectStep::Retry(BACKOFF_SECS),
                }
            },
        }
    }

    /// Run the connect loop over a finite record of attempt outcomes.
    /// Returns the manager built from the first matching success, together
    /// with the number of failed attempts before it — each of which the
    /// runtime follows with a backoff sleep of `BACKOFF_SECS` seconds — or
    /// `None` when every recorded outcome failed (the live loop would go on
    /// retrying).
    pub fn run_connect_loop(context: &GrpcContext, outcomes: &Vec<ConnectAttempt>) -> (r: (
        Option<GrpcClient>,
        usize,
    ))
        ensures
            (r.0 matches Some(c) ==> {
                &&& r.1 < outcomes@.len()
                &&& attempt_succeeds(context.api_version, outcomes@[r.1 as int])
                &&& forall|i: int|
                    0 <= i < r.1 ==> !attempt_succeeds(context.api_version, outcomes@[i])
                &&& c.wf()
                &&& c.spec_api_version() == context.api_version
                &&& c.spec_endpoint() == context.endpoint@
                &&& (outcomes@[r.1 as int] matches ConnectAttempt::ConnectedV0(h) ==> c.spec_v0()
                    == Some(h))
                &&& (outcomes@[r.1 as int] matches ConnectAttempt::ConnectedV1(h) ==> c.spec_v1()
                    == Some(h))
            }),
            (r.0 is None ==> {
                &&& r.1 == outcomes@.len()
                &&& forall|i: int|
                    0 <= i < outcomes@.len() ==> !attempt_succeeds(
                        context.api_version,
                        outcomes@[i],
                    )
            }),
    {
        let mut idx: usize = 0;
        while idx < outcomes.len()
            invariant
                0 <= idx <= outcomes@.len(),
                forall|i: int| 0 <= i < idx ==> !attempt_succeeds(context.api_version, outcomes@[i]),
            decreases outcomes@.len() - idx,
        {
            match Self::connect_step(context, outcomes[idx]) {
                ConnectStep::Done(client) => {
                    return (Some(client), idx);
                },
                ConnectStep::Retry(_backoff) => {
                    idx = idx + 1;
                },
            }
        }
        (None, idx)
    }

    /// Get the v0 api client. Fails exactly when the manager holds no
    /// protocol-version-0 handle.
    pub fn client_v0(&self) -> (r: Result<ClientHandleV0, ExporterError>)
        ensures
            (self.spec_v0() matches Some(h) ==> r == Ok::<ClientHandleV0, ExporterError>(h)),
            (self.spec_v0() is None ==> (r matches Err(ExporterError::GrpcClientError(m)) && m@
                == "Could not get v0 client"@)),
    {
        match self.v0_client {
            Some(client) => Ok(client),
            None => Err(ExporterError::GrpcClientError("Could not get v0 client".to_owned())),
        }
    }

    /// Get the v1 api client. Fails exactly when the manager holds no
    /// protocol-version-1 handle.
    pub fn client_v1(&self) -> (r: Result<ClientHandleV1, ExporterError>)
        ensures
            (self.spec_v1() matches Some(h) ==> r == Ok::<ClientHandleV1, ExporterError>(h)),
            (self.spec_v1() is None ==> (r matches Err(ExporterError::GrpcClientError(m)) && m@
                == "Could not get v1 client"@)),
    {
        match self.v1_client {
            Some(client) => Ok(client),
            None => Err(ExporterError::GrpcClientError("Could not get v1 client".to_owned())),
        }
    }

    /// Get the api version.
    pub fn api_version(&self) -> (r: ApiVersion)
        ensures
            r == self.spec_api_version(),
    {
        self.ctx.api_version
    }
}

/// Exactly-one-handle invariant: a well-formed manager built for one
/// protocol version holds that version's handle and no other, so the
/// accessor for the absent side always fails.
pub proof fn lemma_exactly_one_handle(c: GrpcClient)
    requires
        c.wf(),
    ensures
        c.spec_api_version() == ApiVersion::V0 ==> c.spec_v0() is Some && c.spec_v1() is None,
        c.spec_api_version() == ApiVersion::V1 ==> c.spec_v1() is Some && c.spec_v0() is None,
{
}

/// Build the endpoint the manager connects to: the peer's address under the
/// https scheme with the fixed port.
pub fn make_endpoint(pod_ip: &String) -> (r: String)
    ensures
        r@ == "https://"@ + pod_ip@ + ":10124"@,
{
    let mut endpoint = "https://".to_owned();
    endpoint.append(pod_ip.as_str());
    endpoint.append(":10124");
    endpoint
}

} // verus!
