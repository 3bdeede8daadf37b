use std::time::Duration;

use metrics_exporter::ApiVersion;
use metrics_exporter::error::ExporterError;
use metrics_exporter::grpc_client::{
    make_endpoint, ClientHandleV0, ClientHandleV1, ConnectAttempt, ConnectStep, GrpcClient,
    GrpcContext, Timeouts, BACKOFF_SECS,
};

fn test_context(api_version: ApiVersion) -> GrpcContext {
    let timeouts = Timeouts::new(Duration::from_secs(1), Duration::from_secs(5));
    GrpcContext::new(String::from("https://10.0.0.1:10124"), timeouts, api_version)
}

#[test]
fn timeouts_store_connect_and_request() {
    let timeouts = Timeouts::new(Duration::from_secs(1), Duration::from_secs(5));
    assert_eq!(timeouts.connect(), Duration::from_secs(1));
    assert_eq!(timeouts.request(), Duration::from_secs(5));
}

#[test]
fn context_holds_endpoint_and_version() {
    let ctx = test_context(ApiVersion::V1);
    assert_eq!(ctx.endpoint, "https://10.0.0.1:10124");
    assert_eq!(ctx.api_version, ApiVersion::V1);
    assert_eq!(ctx.timeouts.connect(), Duration::from_secs(1));
}

#[test]
fn make_endpoint_uses_https_and_fixed_port() {
    let endpoint = make_endpoint(&String::from("10.1.2.3"));
    assert_eq!(endpoint, "https://10.1.2.3:10124");
}

#[test]
fn v0_manager_serves_v0_and_refuses_v1() {
    let ctx = test_context(ApiVersion::V0);
    let handle = ClientHandleV0 { token: 7 };
    let manager = match GrpcClient::connect_step(&ctx, ConnectAttempt::ConnectedV0(handle)) {
        ConnectStep::Done(manager) => manager,
        ConnectStep::Retry(_) => panic!("matching success must finish the loop"),
    };
    assert_eq!(manager.api_version(), ApiVersion::V0);
    assert_eq!(manager.client_v0().unwrap(), handle);
    match manager.client_v1() {
        Err(ExporterError::GrpcClientError(message)) => {
            assert_eq!(message, "Could not get v1 client");
        }
        other => panic!("absent side must fail with GrpcClientError, got {other:?}"),
    }
}

#[test]
fn v1_manager_serves_v1_and_refuses_v0() {
    let ctx = test_context(ApiVersion::V1);
    let handle = ClientHandleV1 { token: 9 };
    let manager = match GrpcClient::connect_step(&ctx, ConnectAttempt::ConnectedV1(handle)) {
        ConnectStep::Done(manager) => manager,
        ConnectStep::Retry(_) => panic!("matching success must finish the loop"),
    };
    assert_eq!(manager.api_version(), ApiVersion::V1);
    assert_eq!(manager.client_v1().unwrap(), handle);
    match manager.client_v0() {
        Err(ExporterError::GrpcClientError(message)) => {
            assert_eq!(message, "Could not get v0 client");
        }
        other => panic!("absent side must fail with GrpcClientError, got {other:?}"),
    }
}

#[test]
fn mismatched_success_is_absorbed_as_retry() {
    let ctx = test_context(ApiVersion::V0);
    let attempt = ConnectAttempt::ConnectedV1(ClientHandleV1 { token: 3 });
    match GrpcClient::connect_step(&ctx, attempt) {
        ConnectStep::Retry(backoff) => assert_eq!(backoff, BACKOFF_SECS),
        ConnectStep::Done(_) => panic!("a wrong-version handle must not finish the loop"),
    }
}

#[test]
fn failures_are_absorbed_as_retry_with_fixed_backoff() {
    let ctx = test_context(ApiVersion::V0);
    for attempt in [ConnectAttempt::TimedOut, ConnectAttempt::TransportError] {
        match GrpcClient::connect_step(&ctx, attempt) {
            ConnectStep::Retry(backoff) => assert_eq!(backoff, 10),
            ConnectStep::Done(_) => panic!("a failed attempt must not finish the loop"),
        }
    }
}

#[test]
fn retry_convergence_counts_failed_attempts() {
    let ctx = test_context(ApiVersion::V0);
    let handle = ClientHandleV0 { token: 42 };
    let outcomes = vec![
        ConnectAttempt::TransportError,
        ConnectAttempt::TimedOut,
        ConnectAttempt::TransportError,
        ConnectAttempt::ConnectedV0(handle),
    ];
    let (manager, failed) = GrpcClient::run_connect_loop(&ctx, &outcomes);
    let manager = manager.expect("the loop must return the successful handle");
    assert_eq!(failed, 3);
    assert_eq!(manager.client_v0().unwrap(), handle);
    assert!(manager.client_v1().is_err());
}

#[test]
fn connect_loop_exhausts_a_record_of_failures() {
    let ctx = test_context(ApiVersion::V1);
    let outcomes = vec![
        ConnectAttempt::TimedOut,
        ConnectAttempt::TransportError,
        ConnectAttempt::ConnectedV0(ClientHandleV0 { token: 1 }),
    ];
    let (manager, failed) = GrpcClient::run_connect_loop(&ctx, &outcomes);
    assert!(manager.is_none());
    assert_eq!(failed, outcomes.len());
}

#[test]
fn two_timeouts_then_success_wait_at_least_twenty_seconds() {
    let ctx = test_context(ApiVersion::V1);
    let handle = ClientHandleV1 { token: 5 };
    let outcomes = [
        ConnectAttempt::TimedOut,
        ConnectAttempt::TimedOut,
        ConnectAttempt::ConnectedV1(handle),
    ];
    let mut slept_secs: u64 = 0;
    let mut manager = None;
    for attempt in outcomes {
        match GrpcClient::connect_step(&ctx, attempt) {
            ConnectStep::Retry(backoff) => slept_secs += backoff,
            ConnectStep::Done(done) => {
                manager = Some(done);
                break;
            }
        }
    }
    let manager = manager.expect("the loop must finish on the third attempt");
    assert!(slept_secs >= 20);
    assert_eq!(manager.client_v1().unwrap(), handle);
}

#[test]
fn exporter_error_carries_its_message() {
    let error = ExporterError::InvalidURI(String::from("no authority"));
    assert_eq!(error.message(), "no authority");
    let error = ExporterError::GrpcClientError(String::from("Could not get v0 client"));
    assert_eq!(error.message(), "Could not get v0 client");
}
