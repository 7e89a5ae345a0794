//! Errors, and what they authorize.

use chevalier_sandbox::error::guest_rpc_restart_note;
use chevalier_sandbox::error::is_rebind_candidate_error;
use chevalier_sandbox::error::portproxy_method_is_unimplemented;
use chevalier_sandbox::error::GrpcCode;
use chevalier_sandbox::error::GrpcStatus;
use chevalier_sandbox::error::SandboxError;
use chevalier_sandbox::span::Span;

fn status(code: GrpcCode, message: &str) -> GrpcStatus {
    GrpcStatus { code, message: message.to_string(), source: None }
}

#[test]
fn portproxy_unimplemented_detection_accepts_native_and_legacy_statuses() {
    assert!(portproxy_method_is_unimplemented(&status(
        GrpcCode::Unimplemented,
        "method is not available"
    )));
    assert!(portproxy_method_is_unimplemented(&status(
        GrpcCode::Unknown,
        "Operation is not implemented or not supported"
    )));
    assert!(!portproxy_method_is_unimplemented(&status(
        GrpcCode::Unavailable,
        "portproxy is restarting"
    )));
}

#[test]
fn guest_rpc_not_ready_is_never_a_rebind_candidate() {
    let err = SandboxError::GuestRpcNotReady {
        vm_id: "vm-1".to_string(),
        endpoint: "http://127.0.0.1:1".to_string(),
        waited: Span::from_secs(240),
        restarted: false,
    };
    assert!(!is_rebind_candidate_error(&err));
    assert_eq!(err.text(), "guest RPC not ready for vm vm-1 on http://127.0.0.1:1 after 240s");
    let escalate = SandboxError::GuestRpcNotReady {
        vm_id: "vm-1".to_string(),
        endpoint: "http://127.0.0.1:1".to_string(),
        waited: Span::from_secs(480),
        restarted: true,
    };
    assert!(is_rebind_candidate_error(&escalate));
    assert!(
        escalate
            .text()
            .ends_with("after 480s (still not ready after one bounded local restart)")
    );
    // The message of an older build does not come back in through DaemonUnavailable either.
    let legacy = SandboxError::DaemonUnavailable(
        "sandbox guest RPC did not become ready for vm vm-1".to_string(),
    );
    assert!(!is_rebind_candidate_error(&legacy));
}

#[test]
fn channel_failures_remain_rebind_candidates() {
    for message in [
        "transport error",
        "connection reset by peer",
        "broken pipe",
        "connection refused",
    ] {
        assert!(
            is_rebind_candidate_error(&SandboxError::DaemonUnavailable(message.to_string())),
            "{message} should authorize rebind"
        );
    }
    assert!(is_rebind_candidate_error(&SandboxError::Grpc(status(
        GrpcCode::Unavailable,
        "node down"
    ))));
    assert!(is_rebind_candidate_error(&SandboxError::Grpc(status(
        GrpcCode::Cancelled,
        "operation was canceled"
    ))));
}

#[test]
fn other_errors_move_nothing() {
    assert!(!is_rebind_candidate_error(&SandboxError::InvalidResponse("transport".to_string())));
    assert!(!is_rebind_candidate_error(&SandboxError::Grpc(status(GrpcCode::NotFound, "no vm"))));
    assert!(is_rebind_candidate_error(&SandboxError::Grpc(status(
        GrpcCode::Internal,
        "h2: Connection Reset"
    ))));
    assert!(is_rebind_candidate_error(&SandboxError::Transport("x".to_string())));
}

#[test]
fn errors_have_texts() {
    let m = || "m".to_string();
    assert_eq!(SandboxError::Io(m()).text(), "io error: m");
    assert_eq!(SandboxError::Transport(m()).text(), "transport error: m");
    assert_eq!(SandboxError::InvalidEndpoint(m()).text(), "invalid endpoint: m");
    assert_eq!(SandboxError::InvalidResponse(m()).text(), "invalid response: m");
    assert_eq!(SandboxError::SessionNotFound(m()).text(), "session not found: m");
    assert_eq!(SandboxError::DaemonUnavailable(m()).text(), "daemon unavailable: m");
    assert_eq!(SandboxError::ResourceExhausted(m()).text(), "resource exhausted: m");
    assert_eq!(SandboxError::FenceConflict(m()).text(), "ownership fence conflict: m");
    assert_eq!(SandboxError::Unsupported(m()).text(), "unsupported operation: m");
    assert_eq!(SandboxError::InvalidConfig(m()).text(), "invalid config: m");
    let shown = SandboxError::Grpc(status(GrpcCode::NotFound, "no such vm")).text();
    assert_eq!(
        shown,
        format!("gRPC status: {}", tonic::Status::not_found("no such vm"))
    );
    assert!(shown.contains("no such vm"));
}

#[test]
fn a_status_shows_the_error_behind_it() {
    let behind = std::io::Error::new(std::io::ErrorKind::ConnectionReset, "gone");
    let source = Some(format!("{behind:?}"));
    let mut shown = tonic::Status::unavailable("tcp connect error");
    shown.set_source(std::sync::Arc::new(behind));
    let status = GrpcStatus {
        code: GrpcCode::Unavailable,
        message: "tcp connect error".to_string(),
        source,
    };
    assert!(status.text().contains(", source: "));
    assert_eq!(status.text(), shown.to_string());
    assert_eq!(SandboxError::Grpc(status).text(), format!("gRPC status: {shown}"));
}

#[test]
fn code_numbers_are_those_of_grpc() {
    assert_eq!(GrpcCode::Success.number(), 0);
    assert_eq!(GrpcCode::NotFound.number(), tonic::Code::NotFound as i32);
    assert_eq!(GrpcCode::Unimplemented.number(), tonic::Code::Unimplemented as i32);
    assert_eq!(GrpcCode::Unauthenticated.number(), 16);
}

#[test]
fn restart_notes() {
    assert_eq!(guest_rpc_restart_note(&false), "");
    assert_eq!(
        guest_rpc_restart_note(&true),
        " (still not ready after one bounded local restart)"
    );
}

#[test]
fn spans_add_up() {
    assert_eq!(Span::from_millis(1500).text(), "1.5s");
    assert_eq!(Span::from_millis(1500).as_millis(), 1500);
    let sum = Span::from_millis(600).plus(&Span::from_millis(600));
    assert_eq!(sum, Span { secs: 1, nanos: 200_000_000 });
    assert!(Span::zero().shorter_than(&Span::from_secs(1)));
}
