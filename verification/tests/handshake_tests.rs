use gouide_daemon::config::DaemonConfig;
use gouide_daemon::control::ControlService;
use gouide_daemon::handshake::HandshakeService;
use gouide_daemon::protocol::{
    Capabilities, CancelRequest, DisconnectRequest, EstablishResult, Hello, PingRequest,
    RequestId, Timestamp,
};
use gouide_daemon::session::SessionManager;

fn create_service() -> HandshakeService {
    let config = DaemonConfig::default();
    let session_manager = SessionManager::new(config);
    HandshakeService::new(session_manager, "test-daemon".to_string())
}

fn test_hello(client_id: &str) -> Hello {
    Hello {
        protocol_version: "1.0.0".to_string(),
        client_id: client_id.to_string(),
        client_name: "Test Client".to_string(),
        client_version: "0.1.0".to_string(),
        capabilities: Some(Capabilities::default()),
        reconnect_token: String::new(),
    }
}

#[test]
fn test_establish_success() {
    let mut service = create_service();
    let hello = test_hello("test-client");

    let result = service.establish(&hello);

    match result {
        EstablishResult::Welcome(welcome) => {
            assert_eq!(welcome.protocol_version, "1.0.0");
            assert_eq!(welcome.daemon_id, "test-daemon");
            assert!(!welcome.reconnect_token.is_empty());
        }
        EstablishResult::Error(e) => {
            panic!("Expected Welcome, got error: {}", e.message);
        }
    }
}

#[test]
fn test_establish_reports_mismatch_verbatim() {
    let mut service = create_service();
    let mut hello = test_hello("mismatch-client");
    hello.protocol_version = "0.9.0".to_string();

    match service.establish(&hello) {
        EstablishResult::Welcome(_) => panic!("expected a handshake error"),
        EstablishResult::Error(e) => {
            assert_eq!(e.supported_versions, vec!["1.0.0".to_string()]);
            assert_eq!(e.message, "Protocol version mismatch");
        }
    }
}

#[test]
fn test_ping() {
    let service = create_service();
    let client_time = Timestamp { seconds: 1000, nanos: 500 };

    let pong = service.ping(&PingRequest { client_time: Some(client_time) });

    assert_eq!(pong.client_time.unwrap().seconds, 1000);
    assert!(pong.server_time.is_some());
}

#[test]
fn test_ping_server_time_is_a_clock_reading() {
    let service = create_service();
    let pong = service.ping(&PingRequest { client_time: None });
    let server_time = pong.server_time.unwrap();
    // A real clock reading, not the echoed (absent) client time.
    assert!(server_time.seconds > 1_500_000_000);
    assert!((0..2_000_000_000).contains(&server_time.nanos));
}

#[test]
fn test_disconnect_acknowledges() {
    let service = create_service();
    let response = service.disconnect(&DisconnectRequest { reason: "Client closing".to_string() });
    assert!(response.success);
}

#[test]
fn test_cancel_stub() {
    let service = ControlService::new();

    let response = service.cancel(&CancelRequest {
        request_id: Some(RequestId { value: "test-request-123".to_string() }),
    });

    // Stub always returns false
    assert!(!response.cancelled);
    assert!(!response.reason.is_empty());
}

#[test]
fn test_cancel_reason_text() {
    let service = ControlService::new();
    let response = service.cancel(&CancelRequest { request_id: None });
    assert!(!response.cancelled);
    assert_eq!(response.reason, "Request not found or already completed");
}
