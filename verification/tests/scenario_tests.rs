use gouide_daemon::client::{DaemonInfo, PingResponse, WelcomeInfo};
use gouide_daemon::codec::{encode_metadata, parse_metadata};
use gouide_daemon::config::DaemonConfig;
use gouide_daemon::discovery::{evaluate_discovery, DaemonMetadata, DiscoveryOutcome};
use gouide_daemon::handshake::HandshakeService;
use gouide_daemon::paths::{default_endpoint_path, default_lock_path, metadata_path_for};
use gouide_daemon::protocol::{EstablishResult, Hello, PingRequest, Timestamp};
use gouide_daemon::session::SessionManager;
use gouide_daemon::settings::AppSettings;

fn hello(client_id: &str, version: &str) -> Hello {
    Hello {
        protocol_version: version.to_string(),
        client_id: client_id.to_string(),
        client_name: "Scenario Client".to_string(),
        client_version: "0.1.0".to_string(),
        capabilities: None,
        reconnect_token: String::new(),
    }
}

/// A daemon starts, publishes metadata, a client discovers it, shakes
/// hands and pings it.
#[test]
fn test_scenario_discover_establish_ping() {
    // The daemon's side of startup: derive paths, publish metadata.
    let uid = 1000;
    let lock_path = default_lock_path(uid);
    let endpoint = default_endpoint_path(uid);
    let metadata_path = metadata_path_for(&lock_path);
    assert_eq!(metadata_path, "/tmp/gouide-1000/daemon.json");

    let daemon_id = "scenario-daemon".to_string();
    let published = encode_metadata(&DaemonMetadata {
        pid: 4321,
        start_time: 1700000000,
        protocol_version: "1.0.0".to_string(),
        endpoint: endpoint.clone(),
        daemon_id: daemon_id.clone(),
    })
    .unwrap();

    // The client's side: read the file back, check the pid, connect.
    let read = parse_metadata(&published).unwrap();
    let outcome = evaluate_discovery(Some(read), true);
    let found = match outcome {
        DiscoveryOutcome::Running(m) => m,
        _ => panic!("expected a running daemon"),
    };
    assert_eq!(found.daemon_id, "scenario-daemon");
    assert_eq!(found.endpoint, endpoint);

    // Establish with the matching protocol version.
    let manager = SessionManager::new(DaemonConfig::default());
    let mut service = HandshakeService::new(manager, daemon_id);
    let welcome = match service.establish(&hello("scenario-client", "1.0.0")) {
        EstablishResult::Welcome(w) => w,
        EstablishResult::Error(e) => panic!("expected Welcome, got error: {}", e.message),
    };
    assert_eq!(welcome.daemon_id, "scenario-daemon");
    assert!(!welcome.reconnect_token.is_empty());

    // Ping: the client's time comes back beside the server's.
    let pong = service.ping(&PingRequest {
        client_time: Some(Timestamp { seconds: 1000, nanos: 500 }),
    });
    assert_eq!(pong.client_time.unwrap().seconds, 1000);
    assert!(pong.server_time.is_some());
}

/// A daemon with room for one client keeps "a" and turns "b" away.
#[test]
fn test_scenario_single_seat_daemon() {
    let mut config = DaemonConfig::default();
    config.max_clients = 1;
    let manager = SessionManager::new(config);
    let mut service = HandshakeService::new(manager, "single-seat".to_string());

    assert!(matches!(
        service.establish(&hello("a", "1.0.0")),
        EstablishResult::Welcome(_)
    ));
    match service.establish(&hello("b", "1.0.0")) {
        EstablishResult::Error(e) => assert!(e.message.contains("capacity")),
        EstablishResult::Welcome(_) => panic!("the daemon is full; b must be turned away"),
    }
    let kept = service.manager().get("a").unwrap();
    assert_eq!(kept.client_id, "a");
    assert_eq!(service.manager().active_count(), 1);
}

#[test]
fn test_welcome_info_summary() {
    let manager = SessionManager::new(DaemonConfig::default());
    let mut service = HandshakeService::new(manager, "info-daemon".to_string());
    let welcome = match service.establish(&hello("info-client", "1.0.0")) {
        EstablishResult::Welcome(w) => w,
        EstablishResult::Error(e) => panic!("expected Welcome, got error: {}", e.message),
    };
    let info = WelcomeInfo::of_welcome(&welcome);
    assert_eq!(info.protocol_version, "1.0.0");
    assert_eq!(info.daemon_id, "info-daemon");
    assert_eq!(info.daemon_version, "0.1.0");
    assert_eq!(info.reconnect_token, welcome.reconnect_token);
    assert_eq!(info.session_timeout_seconds, 300);
}

#[test]
fn test_ping_response_summary() {
    let r = PingResponse::of_pong(Some(Timestamp { seconds: 9, nanos: 8 }), 12);
    assert_eq!(r.server_time_seconds, 9);
    assert_eq!(r.server_time_nanos, 8);
    assert_eq!(r.round_trip_ms, 12);
    let r = PingResponse::of_pong(None, 3);
    assert_eq!(r.server_time_seconds, 0);
    assert_eq!(r.server_time_nanos, 0);
}

#[test]
fn test_daemon_info_from_metadata() {
    let info = DaemonInfo::from(DaemonMetadata {
        pid: 77,
        start_time: 5,
        protocol_version: "1.0.0".to_string(),
        endpoint: "/tmp/x.sock".to_string(),
        daemon_id: "d-77".to_string(),
    });
    assert_eq!(info.pid, 77);
    assert_eq!(info.daemon_id, "d-77");
    assert_eq!(info.protocol_version, "1.0.0");
    assert_eq!(info.endpoint, "/tmp/x.sock");
}

#[test]
fn test_default_settings() {
    let settings = AppSettings::default();
    assert!(!settings.quit_on_close);
    assert!(!settings.start_minimized);
}

#[test]
fn test_default_config() {
    let config = DaemonConfig::default();
    assert_eq!(config.protocol_version, "1.0.0");
    assert_eq!(config.max_clients, 16);
    assert!(config.daemon_capabilities().supports_chunking);
}
