use gouide_daemon::config::DaemonConfig;
use gouide_daemon::decimal::{i64_to_decimal, u64_to_decimal};
use gouide_daemon::server::{
    route_request, AcceptAction, AcceptEvent, AcceptLoop, DaemonServer, ServiceRoute,
};
use gouide_daemon::shutdown::ShutdownCoordinator;
use gouide_daemon::workspace::{WorkspaceError, WorkspaceManager};

#[test]
fn test_daemon_server_creation() {
    let config = DaemonConfig::default();
    let _server = DaemonServer::new(config, "server-test-id".to_string());
}

#[test]
fn test_shutdown_signal() {
    let mut coordinator = ShutdownCoordinator::new();
    let receiver = coordinator.subscribe();

    assert!(!receiver.is_shut_down(&coordinator));
    coordinator.trigger();
    assert!(receiver.is_shut_down(&coordinator));
}

#[test]
fn test_multiple_receivers() {
    let mut coordinator = ShutdownCoordinator::new();
    let rx1 = coordinator.subscribe();
    let rx2 = coordinator.subscribe();

    coordinator.trigger();

    // Both receivers should get the signal
    assert!(rx1.is_shut_down(&coordinator));
    assert!(rx2.is_shut_down(&coordinator));
}

#[test]
fn test_trigger_is_idempotent() {
    let mut coordinator = ShutdownCoordinator::new();
    coordinator.trigger();
    coordinator.trigger();
    assert!(coordinator.is_triggered());
    // A receiver subscribed after the trigger still observes it.
    let late = coordinator.subscribe();
    assert!(late.is_shut_down(&coordinator));
}

#[test]
fn test_shutdown_hands_back_grace_period() {
    let mut coordinator = ShutdownCoordinator::new();
    let grace = coordinator.shutdown(30);
    assert_eq!(grace, 30);
    assert!(coordinator.is_triggered());
}

#[test]
fn test_route_request_by_path() {
    assert_eq!(
        route_request("/gouide.v1.HandshakeService/Establish"),
        ServiceRoute::Handshake
    );
    assert_eq!(route_request("/gouide.v1.HandshakeService/Ping"), ServiceRoute::Handshake);
    assert_eq!(route_request("/gouide.v1.Control/Cancel"), ServiceRoute::Control);
    assert_eq!(route_request("/gouide.v1.Editor/Open"), ServiceRoute::NotFound);
    assert_eq!(route_request(""), ServiceRoute::NotFound);
    assert_eq!(route_request("/gouide.v1.HandshakeService"), ServiceRoute::NotFound);
}

#[test]
fn test_shutdown_stops_accept_loop() {
    let mut accept_loop = AcceptLoop::new();
    assert_eq!(accept_loop.on_accept_event(AcceptEvent::Connection), AcceptAction::SpawnHandler);
    assert_eq!(accept_loop.on_accept_event(AcceptEvent::AcceptError), AcceptAction::LogError);
    assert!(accept_loop.is_accepting());

    assert_eq!(
        accept_loop.on_accept_event(AcceptEvent::ShutdownSignal),
        AcceptAction::StopAccepting
    );
    assert!(!accept_loop.is_accepting());

    // A stopped loop accepts no further connections.
    assert_eq!(accept_loop.on_accept_event(AcceptEvent::Connection), AcceptAction::Ignore);
    assert!(!accept_loop.is_accepting());
}

#[test]
fn test_workspace_manager_creation() {
    let _manager = WorkspaceManager::new();
}

#[test]
fn test_workspace_error_details() {
    let e = WorkspaceError::NotFound("w1".to_string());
    assert_eq!(e.detail(), "w1");
    let e = WorkspaceError::BufferNotFound("b1".to_string());
    assert_eq!(e.detail(), "b1");
    let e = WorkspaceError::Io("broken pipe".to_string());
    assert_eq!(e.detail(), "broken pipe");
}

#[test]
fn test_decimal_rendering() {
    assert_eq!(u64_to_decimal(0), "0");
    assert_eq!(u64_to_decimal(7), "7");
    assert_eq!(u64_to_decimal(1234567890), "1234567890");
    assert_eq!(u64_to_decimal(u64::MAX), "18446744073709551615");
    assert_eq!(i64_to_decimal(0), "0");
    assert_eq!(i64_to_decimal(-42), "-42");
    assert_eq!(i64_to_decimal(i64::MIN), "-9223372036854775808");
    assert_eq!(i64_to_decimal(i64::MAX), "9223372036854775807");
}
