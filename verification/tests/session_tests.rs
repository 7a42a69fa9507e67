use gouide_daemon::config::DaemonConfig;
use gouide_daemon::protocol::{Capabilities, HandshakeErrorCode, Hello};
use gouide_daemon::session::{negotiate_capabilities, SessionManager};

fn test_hello(client_id: &str) -> Hello {
    Hello {
        protocol_version: "1.0.0".to_string(),
        client_id: client_id.to_string(),
        client_name: "Test Client".to_string(),
        client_version: "0.1.0".to_string(),
        capabilities: Some(Capabilities {
            supports_chunking: true,
            supports_sequences: true,
            supports_binary_deltas: false,
            supports_compression: false,
        }),
        reconnect_token: String::new(),
    }
}

#[test]
fn test_register_client() {
    let config = DaemonConfig::default();
    let mut manager = SessionManager::new(config);

    let hello = test_hello("test-client-1");
    let session = manager.register(&hello).unwrap();

    assert_eq!(session.client_id, "test-client-1");
    assert!(!session.reconnect_token.is_empty());
    assert_eq!(manager.active_count(), 1);
}

#[test]
fn test_duplicate_client_reconnects() {
    let config = DaemonConfig::default();
    let mut manager = SessionManager::new(config);

    let hello = test_hello("dup-client");
    let session1 = manager.register(&hello).unwrap();
    let token1 = session1.reconnect_token.clone();

    // Same client reconnecting - should succeed and get a new token
    let session2 = manager.register(&hello).unwrap();
    let token2 = session2.reconnect_token.clone();

    assert_ne!(token1, token2);
    assert_eq!(manager.active_count(), 1);
}

#[test]
fn test_version_mismatch_rejected() {
    let config = DaemonConfig::default();
    let mut manager = SessionManager::new(config);

    let mut hello = test_hello("version-client");
    hello.protocol_version = "2.0.0".to_string();

    let result = manager.register(&hello);
    assert!(result.is_err());

    let error = result.unwrap_err();
    assert_eq!(error.code, HandshakeErrorCode::VersionMismatch);
    assert!(error.supported_versions.contains(&"1.0.0".to_string()));
}

#[test]
fn test_unregister_client() {
    let config = DaemonConfig::default();
    let mut manager = SessionManager::new(config);

    let hello = test_hello("unreg-client");
    manager.register(&hello).unwrap();
    assert_eq!(manager.active_count(), 1);

    manager.unregister("unreg-client");
    assert_eq!(manager.active_count(), 0);
}

#[test]
fn test_capability_negotiation() {
    let config = DaemonConfig::default();
    let mut manager = SessionManager::new(config);

    let hello = test_hello("cap-client");
    let session = manager.register(&hello).unwrap();

    // Client and daemon both support chunking and sequences
    assert!(session.negotiated_capabilities.supports_chunking);
    assert!(session.negotiated_capabilities.supports_sequences);
    // Neither supports binary deltas or compression yet
    assert!(!session.negotiated_capabilities.supports_binary_deltas);
    assert!(!session.negotiated_capabilities.supports_compression);
}

#[test]
fn test_capacity_exceeded_second_client() {
    let mut config = DaemonConfig::default();
    config.max_clients = 1;
    let mut manager = SessionManager::new(config);

    let first = manager.register(&test_hello("a"));
    assert!(first.is_ok());

    let second = manager.register(&test_hello("b"));
    let error = second.unwrap_err();
    assert_eq!(error.code, HandshakeErrorCode::CapacityExceeded);
    assert_eq!(error.message, "Daemon at capacity (1 clients)");
    assert!(error.supported_versions.is_empty());

    // The first client is untouched by the rejected registration.
    assert_eq!(manager.active_count(), 1);
    let kept = manager.get("a").unwrap();
    assert_eq!(kept.client_id, "a");
    assert!(manager.get("b").is_none());
}

#[test]
fn test_capacity_never_exceeded_at_limit() {
    let config = DaemonConfig::default();
    let max = config.max_clients;
    let mut manager = SessionManager::new(config);

    for i in 0..max {
        let hello = test_hello(&format!("client-{}", i));
        assert!(manager.register(&hello).is_ok());
    }
    assert_eq!(manager.active_count(), max);

    // Every call beyond the limit is rejected and changes nothing.
    for i in 0..3 {
        let hello = test_hello(&format!("late-{}", i));
        let error = manager.register(&hello).unwrap_err();
        assert_eq!(error.code, HandshakeErrorCode::CapacityExceeded);
        assert_eq!(manager.active_count(), max);
    }
}

#[test]
fn test_negotiation_is_flagwise_and() {
    let daemon = Capabilities {
        supports_chunking: true,
        supports_sequences: true,
        supports_binary_deltas: false,
        supports_compression: false,
    };
    let bools = [false, true];
    for &a in &bools {
        for &b in &bools {
            for &c in &bools {
                for &d in &bools {
                    let client = Capabilities {
                        supports_chunking: a,
                        supports_sequences: b,
                        supports_binary_deltas: c,
                        supports_compression: d,
                    };
                    let n = negotiate_capabilities(Some(&client), &daemon);
                    assert_eq!(n.supports_chunking, a && daemon.supports_chunking);
                    assert_eq!(n.supports_sequences, b && daemon.supports_sequences);
                    assert_eq!(n.supports_binary_deltas, c && daemon.supports_binary_deltas);
                    assert_eq!(n.supports_compression, d && daemon.supports_compression);
                }
            }
        }
    }
    // An absent client capability set means no optional features.
    let n = negotiate_capabilities(None, &daemon);
    assert!(!n.supports_chunking);
    assert!(!n.supports_sequences);
    assert!(!n.supports_binary_deltas);
    assert!(!n.supports_compression);
}

#[test]
fn test_register_issues_36_char_tokens() {
    let config = DaemonConfig::default();
    let mut manager = SessionManager::new(config);
    let session = manager.register(&test_hello("tok-client")).unwrap();
    assert_eq!(session.reconnect_token.len(), 36);
    assert!(session
        .reconnect_token
        .chars()
        .all(|c| c == '-' || c.is_ascii_digit() || ('a'..='f').contains(&c)));
}

#[test]
fn test_touch_updates_only_activity() {
    let config = DaemonConfig::default();
    let mut manager = SessionManager::new(config);
    let mut session = manager.register(&test_hello("touch-client")).unwrap();
    let id_before = session.client_id.clone();
    let token_before = session.reconnect_token.clone();
    let connected_before = session.connected_at;
    session.touch();
    assert_eq!(session.client_id, id_before);
    assert_eq!(session.reconnect_token, token_before);
    assert_eq!(session.connected_at, connected_before);
}
