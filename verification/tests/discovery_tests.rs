use gouide_daemon::codec::{encode_metadata, parse_metadata};
use gouide_daemon::discovery::{
    classify_start, evaluate_discovery, DaemonMetadata, DaemonStartResult, DiscoveryOutcome,
};
use gouide_daemon::paths::{
    default_endpoint_path, default_lock_path, get_socket_path, metadata_path_for,
    replace_extension,
};

fn sample_metadata() -> DaemonMetadata {
    DaemonMetadata {
        pid: 4242,
        start_time: 1700000000,
        protocol_version: "1.0.0".to_string(),
        endpoint: "/tmp/test.sock".to_string(),
        daemon_id: "test-daemon".to_string(),
    }
}

#[test]
fn test_metadata_round_trip() {
    let encoded = encode_metadata(&sample_metadata()).unwrap();
    let read = parse_metadata(&encoded).unwrap();
    assert_eq!(read.pid, 4242);
    assert_eq!(read.start_time, 1700000000);
    assert_eq!(read.protocol_version, "1.0.0");
    assert_eq!(read.endpoint, "/tmp/test.sock");
    assert_eq!(read.daemon_id, "test-daemon");
}

#[test]
fn test_metadata_encoding_shape() {
    let m = DaemonMetadata {
        pid: 1,
        start_time: -5,
        protocol_version: "1.0.0".to_string(),
        endpoint: "/s".to_string(),
        daemon_id: "d".to_string(),
    };
    let encoded = encode_metadata(&m).unwrap();
    assert_eq!(
        encoded,
        "{\"pid\":1,\"start_time\":-5,\"protocol_version\":\"1.0.0\",\
         \"endpoint\":\"/s\",\"daemon_id\":\"d\"}"
    );
}

#[test]
fn test_metadata_round_trip_extremes() {
    let m = DaemonMetadata {
        pid: u32::MAX,
        start_time: i64::MIN,
        protocol_version: String::new(),
        endpoint: "e".to_string(),
        daemon_id: "i".to_string(),
    };
    let encoded = encode_metadata(&m).unwrap();
    let read = parse_metadata(&encoded).unwrap();
    assert_eq!(read.pid, u32::MAX);
    assert_eq!(read.start_time, i64::MIN);
    assert_eq!(read.protocol_version, "");
}

#[test]
fn test_encode_refuses_fields_needing_escapes() {
    let mut m = sample_metadata();
    m.daemon_id = "with\"quote".to_string();
    assert!(encode_metadata(&m).is_none());
    let mut m = sample_metadata();
    m.endpoint = "back\\slash".to_string();
    assert!(encode_metadata(&m).is_none());
    let mut m = sample_metadata();
    m.protocol_version = "line\nbreak".to_string();
    assert!(encode_metadata(&m).is_none());
}

#[test]
fn test_parse_rejects_other_shapes() {
    assert!(parse_metadata("").is_none());
    assert!(parse_metadata("{}").is_none());
    assert!(parse_metadata("not json at all").is_none());
    assert!(parse_metadata("{\"pid\":abc}").is_none());
    assert!(parse_metadata("{\"pid\":12").is_none());
    // A pid beyond u32 is refused.
    assert!(parse_metadata(
        "{\"pid\":4294967296,\"start_time\":0,\"protocol_version\":\"v\",\
         \"endpoint\":\"e\",\"daemon_id\":\"d\"}"
    )
    .is_none());
    // Trailing garbage is refused.
    let good = encode_metadata(&sample_metadata()).unwrap();
    let mut bad = good.clone();
    bad.push(' ');
    assert!(parse_metadata(&bad).is_none());
    assert!(parse_metadata(&good).is_some());
}

#[test]
fn test_discovery_absent_metadata() {
    let outcome = evaluate_discovery(None, false);
    assert!(matches!(outcome, DiscoveryOutcome::NoDaemon));
}

#[test]
fn test_discovery_stale_pid_is_not_found() {
    // A metadata file whose recorded pid is not alive: report nothing
    // and have both files deleted.
    let outcome = evaluate_discovery(Some(sample_metadata()), false);
    assert!(matches!(outcome, DiscoveryOutcome::Stale));
}

#[test]
fn test_discovery_running() {
    let outcome = evaluate_discovery(Some(sample_metadata()), true);
    match outcome {
        DiscoveryOutcome::Running(m) => assert_eq!(m.daemon_id, "test-daemon"),
        _ => panic!("expected a running daemon"),
    }
}

#[test]
fn test_classify_start_cases() {
    let before = classify_start(Some(sample_metadata()), None);
    assert!(matches!(before, DaemonStartResult::AlreadyRunning(_)));

    let spawned = classify_start(None, Some(sample_metadata()));
    match spawned {
        DaemonStartResult::Spawned(m) => assert_eq!(m.pid, 4242),
        _ => panic!("expected a spawned daemon"),
    }

    let failed = classify_start(None, None);
    match failed {
        DaemonStartResult::Failed(msg) => {
            assert_eq!(msg, "Daemon spawned but not discoverable")
        }
        _ => panic!("expected a failure"),
    }
}

#[test]
fn test_lock_path_format() {
    let path = default_lock_path(1000);
    assert!(path.starts_with("/tmp/gouide-"));
    assert_eq!(path, "/tmp/gouide-1000/daemon.lock");
}

#[test]
fn test_endpoint_path_format() {
    let path = default_endpoint_path(1000);
    assert!(path.starts_with("/tmp/gouide-"));
    assert_eq!(path, "/tmp/gouide-1000/daemon.sock");
}

#[test]
fn test_extension_replacement() {
    assert_eq!(metadata_path_for("/tmp/gouide-1000/daemon.lock"), "/tmp/gouide-1000/daemon.json");
    assert_eq!(get_socket_path("/tmp/gouide-1000/daemon.lock"), "/tmp/gouide-1000/daemon.sock");
    assert_eq!(replace_extension("daemon.lock", "json"), "daemon.json");
    // A dot opening the final segment names a hidden file, not an
    // extension.
    assert_eq!(replace_extension(".lock", "json"), ".lock.json");
    assert_eq!(replace_extension("dir.d/file", "json"), "dir.d/file.json");
}
