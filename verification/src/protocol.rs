//! Protocol payloads exchanged between a client and the daemon.
//!
//! These are the handshake / control messages; the transport envelope and
//! framing around them belong to the unverified shell.

use vstd::prelude::*;

verus! {

/// A point in time as a Unix timestamp: whole seconds and a sub-second
/// nanosecond part.
#[derive(Clone, Copy, Debug, PartialEq, Eq, Structural)]
pub struct Timestamp {
    /// Seconds since the Unix epoch.
    pub seconds: i64,
    /// Nanoseconds past the last whole second.
    pub nanos: i32,
}

/// Optional protocol features, declared independently by client and daemon.
/// A session uses a feature only when both sides declare it.
#[derive(Clone, Copy, Debug, PartialEq, Eq, Structural)]
pub struct Capabilities {
    pub supports_chunking: bool,
    pub supports_sequences: bool,
    pub supports_binary_deltas: bool,
    pub supports_compression: bool,
}

impl Default for Capabilities {
    /// The empty capability set: no optional features.
    fn default() -> (r: Capabilities)
        ensures
            !r.supports_chunking,
            !r.supports_sequences,
            !r.supports_binary_deltas,
            !r.supports_compression,
    {
        Capabilities {
            supports_chunking: false,
            supports_sequences: false,
            supports_binary_deltas: false,
            supports_compression: false,
        }
    }
}

/// Operational ceilings the daemon announces at handshake time. Advisory:
/// enforcement belongs to higher-level services.
#[derive(Clone, Copy, Debug, PartialEq, Eq, Structural)]
pub struct WorkspaceLimits {
    pub max_message_bytes: u32,
    pub max_in_flight: u32,
    pub recommended_page_size: u32,
    pub max_concurrent_streams: u32,
}

/// The first message a client sends on a connection, asking to establish
/// a session.
pub struct Hello {
    /// Protocol version the client speaks; must match the daemon's exactly.
    pub protocol_version: String,
    /// Caller-supplied identifier; the session table is keyed by it.
    pub client_id: String,
    /// Human-readable client name.
    pub client_name: String,
    /// Client build version.
    pub client_version: String,
    /// Features the client declares; absent means no optional features.
    pub capabilities: Option<Capabilities>,
    /// Token from an earlier registration, if the client is reconnecting.
    pub reconnect_token: String,
}

/// The request payload of `establish` carries exactly a `Hello`.
pub type EstablishRequest = Hello;

/// Why a handshake was rejected.
#[derive(Clone, Copy, Debug, PartialEq, Eq, Structural)]
pub enum HandshakeErrorCode {
    /// The client's protocol version is not the daemon's.
    VersionMismatch,
    /// The session table is full.
    CapacityExceeded,
}

/// A protocol-level handshake rejection. Returned as a normal response,
/// never as a transport error: the connection stays usable.
#[derive(Debug)]
pub struct HandshakeError {
    pub code: HandshakeErrorCode,
    pub message: String,
    /// On a version mismatch, exactly the daemon's own version.
    pub supported_versions: Vec<String>,
    pub retry_hint: Option<String>,
}

/// The daemon's answer to a successful `establish`.
pub struct Welcome {
    pub protocol_version: String,
    pub daemon_id: String,
    pub daemon_version: String,
    pub workspace_limits: Option<WorkspaceLimits>,
    pub reconnect_token: String,
    pub negotiated_capabilities: Option<Capabilities>,
    pub session_timeout_seconds: u32,
    pub server_time: Option<Timestamp>,
}

/// Outcome of `establish`: either a welcome or a structured rejection.
pub enum EstablishResult {
    Welcome(Welcome),
    Error(HandshakeError),
}

/// A liveness probe; valid with or without an established session.
pub struct PingRequest {
    pub client_time: Option<Timestamp>,
}

/// Answer to a ping: the client's time echoed back beside the server's.
pub struct PingResponse {
    pub client_time: Option<Timestamp>,
    pub server_time: Option<Timestamp>,
}

/// A client's notice that it is going away.
pub struct DisconnectRequest {
    pub reason: String,
}

/// Acknowledgement of a disconnect notice.
#[derive(Clone, Copy, Debug, PartialEq, Eq, Structural)]
pub struct DisconnectResponse {
    pub success: bool,
}

/// Identifier of an in-flight request, for cancellation.
pub struct RequestId {
    pub value: String,
}

/// Ask the daemon to cancel an in-flight request.
pub struct CancelRequest {
    pub request_id: Option<RequestId>,
}

/// Outcome of a cancellation attempt.
pub struct CancelResponse {
    pub cancelled: bool,
    pub reason: String,
}

} // verus!
