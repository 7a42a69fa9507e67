//! Control plane of a local developer-tool daemon.
//!
//! The daemon is a single long-lived process per user that serves IPC
//! requests from front-end clients. This crate holds the verified core of
//! its control plane:
//!
//! - the protocol payloads of the handshake and control services,
//! - capability negotiation and the client session table,
//! - the discovery-metadata file format and the staleness decision,
//! - per-user path derivation for the lock file and the IPC endpoint,
//! - the shutdown signal and the accept-loop state machine.
//!
//! Everything that touches the operating system — the advisory file lock,
//! the Unix-socket listener, signal handling and the connection plumbing —
//! lives in the unverified shell around this library, which feeds plain
//! values in and carries plain values out.

pub mod client;
pub mod clock;
pub mod codec;
pub mod config;
pub mod control;
pub mod decimal;
pub mod discovery;
pub mod handshake;
pub mod paths;
pub mod protocol;
pub mod server;
pub mod session;
pub mod settings;
pub mod shutdown;
pub mod strutil;
pub mod token;
pub mod workspace;
