//! Daemon configuration.

use vstd::prelude::*;
use vstd::string::StringExecFns;

use crate::protocol::{Capabilities, WorkspaceLimits};

verus! {

/// Configuration the daemon runs with.
pub struct DaemonConfig {
    /// Protocol version this daemon implements; handshakes must match it
    /// exactly.
    pub protocol_version: String,
    /// Maximum number of concurrently registered clients.
    pub max_clients: usize,
    /// Session timeout announced to clients, in seconds.
    pub session_timeout_secs: u32,
    /// Operational ceilings announced at handshake time.
    pub workspace_limits: WorkspaceLimits,
    /// Grace period of a coordinated shutdown, in seconds.
    pub shutdown_timeout_secs: u64,
}

/// The capabilities every daemon of this build supports: chunking and
/// sequencing, with binary deltas and compression reserved for later.
pub open spec fn spec_daemon_capabilities() -> Capabilities {
    Capabilities {
        supports_chunking: true,
        supports_sequences: true,
        supports_binary_deltas: false,
        supports_compression: false,
    }
}

impl DaemonConfig {
    /// The capabilities this daemon supports: chunking and sequencing,
    /// with binary deltas and compression reserved for later.
    pub fn daemon_capabilities(&self) -> (r: Capabilities)
        ensures
            r == spec_daemon_capabilities(),
    {
        Capabilities {
            supports_chunking: true,
            supports_sequences: true,
            supports_binary_deltas: false,
            supports_compression: false,
        }
    }

    /// Spec-level duplicate of the configuration, for contracts that
    /// relate it to a configuration built elsewhere.
    pub open spec fn matches(&self, other: &DaemonConfig) -> bool {
        &&& self.protocol_version@ == other.protocol_version@
        &&& self.max_clients == other.max_clients
        &&& self.session_timeout_secs == other.session_timeout_secs
        &&& self.workspace_limits == other.workspace_limits
        &&& self.shutdown_timeout_secs == other.shutdown_timeout_secs
    }

    /// An owned duplicate of the configuration.
    pub fn duplicate(&self) -> (r: DaemonConfig)
        ensures
            r.matches(self),
    {
        DaemonConfig {
            protocol_version: self.protocol_version.clone(),
            max_clients: self.max_clients,
            session_timeout_secs: self.session_timeout_secs,
            workspace_limits: self.workspace_limits,
            shutdown_timeout_secs: self.shutdown_timeout_secs,
        }
    }
}

impl Default for DaemonConfig {
    /// The stock configuration: protocol 1.0.0, sixteen clients, a
    /// five-minute session timeout, 4 MiB messages and a thirty-second
    /// shutdown grace period.
    fn default() -> (r: DaemonConfig)
        ensures
            r.protocol_version@ == "1.0.0"@,
            r.max_clients == 16,
            r.session_timeout_secs == 300,
            r.workspace_limits == (WorkspaceLimits {
                max_message_bytes: 4194304,
                max_in_flight: 64,
                recommended_page_size: 100,
                max_concurrent_streams: 32,
            }),
            r.shutdown_timeout_secs == 30,
    {
        DaemonConfig {
            protocol_version: String::from_str("1.0.0"),
            max_clients: 16,
            session_timeout_secs: 300,
            workspace_limits: WorkspaceLimits {
                max_message_bytes: 4194304,
                max_in_flight: 64,
                recommended_page_size: 100,
                max_concurrent_streams: 32,
            },
            shutdown_timeout_secs: 30,
        }
    }
}

} // verus!
