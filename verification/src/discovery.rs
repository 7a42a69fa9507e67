//! Daemon discovery: the published metadata and the decisions around it.
//!
//! A running daemon holds an advisory lock file and publishes, beside
//! it, a metadata file that lets clients find the instance. Reading,
//! deleting and probing the recorded process are the shell's work; the
//! decisions — is this metadata live, stale, or absent — stand here.

use vstd::prelude::*;
use vstd::string::StringExecFns;

verus! {

/// Metadata a daemon publishes for client discovery. Created once at
/// startup, immutable, removed when the lock is released.
pub struct DaemonMetadata {
    /// Process id of the daemon.
    pub pid: u32,
    /// Unix timestamp of the daemon's start.
    pub start_time: i64,
    /// Protocol version the daemon implements.
    pub protocol_version: String,
    /// IPC endpoint path (socket or pipe).
    pub endpoint: String,
    /// Unique identifier of this daemon instance.
    pub daemon_id: String,
}

/// The mathematical content of a metadata record.
pub ghost struct MetaView {
    pub pid: nat,
    pub start_time: int,
    pub protocol_version: Seq<char>,
    pub endpoint: Seq<char>,
    pub daemon_id: Seq<char>,
}

impl View for DaemonMetadata {
    type V = MetaView;

    open spec fn view(&self) -> MetaView {
        MetaView {
            pid: self.pid as nat,
            start_time: self.start_time as int,
            protocol_version: self.protocol_version@,
            endpoint: self.endpoint@,
            daemon_id: self.daemon_id@,
        }
    }
}

impl Clone for DaemonMetadata {
    /// An equal copy of the record.
    fn clone(&self) -> (r: Self)
        ensures
            r == *self,
    {
        DaemonMetadata {
            pid: self.pid,
            start_time: self.start_time,
            protocol_version: self.protocol_version.clone(),
            endpoint: self.endpoint.clone(),
            daemon_id: self.daemon_id.clone(),
        }
    }
}

/// What discovery concludes from the metadata file and the liveness of
/// the recorded process.
pub enum DiscoveryOutcome {
    /// No daemon: the metadata file is absent or unreadable.
    NoDaemon,
    /// The metadata names a dead process: treat it as absent, and delete
    /// both the metadata and the lock file so discovery heals itself.
    Stale,
    /// A daemon is running; here is its metadata.
    Running(DaemonMetadata),
}

/// Judge a discovery attempt. `meta` is what the shell read and parsed
/// from the metadata file (absent or unparsable both arrive as `None`);
/// `pid_alive` is the shell's liveness probe of the recorded pid, and is
/// only looked at when metadata is present.
pub fn evaluate_discovery(meta: Option<DaemonMetadata>, pid_alive: bool) -> (r: DiscoveryOutcome)
    ensures
        meta is None ==> r is NoDaemon,
        (meta is Some && !pid_alive) ==> r is Stale,
        (meta is Some && pid_alive) ==> (r matches DiscoveryOutcome::Running(m) && m
            == meta.unwrap()),
{
    match meta {
        None => DiscoveryOutcome::NoDaemon,
        Some(m) => {
            if pid_alive {
                DiscoveryOutcome::Running(m)
            } else {
                DiscoveryOutcome::Stale
            }
        },
    }
}

/// Outcome of the attach-or-spawn sequence.
pub enum DaemonStartResult {
    /// A daemon was already running.
    AlreadyRunning(DaemonMetadata),
    /// A daemon was spawned and is now discoverable.
    Spawned(DaemonMetadata),
    /// No daemon could be started; the message says why.
    Failed(String),
}

/// Judge an attach-or-spawn attempt from its two discovery results: the
/// one before spawning and — only reached when the first found nothing —
/// the one after. A daemon seen up front was already running; one seen
/// only after was spawned; none at all is a failure.
pub fn classify_start(
    discovered_before: Option<DaemonMetadata>,
    discovered_after: Option<DaemonMetadata>,
) -> (r: DaemonStartResult)
    ensures
        discovered_before matches Some(m) ==> (r matches DaemonStartResult::AlreadyRunning(m2)
            && m2 == m),
        (discovered_before is None && discovered_after is Some) ==> (r matches
            DaemonStartResult::Spawned(m2) && m2 == discovered_after.unwrap()),
        (discovered_before is None && discovered_after is None) ==> (r matches
            DaemonStartResult::Failed(msg) && msg@ == "Daemon spawned but not discoverable"@),
{
    match discovered_before {
        Some(m) => DaemonStartResult::AlreadyRunning(m),
        None => match discovered_after {
            Some(m) => DaemonStartResult::Spawned(m),
            None => DaemonStartResult::Failed(
                String::from_str("Daemon spawned but not discoverable"),
            ),
        },
    }
}

} // verus!
