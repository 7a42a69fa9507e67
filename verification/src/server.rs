//! The daemon server: composition root, request routing and the accept
//! loop's decisions.
//!
//! The shell owns the actual socket and tasks. It drives `run`'s loop by
//! handing each event — a connection, an accept failure, the shutdown
//! signal — to `on_accept_event` and performing the returned action:
//! spawn a handler, log, or stop accepting. Once the loop has stopped it
//! never accepts again; the shell then releases the listener and the
//! lock, in that order.

use vstd::prelude::*;

use crate::config::DaemonConfig;
use crate::control::ControlService;
use crate::discovery::DaemonMetadata;
use crate::handshake::HandshakeService;
use crate::session::SessionManager;
use crate::shutdown::ShutdownCoordinator;
use crate::strutil::str_starts_with;

verus! {

/// Which service a request path names.
#[derive(Clone, Copy, Debug, PartialEq, Eq, Structural)]
pub enum ServiceRoute {
    /// The handshake service.
    Handshake,
    /// The control service.
    Control,
    /// No service of that name; answered with a not-found response.
    NotFound,
}

/// The path prefix of the handshake service's methods.
pub fn handshake_service_prefix() -> (r: &'static str)
    ensures
        r@ == "/gouide.v1.HandshakeService/"@,
{
    "/gouide.v1.HandshakeService/"
}

/// The path prefix of the control service's methods.
pub fn control_service_prefix() -> (r: &'static str)
    ensures
        r@ == "/gouide.v1.Control/"@,
{
    "/gouide.v1.Control/"
}

/// True when `path` begins with `prefix`.
pub open spec fn spec_has_prefix(path: Seq<char>, prefix: Seq<char>) -> bool {
    path.len() >= prefix.len() && path.subrange(0, prefix.len() as int) == prefix
}

/// Route a request by the service name in its path. Requests are routed
/// to the handshake service first, then the control service; any other
/// path is not found.
pub fn route_request(path: &str) -> (r: ServiceRoute)
    ensures
        spec_has_prefix(path@, "/gouide.v1.HandshakeService/"@) ==> r == ServiceRoute::Handshake,
        (!spec_has_prefix(path@, "/gouide.v1.HandshakeService/"@) && spec_has_prefix(
            path@,
            "/gouide.v1.Control/"@,
        )) ==> r == ServiceRoute::Control,
        (!spec_has_prefix(path@, "/gouide.v1.HandshakeService/"@) && !spec_has_prefix(
            path@,
            "/gouide.v1.Control/"@,
        )) ==> r == ServiceRoute::NotFound,
{
    if str_starts_with(path, handshake_service_prefix()) {
        ServiceRoute::Handshake
    } else if str_starts_with(path, control_service_prefix()) {
        ServiceRoute::Control
    } else {
        ServiceRoute::NotFound
    }
}

/// An event the accept loop reacts to.
#[derive(Clone, Copy, Debug, PartialEq, Eq, Structural)]
pub enum AcceptEvent {
    /// A connection was accepted.
    Connection,
    /// Accepting failed; the loop goes on.
    AcceptError,
    /// The shutdown signal fired.
    ShutdownSignal,
}

/// What the shell must do next.
#[derive(Clone, Copy, Debug, PartialEq, Eq, Structural)]
pub enum AcceptAction {
    /// Hand the connection to an independent handler task.
    SpawnHandler,
    /// Log the failure and keep accepting.
    LogError,
    /// Stop the loop: accept no further connections. In-flight handlers
    /// run to completion, bounded only by the grace period elsewhere.
    StopAccepting,
    /// The loop is already stopped; nothing may happen.
    Ignore,
}

/// The accept loop's state: whether it still accepts connections.
pub struct AcceptLoop {
    accepting: bool,
}

impl AcceptLoop {
    /// True while the loop accepts new connections.
    pub closed spec fn spec_accepting(&self) -> bool {
        self.accepting
    }

    /// A running accept loop.
    pub fn new() -> (r: AcceptLoop)
        ensures
            r.spec_accepting(),
    {
        AcceptLoop { accepting: true }
    }

    /// True while the loop accepts new connections.
    pub fn is_accepting(&self) -> (r: bool)
        ensures
            r == self.spec_accepting(),
    {
        self.accepting
    }

    /// React to one event. A connection spawns a handler and an accept
    /// failure is logged, in both cases still accepting; the shutdown
    /// signal stops the loop, and a stopped loop never accepts again.
    pub fn on_accept_event(&mut self, event: AcceptEvent) -> (r: AcceptAction)
        ensures
            !old(self).spec_accepting() ==> (r == AcceptAction::Ignore
                && !final(self).spec_accepting()),
            old(self).spec_accepting() && event == AcceptEvent::Connection ==> (r
                == AcceptAction::SpawnHandler && final(self).spec_accepting()),
            old(self).spec_accepting() && event == AcceptEvent::AcceptError ==> (r
                == AcceptAction::LogError && final(self).spec_accepting()),
            old(self).spec_accepting() && event == AcceptEvent::ShutdownSignal ==> (r
                == AcceptAction::StopAccepting && !final(self).spec_accepting()),
    {
        if !self.accepting {
            return AcceptAction::Ignore;
        }
        match event {
            AcceptEvent::Connection => AcceptAction::SpawnHandler,
            AcceptEvent::AcceptError => AcceptAction::LogError,
            AcceptEvent::ShutdownSignal => {
                self.accepting = false;
                AcceptAction::StopAccepting
            },
        }
    }
}

/// The main daemon server: configuration, the services and the shutdown
/// coordinator, wired together.
pub struct DaemonServer {
    /// The daemon's configuration.
    pub config: DaemonConfig,
    /// The handshake service, owning the session table.
    pub handshake: HandshakeService,
    /// The control service.
    pub control: ControlService,
    /// The shutdown coordinator.
    pub shutdown: ShutdownCoordinator,
    /// The accept loop's state.
    pub accept_loop: AcceptLoop,
}

impl DaemonServer {
    /// Well-formedness of the composed server.
    pub open spec fn wf(&self) -> bool {
        &&& self.handshake.wf()
        &&& self.handshake.spec_manager().spec_config().matches(&self.config)
    }

    /// A server over the given configuration and instance id, with an
    /// empty session table, the shutdown signal down and the accept loop
    /// running.
    pub fn new(config: DaemonConfig, daemon_id: String) -> (r: DaemonServer)
        ensures
            r.wf(),
            r.config.matches(&config),
            r.handshake.spec_daemon_id() == daemon_id@,
            r.handshake.spec_manager().sessions_seq().len() == 0,
            !r.shutdown.spec_triggered(),
            r.accept_loop.spec_accepting(),
    {
        let manager = SessionManager::new(config.duplicate());
        let handshake = HandshakeService::new(manager, daemon_id);
        DaemonServer {
            config,
            handshake,
            control: ControlService::new(),
            shutdown: ShutdownCoordinator::new(),
            accept_loop: AcceptLoop::new(),
        }
    }

    /// The discovery record this server publishes once the listener is
    /// bound: the process id and start time the shell measured, beside
    /// the configured protocol version, the endpoint and the instance
    /// id.
    pub fn build_metadata(&self, pid: u32, start_time: i64, endpoint: String) -> (r:
        DaemonMetadata)
        ensures
            r.pid == pid,
            r.start_time == start_time,
            r.protocol_version@ == self.config.protocol_version@,
            r.endpoint@ == endpoint@,
            r.daemon_id@ == self.handshake.spec_daemon_id(),
    {
        DaemonMetadata {
            pid,
            start_time,
            protocol_version: self.config.protocol_version.clone(),
            endpoint,
            daemon_id: self.handshake.daemon_id(),
        }
    }
}

} // verus!
