//! The handshake service: session establishment, ping, disconnect.
//!
//! A connection's protocol state runs Unestablished → Established →
//! (Disconnected | Timed-out); `establish` is the first exchange on
//! every connection. The service itself is stateless beyond the session
//! manager it fronts; rejections travel back as ordinary responses, not
//! as transport errors.

use vstd::prelude::*;
use vstd::string::StringExecFns;

use crate::clock::{now_timestamp, valid_clock_reading};
use crate::config::spec_daemon_capabilities;
use crate::protocol::{
    DisconnectRequest, DisconnectResponse, EstablishResult, HandshakeErrorCode, Hello,
    PingRequest, PingResponse, Welcome,
};
use crate::session::{
    capacity_message, has_id, spec_negotiate, table_after_register, ClientSession,
    SessionManager,
};
use crate::token::is_token;

verus! {

/// The version string of this daemon build, announced in `Welcome`.
pub fn daemon_build_version() -> (r: &'static str)
    ensures
        r@ == "0.1.0"@,
{
    "0.1.0"
}

/// Serves the connection-establishment protocol against one session
/// manager.
pub struct HandshakeService {
    session_manager: SessionManager,
    daemon_id: String,
}

impl HandshakeService {
    /// The session manager behind the service.
    pub closed spec fn spec_manager(&self) -> SessionManager {
        self.session_manager
    }

    /// The instance id announced in `Welcome`.
    pub closed spec fn spec_daemon_id(&self) -> Seq<char> {
        self.daemon_id@
    }

    /// Well-formedness: the table behind the service is well-formed.
    pub open spec fn wf(&self) -> bool {
        self.spec_manager().wf()
    }

    /// A handshake service over a session manager, announcing the given
    /// instance id.
    pub fn new(session_manager: SessionManager, daemon_id: String) -> (r: HandshakeService)
        requires
            session_manager.wf(),
        ensures
            r.wf(),
            r.spec_manager() == session_manager,
            r.spec_daemon_id() == daemon_id@,
    {
        HandshakeService { session_manager, daemon_id }
    }

    /// Shared read access to the session manager.
    pub fn manager(&self) -> (r: &SessionManager)
        ensures
            *r == self.spec_manager(),
    {
        &self.session_manager
    }

    /// The instance id announced in `Welcome`.
    pub fn daemon_id(&self) -> (r: String)
        ensures
            r@ == self.spec_daemon_id(),
    {
        self.daemon_id.clone()
    }

    /// Establish a session: delegate to the session manager and, on
    /// success, answer with a `Welcome` carrying the daemon's version,
    /// instance id, limits, the fresh reconnect token, the negotiated
    /// capabilities, the session timeout and the server's current time.
    /// On rejection the error comes back verbatim as a normal response.
    pub fn establish(&mut self, request: &Hello) -> (r: EstablishResult)
        requires
            old(self).wf(),
        ensures
            final(self).wf(),
            final(self).spec_daemon_id() == old(self).spec_daemon_id(),
            final(self).spec_manager().spec_config() == old(self).spec_manager().spec_config(),
            old(self).spec_manager().at_capacity() ==> (r matches EstablishResult::Error(e)
                && e.code == HandshakeErrorCode::CapacityExceeded && e.message@
                == capacity_message(old(self).spec_manager().spec_config().max_clients as nat)
                && e.supported_versions@.len() == 0
                && final(self).spec_manager().sessions_seq()
                == old(self).spec_manager().sessions_seq()),
            !old(self).spec_manager().at_capacity() && request.protocol_version@
                != old(self).spec_manager().spec_config().protocol_version@ ==> (r matches
                EstablishResult::Error(e) && e.code == HandshakeErrorCode::VersionMismatch
                && e.supported_versions@.len() == 1 && e.supported_versions@[0]@
                == old(self).spec_manager().spec_config().protocol_version@
                && final(self).spec_manager().sessions_seq()
                == old(self).spec_manager().sessions_seq()),
            !old(self).spec_manager().at_capacity() && request.protocol_version@
                == old(self).spec_manager().spec_config().protocol_version@ ==> (r matches
                EstablishResult::Welcome(w) && w.protocol_version@
                == old(self).spec_manager().spec_config().protocol_version@ && w.daemon_id@
                == old(self).spec_daemon_id() && w.daemon_version@ == "0.1.0"@
                && w.workspace_limits == Some(
                old(self).spec_manager().spec_config().workspace_limits,
            ) && is_token(w.reconnect_token@) && w.negotiated_capabilities == Some(
                spec_negotiate(request.capabilities, spec_daemon_capabilities()),
            ) && w.session_timeout_seconds
                == old(self).spec_manager().spec_config().session_timeout_secs && (
            w.server_time matches Some(t) && valid_clock_reading(t)) && (exists|s: ClientSession|
                final(self).spec_manager().sessions_seq() == table_after_register(
                    old(self).spec_manager().sessions_seq(),
                    s,
                ) && s.client_id@ == request.client_id@ && s.reconnect_token@
                    == w.reconnect_token@) && has_id(
                final(self).spec_manager().sessions_seq(),
                request.client_id@,
            )),
    {
        let outcome = self.session_manager.register(request);
        match outcome {
            Ok(session) => {
                let config = self.session_manager.config();
                let welcome = Welcome {
                    protocol_version: config.protocol_version.clone(),
                    daemon_id: self.daemon_id.clone(),
                    daemon_version: String::from_str(daemon_build_version()),
                    workspace_limits: Some(config.workspace_limits),
                    reconnect_token: session.reconnect_token,
                    negotiated_capabilities: Some(session.negotiated_capabilities),
                    session_timeout_seconds: config.session_timeout_secs,
                    server_time: Some(now_timestamp()),
                };
                proof {
                    let table = self.spec_manager().sessions_seq();
                    assert(table.len() >= 1);
                    assert(table[table.len() - 1].client_id@ == request.client_id@);
                }
                EstablishResult::Welcome(welcome)
            },
            Err(error) => EstablishResult::Error(error),
        }
    }

    /// Answer a ping: echo the client's time beside the server's own.
    /// Never fails, with or without a tracked session.
    pub fn ping(&self, request: &PingRequest) -> (r: PingResponse)
        ensures
            r.client_time == request.client_time,
            r.server_time matches Some(t) && valid_clock_reading(t),
    {
        PingResponse { client_time: request.client_time, server_time: Some(now_timestamp()) }
    }

    /// Acknowledge a disconnect notice unconditionally. No session is
    /// removed here: the service does not bind connections to client
    /// ids, so cleanup is left to re-registration or to the daemon's own
    /// shutdown — a known gap, kept as designed.
    pub fn disconnect(&self, _request: &DisconnectRequest) -> (r: DisconnectResponse)
        ensures
            r.success,
    {
        DisconnectResponse { success: true }
    }
}

} // verus!
