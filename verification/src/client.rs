//! What the front-end client keeps of the daemon's answers.
//!
//! The client's transport — channel, socket, RPC plumbing — lives in
//! the shell; these are the plain summaries it hands the UI, and the
//! conversions that fill them.

use vstd::prelude::*;

use crate::discovery::DaemonMetadata;
use crate::protocol::{Timestamp, Welcome};

verus! {

/// The part of a `Welcome` the client keeps after connecting.
pub struct WelcomeInfo {
    pub protocol_version: String,
    pub daemon_id: String,
    pub daemon_version: String,
    pub reconnect_token: String,
    pub session_timeout_seconds: u32,
}

impl WelcomeInfo {
    /// The client's summary of a welcome: the identifying fields,
    /// verbatim.
    pub fn of_welcome(w: &Welcome) -> (r: WelcomeInfo)
        ensures
            r.protocol_version@ == w.protocol_version@,
            r.daemon_id@ == w.daemon_id@,
            r.daemon_version@ == w.daemon_version@,
            r.reconnect_token@ == w.reconnect_token@,
            r.session_timeout_seconds == w.session_timeout_seconds,
    {
        WelcomeInfo {
            protocol_version: w.protocol_version.clone(),
            daemon_id: w.daemon_id.clone(),
            daemon_version: w.daemon_version.clone(),
            reconnect_token: w.reconnect_token.clone(),
            session_timeout_seconds: w.session_timeout_seconds,
        }
    }
}

/// What the client reports of one ping exchange.
pub struct PingResponse {
    pub server_time_seconds: i64,
    pub server_time_nanos: i32,
    pub round_trip_ms: u64,
}

impl PingResponse {
    /// Fold a pong and the measured round trip into the client's
    /// report; a pong without a server time counts as the epoch.
    pub fn of_pong(server_time: Option<Timestamp>, round_trip_ms: u64) -> (r: PingResponse)
        ensures
            server_time matches Some(t) ==> r.server_time_seconds == t.seconds
                && r.server_time_nanos == t.nanos,
            server_time is None ==> r.server_time_seconds == 0 && r.server_time_nanos == 0,
            r.round_trip_ms == round_trip_ms,
    {
        let t = match server_time {
            Some(t) => t,
            None => Timestamp { seconds: 0, nanos: 0 },
        };
        PingResponse {
            server_time_seconds: t.seconds,
            server_time_nanos: t.nanos,
            round_trip_ms,
        }
    }
}

/// What the front end shows of a discovered daemon.
pub struct DaemonInfo {
    pub pid: u32,
    pub daemon_id: String,
    pub protocol_version: String,
    pub endpoint: String,
}

impl From<DaemonMetadata> for DaemonInfo {
    /// The displayable part of the metadata, verbatim.
    fn from(m: DaemonMetadata) -> (r: DaemonInfo) {
        DaemonInfo {
            pid: m.pid,
            daemon_id: m.daemon_id,
            protocol_version: m.protocol_version,
            endpoint: m.endpoint,
        }
    }
}

impl vstd::std_specs::convert::FromSpecImpl<DaemonMetadata> for DaemonInfo {
    open spec fn obeys_from_spec() -> bool {
        true
    }

    open spec fn from_spec(m: DaemonMetadata) -> DaemonInfo {
        DaemonInfo {
            pid: m.pid,
            daemon_id: m.daemon_id,
            protocol_version: m.protocol_version,
            endpoint: m.endpoint,
        }
    }
}

} // verus!
