//! The client session table: registration, capability negotiation,
//! lookup and removal.
//!
//! All checks of one registration — capacity, protocol version, eviction
//! of an earlier session with the same client id, insertion — happen in
//! one call on one `&mut SessionManager`; the shell serialises calls with
//! a lock, so no two registrations interleave and none observes a stale
//! count.

use vstd::prelude::*;
use vstd::string::StringExecFns;

use crate::clock::{now_timestamp, valid_clock_reading};
use crate::config::{spec_daemon_capabilities, DaemonConfig};
use crate::decimal::{dec_digits, u64_to_decimal};
use crate::protocol::{Capabilities, HandshakeError, HandshakeErrorCode, Hello, Timestamp};
use crate::strutil::str_eq;
use crate::token::{fresh_token, is_token};

verus! {

/// State of one connected client.
#[derive(Debug)]
pub struct ClientSession {
    /// Caller-supplied identifier; the table key.
    pub client_id: String,
    /// Human-readable client name.
    pub client_name: String,
    /// Client build version.
    pub client_version: String,
    /// Fresh opaque token issued with this registration.
    pub reconnect_token: String,
    /// When the session was established.
    pub connected_at: Timestamp,
    /// Last activity on the session.
    pub last_activity: Timestamp,
    /// The feature set both sides support.
    pub negotiated_capabilities: Capabilities,
}

impl Clone for ClientSession {
    /// An equal copy of the session.
    fn clone(&self) -> (r: Self)
        ensures
            r == *self,
    {
        ClientSession {
            client_id: self.client_id.clone(),
            client_name: self.client_name.clone(),
            client_version: self.client_version.clone(),
            reconnect_token: self.reconnect_token.clone(),
            connected_at: self.connected_at,
            last_activity: self.last_activity,
            negotiated_capabilities: self.negotiated_capabilities,
        }
    }
}

impl ClientSession {
    /// Record activity now. Only `last_activity` moves.
    pub fn touch(&mut self)
        ensures
            final(self).client_id@ == old(self).client_id@,
            final(self).client_name@ == old(self).client_name@,
            final(self).client_version@ == old(self).client_version@,
            final(self).reconnect_token@ == old(self).reconnect_token@,
            final(self).connected_at == old(self).connected_at,
            final(self).negotiated_capabilities == old(self).negotiated_capabilities,
            valid_clock_reading(final(self).last_activity),
    {
        self.last_activity = now_timestamp();
    }
}

/// The feature set a session runs with: exactly the features both the
/// client and the daemon declared. A client that declared nothing gets
/// no optional features.
pub open spec fn spec_negotiate(client: Option<Capabilities>, daemon: Capabilities) -> Capabilities {
    match client {
        Some(c) => Capabilities {
            supports_chunking: c.supports_chunking && daemon.supports_chunking,
            supports_sequences: c.supports_sequences && daemon.supports_sequences,
            supports_binary_deltas: c.supports_binary_deltas && daemon.supports_binary_deltas,
            supports_compression: c.supports_compression && daemon.supports_compression,
        },
        None => Capabilities {
            supports_chunking: false,
            supports_sequences: false,
            supports_binary_deltas: false,
            supports_compression: false,
        },
    }
}

/// Negotiate capabilities between client and daemon: the flag-wise AND
/// of the two declarations.
pub fn negotiate_capabilities(client: Option<&Capabilities>, daemon: &Capabilities) -> (r:
    Capabilities)
    ensures
        client matches Some(c) ==> r == spec_negotiate(Some(*c), *daemon),
        client is None ==> r == spec_negotiate(None, *daemon),
{
    match client {
        Some(c) => Capabilities {
            supports_chunking: c.supports_chunking && daemon.supports_chunking,
            supports_sequences: c.supports_sequences && daemon.supports_sequences,
            supports_binary_deltas: c.supports_binary_deltas && daemon.supports_binary_deltas,
            supports_compression: c.supports_compression && daemon.supports_compression,
        },
        None => Capabilities {
            supports_chunking: false,
            supports_sequences: false,
            supports_binary_deltas: false,
            supports_compression: false,
        },
    }
}

/// Whatever both sides agreed on, each side declared: the negotiated set
/// is contained in the client's and in the daemon's, for every flag and
/// every combination of inputs.
pub proof fn lemma_negotiated_is_intersection(client: Option<Capabilities>, daemon: Capabilities)
    ensures
        spec_negotiate(client, daemon).supports_chunking <==> (client matches Some(c)
            && c.supports_chunking && daemon.supports_chunking),
        spec_negotiate(client, daemon).supports_sequences <==> (client matches Some(c)
            && c.supports_sequences && daemon.supports_sequences),
        spec_negotiate(client, daemon).supports_binary_deltas <==> (client matches Some(c)
            && c.supports_binary_deltas && daemon.supports_binary_deltas),
        spec_negotiate(client, daemon).supports_compression <==> (client matches Some(c)
            && c.supports_compression && daemon.supports_compression),
{
}

/// True when some session in `s` has the client id `id`.
pub open spec fn has_id(s: Seq<ClientSession>, id: Seq<char>) -> bool {
    exists|i: int| 0 <= i < s.len() && #[trigger] s[i].client_id@ == id
}

/// True when no two sessions in `s` share a client id.
pub open spec fn unique_ids(s: Seq<ClientSession>) -> bool {
    forall|i: int, j: int|
        0 <= i < j < s.len() ==> #[trigger] s[i].client_id@ != #[trigger] s[j].client_id@
}

/// The table without any session of client `id`, order kept.
pub open spec fn evict(s: Seq<ClientSession>, id: Seq<char>) -> Seq<ClientSession>
    decreases s.len(),
{
    if s.len() == 0 {
        Seq::empty()
    } else {
        let rest = evict(s.drop_last(), id);
        if s.last().client_id@ == id {
            rest
        } else {
            rest.push(s.last())
        }
    }
}

/// What eviction does to a table: it removes exactly the sessions of the
/// given id, keeps every other session, and keeps ids unique.
pub proof fn lemma_evict(s: Seq<ClientSession>, id: Seq<char>)
    ensures
        evict(s, id).len() <= s.len(),
        forall|k: int| 0 <= k < evict(s, id).len() ==> (#[trigger] evict(s, id)[k]).client_id@
            != id,
        forall|id2: Seq<char>| #[trigger] has_id(evict(s, id), id2) ==> has_id(s, id2),
        !has_id(s, id) ==> evict(s, id) == s,
        unique_ids(s) ==> unique_ids(evict(s, id)),
        unique_ids(s) && has_id(s, id) ==> evict(s, id).len() == s.len() - 1,
        forall|k: int|
            0 <= k < s.len() && (#[trigger] s[k]).client_id@ != id ==> evict(s, id).contains(s[k]),
    decreases s.len(),
{
    if s.len() == 0 {
        assert forall|id2: Seq<char>| #[trigger] has_id(evict(s, id), id2) implies has_id(
            s,
            id2,
        ) by {}
        assert(!has_id(s, id));
        assert(evict(s, id) =~= s);
    } else {
        let t = s.drop_last();
        let last = s.last();
        lemma_evict(t, id);
        let e = evict(t, id);
        let r = evict(s, id);

        // Pushing to, or finding something in, the shorter table lifts to s.
        assert(forall|k: int| 0 <= k < t.len() ==> t[k] == s[k]);

        // Ids found in the result were in s.
        assert forall|id2: Seq<char>| #[trigger] has_id(r, id2) implies has_id(s, id2) by {
            let k = choose|k: int| 0 <= k < r.len() && #[trigger] r[k].client_id@ == id2;
            if last.client_id@ != id && k == r.len() - 1 {
                assert(s[s.len() - 1].client_id@ == id2);
            } else {
                assert(r[k] == e[k]);
                assert(has_id(e, id2));
                let k2 = choose|k2: int| 0 <= k2 < t.len() && #[trigger] t[k2].client_id@ == id2;
                assert(s[k2].client_id@ == id2);
            }
        }

        // No session of the evicted id remains.
        assert forall|k: int| 0 <= k < r.len() implies (#[trigger] r[k]).client_id@ != id by {
            if last.client_id@ != id && k == r.len() - 1 {
            } else {
                assert(r[k] == e[k]);
            }
        }

        // Without a session of the id, eviction changes nothing.
        if !has_id(s, id) {
            assert(!has_id(t, id)) by {
                if has_id(t, id) {
                    let k = choose|k: int| 0 <= k < t.len() && #[trigger] t[k].client_id@ == id;
                    assert(s[k].client_id@ == id);
                }
            }
            assert(last.client_id@ != id) by {
                assert(s[s.len() - 1] == last);
            }
            assert(r =~= s);
        }

        // Uniqueness is kept.
        if unique_ids(s) {
            assert(unique_ids(t));
            if last.client_id@ != id {
                assert forall|i: int, j: int| 0 <= i < j < r.len() implies (#[trigger] r[i]).client_id@
                    != (#[trigger] r[j]).client_id@ by {
                    if j < r.len() - 1 {
                        assert(r[i] == e[i] && r[j] == e[j]);
                    } else {
                        assert(r[i] == e[i]);
                        assert(r[j] == last);
                        if e[i].client_id@ == last.client_id@ {
                            assert(has_id(e, last.client_id@));
                            let k = choose|k: int|
                                0 <= k < t.len() && #[trigger] t[k].client_id@ == last.client_id@;
                            assert(s[k].client_id@ == s[s.len() - 1].client_id@);
                        }
                    }
                }
            }
        }

        // Exactly one session leaves when the id was present.
        if unique_ids(s) && has_id(s, id) {
            if last.client_id@ == id {
                assert(!has_id(t, id)) by {
                    if has_id(t, id) {
                        let k = choose|k: int|
                            0 <= k < t.len() && #[trigger] t[k].client_id@ == id;
                        assert(s[k].client_id@ == s[s.len() - 1].client_id@);
                    }
                }
                assert(e == t);
            } else {
                assert(has_id(t, id)) by {
                    let k = choose|k: int| 0 <= k < s.len() && #[trigger] s[k].client_id@ == id;
                    assert(k != s.len() - 1);
                    assert(t[k].client_id@ == id);
                }
            }
        }

        // Every other session is kept.
        assert forall|k: int|
            0 <= k < s.len() && (#[trigger] s[k]).client_id@ != id implies r.contains(s[k]) by {
            if k == s.len() - 1 {
                assert(r[r.len() - 1] == s[k]);
            } else {
                assert(t[k] == s[k]);
                assert(e.contains(t[k]));
                let m = choose|m: int| 0 <= m < e.len() && e[m] == t[k];
                assert(r[m] == s[k]);
            }
        }
    }
}

/// The table after an accepted registration of `session`: any earlier
/// session of the same client is evicted and the new one appended.
pub open spec fn table_after_register(s: Seq<ClientSession>, session: ClientSession) -> Seq<
    ClientSession,
> {
    evict(s, session.client_id@).push(session)
}

/// The active count never exceeds the configured maximum, however many
/// registrations happen: a full table rejects every further
/// registration with `CapacityExceeded` and stays as it is (see
/// `register`'s contract), and an accepted registration — only possible
/// below the limit — keeps the table within it.
pub proof fn lemma_count_never_exceeds_capacity(
    table: Seq<ClientSession>,
    session: ClientSession,
    max: nat,
)
    requires
        unique_ids(table),
        table.len() < max,
    ensures
        table_after_register(table, session).len() <= max,
        unique_ids(table_after_register(table, session)),
{
    let id = session.client_id@;
    lemma_evict(table, id);
    let e = evict(table, id);
    let r = table_after_register(table, session);
    assert forall|a: int, b: int| 0 <= a < b < r.len() implies (#[trigger] r[a]).client_id@ != (
    #[trigger] r[b]).client_id@ by {
        if b < r.len() - 1 {
            assert(r[a] == e[a] && r[b] == e[b]);
        } else {
            assert(r[a] == e[a]);
            assert(r[b] == session);
        }
    }
}

/// Registering the same client twice keeps a single session: after the
/// first accepted registration the client is in the table, and a second
/// accepted registration of the same client id replaces it without
/// growing the table. From an empty table, both leave exactly one
/// session — the later one. (That the second call is accepted at all,
/// below capacity and with a matching version, is `register`'s
/// contract; that its token is fresh is the token's randomness, not
/// stated here.)
pub proof fn lemma_reregistration_keeps_one_session(
    table: Seq<ClientSession>,
    s1: ClientSession,
    s2: ClientSession,
)
    requires
        unique_ids(table),
        s1.client_id@ == s2.client_id@,
    ensures
        has_id(table_after_register(table, s1), s1.client_id@),
        table_after_register(table_after_register(table, s1), s2).len()
            == table_after_register(table, s1).len(),
        table.len() == 0 ==> table_after_register(table, s1).len() == 1
            && table_after_register(table_after_register(table, s1), s2).len() == 1
            && table_after_register(table_after_register(table, s1), s2)[0] == s2,
{
    let id = s1.client_id@;
    lemma_evict(table, id);
    let t1 = table_after_register(table, s1);
    assert(t1[t1.len() - 1].client_id@ == id);
    assert(has_id(t1, id));
    lemma_count_never_exceeds_capacity(table, s1, table.len() + 1);
    lemma_evict(t1, s2.client_id@);
    let t2 = table_after_register(t1, s2);
    assert(t2.len() == t1.len());
    if table.len() == 0 {
        assert(evict(table, id) =~= Seq::<ClientSession>::empty());
        assert(t1.len() == 1);
        assert(t2[0] == s2);
    }
}

/// The rejection message when the table is full, naming the limit.
pub open spec fn capacity_message(max: nat) -> Seq<char> {
    "Daemon at capacity ("@ + dec_digits(max) + " clients)"@
}

/// Tracks every connected client's session, keyed by client id.
pub struct SessionManager {
    sessions: Vec<ClientSession>,
    config: DaemonConfig,
}

impl SessionManager {
    /// The sessions currently registered, in registration order.
    pub closed spec fn sessions_seq(&self) -> Seq<ClientSession> {
        self.sessions@
    }

    /// The configuration the manager enforces.
    pub closed spec fn spec_config(&self) -> DaemonConfig {
        self.config
    }

    /// Table well-formedness: ids unique, size within the limit.
    pub open spec fn wf(&self) -> bool {
        &&& unique_ids(self.sessions_seq())
        &&& self.sessions_seq().len() <= self.spec_config().max_clients
    }

    /// True when no further client fits.
    pub open spec fn at_capacity(&self) -> bool {
        self.sessions_seq().len() >= self.spec_config().max_clients
    }

    /// A manager with an empty table.
    pub fn new(config: DaemonConfig) -> (r: SessionManager)
        ensures
            r.wf(),
            r.sessions_seq().len() == 0,
            r.spec_config() == config,
    {
        SessionManager { sessions: Vec::new(), config }
    }

    /// Register a client, atomically with respect to this manager:
    /// reject when the table is full; reject a protocol version other
    /// than the daemon's own, naming that version as the only supported
    /// one; otherwise evict any earlier session of the same client id,
    /// negotiate capabilities as the flag-wise AND of the two
    /// declarations, and insert a session with a fresh token.
    pub fn register(&mut self, hello: &Hello) -> (r: Result<ClientSession, HandshakeError>)
        requires
            old(self).wf(),
        ensures
            final(self).wf(),
            final(self).spec_config() == old(self).spec_config(),
            old(self).at_capacity() ==> (r matches Err(e) && e.code
                == HandshakeErrorCode::CapacityExceeded && e.message@ == capacity_message(
                old(self).spec_config().max_clients as nat,
            ) && e.supported_versions@.len() == 0 && e.retry_hint is None
                && final(self).sessions_seq() == old(self).sessions_seq()),
            !old(self).at_capacity() && hello.protocol_version@
                != old(self).spec_config().protocol_version@ ==> (r matches Err(e) && e.code
                == HandshakeErrorCode::VersionMismatch && e.message@
                == "Protocol version mismatch"@ && e.supported_versions@.len() == 1
                && e.supported_versions@[0]@ == old(self).spec_config().protocol_version@
                && e.retry_hint is None && final(self).sessions_seq() == old(self).sessions_seq()),
            !old(self).at_capacity() && hello.protocol_version@
                == old(self).spec_config().protocol_version@ ==> (r matches Ok(s)
                && s.client_id@ == hello.client_id@ && s.client_name@ == hello.client_name@
                && s.client_version@ == hello.client_version@ && is_token(s.reconnect_token@)
                && s.negotiated_capabilities == spec_negotiate(
                hello.capabilities,
                spec_daemon_capabilities(),
            ) && s.connected_at == s.last_activity && valid_clock_reading(s.connected_at)
                && final(self).sessions_seq() == table_after_register(old(self).sessions_seq(), s)
                && final(self).sessions_seq().len() == (if has_id(
                old(self).sessions_seq(),
                hello.client_id@,
            ) {
                old(self).sessions_seq().len()
            } else {
                old(self).sessions_seq().len() + 1
            })),
    {
        // Capacity check.
        if self.sessions.len() >= self.config.max_clients {
            let mut message = String::from_str("Daemon at capacity (");
            let limit = u64_to_decimal(self.config.max_clients as u64);
            message.append(limit.as_str());
            message.append(" clients)");
            return Err(HandshakeError {
                code: HandshakeErrorCode::CapacityExceeded,
                message,
                supported_versions: Vec::new(),
                retry_hint: None,
            });
        }
        // Exact protocol version match.
        if !(hello.protocol_version == self.config.protocol_version) {
            let mut supported_versions: Vec<String> = Vec::new();
            supported_versions.push(self.config.protocol_version.clone());
            return Err(HandshakeError {
                code: HandshakeErrorCode::VersionMismatch,
                message: String::from_str("Protocol version mismatch"),
                supported_versions,
                retry_hint: None,
            });
        }
        // Build the new session.
        let daemon_caps = self.config.daemon_capabilities();
        let negotiated = negotiate_capabilities(hello.capabilities.as_ref(), &daemon_caps);
        let now = now_timestamp();
        let session = ClientSession {
            client_id: hello.client_id.clone(),
            client_name: hello.client_name.clone(),
            client_version: hello.client_version.clone(),
            reconnect_token: fresh_token(),
            connected_at: now,
            last_activity: now,
            negotiated_capabilities: negotiated,
        };
        // Evict any earlier session of the same client, keeping order.
        let ghost old_table = self.sessions@;
        let mut kept: Vec<ClientSession> = Vec::new();
        let n = self.sessions.len();
        let mut i: usize = 0;
        proof {
            assert(old_table.subrange(0, 0) =~= Seq::<ClientSession>::empty());
        }
        while i < n
            invariant
                0 <= i <= n == self.sessions@.len(),
                self.sessions@ == old_table,
                session.client_id@ == hello.client_id@,
                kept@ == evict(old_table.subrange(0, i as int), session.client_id@),
            decreases n - i,
        {
            proof {
                let prefix = old_table.subrange(0, i as int);
                let next = old_table.subrange(0, i as int + 1);
                assert(next.drop_last() =~= prefix);
                assert(next.last() == old_table[i as int]);
            }
            if !(self.sessions[i].client_id == session.client_id) {
                kept.push(self.sessions[i].clone());
            }
            i = i + 1;
        }
        proof {
            assert(old_table.subrange(0, n as int) =~= old_table);
            lemma_evict(old_table, session.client_id@);
        }
        kept.push(session.clone());
        self.sessions = kept;
        proof {
            let id = session.client_id@;
            let e = evict(old_table, id);
            // Uniqueness of the new table.
            assert forall|a: int, b: int| 0 <= a < b < self.sessions@.len() implies (
            #[trigger] self.sessions@[a]).client_id@ != (#[trigger] self.sessions@[b]).client_id@
                by {
                if b < self.sessions@.len() - 1 {
                    assert(self.sessions@[a] == e[a] && self.sessions@[b] == e[b]);
                } else {
                    assert(self.sessions@[a] == e[a]);
                    assert(self.sessions@[b] == session);
                }
            }
        }
        Ok(session)
    }

    /// Drop the session of `client_id`, if any; nothing else changes.
    pub fn unregister(&mut self, client_id: &str)
        requires
            old(self).wf(),
        ensures
            final(self).wf(),
            final(self).spec_config() == old(self).spec_config(),
            final(self).sessions_seq() == evict(old(self).sessions_seq(), client_id@),
            !has_id(final(self).sessions_seq(), client_id@),
    {
        let ghost old_table = self.sessions@;
        let mut kept: Vec<ClientSession> = Vec::new();
        let n = self.sessions.len();
        let mut i: usize = 0;
        proof {
            assert(old_table.subrange(0, 0) =~= Seq::<ClientSession>::empty());
        }
        while i < n
            invariant
                0 <= i <= n == self.sessions@.len(),
                self.sessions@ == old_table,
                kept@ == evict(old_table.subrange(0, i as int), client_id@),
            decreases n - i,
        {
            proof {
                let prefix = old_table.subrange(0, i as int);
                let next = old_table.subrange(0, i as int + 1);
                assert(next.drop_last() =~= prefix);
                assert(next.last() == old_table[i as int]);
            }
            if !str_eq(self.sessions[i].client_id.as_str(), client_id) {
                kept.push(self.sessions[i].clone());
            }
            i = i + 1;
        }
        proof {
            assert(old_table.subrange(0, n as int) =~= old_table);
            lemma_evict(old_table, client_id@);
        }
        self.sessions = kept;
    }

    /// The session of `client_id`, if one is registered.
    pub fn get(&self, client_id: &str) -> (r: Option<ClientSession>)
        requires
            self.wf(),
        ensures
            r is Some <==> has_id(self.sessions_seq(), client_id@),
            r matches Some(s) ==> self.sessions_seq().contains(s) && s.client_id@ == client_id@,
    {
        let n = self.sessions.len();
        let mut i: usize = 0;
        while i < n
            invariant
                0 <= i <= n == self.sessions_seq().len(),
                forall|k: int|
                    0 <= k < i ==> (#[trigger] self.sessions_seq()[k]).client_id@ != client_id@,
            decreases n - i,
        {
            if str_eq(self.sessions[i].client_id.as_str(), client_id) {
                let found = self.sessions[i].clone();
                return Some(found);
            }
            i = i + 1;
        }
        None
    }

    /// How many sessions are registered.
    pub fn active_count(&self) -> (r: usize)
        ensures
            r == self.sessions_seq().len(),
    {
        self.sessions.len()
    }

    /// The daemon's protocol version.
    pub fn protocol_version(&self) -> (r: &str)
        ensures
            r@ == self.spec_config().protocol_version@,
    {
        self.config.protocol_version.as_str()
    }

    /// The configuration the manager was built with.
    pub fn config(&self) -> (r: &DaemonConfig)
        ensures
            *r == self.spec_config(),
    {
        &self.config
    }
}

} // verus!
