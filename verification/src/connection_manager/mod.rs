//! The connection manager's state and decisions.
//!
//! The connection manager keeps a record of every connection by endpoint: outbound ones,
//! which it reconnects with a growing delay when they are lost, and inbound ones.  The
//! decisions here take what the transport, the authorizer and the connection matrix reported
//! and say what changes and what subscribers are told; opening connections, sending
//! heartbeats and running the manager's thread are left to the caller.
use vstd::prelude::*;

use crate::collections::{distinct_keys, distinct_strings, entries_map, lemma_entries_map_at, StringMap};
use crate::wire::{network_message_bytes, NetworkMessageType};

pub mod authorizers;
pub mod builder;
pub mod error;
pub mod notification;

pub use self::builder::ConnectionManagerBuilder;
pub use self::error::{AuthorizerError, ConnectionManagerError};
pub use self::notification::ConnectionManagerNotification;

verus! {

/// The retry delay, in seconds, of a connection that has not failed yet.
pub const INITIAL_RETRY_FREQUENCY: u64 = 10;

/// `uuid::Uuid::new_v4().to_string()`: a fresh random (version 4) UUID in its hyphenated
/// form, whose `Display` writes 36 characters.  Which UUID comes out is left unsaid: it is
/// random.
#[verifier::external_body]
pub(crate) fn new_connection_id() -> (id: String)
    ensures
        id@.len() == 36,
{
    uuid::Uuid::new_v4().to_string()
}

/// What an authorizer decided about a connection; the connection is handed back.
#[derive(Debug, PartialEq)]
pub enum AuthorizationResult<C> {
    Authorized { connection_id: String, identity: String, connection: C },
    Unauthorized { connection_id: String, connection: C },
}

impl<C> AuthorizationResult<C> {
    /// The id of the connection decided about.
    pub open spec fn spec_connection_id(self) -> String {
        match self {
            AuthorizationResult::Authorized { connection_id, .. } => connection_id,
            AuthorizationResult::Unauthorized { connection_id, .. } => connection_id,
        }
    }

    /// The connection decided about.
    pub open spec fn spec_connection(self) -> C {
        match self {
            AuthorizationResult::Authorized { connection, .. } => connection,
            AuthorizationResult::Unauthorized { connection, .. } => connection,
        }
    }
}

/// Decides whether a connection, whose remote end is `remote_endpoint`, is authorized and as
/// whom.  The decision hands back the connection and its id.
pub trait Authorizer<C> {
    fn authorize_connection(&self, connection_id: String, remote_endpoint: &str, connection: C) -> (r: Result<
        AuthorizationResult<C>,
        AuthorizerError,
    >)
        ensures
            r matches Ok(res) ==> res.spec_connection_id() == connection_id && res.spec_connection() == connection,
    ;
}

/// How a connection is kept: an outbound one with its reconnection record, or an inbound one.
#[derive(Debug, PartialEq)]
pub enum ConnectionMetadataExt {
    Outbound {
        reconnecting: bool,
        retry_frequency: u64,
        last_connection_attempt: u64,
        reconnection_attempts: u64,
    },
    Inbound { disconnected: bool },
}

/// What the connection manager knows of a connection.
#[derive(Debug, PartialEq)]
pub struct ConnectionMetadata {
    pub connection_id: String,
    pub endpoint: String,
    pub identity: String,
    pub extended_metadata: ConnectionMetadataExt,
}

impl Clone for ConnectionMetadataExt {
    fn clone(&self) -> (r: Self)
        ensures
            r == *self,
    {
        match self {
            ConnectionMetadataExt::Outbound {
                reconnecting,
                retry_frequency,
                last_connection_attempt,
                reconnection_attempts,
            } => ConnectionMetadataExt::Outbound {
                reconnecting: *reconnecting,
                retry_frequency: *retry_frequency,
                last_connection_attempt: *last_connection_attempt,
                reconnection_attempts: *reconnection_attempts,
            },
            ConnectionMetadataExt::Inbound { disconnected } => ConnectionMetadataExt::Inbound {
                disconnected: *disconnected,
            },
        }
    }
}

impl Clone for ConnectionMetadata {
    fn clone(&self) -> (r: Self)
        ensures
            r == *self,
    {
        ConnectionMetadata {
            connection_id: self.connection_id.clone(),
            endpoint: self.endpoint.clone(),
            identity: self.identity.clone(),
            extended_metadata: self.extended_metadata.clone(),
        }
    }
}

impl ConnectionMetadata {
    /// Whether the connection was made by this node.
    pub fn is_outbound(&self) -> (b: bool)
        ensures
            b == (self.extended_metadata is Outbound),
    {
        match self.extended_metadata {
            ConnectionMetadataExt::Outbound { .. } => true,
            ConnectionMetadataExt::Inbound { .. } => false,
        }
    }

    pub fn connection_id(&self) -> (s: &str)
        ensures
            s@ == self.connection_id@,
    {
        self.connection_id.as_str()
    }

    pub fn endpoint(&self) -> (s: &str)
        ensures
            s@ == self.endpoint@,
    {
        self.endpoint.as_str()
    }

    pub fn identity(&self) -> (s: &str)
        ensures
            s@ == self.identity@,
    {
        self.identity.as_str()
    }
}

/// Whether a connection counts as up: an outbound one not reconnecting, an inbound one not
/// disconnected.
pub open spec fn is_up(meta: ConnectionMetadata) -> bool {
    match meta.extended_metadata {
        ConnectionMetadataExt::Outbound { reconnecting, .. } => !reconnecting,
        ConnectionMetadataExt::Inbound { disconnected } => !disconnected,
    }
}

/// An outbound connection that is reconnecting is not up, nor is an inbound one marked
/// disconnected; an outbound connection that is not reconnecting, or an inbound one that is
/// not disconnected, is up.  So requesting a reconnecting endpoint again tells no one it is
/// connected.
pub proof fn lemma_up_means_not_reconnecting(meta: ConnectionMetadata)
    ensures
        meta.extended_metadata matches ConnectionMetadataExt::Outbound { reconnecting, .. } ==> (is_up(meta)
            <==> !reconnecting),
        meta.extended_metadata matches ConnectionMetadataExt::Inbound { disconnected } ==> (is_up(meta)
            <==> !disconnected),
{
}

/// A connection is reopened only once it is an outbound one that is reconnecting and more
/// than its retry delay has passed since its last attempt; every connection but a reconnecting
/// outbound one gets a heartbeat.
pub proof fn lemma_reconnect_only_after_delay(meta: ConnectionMetadata, now: u64)
    ensures
        due_for_reconnect(meta, now) <==> (meta.extended_metadata matches ConnectionMetadataExt::Outbound {
            reconnecting,
            retry_frequency,
            last_connection_attempt,
            ..
        } && reconnecting && now > last_connection_attempt + retry_frequency),
        gets_heartbeat(meta) <==> !(meta.extended_metadata matches ConnectionMetadataExt::Outbound {
            reconnecting,
            ..
        } && reconnecting),
        due_for_reconnect(meta, now) ==> !gets_heartbeat(meta),
{
}

/// The retry delay of a connection after one more failed reconnection is twice the old one
/// while that stays below the maximum, and the maximum otherwise.
pub proof fn lemma_retry_frequency_doubles(retry_frequency: u64, maximum: u64)
    ensures
        2 * retry_frequency < maximum ==> next_retry_frequency(retry_frequency, maximum) == 2 * retry_frequency,
        2 * retry_frequency >= maximum ==> next_retry_frequency(retry_frequency, maximum) == maximum,
{
}

/// `n` is the notification that `endpoint` is connected as `connection_id` to `identity`.
pub open spec fn is_connected_notice(
    n: ConnectionManagerNotification,
    endpoint: Seq<char>,
    connection_id: Seq<char>,
    identity: Seq<char>,
) -> bool {
    n matches ConnectionManagerNotification::Connected { endpoint: e, connection_id: c, identity: i } && e@ == endpoint
        && c@ == connection_id && i@ == identity
}

/// `n` is the notification that `endpoint` failed for good with `error`.
pub open spec fn is_fatal_notice(n: ConnectionManagerNotification, endpoint: Seq<char>, error: ConnectionManagerError) -> bool {
    n matches ConnectionManagerNotification::FatalConnectionError { endpoint: e, error: err } && e@ == endpoint && err
        == error
}

/// The retry delay after one more failed reconnection: doubled, but at most `maximum`.
pub open spec fn next_retry_frequency(retry_frequency: u64, maximum: u64) -> u64 {
    if 2 * retry_frequency < maximum {
        (2 * retry_frequency) as u64
    } else {
        maximum
    }
}

/// The reconnection delay never goes past the maximum, and never shrinks while it is within
/// it.
pub proof fn lemma_retry_frequency_bounded(retry_frequency: u64, maximum: u64)
    ensures
        next_retry_frequency(retry_frequency, maximum) <= maximum,
        retry_frequency <= maximum ==> retry_frequency <= next_retry_frequency(retry_frequency, maximum),
{
}

/// What a request for an outbound connection comes to.
pub enum OutboundRequest {
    /// The endpoint is already connected; subscribers are told so if the connection is up.
    AlreadyConnected(Option<ConnectionManagerNotification>),
    /// A connection must be opened and authorized.
    Connect,
}

/// The heartbeat round: the connections to send a heartbeat to (endpoint and connection
/// id), and the endpoints whose reconnection delay has run out.
pub struct HeartbeatRound {
    pub heartbeats: Vec<(String, String)>,
    pub reconnections: Vec<String>,
}

/// Whether a connection gets a heartbeat: every one but an outbound one that is
/// reconnecting.
pub open spec fn gets_heartbeat(meta: ConnectionMetadata) -> bool {
    !(meta.extended_metadata matches ConnectionMetadataExt::Outbound { reconnecting, .. } && reconnecting)
}

/// Whether a reconnecting outbound connection is due to be retried at time `now`.
pub open spec fn due_for_reconnect(meta: ConnectionMetadata, now: u64) -> bool {
    meta.extended_metadata matches ConnectionMetadataExt::Outbound {
        reconnecting,
        retry_frequency,
        last_connection_attempt,
        ..
    } && reconnecting && now - last_connection_attempt > retry_frequency
}

/// The connections of a connection manager, by endpoint, and how long it waits at most
/// between reconnection attempts.
pub struct ConnectionManagerState {
    connections: StringMap<ConnectionMetadata>,
    maximum_retry_frequency: u64,
}

impl ConnectionManagerState {
    /// The connections, by endpoint.
    pub closed spec fn connections(&self) -> Map<Seq<char>, ConnectionMetadata> {
        self.connections@
    }

    /// The longest delay between reconnection attempts.
    pub closed spec fn spec_maximum_retry_frequency(&self) -> u64 {
        self.maximum_retry_frequency
    }

    /// No connections yet.
    pub fn new(maximum_retry_frequency: u64) -> (s: Self)
        ensures
            s.connections() == Map::<Seq<char>, ConnectionMetadata>::empty(),
            s.spec_maximum_retry_frequency() == maximum_retry_frequency,
    {
        ConnectionManagerState { connections: StringMap::new(), maximum_retry_frequency }
    }

    /// The record of `endpoint`, if any.
    pub fn connection_metadata(&self, endpoint: &str) -> (r: Option<&ConnectionMetadata>)
        ensures
            match r {
                Some(m) => self.connections().contains_key(endpoint@) && *m == self.connections()[endpoint@],
                None => !self.connections().contains_key(endpoint@),
            },
    {
        self.connections.get(&endpoint.to_owned())
    }

    /// The endpoints of all connections.
    pub fn list_connections(&self) -> (r: Vec<String>)
        ensures
            forall|k: Seq<char>| self.connections().contains_key(k) <==> exists|i: int| 0 <= i < r@.len() && #[trigger] r@[i]@ == k,
            r@.len() == self.connections().len(),
            distinct_strings(r@),
    {
        // Its contract ties the number of entries to the size of the map.
        let _n = self.connections.len();
        self.connections.keys()
    }

    /// A request for an outbound connection to `endpoint` under `connection_id`.
    ///
    /// A request for an endpoint already connected opens nothing; subscribers are told it is
    /// connected if the connection is up.
    pub fn request_outbound_connection(&self, endpoint: &str, connection_id: String) -> (r: OutboundRequest)
        ensures
            !self.connections().contains_key(endpoint@) ==> r is Connect,
            self.connections().contains_key(endpoint@) ==> (r matches OutboundRequest::AlreadyConnected(n) && (
            is_up(self.connections()[endpoint@]) ==> (n matches Some(notice) && is_connected_notice(
                notice,
                endpoint@,
                connection_id@,
                self.connections()[endpoint@].identity@,
            ))) && (!is_up(self.connections()[endpoint@]) ==> n is None)),
    {
        match self.connections.get(&endpoint.to_owned()) {
            Some(meta) => {
                let up = match meta.extended_metadata {
                    ConnectionMetadataExt::Outbound { reconnecting, .. } => !reconnecting,
                    ConnectionMetadataExt::Inbound { disconnected } => !disconnected,
                };
                if up {
                    OutboundRequest::AlreadyConnected(
                        Some(
                            ConnectionManagerNotification::Connected {
                                endpoint: endpoint.to_owned(),
                                connection_id,
                                identity: meta.identity.clone(),
                            },
                        ),
                    )
                } else {
                    OutboundRequest::AlreadyConnected(None)
                }
            },
            None => OutboundRequest::Connect,
        }
    }

    /// An outbound connection to `endpoint` was authorized as `identity`; `added` is whether
    /// the connection matrix took it (or why not).
    ///
    /// When it did, the connection is recorded as a fresh outbound one, last tried at `now`,
    /// and subscribers are told it is connected; otherwise nothing is recorded and they are
    /// told the connection failed for good.
    pub fn on_outbound_authorized(
        &mut self,
        endpoint: String,
        connection_id: String,
        identity: String,
        added: Result<(), String>,
        now: u64,
    ) -> (n: ConnectionManagerNotification)
        ensures
            final(self).spec_maximum_retry_frequency() == old(self).spec_maximum_retry_frequency(),
            added matches Err(msg) ==> final(self).connections() == old(self).connections() && (n matches ConnectionManagerNotification::FatalConnectionError {
                endpoint: e,
                error: ConnectionManagerError::ConnectionCreationError { context, error_kind: None },
            } && e@ == endpoint@ && context@ == msg@),
            added is Ok ==> final(self).connections() == old(self).connections().insert(
                endpoint@,
                ConnectionMetadata {
                    connection_id,
                    endpoint,
                    identity,
                    extended_metadata: ConnectionMetadataExt::Outbound {
                        reconnecting: false,
                        retry_frequency: INITIAL_RETRY_FREQUENCY,
                        last_connection_attempt: now,
                        reconnection_attempts: 0,
                    },
                },
            ) && is_connected_notice(n, endpoint@, connection_id@, identity@),
    {
        match added {
            Err(msg) => ConnectionManagerNotification::FatalConnectionError {
                endpoint,
                error: ConnectionManagerError::connection_creation_error(msg.as_str()),
            },
            Ok(()) => {
                let meta = ConnectionMetadata {
                    connection_id: connection_id.clone(),
                    endpoint: endpoint.clone(),
                    identity: identity.clone(),
                    extended_metadata: ConnectionMetadataExt::Outbound {
                        reconnecting: false,
                        retry_frequency: INITIAL_RETRY_FREQUENCY,
                        last_connection_attempt: now,
                        reconnection_attempts: 0,
                    },
                };
                self.connections.insert(endpoint.clone(), meta);
                ConnectionManagerNotification::Connected { endpoint, connection_id, identity }
            },
        }
    }

    /// An outbound connection to `endpoint` was refused authorization: any record of it is
    /// dropped and subscribers are told it failed for good.
    pub fn on_outbound_unauthorized(&mut self, endpoint: String, connection_id: String) -> (n:
        ConnectionManagerNotification)
        ensures
            final(self).spec_maximum_retry_frequency() == old(self).spec_maximum_retry_frequency(),
            final(self).connections() == old(self).connections().remove(endpoint@),
            is_fatal_notice(n, endpoint@, ConnectionManagerError::Unauthorized(connection_id)),
    {
        let _ = self.connections.remove(&endpoint);
        ConnectionManagerNotification::FatalConnectionError {
            endpoint,
            error: ConnectionManagerError::Unauthorized(connection_id),
        }
    }

    /// An inbound connection from `endpoint` was authorized as `identity`; `added` is whether
    /// the connection matrix took it (or why not).
    pub fn on_inbound_authorized(
        &mut self,
        endpoint: String,
        connection_id: String,
        identity: String,
        added: Result<(), String>,
    ) -> (n: ConnectionManagerNotification)
        ensures
            final(self).spec_maximum_retry_frequency() == old(self).spec_maximum_retry_frequency(),
            added matches Err(msg) ==> final(self).connections() == old(self).connections() && (n matches ConnectionManagerNotification::FatalConnectionError {
                endpoint: e,
                error: ConnectionManagerError::ConnectionCreationError { context, error_kind: None },
            } && e@ == endpoint@ && context@ == msg@),
            added is Ok ==> final(self).connections() == old(self).connections().insert(
                endpoint@,
                ConnectionMetadata {
                    connection_id,
                    endpoint,
                    identity,
                    extended_metadata: ConnectionMetadataExt::Inbound { disconnected: false },
                },
            ) && (n matches ConnectionManagerNotification::InboundConnection {
                endpoint: e,
                connection_id: c,
                identity: i,
            } && e@ == endpoint@ && c@ == connection_id@ && i@ == identity@),
    {
        match added {
            Err(msg) => ConnectionManagerNotification::FatalConnectionError {
                endpoint,
                error: ConnectionManagerError::connection_creation_error(msg.as_str()),
            },
            Ok(()) => {
                let meta = ConnectionMetadata {
                    connection_id: connection_id.clone(),
                    endpoint: endpoint.clone(),
                    identity: identity.clone(),
                    extended_metadata: ConnectionMetadataExt::Inbound { disconnected: false },
                };
                self.connections.insert(endpoint.clone(), meta);
                ConnectionManagerNotification::InboundConnection { endpoint, connection_id, identity }
            },
        }
    }

    /// An inbound connection from `endpoint` was refused authorization: subscribers are told
    /// it failed for good.
    pub fn on_inbound_unauthorized(&self, endpoint: String, connection_id: String) -> (n:
        ConnectionManagerNotification)
        ensures
            is_fatal_notice(n, endpoint@, ConnectionManagerError::Unauthorized(connection_id)),
    {
        ConnectionManagerNotification::FatalConnectionError {
            endpoint,
            error: ConnectionManagerError::Unauthorized(connection_id),
        }
    }

    /// The id an inbound connection is authorized and kept under: a fresh random UUID.
    pub fn inbound_connection_id(&self) -> (id: String)
        ensures
            id@.len() == 36,
    {
        new_connection_id()
    }

    /// Drops the record of `endpoint`, returning it.
    pub fn remove_connection(&mut self, endpoint: &str) -> (r: Option<ConnectionMetadata>)
        ensures
            final(self).spec_maximum_retry_frequency() == old(self).spec_maximum_retry_frequency(),
            final(self).connections() == old(self).connections().remove(endpoint@),
            old(self).connections().contains_key(endpoint@) ==> r == Some(old(self).connections()[endpoint@]),
            !old(self).connections().contains_key(endpoint@) ==> r is None,
    {
        self.connections.remove(&endpoint.to_owned())
    }

    /// The connection to reopen for `endpoint`: an error when there is no record of it,
    /// nothing for an inbound connection (those are not reopened), the record otherwise.
    pub fn reconnect_target(&self, endpoint: &str) -> (r: Result<Option<ConnectionMetadata>, ConnectionManagerError>)
        ensures
            !self.connections().contains_key(endpoint@) ==> (r matches Err(
                ConnectionManagerError::ConnectionRemovalError(s),
            ) && s@ == "Cannot reconnect to endpoint without metadata"@),
            self.connections().contains_key(endpoint@) ==> r == if self.connections()[endpoint@].extended_metadata is Outbound {
                Ok::<Option<ConnectionMetadata>, ConnectionManagerError>(Some(self.connections()[endpoint@]))
            } else {
                Ok(None)
            },
    {
        match self.connections.get(&endpoint.to_owned()) {
            None => Err(
                ConnectionManagerError::ConnectionRemovalError(
                    "Cannot reconnect to endpoint without metadata".to_owned(),
                ),
            ),
            Some(meta) => {
                if meta.is_outbound() {
                    Ok(Some(meta.clone()))
                } else {
                    Ok(None)
                }
            },
        }
    }

    /// Reopening the outbound connection to `endpoint` failed at time `now`: it is marked as
    /// reconnecting, its delay doubles (up to the maximum) and its attempts are counted;
    /// subscribers are told of the failed attempt.  Nothing changes for an endpoint that is
    /// not an outbound connection.
    pub fn on_reconnect_failed(&mut self, endpoint: &str, now: u64) -> (r: Option<ConnectionManagerNotification>)
        ensures
            final(self).spec_maximum_retry_frequency() == old(self).spec_maximum_retry_frequency(),
            !(old(self).connections().contains_key(endpoint@) && old(self).connections()[endpoint@].extended_metadata is Outbound)
                ==> r is None && final(self).connections() == old(self).connections(),
            old(self).connections().contains_key(endpoint@) ==> ({
                let meta = old(self).connections()[endpoint@];
                meta.extended_metadata matches ConnectionMetadataExt::Outbound { retry_frequency, reconnection_attempts, .. }
                    ==> {
                    let attempts = if reconnection_attempts < u64::MAX {
                        (reconnection_attempts + 1) as u64
                    } else {
                        reconnection_attempts
                    };
                    &&& final(self).connections() == old(self).connections().insert(
                        endpoint@,
                        ConnectionMetadata {
                            extended_metadata: ConnectionMetadataExt::Outbound {
                                reconnecting: true,
                                retry_frequency: next_retry_frequency(
                                    retry_frequency,
                                    old(self).spec_maximum_retry_frequency(),
                                ),
                                last_connection_attempt: now,
                                reconnection_attempts: attempts,
                            },
                            ..meta
                        },
                    )
                    &&& r matches Some(ConnectionManagerNotification::NonFatalConnectionError {
                        endpoint: e,
                        attempts: a,
                        identity: i,
                    }) && e@ == endpoint@ && a == attempts && i@ == meta.identity@
                }
            }),
    {
        let key = endpoint.to_owned();
        let meta = match self.connections.get(&key) {
            Some(meta) => meta.clone(),
            None => {
                return None;
            },
        };
        match meta.extended_metadata {
            ConnectionMetadataExt::Outbound { retry_frequency, reconnection_attempts, .. } => {
                let next = if retry_frequency <= u64::MAX / 2 && retry_frequency * 2 < self.maximum_retry_frequency {
                    retry_frequency * 2
                } else {
                    self.maximum_retry_frequency
                };
                let attempts = reconnection_attempts.saturating_add(1);
                let identity = meta.identity.clone();
                let updated = ConnectionMetadata {
                    extended_metadata: ConnectionMetadataExt::Outbound {
                        reconnecting: true,
                        retry_frequency: next,
                        last_connection_attempt: now,
                        reconnection_attempts: attempts,
                    },
                    ..meta
                };
                self.connections.insert(key, updated);
                Some(
                    ConnectionManagerNotification::NonFatalConnectionError {
                        endpoint: endpoint.to_owned(),
                        attempts,
                        identity,
                    },
                )
            },
            ConnectionMetadataExt::Inbound { .. } => None,
        }
    }

    /// The heartbeat round at time `now`: a heartbeat for every connection but the outbound
    /// ones that are reconnecting, and a new attempt for those whose delay has run out.
    pub fn heartbeat_round(&self, now: u64) -> (r: HeartbeatRound)
        ensures
            forall|i: int|
                0 <= i < r.heartbeats@.len() ==> {
                    let (e, c) = #[trigger] r.heartbeats@[i];
                    &&& self.connections().contains_key(e@)
                    &&& gets_heartbeat(self.connections()[e@])
                    &&& c@ == self.connections()[e@].connection_id@
                },
            forall|k: Seq<char>|
                #![trigger self.connections()[k]]
                self.connections().contains_key(k) && gets_heartbeat(self.connections()[k]) ==> exists|i: int|
                    0 <= i < r.heartbeats@.len() && #[trigger] r.heartbeats@[i].0@ == k,
            forall|i: int|
                0 <= i < r.reconnections@.len() ==> self.connections().contains_key(#[trigger] r.reconnections@[i]@)
                    && due_for_reconnect(self.connections()[r.reconnections@[i]@], now),
            forall|k: Seq<char>|
                #![trigger self.connections()[k]]
                self.connections().contains_key(k) && due_for_reconnect(self.connections()[k], now) ==> exists|i: int|
                    0 <= i < r.reconnections@.len() && #[trigger] r.reconnections@[i]@ == k,
            forall|a: int, b: int|
                0 <= a < r.heartbeats@.len() && 0 <= b < r.heartbeats@.len() && a != b ==> #[trigger] r.heartbeats@[a].0@
                    != #[trigger] r.heartbeats@[b].0@,
            distinct_strings(r.reconnections@),
            forall|a: int, b: int|
                0 <= a < r.heartbeats@.len() && 0 <= b < r.reconnections@.len() ==> #[trigger] r.heartbeats@[a].0@
                    != #[trigger] r.reconnections@[b]@,
    {
        let n = self.connections.len();
        let ghost entries = self.connections.entries();
        let mut heartbeats: Vec<(String, String)> = Vec::new();
        let mut reconnections: Vec<String> = Vec::new();
        let mut i: usize = 0;
        while i < n
            invariant
                i <= n,
                n == entries.len(),
                entries == self.connections.entries(),
                distinct_keys(entries),
                self.connections() == entries_map(entries),
                forall|j: int|
                    0 <= j < heartbeats@.len() ==> {
                        let (e, c) = #[trigger] heartbeats@[j];
                        &&& self.connections().contains_key(e@)
                        &&& gets_heartbeat(self.connections()[e@])
                        &&& c@ == self.connections()[e@].connection_id@
                    },
                forall|j: int|
                    0 <= j < i && gets_heartbeat(#[trigger] entries[j].1) ==> exists|h: int|
                        0 <= h < heartbeats@.len() && #[trigger] heartbeats@[h].0@ == entries[j].0@,
                forall|j: int|
                    0 <= j < reconnections@.len() ==> self.connections().contains_key(#[trigger] reconnections@[j]@)
                        && due_for_reconnect(self.connections()[reconnections@[j]@], now),
                forall|j: int|
                    0 <= j < i && due_for_reconnect(#[trigger] entries[j].1, now) ==> exists|h: int|
                        0 <= h < reconnections@.len() && #[trigger] reconnections@[h]@ == entries[j].0@,
                forall|h: int|
                    0 <= h < heartbeats@.len() ==> exists|j: int| 0 <= j < i && #[trigger] heartbeats@[h].0@ == entries[j].0@,
                forall|h: int|
                    0 <= h < reconnections@.len() ==> exists|j: int| 0 <= j < i && #[trigger] reconnections@[h]@ == entries[j].0@,
                forall|a: int, b: int|
                    0 <= a < heartbeats@.len() && 0 <= b < heartbeats@.len() && a != b ==> #[trigger] heartbeats@[a].0@
                        != #[trigger] heartbeats@[b].0@,
                distinct_strings(reconnections@),
            decreases n - i,
        {
            let endpoint = self.connections.key_at(i);
            let meta = self.connections.value_at(i);
            let ghost old_hb = heartbeats@;
            let ghost old_rc = reconnections@;
            proof {
                lemma_entries_map_at(entries, i as int);
            }
            match meta.extended_metadata {
                ConnectionMetadataExt::Outbound { reconnecting, retry_frequency, last_connection_attempt, .. } => {
                    if reconnecting {
                        if now > last_connection_attempt && now - last_connection_attempt > retry_frequency {
                            reconnections.push(endpoint.clone());
                        }
                    } else {
                        heartbeats.push((endpoint.clone(), meta.connection_id.clone()));
                    }
                },
                ConnectionMetadataExt::Inbound { .. } => {
                    heartbeats.push((endpoint.clone(), meta.connection_id.clone()));
                },
            }
            proof {
                assert(heartbeats@.len() >= old_hb.len());
                assert(forall|h: int| 0 <= h < old_hb.len() ==> heartbeats@[h] == old_hb[h]);
                assert(forall|h: int| 0 <= h < old_rc.len() ==> reconnections@[h] == old_rc[h]);
                assert(gets_heartbeat(entries[i as int].1) ==> heartbeats@.len() == old_hb.len() + 1
                    && heartbeats@[old_hb.len() as int].0@ == entries[i as int].0@);
                assert(due_for_reconnect(entries[i as int].1, now) ==> reconnections@.len() == old_rc.len() + 1
                    && reconnections@[old_rc.len() as int]@ == entries[i as int].0@);
                assert forall|h: int| 0 <= h < heartbeats@.len() implies exists|j: int|
                    0 <= j < i + 1 && #[trigger] heartbeats@[h].0@ == entries[j].0@ by {
                    if h < old_hb.len() {
                        let j = choose|j: int| 0 <= j < i && #[trigger] old_hb[h].0@ == entries[j].0@;
                        assert(heartbeats@[h].0@ == entries[j].0@);
                    } else {
                        assert(heartbeats@[h].0@ == entries[i as int].0@);
                    }
                }
                assert forall|h: int| 0 <= h < reconnections@.len() implies exists|j: int|
                    0 <= j < i + 1 && #[trigger] reconnections@[h]@ == entries[j].0@ by {
                    if h < old_rc.len() {
                        let j = choose|j: int| 0 <= j < i && #[trigger] old_rc[h]@ == entries[j].0@;
                        assert(reconnections@[h]@ == entries[j].0@);
                    } else {
                        assert(reconnections@[h]@ == entries[i as int].0@);
                    }
                }
                assert forall|a: int, b: int|
                    0 <= a < heartbeats@.len() && 0 <= b < heartbeats@.len() && a != b implies #[trigger] heartbeats@[a].0@
                        != #[trigger] heartbeats@[b].0@ by {
                    if a < old_hb.len() && b < old_hb.len() {
                        assert(heartbeats@[a] == old_hb[a]);
                        assert(heartbeats@[b] == old_hb[b]);
                    } else if a < old_hb.len() {
                        let j = choose|j: int| 0 <= j < i && #[trigger] old_hb[a].0@ == entries[j].0@;
                        assert(heartbeats@[a] == old_hb[a]);
                        assert(entries[j].0@ != entries[i as int].0@);
                    } else if b < old_hb.len() {
                        let j = choose|j: int| 0 <= j < i && #[trigger] old_hb[b].0@ == entries[j].0@;
                        assert(heartbeats@[b] == old_hb[b]);
                        assert(entries[j].0@ != entries[i as int].0@);
                    }
                }
                assert forall|a: int, b: int|
                    0 <= a < reconnections@.len() && 0 <= b < reconnections@.len() && a != b implies #[trigger] reconnections@[a]@
                        != #[trigger] reconnections@[b]@ by {
                    if a < old_rc.len() && b < old_rc.len() {
                        assert(reconnections@[a] == old_rc[a]);
                        assert(reconnections@[b] == old_rc[b]);
                    } else if a < old_rc.len() {
                        let j = choose|j: int| 0 <= j < i && #[trigger] old_rc[a]@ == entries[j].0@;
                        assert(reconnections@[a] == old_rc[a]);
                        assert(entries[j].0@ != entries[i as int].0@);
                    } else if b < old_rc.len() {
                        let j = choose|j: int| 0 <= j < i && #[trigger] old_rc[b]@ == entries[j].0@;
                        assert(reconnections@[b] == old_rc[b]);
                        assert(entries[j].0@ != entries[i as int].0@);
                    }
                }
                assert forall|j: int|
                    0 <= j < i + 1 && gets_heartbeat(#[trigger] entries[j].1) implies exists|h: int|
                        0 <= h < heartbeats@.len() && #[trigger] heartbeats@[h].0@ == entries[j].0@ by {
                    if j < i {
                        let h = choose|h: int| 0 <= h < old_hb.len() && #[trigger] old_hb[h].0@ == entries[j].0@;
                        assert(heartbeats@[h].0@ == entries[j].0@);
                    } else {
                        assert(heartbeats@[old_hb.len() as int].0@ == entries[j].0@);
                    }
                }
                assert forall|j: int|
                    0 <= j < i + 1 && due_for_reconnect(#[trigger] entries[j].1, now) implies exists|h: int|
                        0 <= h < reconnections@.len() && #[trigger] reconnections@[h]@ == entries[j].0@ by {
                    if j < i {
                        let h = choose|h: int| 0 <= h < old_rc.len() && #[trigger] old_rc[h]@ == entries[j].0@;
                        assert(reconnections@[h]@ == entries[j].0@);
                    } else {
                        assert(reconnections@[old_rc.len() as int]@ == entries[j].0@);
                    }
                }
            }
            i = i + 1;
        }
        let r = HeartbeatRound { heartbeats, reconnections };
        proof {
            assert forall|a: int, b: int|
                0 <= a < r.heartbeats@.len() && 0 <= b < r.reconnections@.len() implies #[trigger] r.heartbeats@[a].0@
                    != #[trigger] r.reconnections@[b]@ by {
                let k = r.heartbeats@[a].0@;
                assert(gets_heartbeat(self.connections()[k]));
                assert(due_for_reconnect(self.connections()[r.reconnections@[b]@], now));
            }
            assert forall|k: Seq<char>|
                #![trigger self.connections()[k]]
                self.connections().contains_key(k) && gets_heartbeat(self.connections()[k]) implies exists|h: int|
                    0 <= h < r.heartbeats@.len() && #[trigger] r.heartbeats@[h].0@ == k by {
                let j = choose|j: int| 0 <= j < entries.len() && #[trigger] entries[j].0@ == k;
                lemma_entries_map_at(entries, j);
                assert(gets_heartbeat(entries[j].1));
                let h = choose|h: int| 0 <= h < r.heartbeats@.len() && #[trigger] r.heartbeats@[h].0@ == entries[j].0@;
            }
            assert forall|k: Seq<char>|
                #![trigger self.connections()[k]]
                self.connections().contains_key(k) && due_for_reconnect(self.connections()[k], now) implies exists|h: int|
                    0 <= h < r.reconnections@.len() && #[trigger] r.reconnections@[h]@ == k by {
                let j = choose|j: int| 0 <= j < entries.len() && #[trigger] entries[j].0@ == k;
                lemma_entries_map_at(entries, j);
                assert(due_for_reconnect(entries[j].1, now));
                let h = choose|h: int| 0 <= h < r.reconnections@.len() && #[trigger] r.reconnections@[h]@ == entries[j].0@;
            }
        }
        r
    }

    /// A heartbeat to `endpoint` could not be sent.
    ///
    /// An outbound connection is reported disconnected and is to be reconnected (the second
    /// part of the result).  An inbound one is marked disconnected and reported the first
    /// time only.
    pub fn on_heartbeat_failed(&mut self, endpoint: &str) -> (r: (Option<ConnectionManagerNotification>, bool))
        ensures
            final(self).spec_maximum_retry_frequency() == old(self).spec_maximum_retry_frequency(),
            !old(self).connections().contains_key(endpoint@) ==> r.0 is None && !r.1 && final(self).connections()
                == old(self).connections(),
            old(self).connections().contains_key(endpoint@) ==> ({
                let meta = old(self).connections()[endpoint@];
                let told = r.0 matches Some(ConnectionManagerNotification::Disconnected { endpoint: e, identity: i })
                    && e@ == endpoint@ && i@ == meta.identity@;
                match meta.extended_metadata {
                    ConnectionMetadataExt::Outbound { .. } => told && r.1 && final(self).connections() == old(self).connections(),
                    ConnectionMetadataExt::Inbound { disconnected } => !r.1 && final(self).connections()
                        == old(self).connections().insert(
                        endpoint@,
                        ConnectionMetadata { extended_metadata: ConnectionMetadataExt::Inbound { disconnected: true }, ..meta },
                    ) && (disconnected ==> r.0 is None) && (!disconnected ==> told),
                }
            }),
    {
        let key = endpoint.to_owned();
        let meta = match self.connections.get(&key) {
            Some(meta) => meta.clone(),
            None => {
                return (None, false);
            },
        };
        let notice = ConnectionManagerNotification::Disconnected {
            endpoint: endpoint.to_owned(),
            identity: meta.identity.clone(),
        };
        match meta.extended_metadata {
            ConnectionMetadataExt::Outbound { .. } => (Some(notice), true),
            ConnectionMetadataExt::Inbound { disconnected } => {
                let updated = ConnectionMetadata {
                    extended_metadata: ConnectionMetadataExt::Inbound { disconnected: true },
                    ..meta
                };
                self.connections.insert(key, updated);
                if disconnected {
                    (None, false)
                } else {
                    (Some(notice), false)
                }
            },
        }
    }

    /// A heartbeat to `endpoint` was sent: an inbound connection counts as connected again.
    pub fn on_heartbeat_sent(&mut self, endpoint: &str)
        ensures
            final(self).spec_maximum_retry_frequency() == old(self).spec_maximum_retry_frequency(),
            old(self).connections().contains_key(endpoint@) && old(self).connections()[endpoint@].extended_metadata is Inbound
                ==> final(self).connections() == old(self).connections().insert(
                endpoint@,
                ConnectionMetadata {
                    extended_metadata: ConnectionMetadataExt::Inbound { disconnected: false },
                    ..old(self).connections()[endpoint@]
                },
            ),
            !(old(self).connections().contains_key(endpoint@) && old(self).connections()[endpoint@].extended_metadata is Inbound)
                ==> final(self).connections() == old(self).connections(),
    {
        let key = endpoint.to_owned();
        let meta = match self.connections.get(&key) {
            Some(meta) => meta.clone(),
            None => {
                return ;
            },
        };
        if let ConnectionMetadataExt::Inbound { .. } = meta.extended_metadata {
            let updated = ConnectionMetadata {
                extended_metadata: ConnectionMetadataExt::Inbound { disconnected: false },
                ..meta
            };
            self.connections.insert(key, updated);
        }
    }
}

/// The bytes of a heartbeat: a network message of type heartbeat with an empty payload.
pub open spec fn heartbeat_bytes() -> Seq<u8> {
    network_message_bytes(NetworkMessageType::NetworkHeartbeat, Seq::empty())
}

/// The heartbeat message sent to every connection.
pub fn create_heartbeat() -> (r: Vec<u8>)
    ensures
        r@ == heartbeat_bytes(),
{
    let r = crate::wire::encode_network_message(&NetworkMessageType::NetworkHeartbeat, &[]);
    assert(r@ =~= heartbeat_bytes());
    r
}

/// The subscribers to connection notifications, by id; ids are handed out in order and
/// never reused.
pub struct SubscriberMap<S> {
    subscribers: Vec<(usize, S)>,
    next_id: usize,
}

/// `ids` increase strictly, and all are below `next_id`.
pub open spec fn ids_in_order(ids: Seq<usize>, next_id: usize) -> bool {
    &&& forall|a: int, b: int| 0 <= a < b < ids.len() ==> #[trigger] ids[a] < #[trigger] ids[b]
    &&& forall|a: int| 0 <= a < ids.len() ==> #[trigger] ids[a] < next_id
}

/// Ids in order are pairwise distinct, and the next id is none of them.
pub proof fn lemma_ids_in_order_distinct(ids: Seq<usize>, next_id: usize)
    requires
        ids_in_order(ids, next_id),
    ensures
        forall|a: int, b: int| 0 <= a < ids.len() && 0 <= b < ids.len() && a != b ==> #[trigger] ids[a] != #[trigger] ids[b],
        !ids.contains(next_id),
{
    assert forall|a: int, b: int| 0 <= a < ids.len() && 0 <= b < ids.len() && a != b implies #[trigger] ids[a]
        != #[trigger] ids[b] by {
        if a < b {
            assert(ids[a] < ids[b]);
        } else {
            assert(ids[b] < ids[a]);
        }
    }
}

impl<S> SubscriberMap<S> {
    /// The ids of the subscribers, in the order they subscribed.
    pub closed spec fn ids(&self) -> Seq<usize> {
        self.subscribers@.map_values(|p: (usize, S)| p.0)
    }

    /// The ids are handed out in increasing order and each is below the next one to give.
    #[verifier::type_invariant]
    spec fn ordered(&self) -> bool {
        ids_in_order(self.ids(), self.next_id)
    }

    /// The id the next subscriber gets.
    pub closed spec fn spec_next_id(&self) -> usize {
        self.next_id
    }

    /// No subscribers.
    pub fn new() -> (m: Self)
        ensures
            m.ids() == Seq::<usize>::empty(),
            m.spec_next_id() == 0,
            ids_in_order(m.ids(), m.spec_next_id()),
    {
        let m = SubscriberMap { subscribers: Vec::new(), next_id: 0 };
        assert(m.ids() =~= Seq::<usize>::empty());
        m
    }

    /// The id the next subscriber gets.
    pub fn next_id(&self) -> (n: usize)
        ensures
            n == self.spec_next_id(),
    {
        self.next_id
    }

    /// Adds a subscriber; it gets the next id.
    pub fn add_subscriber(&mut self, subscriber: S) -> (id: usize)
        requires
            old(self).spec_next_id() < usize::MAX,
        ensures
            id == old(self).spec_next_id(),
            final(self).spec_next_id() == id + 1,
            final(self).ids() == old(self).ids().push(id),
            forall|i: int| 0 <= i < old(self).ids().len() ==> #[trigger] old(self).ids()[i] < id,
            ids_in_order(final(self).ids(), final(self).spec_next_id()),
    {
        proof {
            use_type_invariant(&*self);
        }
        let id = self.next_id;
        let mut subscribers: Vec<(usize, S)> = Vec::new();
        std::mem::swap(&mut subscribers, &mut self.subscribers);
        assert(subscribers@.map_values(|p: (usize, S)| p.0) == old(self).ids());
        subscribers.push((id, subscriber));
        assert(subscribers@.map_values(|p: (usize, S)| p.0) =~= old(self).ids().push(id));
        self.next_id = self.next_id + 1;
        self.subscribers = subscribers;
        assert(self.ids() =~= old(self).ids().push(id));
        id
    }

    /// Removes the subscriber with id `subscriber_id`, if there is one.
    pub fn remove_subscriber(&mut self, subscriber_id: usize)
        ensures
            final(self).spec_next_id() == old(self).spec_next_id(),
            final(self).ids() == old(self).ids().filter(|id: usize| id != subscriber_id),
            ids_in_order(final(self).ids(), final(self).spec_next_id()),
    {
        proof {
            use_type_invariant(&*self);
        }
        let mut kept: Vec<(usize, S)> = Vec::new();
        let mut rest: Vec<(usize, S)> = Vec::new();
        std::mem::swap(&mut rest, &mut self.subscribers);
        let ghost all = rest@;
        let ghost mut k: int = 0;
        assert(all.skip(0) =~= all);
        while rest.len() > 0
            invariant
                0 <= k <= all.len(),
                rest@ == all.skip(k),
                kept@.map_values(|p: (usize, S)| p.0) == all.take(k).map_values(|p: (usize, S)| p.0).filter(
                    |id: usize| id != subscriber_id,
                ),
                ids_in_order(all.map_values(|p: (usize, S)| p.0), self.next_id),
                ids_in_order(kept@.map_values(|p: (usize, S)| p.0), self.next_id),
                forall|a: int|
                    0 <= a < kept@.len() ==> exists|j: int| 0 <= j < k && #[trigger] kept@[a].0 == all[j].0,
            decreases rest.len(),
        {
            let entry = rest.remove(0);
            proof {
                assert(all.take(k + 1) =~= all.take(k).push(entry));
                assert(all.take(k + 1).map_values(|p: (usize, S)| p.0) =~= all.take(k).map_values(
                    |p: (usize, S)| p.0,
                ).push(entry.0));
                reveal(Seq::filter);
                assert(all.take(k + 1).map_values(|p: (usize, S)| p.0).drop_last() =~= all.take(k).map_values(
                    |p: (usize, S)| p.0,
                ));
            }
            assert(entry == all[k]);
            if entry.0 != subscriber_id {
                let ghost before = kept@;
                kept.push(entry);
                assert(kept@.map_values(|p: (usize, S)| p.0) =~= before.map_values(|p: (usize, S)| p.0).push(entry.0));
                proof {
                    let ks = kept@.map_values(|p: (usize, S)| p.0);
                    let ids_all = all.map_values(|p: (usize, S)| p.0);
                    assert forall|a: int| 0 <= a < kept@.len() implies exists|j: int|
                        0 <= j < k + 1 && #[trigger] kept@[a].0 == all[j].0 by {
                        if a < before.len() {
                            assert(kept@[a] == before[a]);
                        } else {
                            assert(kept@[a].0 == all[k].0);
                        }
                    }
                    assert forall|a: int, b: int| 0 <= a < b < ks.len() implies #[trigger] ks[a] < #[trigger] ks[b] by {
                        if b < before.len() {
                            assert(ks[a] == before[a].0);
                            assert(ks[b] == before[b].0);
                            assert(before.map_values(|p: (usize, S)| p.0)[a] == before[a].0);
                            assert(before.map_values(|p: (usize, S)| p.0)[b] == before[b].0);
                        } else {
                            assert(kept@[a] == before[a]);
                            let j = choose|j: int| 0 <= j < k && #[trigger] before[a].0 == all[j].0;
                            assert(ids_all[j] == all[j].0);
                            assert(ids_all[k] == all[k].0);
                            assert(ids_all[j] < ids_all[k]);
                        }
                    }
                    assert forall|a: int| 0 <= a < ks.len() implies #[trigger] ks[a] < self.next_id by {
                        assert(ks[a] == kept@[a].0);
                        let j = choose|j: int| 0 <= j < k + 1 && #[trigger] kept@[a].0 == all[j].0;
                        assert(ids_all[j] == all[j].0);
                    }
                }
            }
            proof {
                assert(rest@ =~= all.skip(k + 1));
                k = k + 1;
            }
        }
        assert(all.take(k) =~= all);
        self.subscribers = kept;
    }

    /// The subscriber at position `i`, with its id.
    pub fn subscriber_at(&self, i: usize) -> (r: (usize, &S))
        requires
            i < self.ids().len(),
        ensures
            r.0 == self.ids()[i as int],
    {
        (self.subscribers[i].0, &self.subscribers[i].1)
    }

    /// How many subscribers there are.
    pub fn len(&self) -> (n: usize)
        ensures
            n == self.ids().len(),
    {
        self.subscribers.len()
    }
}

} // verus!
