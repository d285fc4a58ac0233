//! Authorization of connections between nodes.
//!
//! This module holds the trust handshake manager: both nodes send a connect request, each
//! identifies itself with a trust request, and each accepts the other with an authorized
//! message.  A connection is authorized once the remote has both identified itself and
//! accepted us, in either order.  The v1 handshake (protocol negotiation, trust and challenge
//! authorization) lives in `state_machine` and `handlers`.
use vstd::prelude::*;

use crate::collections::StringMap;

use self::messages::{auth_network_bytes, AuthorizationMessage, ConnectRequest};

pub mod authorization;
pub mod handlers;
pub mod messages;
pub mod pool;
pub mod state_machine;

verus! {

/// The state of a connection in the trust handshake.
pub enum AuthorizationState {
    Unknown,
    Connecting,
    RemoteIdentified(String),
    RemoteAccepted,
    Authorized(String),
    Unauthorized,
}

impl Clone for AuthorizationState {
    fn clone(&self) -> (r: Self)
        ensures
            r == *self,
    {
        match self {
            AuthorizationState::Unknown => AuthorizationState::Unknown,
            AuthorizationState::Connecting => AuthorizationState::Connecting,
            AuthorizationState::RemoteIdentified(i) => AuthorizationState::RemoteIdentified(i.clone()),
            AuthorizationState::RemoteAccepted => AuthorizationState::RemoteAccepted,
            AuthorizationState::Authorized(i) => AuthorizationState::Authorized(i.clone()),
            AuthorizationState::Unauthorized => AuthorizationState::Unauthorized,
        }
    }
}

/// The events of the trust handshake.
pub enum AuthorizationAction {
    Connecting,
    TrustIdentifying(String),
    Unauthorizing,
    RemoteAuthorizing,
}

/// Why an event of the trust handshake was refused.
pub enum AuthorizationActionError {
    AlreadyConnecting,
    InvalidMessageOrder(AuthorizationState, AuthorizationAction),
    InternalError(String),
}

/// An error of the authorization manager, with its message.
pub struct AuthorizationManagerError(pub String);

/// The trust handshake transition: the connection's new state and the result.
///
/// `Unauthorizing` ends the handshake from any state.  From `Connecting`, identification and
/// acceptance may arrive in either order; the second of them authorizes the connection with the
/// identity the remote presented.  A second `Connecting` is refused as a duplicate.
pub open spec fn handshake_transition(cur: AuthorizationState, action: AuthorizationAction) -> (
    AuthorizationState,
    Result<AuthorizationState, AuthorizationActionError>,
) {
    if action is Unauthorizing {
        (AuthorizationState::Unauthorized, Ok(AuthorizationState::Unauthorized))
    } else {
        match (cur, action) {
            (AuthorizationState::Unknown, AuthorizationAction::Connecting) => (
                AuthorizationState::Connecting,
                Ok(AuthorizationState::Connecting),
            ),
            (AuthorizationState::Unknown, a) => (
                cur,
                Err(AuthorizationActionError::InvalidMessageOrder(AuthorizationState::Unknown, a)),
            ),
            (AuthorizationState::Connecting, AuthorizationAction::Connecting) => (
                cur,
                Err(AuthorizationActionError::AlreadyConnecting),
            ),
            (AuthorizationState::Connecting, AuthorizationAction::TrustIdentifying(id)) => (
                AuthorizationState::RemoteIdentified(id),
                Ok(AuthorizationState::RemoteIdentified(id)),
            ),
            (AuthorizationState::Connecting, AuthorizationAction::RemoteAuthorizing) => (
                AuthorizationState::RemoteAccepted,
                Ok(AuthorizationState::RemoteAccepted),
            ),
            (AuthorizationState::RemoteIdentified(id), AuthorizationAction::RemoteAuthorizing) => (
                AuthorizationState::Authorized(id),
                Ok(AuthorizationState::Authorized(id)),
            ),
            (AuthorizationState::RemoteAccepted, AuthorizationAction::TrustIdentifying(id)) => (
                AuthorizationState::Authorized(id),
                Ok(AuthorizationState::Authorized(id)),
            ),
            (s, a) => (s, Err(AuthorizationActionError::InvalidMessageOrder(s, a))),
        }
    }
}

/// The handshake state of `connection_id`, `Unknown` if it has none.
pub open spec fn handshake_state_for(states: Map<Seq<char>, AuthorizationState>, connection_id: Seq<char>) -> AuthorizationState {
    if states.contains_key(connection_id) {
        states[connection_id]
    } else {
        AuthorizationState::Unknown
    }
}

/// Whether the handshake has ended, either way.
pub open spec fn handshake_ended(s: AuthorizationState) -> bool {
    s is Authorized || s is Unauthorized
}

/// The handshake states of all connections.
pub struct ManagedAuthorizations {
    pub states: StringMap<AuthorizationState>,
}

impl ManagedAuthorizations {
    /// No connection has a state yet.
    pub fn new() -> (m: Self)
        ensures
            m.states@ == Map::<Seq<char>, AuthorizationState>::empty(),
    {
        ManagedAuthorizations { states: StringMap::new() }
    }

    /// Forgets the connection, returning its identity if it was authorized.
    pub fn take_connection_identity(&mut self, connection_id: &str) -> (r: Option<String>)
        ensures
            final(self).states@ == old(self).states@.remove(connection_id@),
            match r {
                Some(identity) => old(self).states@.contains_key(connection_id@) && old(
                    self,
                ).states@[connection_id@] == AuthorizationState::Authorized(identity),
                None => !(old(self).states@.contains_key(connection_id@) && old(
                    self,
                ).states@[connection_id@] is Authorized),
            },
    {
        let key = connection_id.to_owned();
        match self.states.remove(&key) {
            Some(AuthorizationState::Authorized(identity)) => Some(identity),
            _ => None,
        }
    }

    /// Whether the connection's handshake has ended; `None` if it has no state.
    pub fn is_complete(&self, connection_id: &str) -> (r: Option<bool>)
        ensures
            r == (if self.states@.contains_key(connection_id@) {
                Some(handshake_ended(self.states@[connection_id@]))
            } else {
                None
            }),
    {
        let key = connection_id.to_owned();
        match self.states.get(&key) {
            Some(state) => Some(
                match state {
                    AuthorizationState::Authorized(_) => true,
                    AuthorizationState::Unauthorized => true,
                    _ => false,
                },
            ),
            None => None,
        }
    }

    /// What the authorization loop does after a message: `None` to keep reading, or the end of
    /// the handshake with the remote's identity if it was authorized.  An ended handshake is
    /// forgotten.
    pub fn check_completion(&mut self, connection_id: &str) -> (r: Option<Option<String>>)
        ensures
            old(self).states@.contains_key(connection_id@) && handshake_ended(
                old(self).states@[connection_id@],
            ) ==> final(self).states@ == old(self).states@.remove(connection_id@) && r == Some(
                match old(self).states@[connection_id@] {
                    AuthorizationState::Authorized(identity) => Some(identity),
                    _ => None,
                },
            ),
            !(old(self).states@.contains_key(connection_id@) && handshake_ended(
                old(self).states@[connection_id@],
            )) ==> final(self).states@ == old(self).states@ && r is None,
    {
        if let Some(true) = self.is_complete(connection_id) {
            Some(self.take_connection_identity(connection_id))
        } else {
            None
        }
    }
}

/// The trust handshake manager shared by the handlers of a connection's messages.
pub struct AuthorizationManagerStateMachine {
    pub shared: ManagedAuthorizations,
}

impl Default for AuthorizationManagerStateMachine {
    fn default() -> (m: Self)
        ensures
            m.shared.states@ == Map::<Seq<char>, AuthorizationState>::empty(),
    {
        AuthorizationManagerStateMachine { shared: ManagedAuthorizations::new() }
    }
}

impl AuthorizationManagerStateMachine {
    /// Applies a handshake event to the connection `connection_id`.
    ///
    /// The connection gets the `Unknown` state if it had none; the result is its new state, or
    /// why the event was refused (in which case its state is unchanged).
    pub fn next_state(&mut self, connection_id: &str, action: AuthorizationAction) -> (r: Result<
        AuthorizationState,
        AuthorizationActionError,
    >)
        ensures
            ({
                let (s, res) = handshake_transition(
                    handshake_state_for(old(self).shared.states@, connection_id@),
                    action,
                );
                final(self).shared.states@ == old(self).shared.states@.insert(connection_id@, s) && r
                    == res
            }),
    {
        let key = connection_id.to_owned();
        let cur_state = match self.shared.states.remove(&key) {
            Some(s) => s,
            None => AuthorizationState::Unknown,
        };
        let (new_state, r) = if let AuthorizationAction::Unauthorizing = action {
            (AuthorizationState::Unauthorized, Ok(AuthorizationState::Unauthorized))
        } else {
            match cur_state {
                AuthorizationState::Unknown => match action {
                    AuthorizationAction::Connecting => {
                        (AuthorizationState::Connecting, Ok(AuthorizationState::Connecting))
                    },
                    _ => (
                        AuthorizationState::Unknown,
                        Err(
                            AuthorizationActionError::InvalidMessageOrder(
                                AuthorizationState::Unknown,
                                action,
                            ),
                        ),
                    ),
                },
                AuthorizationState::Connecting => match action {
                    AuthorizationAction::Connecting => {
                        (AuthorizationState::Connecting, Err(AuthorizationActionError::AlreadyConnecting))
                    },
                    AuthorizationAction::TrustIdentifying(identity) => {
                        let new_state = AuthorizationState::RemoteIdentified(identity);
                        (new_state.clone(), Ok(new_state))
                    },
                    AuthorizationAction::RemoteAuthorizing => {
                        (AuthorizationState::RemoteAccepted, Ok(AuthorizationState::RemoteAccepted))
                    },
                    _ => (
                        AuthorizationState::Connecting,
                        Err(
                            AuthorizationActionError::InvalidMessageOrder(
                                AuthorizationState::Connecting,
                                action,
                            ),
                        ),
                    ),
                },
                AuthorizationState::RemoteIdentified(identity) => match action {
                    AuthorizationAction::RemoteAuthorizing => {
                        let new_state = AuthorizationState::Authorized(identity);
                        (new_state.clone(), Ok(new_state))
                    },
                    _ => {
                        let s = AuthorizationState::RemoteIdentified(identity);
                        (s.clone(), Err(AuthorizationActionError::InvalidMessageOrder(s, action)))
                    },
                },
                AuthorizationState::RemoteAccepted => match action {
                    AuthorizationAction::TrustIdentifying(identity) => {
                        let new_state = AuthorizationState::Authorized(identity);
                        (new_state.clone(), Ok(new_state))
                    },
                    _ => (
                        AuthorizationState::RemoteAccepted,
                        Err(
                            AuthorizationActionError::InvalidMessageOrder(
                                AuthorizationState::RemoteAccepted,
                                action,
                            ),
                        ),
                    ),
                },
                other => (other.clone(), Err(AuthorizationActionError::InvalidMessageOrder(other, action))),
            }
        };
        self.shared.states.insert(key, new_state);
        proof {
            assert(self.shared.states@ =~= old(self).shared.states@.insert(connection_id@, new_state));
        }
        r
    }
}

/// The network bytes of the bidirectional connect request that opens the trust handshake.
pub fn connect_msg_bytes() -> (r: Vec<u8>)
    ensures
        r@ == auth_network_bytes(AuthorizationMessage::ConnectRequest(ConnectRequest::Bidirectional)),
{
    AuthorizationMessage::ConnectRequest(ConnectRequest::Bidirectional).to_network_bytes()
}

/// The outcome of a connection's trust handshake, carrying the connection itself.
pub enum ConnectionAuthorizationState<C> {
    Authorized { connection_id: String, identity: String, connection: C },
    Unauthorized { connection_id: String, connection: C },
}

impl<C> ConnectionAuthorizationState<C> {
    /// The outcome for a handshake that ended with `identity` (authorized) or without one.
    pub fn from_outcome(connection_id: String, connection: C, identity: Option<String>) -> (r: Self)
        ensures
            match identity {
                Some(i) => r == (ConnectionAuthorizationState::Authorized {
                    connection_id,
                    identity: i,
                    connection,
                }),
                None => r == (ConnectionAuthorizationState::Unauthorized { connection_id, connection }),
            },
    {
        match identity {
            Some(identity) => ConnectionAuthorizationState::Authorized { connection_id, identity, connection },
            None => ConnectionAuthorizationState::Unauthorized { connection_id, connection },
        }
    }
}

/// A handshake that receives `Connecting`, then the identification and the acceptance in
/// either order, ends authorized with the identity the remote presented.
pub proof fn lemma_handshake_authorizes(identity: String, identify_first: bool)
    ensures
        ({
            let s0 = handshake_transition(AuthorizationState::Unknown, AuthorizationAction::Connecting).0;
            let (a1, a2) = if identify_first {
                (AuthorizationAction::TrustIdentifying(identity), AuthorizationAction::RemoteAuthorizing)
            } else {
                (AuthorizationAction::RemoteAuthorizing, AuthorizationAction::TrustIdentifying(identity))
            };
            let s1 = handshake_transition(s0, a1).0;
            let (s2, r2) = handshake_transition(s1, a2);
            s2 == AuthorizationState::Authorized(identity) && r2 == Ok::<
                AuthorizationState,
                AuthorizationActionError,
            >(AuthorizationState::Authorized(identity)) && handshake_ended(s2)
        }),
{
}

/// `Unauthorizing` ends the handshake from any state.
pub proof fn lemma_handshake_unauthorizing(cur: AuthorizationState)
    ensures
        handshake_transition(cur, AuthorizationAction::Unauthorizing).0 == AuthorizationState::Unauthorized,
        handshake_ended(handshake_transition(cur, AuthorizationAction::Unauthorizing).0),
{
}

/// A refused event leaves the connection's state as it was, and an ended handshake refuses
/// every event but `Unauthorizing`.
pub proof fn lemma_handshake_refusal_keeps_state(cur: AuthorizationState, action: AuthorizationAction)
    ensures
        handshake_transition(cur, action).1 is Err ==> handshake_transition(cur, action).0 == cur,
        handshake_ended(cur) && !(action is Unauthorizing) ==> handshake_transition(cur, action).1 is Err,
{
}

} // verus!
