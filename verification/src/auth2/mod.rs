//! The authorization pool: a simpler trust handshake in which a connection is authorized as
//! soon as the remote identifies itself.  Each connection's handshake ends by being marked
//! complete, with the remote's identity if it was authorized.
use vstd::prelude::*;

use crate::collections::StringMap;

pub mod handlers;

verus! {

/// The state of a connection in the pool's handshake.
pub enum AuthorizationState {
    Unknown,
    Connecting,
    Authorized,
    Unauthorized,
}

impl Clone for AuthorizationState {
    fn clone(&self) -> (r: Self)
        ensures
            r == *self,
    {
        match self {
            AuthorizationState::Unknown => AuthorizationState::Unknown,
            AuthorizationState::Connecting => AuthorizationState::Connecting,
            AuthorizationState::Authorized => AuthorizationState::Authorized,
            AuthorizationState::Unauthorized => AuthorizationState::Unauthorized,
        }
    }
}

/// The events of the pool's handshake.
pub enum AuthorizationAction {
    Connecting,
    TrustIdentifying(String),
    Unauthorizing,
}

/// Why an event of the pool's handshake was refused.
pub enum AuthorizationActionError {
    AlreadyConnecting,
    InvalidMessageOrder(AuthorizationState, AuthorizationAction),
    SystemFailure(String),
}

/// An error of the authorization pool, with its message.
pub struct AuthorizationPoolError(pub String);

/// The handshake states and completions of all connections.
pub struct ManagedAuthorizations {
    pub states: StringMap<AuthorizationState>,
    pub complete_and_authorized: StringMap<Option<String>>,
}

/// The pool's view of a connection: its handshake state and, once complete, its outcome.
pub struct PoolView {
    pub states: Map<Seq<char>, AuthorizationState>,
    pub complete: Map<Seq<char>, Option<String>>,
}

/// The pool's handshake transition.
///
/// `Connecting` starts the handshake of an unknown connection; a second one is refused.
/// Identification of a connecting remote completes it as authorized with that identity;
/// `Unauthorizing` completes it as unauthorized unless it has already ended unauthorized.
/// Completion is recorded apart from the handshake state, which stays as it was.
pub open spec fn pool_transition(v: PoolView, connection_id: Seq<char>, action: AuthorizationAction) -> (
    PoolView,
    Result<AuthorizationState, AuthorizationActionError>,
) {
    let cur = if v.states.contains_key(connection_id) {
        v.states[connection_id]
    } else {
        AuthorizationState::Unknown
    };
    let complete = |identity: Option<String>| PoolView { complete: v.complete.insert(connection_id, identity), ..v };
    match cur {
        AuthorizationState::Unknown => match action {
            AuthorizationAction::Connecting => (
                PoolView { states: v.states.insert(connection_id, AuthorizationState::Connecting), ..v },
                Ok(AuthorizationState::Connecting),
            ),
            AuthorizationAction::Unauthorizing => (complete(None), Ok(AuthorizationState::Unauthorized)),
            a => (v, Err(AuthorizationActionError::InvalidMessageOrder(AuthorizationState::Unknown, a))),
        },
        AuthorizationState::Connecting => match action {
            AuthorizationAction::Connecting => (v, Err(AuthorizationActionError::AlreadyConnecting)),
            AuthorizationAction::TrustIdentifying(identity) => (
                complete(Some(identity)),
                Ok(AuthorizationState::Authorized),
            ),
            AuthorizationAction::Unauthorizing => (complete(None), Ok(AuthorizationState::Unauthorized)),
        },
        AuthorizationState::Authorized => match action {
            AuthorizationAction::Unauthorizing => (complete(None), Ok(AuthorizationState::Unauthorized)),
            a => (v, Err(AuthorizationActionError::InvalidMessageOrder(AuthorizationState::Authorized, a))),
        },
        AuthorizationState::Unauthorized => (
            v,
            Err(AuthorizationActionError::InvalidMessageOrder(AuthorizationState::Unauthorized, action)),
        ),
    }
}

impl ManagedAuthorizations {
    /// The states and completions.
    pub open spec fn view(&self) -> PoolView {
        PoolView { states: self.states@, complete: self.complete_and_authorized@ }
    }

    /// No connection has a state or a completion yet.
    pub fn new() -> (m: Self)
        ensures
            m@.states == Map::<Seq<char>, AuthorizationState>::empty(),
            m@.complete == Map::<Seq<char>, Option<String>>::empty(),
    {
        ManagedAuthorizations { states: StringMap::new(), complete_and_authorized: StringMap::new() }
    }

    /// Forgets the connection, returning its identity if it completed authorized.
    pub fn cleanup_connection_state(&mut self, connection_id: &str) -> (r: Option<String>)
        ensures
            final(self)@.states == old(self)@.states.remove(connection_id@),
            final(self)@.complete == old(self)@.complete.remove(connection_id@),
            r == (if old(self)@.complete.contains_key(connection_id@) {
                old(self)@.complete[connection_id@]
            } else {
                None
            }),
    {
        let key = connection_id.to_owned();
        self.states.remove(&key);
        match self.complete_and_authorized.remove(&key) {
            Some(identity) => identity,
            None => None,
        }
    }

    /// Marks the connection complete, authorized with `authorized_identity` or not.
    pub fn mark_complete(&mut self, connection_id: &str, authorized_identity: Option<String>)
        ensures
            final(self)@.states == old(self)@.states,
            final(self)@.complete == old(self)@.complete.insert(connection_id@, authorized_identity),
    {
        let key = connection_id.to_owned();
        self.complete_and_authorized.insert(key, authorized_identity);
    }

    /// Whether the connection completed authorized; `None` if it has not completed.
    pub fn is_complete(&self, connection_id: &str) -> (r: Option<bool>)
        ensures
            r == (if self@.complete.contains_key(connection_id@) {
                Some(self@.complete[connection_id@] is Some)
            } else {
                None
            }),
    {
        let key = connection_id.to_owned();
        match self.complete_and_authorized.get(&key) {
            Some(identity) => Some(identity.is_some()),
            None => None,
        }
    }

    /// What the authorization loop does after a message: `None` to keep reading, or the end of
    /// the handshake with the remote's identity if it was authorized.  A completed connection is
    /// forgotten.
    pub fn check_completion(&mut self, connection_id: &str) -> (r: Option<Option<String>>)
        ensures
            old(self)@.complete.contains_key(connection_id@) ==> r == Some(
                old(self)@.complete[connection_id@],
            ) && final(self)@.states == old(self)@.states.remove(connection_id@)
                && final(self)@.complete == old(self)@.complete.remove(connection_id@),
            !old(self)@.complete.contains_key(connection_id@) ==> r is None && final(self)@ == old(self)@,
    {
        if self.is_complete(connection_id).is_some() {
            Some(self.cleanup_connection_state(connection_id))
        } else {
            None
        }
    }
}

/// The pool's handshake manager shared by the handlers of a connection's messages.
pub struct AuthorizationPoolStateMachine {
    pub shared: ManagedAuthorizations,
}

impl Default for AuthorizationPoolStateMachine {
    fn default() -> (m: Self)
        ensures
            m.shared@.states == Map::<Seq<char>, AuthorizationState>::empty(),
            m.shared@.complete == Map::<Seq<char>, Option<String>>::empty(),
    {
        AuthorizationPoolStateMachine { shared: ManagedAuthorizations::new() }
    }
}

impl AuthorizationPoolStateMachine {
    /// Applies a handshake event to the connection `connection_id`.
    pub fn next_state(&mut self, connection_id: &str, action: AuthorizationAction) -> (r: Result<
        AuthorizationState,
        AuthorizationActionError,
    >)
        ensures
            (final(self).shared@, r) == pool_transition(old(self).shared@, connection_id@, action),
    {
        let key = connection_id.to_owned();
        let cur_state = match self.shared.states.get(&key) {
            Some(s) => s.clone(),
            None => AuthorizationState::Unknown,
        };
        match cur_state {
            AuthorizationState::Unknown => match action {
                AuthorizationAction::Connecting => {
                    self.shared.states.insert(key, AuthorizationState::Connecting);
                    Ok(AuthorizationState::Connecting)
                },
                AuthorizationAction::Unauthorizing => {
                    self.shared.mark_complete(connection_id, None);
                    Ok(AuthorizationState::Unauthorized)
                },
                _ => Err(AuthorizationActionError::InvalidMessageOrder(AuthorizationState::Unknown, action)),
            },
            AuthorizationState::Connecting => match action {
                AuthorizationAction::Connecting => Err(AuthorizationActionError::AlreadyConnecting),
                AuthorizationAction::TrustIdentifying(identity) => {
                    self.shared.mark_complete(connection_id, Some(identity));
                    Ok(AuthorizationState::Authorized)
                },
                AuthorizationAction::Unauthorizing => {
                    self.shared.mark_complete(connection_id, None);
                    Ok(AuthorizationState::Unauthorized)
                },
            },
            AuthorizationState::Authorized => match action {
                AuthorizationAction::Unauthorizing => {
                    self.shared.mark_complete(connection_id, None);
                    Ok(AuthorizationState::Unauthorized)
                },
                _ => Err(
                    AuthorizationActionError::InvalidMessageOrder(AuthorizationState::Authorized, action),
                ),
            },
            other => Err(AuthorizationActionError::InvalidMessageOrder(other, action)),
        }
    }
}

/// The outcome of a connection's handshake in the pool, carrying the connection itself.
pub enum ConnectionAuthorizationState<C> {
    Authorized { connection_id: String, identity: String, connection: C },
    Unauthorized { connection_id: String, connection: C },
}

impl<C> ConnectionAuthorizationState<C> {
    /// The outcome for a handshake that completed with `identity` (authorized) or without one.
    pub fn from_outcome(connection_id: String, connection: C, identity: Option<String>) -> (r: Self)
        ensures
            match identity {
                Some(i) => r == (ConnectionAuthorizationState::Authorized {
                    connection_id,
                    identity: i,
                    connection,
                }),
                None => r == (ConnectionAuthorizationState::Unauthorized { connection_id, connection }),
            },
    {
        match identity {
            Some(identity) => ConnectionAuthorizationState::Authorized { connection_id, identity, connection },
            None => ConnectionAuthorizationState::Unauthorized { connection_id, connection },
        }
    }
}

/// A connecting remote that identifies itself completes authorized with its identity, and the
/// loop's completion check then hands that identity out.
pub proof fn lemma_pool_identify_completes(v: PoolView, connection_id: Seq<char>, identity: String)
    requires
        !v.states.contains_key(connection_id),
    ensures
        ({
            let v1 = pool_transition(v, connection_id, AuthorizationAction::Connecting).0;
            let (v2, r) = pool_transition(v1, connection_id, AuthorizationAction::TrustIdentifying(identity));
            r == Ok::<AuthorizationState, AuthorizationActionError>(AuthorizationState::Authorized)
                && v2.complete.contains_key(connection_id) && v2.complete[connection_id] == Some(identity)
        }),
{
}

/// `Unauthorizing` completes any connection that has not already ended unauthorized, without
/// an identity.
pub proof fn lemma_pool_unauthorizing(v: PoolView, connection_id: Seq<char>)
    requires
        !(v.states.contains_key(connection_id) && v.states[connection_id] is Unauthorized),
    ensures
        ({
            let (v2, r) = pool_transition(v, connection_id, AuthorizationAction::Unauthorizing);
            r == Ok::<AuthorizationState, AuthorizationActionError>(AuthorizationState::Unauthorized)
                && v2.complete.contains_key(connection_id) && v2.complete[connection_id] is None
        }),
{
}

} // verus!
