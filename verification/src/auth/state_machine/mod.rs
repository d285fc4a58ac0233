//! The authorization state machine (v1): each connection has an accepting side (the remote
//! proving who it is to us) and an initiating side (us proving who we are to the remote).
//! Messages move each side through its states; a message out of order is refused with an
//! error that names the state and the event.
use vstd::prelude::*;

use crate::collections::StringMap;

pub mod challenge_v1;
pub mod laws;
pub mod names;
pub mod trust_v0;
pub mod trust_v1;

use self::challenge_v1::{
    challenge_accepting_transition, challenge_initiating_transition,
    ChallengeAuthorizationAcceptingAction, ChallengeAuthorizationAcceptingState,
    ChallengeAuthorizationInitiatingAction, ChallengeAuthorizationInitiatingState,
};
use self::trust_v0::{trust_v0_transition, TrustV0AuthorizationAction, TrustV0AuthorizationState};
use self::trust_v1::{
    trust_accepting_transition, trust_initiating_transition, TrustAuthorizationAcceptingAction,
    TrustAuthorizationAcceptingState, TrustAuthorizationInitiatingAction,
    TrustAuthorizationInitiatingState,
};

verus! {

/// Who a node has proven to be: a node id (trust) or a public key, in hex (challenge).
#[derive(Debug, PartialEq)]
pub enum Identity {
    Trust { identity: String },
    Challenge { public_key: String },
}

impl Identity {
    /// The string that names the remote: its node id, or its public key in hex.
    pub fn as_str(&self) -> (s: &str)
        ensures
            s@ == match *self {
                Identity::Trust { identity } => identity@,
                Identity::Challenge { public_key } => public_key@,
            },
    {
        match self {
            Identity::Trust { identity } => identity.as_str(),
            Identity::Challenge { public_key } => public_key.as_str(),
        }
    }
}

impl Clone for Identity {
    fn clone(&self) -> (r: Self)
        ensures
            r == *self,
    {
        match self {
            Identity::Trust { identity } => Identity::Trust { identity: identity.clone() },
            Identity::Challenge { public_key } => Identity::Challenge { public_key: public_key.clone() },
        }
    }
}

/// The accepting side of a connection's authorization.
#[derive(Debug, PartialEq)]
pub enum AuthorizationAcceptingState {
    Start,
    Done(Identity),
    Unauthorized,
    ReceivedAuthProtocolRequest,
    SentAuthProtocolResponse,
    TrustV0(TrustV0AuthorizationState),
    Trust(TrustAuthorizationAcceptingState),
    Challenge(ChallengeAuthorizationAcceptingState),
}

impl Clone for AuthorizationAcceptingState {
    fn clone(&self) -> (r: Self)
        ensures
            r == *self,
    {
        match self {
            AuthorizationAcceptingState::Start => AuthorizationAcceptingState::Start,
            AuthorizationAcceptingState::Done(identity) => AuthorizationAcceptingState::Done(identity.clone()),
            AuthorizationAcceptingState::Unauthorized => AuthorizationAcceptingState::Unauthorized,
            AuthorizationAcceptingState::ReceivedAuthProtocolRequest => {
                AuthorizationAcceptingState::ReceivedAuthProtocolRequest
            },
            AuthorizationAcceptingState::SentAuthProtocolResponse => {
                AuthorizationAcceptingState::SentAuthProtocolResponse
            },
            AuthorizationAcceptingState::TrustV0(s) => AuthorizationAcceptingState::TrustV0(s.clone()),
            AuthorizationAcceptingState::Trust(s) => AuthorizationAcceptingState::Trust(s.clone()),
            AuthorizationAcceptingState::Challenge(s) => AuthorizationAcceptingState::Challenge(s.clone()),
        }
    }
}

/// The initiating side of a connection's authorization.
#[derive(Debug, PartialEq)]
pub enum AuthorizationInitiatingState {
    Start,
    WaitingForAuthProtocolResponse,
    ReceivedAuthProtocolResponse,
    Authorized,
    WaitForComplete,
    AuthorizedAndComplete,
    Unauthorized,
    Trust(TrustAuthorizationInitiatingState),
    Challenge(ChallengeAuthorizationInitiatingState),
}

impl Clone for AuthorizationInitiatingState {
    fn clone(&self) -> (r: Self)
        ensures
            r == *self,
    {
        match self {
            AuthorizationInitiatingState::Start => AuthorizationInitiatingState::Start,
            AuthorizationInitiatingState::WaitingForAuthProtocolResponse => {
                AuthorizationInitiatingState::WaitingForAuthProtocolResponse
            },
            AuthorizationInitiatingState::ReceivedAuthProtocolResponse => {
                AuthorizationInitiatingState::ReceivedAuthProtocolResponse
            },
            AuthorizationInitiatingState::Authorized => AuthorizationInitiatingState::Authorized,
            AuthorizationInitiatingState::WaitForComplete => AuthorizationInitiatingState::WaitForComplete,
            AuthorizationInitiatingState::AuthorizedAndComplete => {
                AuthorizationInitiatingState::AuthorizedAndComplete
            },
            AuthorizationInitiatingState::Unauthorized => AuthorizationInitiatingState::Unauthorized,
            AuthorizationInitiatingState::Trust(s) => AuthorizationInitiatingState::Trust(s.clone()),
            AuthorizationInitiatingState::Challenge(s) => AuthorizationInitiatingState::Challenge(s.clone()),
        }
    }
}

/// The events on the accepting side.
#[derive(Debug, PartialEq)]
pub enum AuthorizationAcceptingAction {
    Connecting,
    ReceiveAuthProtocolRequest,
    SendAuthProtocolResponse,
    TrustV0(TrustV0AuthorizationAction),
    Trust(TrustAuthorizationAcceptingAction),
    Challenge(ChallengeAuthorizationAcceptingAction),
    Unauthorizing,
}

/// The events on the initiating side.
#[derive(Debug, PartialEq)]
pub enum AuthorizationInitiatingAction {
    SendAuthProtocolRequest,
    ReceiveAuthProtocolResponse,
    Trust(TrustAuthorizationInitiatingAction),
    Challenge(ChallengeAuthorizationInitiatingAction),
    SendAuthComplete,
    Unauthorizing,
}

/// Why an event was refused.
#[derive(Debug, PartialEq)]
pub enum AuthorizationActionError {
    AlreadyConnecting,
    InvalidAcceptingMessageOrder(AuthorizationAcceptingState, AuthorizationAcceptingAction),
    InvalidInitiatingMessageOrder(AuthorizationInitiatingState, AuthorizationInitiatingAction),
    InternalError(String),
}

/// Everything known of one connection's authorization.
#[derive(Debug, PartialEq)]
pub struct ManagedAuthorizationState {
    pub initiating_state: AuthorizationInitiatingState,
    pub accepting_state: AuthorizationAcceptingState,
    pub received_complete: bool,
    pub local_authorization: Option<Identity>,
}

impl Clone for ManagedAuthorizationState {
    fn clone(&self) -> (r: Self)
        ensures
            r == *self,
    {
        ManagedAuthorizationState {
            initiating_state: self.initiating_state.clone(),
            accepting_state: self.accepting_state.clone(),
            received_complete: self.received_complete,
            local_authorization: match &self.local_authorization {
                Some(i) => Some(i.clone()),
                None => None,
            },
        }
    }
}

/// The state a connection starts in before any event.
pub open spec fn start_state() -> ManagedAuthorizationState {
    ManagedAuthorizationState {
        initiating_state: AuthorizationInitiatingState::Start,
        accepting_state: AuthorizationAcceptingState::Start,
        received_complete: false,
        local_authorization: None,
    }
}

/// The state of `connection_id` in `states`, or the start state if it has none yet.
pub open spec fn state_for(states: Map<Seq<char>, ManagedAuthorizationState>, connection_id: Seq<char>) -> ManagedAuthorizationState {
    if states.contains_key(connection_id) {
        states[connection_id]
    } else {
        start_state()
    }
}

impl ManagedAuthorizationState {
    /// The state of a connection before any event.
    pub fn start() -> (s: Self)
        ensures
            s == start_state(),
    {
        ManagedAuthorizationState {
            initiating_state: AuthorizationInitiatingState::Start,
            accepting_state: AuthorizationAcceptingState::Start,
            received_complete: false,
            local_authorization: None,
        }
    }
}

/// The accepting-side transition of the whole machine.
///
/// `Unauthorizing` ends both sides from any state.  The v0 handshake starts with `Connecting`,
/// which also marks the initiating side done (v0 has no separate initiating handshake).  The v1
/// handshake negotiates the protocol and then hands over to the trust or challenge sub-machine.
pub open spec fn accepting_transition(cur: ManagedAuthorizationState, action: AuthorizationAcceptingAction) -> (
    ManagedAuthorizationState,
    Result<AuthorizationAcceptingState, AuthorizationActionError>,
) {
    if action is Unauthorizing {
        (
            ManagedAuthorizationState {
                initiating_state: AuthorizationInitiatingState::Unauthorized,
                accepting_state: AuthorizationAcceptingState::Unauthorized,
                ..cur
            },
            Ok(AuthorizationAcceptingState::Unauthorized),
        )
    } else {
        match cur.accepting_state {
            AuthorizationAcceptingState::Start => match action {
                AuthorizationAcceptingAction::Connecting => {
                    let ns = AuthorizationAcceptingState::TrustV0(TrustV0AuthorizationState::Connecting);
                    (
                        ManagedAuthorizationState {
                            initiating_state: AuthorizationInitiatingState::AuthorizedAndComplete,
                            accepting_state: ns,
                            ..cur
                        },
                        Ok(ns),
                    )
                },
                AuthorizationAcceptingAction::ReceiveAuthProtocolRequest => {
                    let ns = AuthorizationAcceptingState::ReceivedAuthProtocolRequest;
                    (ManagedAuthorizationState { accepting_state: ns, ..cur }, Ok(ns))
                },
                _ => (
                    cur,
                    Err(
                        AuthorizationActionError::InvalidAcceptingMessageOrder(
                            AuthorizationAcceptingState::Start,
                            action,
                        ),
                    ),
                ),
            },
            AuthorizationAcceptingState::ReceivedAuthProtocolRequest => match action {
                AuthorizationAcceptingAction::SendAuthProtocolResponse => {
                    let ns = AuthorizationAcceptingState::SentAuthProtocolResponse;
                    (ManagedAuthorizationState { accepting_state: ns, ..cur }, Ok(ns))
                },
                _ => (
                    cur,
                    Err(
                        AuthorizationActionError::InvalidAcceptingMessageOrder(
                            AuthorizationAcceptingState::Start,
                            action,
                        ),
                    ),
                ),
            },
            AuthorizationAcceptingState::TrustV0(s) => match action {
                AuthorizationAcceptingAction::TrustV0(a) => match trust_v0_transition(s, a) {
                    Ok(ns) => (ManagedAuthorizationState { accepting_state: ns, ..cur }, Ok(ns)),
                    Err(e) => (cur, Err(e)),
                },
                _ => (
                    cur,
                    Err(
                        AuthorizationActionError::InvalidAcceptingMessageOrder(
                            AuthorizationAcceptingState::TrustV0(s),
                            action,
                        ),
                    ),
                ),
            },
            AuthorizationAcceptingState::SentAuthProtocolResponse => match action {
                AuthorizationAcceptingAction::Trust(a) => trust_accepting_transition(
                    TrustAuthorizationAcceptingState::TrustConnecting,
                    a,
                    cur,
                ),
                AuthorizationAcceptingAction::Challenge(a) => challenge_accepting_transition(
                    ChallengeAuthorizationAcceptingState::ChallengeConnecting,
                    a,
                    cur,
                ),
                _ => (
                    cur,
                    Err(
                        AuthorizationActionError::InvalidAcceptingMessageOrder(
                            AuthorizationAcceptingState::SentAuthProtocolResponse,
                            action,
                        ),
                    ),
                ),
            },
            AuthorizationAcceptingState::Trust(s) => match action {
                AuthorizationAcceptingAction::Trust(a) => trust_accepting_transition(s, a, cur),
                _ => (
                    cur,
                    Err(
                        AuthorizationActionError::InvalidAcceptingMessageOrder(
                            AuthorizationAcceptingState::Trust(s),
                            action,
                        ),
                    ),
                ),
            },
            AuthorizationAcceptingState::Challenge(s) => match action {
                AuthorizationAcceptingAction::Challenge(a) => challenge_accepting_transition(s, a, cur),
                _ => (
                    cur,
                    Err(
                        AuthorizationActionError::InvalidAcceptingMessageOrder(
                            AuthorizationAcceptingState::Challenge(s),
                            action,
                        ),
                    ),
                ),
            },
            _ => (
                cur,
                Err(AuthorizationActionError::InvalidAcceptingMessageOrder(cur.accepting_state, action)),
            ),
        }
    }
}

/// The initiating-side transition of the whole machine.
///
/// `Unauthorizing` ends both sides from any state.  After the protocol exchange the trust or
/// challenge sub-machine runs; once authorized, sending the completion message finishes the
/// initiating side if the remote's completion already arrived, and otherwise waits for it.
pub open spec fn initiating_transition(cur: ManagedAuthorizationState, action: AuthorizationInitiatingAction) -> (
    ManagedAuthorizationState,
    Result<AuthorizationInitiatingState, AuthorizationActionError>,
) {
    if action is Unauthorizing {
        (
            ManagedAuthorizationState {
                initiating_state: AuthorizationInitiatingState::Unauthorized,
                accepting_state: AuthorizationAcceptingState::Unauthorized,
                ..cur
            },
            Ok(AuthorizationInitiatingState::Unauthorized),
        )
    } else {
        match cur.initiating_state {
            AuthorizationInitiatingState::Start => match action {
                AuthorizationInitiatingAction::SendAuthProtocolRequest => {
                    let ns = AuthorizationInitiatingState::WaitingForAuthProtocolResponse;
                    (ManagedAuthorizationState { initiating_state: ns, ..cur }, Ok(ns))
                },
                _ => (
                    cur,
                    Err(
                        AuthorizationActionError::InvalidInitiatingMessageOrder(
                            AuthorizationInitiatingState::Start,
                            action,
                        ),
                    ),
                ),
            },
            AuthorizationInitiatingState::WaitingForAuthProtocolResponse => match action {
                AuthorizationInitiatingAction::ReceiveAuthProtocolResponse => {
                    let ns = AuthorizationInitiatingState::ReceivedAuthProtocolResponse;
                    (ManagedAuthorizationState { initiating_state: ns, ..cur }, Ok(ns))
                },
                _ => (
                    cur,
                    Err(
                        AuthorizationActionError::InvalidInitiatingMessageOrder(
                            AuthorizationInitiatingState::Start,
                            action,
                        ),
                    ),
                ),
            },
            AuthorizationInitiatingState::ReceivedAuthProtocolResponse => match action {
                AuthorizationInitiatingAction::Trust(a) => trust_initiating_transition(
                    TrustAuthorizationInitiatingState::TrustConnecting,
                    a,
                    cur,
                ),
                AuthorizationInitiatingAction::Challenge(a) => challenge_initiating_transition(
                    ChallengeAuthorizationInitiatingState::ChallengeConnecting,
                    a,
                    cur,
                ),
                _ => (
                    cur,
                    Err(
                        AuthorizationActionError::InvalidInitiatingMessageOrder(
                            AuthorizationInitiatingState::WaitingForAuthProtocolResponse,
                            action,
                        ),
                    ),
                ),
            },
            AuthorizationInitiatingState::Trust(s) => match action {
                AuthorizationInitiatingAction::Trust(a) => trust_initiating_transition(s, a, cur),
                _ => (
                    cur,
                    Err(
                        AuthorizationActionError::InvalidInitiatingMessageOrder(
                            AuthorizationInitiatingState::Trust(s),
                            action,
                        ),
                    ),
                ),
            },
            AuthorizationInitiatingState::Challenge(s) => match action {
                AuthorizationInitiatingAction::Challenge(a) => challenge_initiating_transition(s, a, cur),
                _ => (
                    cur,
                    Err(
                        AuthorizationActionError::InvalidInitiatingMessageOrder(
                            AuthorizationInitiatingState::Challenge(s),
                            action,
                        ),
                    ),
                ),
            },
            AuthorizationInitiatingState::Authorized => match action {
                AuthorizationInitiatingAction::SendAuthComplete => {
                    let ns = if cur.received_complete {
                        AuthorizationInitiatingState::AuthorizedAndComplete
                    } else {
                        AuthorizationInitiatingState::WaitForComplete
                    };
                    (ManagedAuthorizationState { initiating_state: ns, ..cur }, Ok(ns))
                },
                _ => (
                    cur,
                    Err(
                        AuthorizationActionError::InvalidInitiatingMessageOrder(
                            AuthorizationInitiatingState::Authorized,
                            action,
                        ),
                    ),
                ),
            },
            _ => (
                cur,
                Err(AuthorizationActionError::InvalidInitiatingMessageOrder(cur.initiating_state, action)),
            ),
        }
    }
}

/// Recording the remote's completion message: a side waiting for it is done.
pub open spec fn received_complete_transition(cur: ManagedAuthorizationState) -> ManagedAuthorizationState {
    ManagedAuthorizationState {
        received_complete: true,
        initiating_state: if cur.initiating_state is WaitForComplete {
            AuthorizationInitiatingState::AuthorizedAndComplete
        } else {
            cur.initiating_state
        },
        ..cur
    }
}

/// The authorization states of all connections, by connection id.
pub struct ManagedAuthorizations {
    pub states: StringMap<ManagedAuthorizationState>,
}

/// Whether the authorization of a connection has ended: accepted both ways, or refused on
/// either side.
pub open spec fn authorization_ended(s: ManagedAuthorizationState) -> bool {
    ||| (s.accepting_state is Done && s.initiating_state is AuthorizedAndComplete)
    ||| s.accepting_state is Unauthorized
    ||| s.initiating_state is Unauthorized
}

/// The identity the remote was accepted with, when the authorization ended accepted both
/// ways.
pub open spec fn accepted_identity(s: ManagedAuthorizationState) -> Option<Identity> {
    match s.accepting_state {
        AuthorizationAcceptingState::Done(identity) => if s.initiating_state is AuthorizedAndComplete {
            Some(identity)
        } else {
            None
        },
        _ => None,
    }
}

impl ManagedAuthorizations {
    /// No connection has a state yet.
    pub fn new() -> (m: Self)
        ensures
            m.states@ == Map::<Seq<char>, ManagedAuthorizationState>::empty(),
    {
        ManagedAuthorizations { states: StringMap::new() }
    }

    /// What the authorization loop of a connection does after a message: `None` while its
    /// authorization goes on; once it has ended, the remote's identity if it was accepted both
    /// ways (`None` if refused), and the connection is forgotten.
    pub fn check_completion(&mut self, connection_id: &str) -> (r: Option<Option<Identity>>)
        ensures
            old(self).states@.contains_key(connection_id@) && authorization_ended(old(self).states@[connection_id@])
                ==> final(self).states@ == old(self).states@.remove(connection_id@) && r == Some(
                accepted_identity(old(self).states@[connection_id@]),
            ),
            !(old(self).states@.contains_key(connection_id@) && authorization_ended(
                old(self).states@[connection_id@],
            )) ==> final(self).states@ == old(self).states@ && r is None,
    {
        let key = connection_id.to_owned();
        let ended = match self.states.get(&key) {
            Some(state) => match (&state.accepting_state, &state.initiating_state) {
                (AuthorizationAcceptingState::Done(_), AuthorizationInitiatingState::AuthorizedAndComplete) => true,
                (AuthorizationAcceptingState::Unauthorized, _) => true,
                (_, AuthorizationInitiatingState::Unauthorized) => true,
                _ => false,
            },
            None => false,
        };
        if !ended {
            return None;
        }
        match self.states.remove(&key) {
            Some(state) => match (state.accepting_state, state.initiating_state) {
                (AuthorizationAcceptingState::Done(identity), AuthorizationInitiatingState::AuthorizedAndComplete) => {
                    Some(Some(identity))
                },
                _ => Some(None),
            },
            None => Some(None),
        }
    }
}

/// The authorization state machine shared by the handlers of a connection's messages.
pub struct AuthorizationManagerStateMachine {
    pub shared: ManagedAuthorizations,
}

impl Default for AuthorizationManagerStateMachine {
    fn default() -> (m: Self)
        ensures
            m.shared.states@ == Map::<Seq<char>, ManagedAuthorizationState>::empty(),
    {
        AuthorizationManagerStateMachine { shared: ManagedAuthorizations::new() }
    }
}

impl AuthorizationManagerStateMachine {
    /// The states of the connections.
    pub open spec fn states(&self) -> Map<Seq<char>, ManagedAuthorizationState> {
        self.shared.states@
    }

    /// Applies an accepting-side event to `cur_state`.
    fn apply_accepting(cur_state: &mut ManagedAuthorizationState, action: AuthorizationAcceptingAction) -> (r: Result<
        AuthorizationAcceptingState,
        AuthorizationActionError,
    >)
        ensures
            (*final(cur_state), r) == accepting_transition(*old(cur_state), action),
    {
        if let AuthorizationAcceptingAction::Unauthorizing = action {
            cur_state.initiating_state = AuthorizationInitiatingState::Unauthorized;
            cur_state.accepting_state = AuthorizationAcceptingState::Unauthorized;
            return Ok(AuthorizationAcceptingState::Unauthorized);
        }
        match cur_state.accepting_state.clone() {
            AuthorizationAcceptingState::Start => match action {
                AuthorizationAcceptingAction::Connecting => {
                    cur_state.initiating_state = AuthorizationInitiatingState::AuthorizedAndComplete;
                    cur_state.accepting_state =
                        AuthorizationAcceptingState::TrustV0(TrustV0AuthorizationState::Connecting);
                    Ok(AuthorizationAcceptingState::TrustV0(TrustV0AuthorizationState::Connecting))
                },
                AuthorizationAcceptingAction::ReceiveAuthProtocolRequest => {
                    cur_state.accepting_state = AuthorizationAcceptingState::ReceivedAuthProtocolRequest;
                    Ok(AuthorizationAcceptingState::ReceivedAuthProtocolRequest)
                },
                _ => Err(
                    AuthorizationActionError::InvalidAcceptingMessageOrder(
                        AuthorizationAcceptingState::Start,
                        action,
                    ),
                ),
            },
            AuthorizationAcceptingState::ReceivedAuthProtocolRequest => match action {
                AuthorizationAcceptingAction::SendAuthProtocolResponse => {
                    cur_state.accepting_state = AuthorizationAcceptingState::SentAuthProtocolResponse;
                    Ok(AuthorizationAcceptingState::SentAuthProtocolResponse)
                },
                _ => Err(
                    AuthorizationActionError::InvalidAcceptingMessageOrder(
                        AuthorizationAcceptingState::Start,
                        action,
                    ),
                ),
            },
            AuthorizationAcceptingState::TrustV0(state) => match action {
                AuthorizationAcceptingAction::TrustV0(action) => {
                    let new_state = state.next_state(action)?;
                    cur_state.accepting_state = new_state.clone();
                    Ok(new_state)
                },
                _ => Err(
                    AuthorizationActionError::InvalidAcceptingMessageOrder(
                        AuthorizationAcceptingState::TrustV0(state),
                        action,
                    ),
                ),
            },
            AuthorizationAcceptingState::SentAuthProtocolResponse => match action {
                AuthorizationAcceptingAction::Trust(action) => {
                    TrustAuthorizationAcceptingState::TrustConnecting.next_accepting_state(action, cur_state)
                },
                AuthorizationAcceptingAction::Challenge(action) => {
                    ChallengeAuthorizationAcceptingState::ChallengeConnecting.next_accepting_state(
                        action,
                        cur_state,
                    )
                },
                _ => Err(
                    AuthorizationActionError::InvalidAcceptingMessageOrder(
                        AuthorizationAcceptingState::SentAuthProtocolResponse,
                        action,
                    ),
                ),
            },
            AuthorizationAcceptingState::Trust(state) => match action {
                AuthorizationAcceptingAction::Trust(action) => state.next_accepting_state(action, cur_state),
                _ => Err(
                    AuthorizationActionError::InvalidAcceptingMessageOrder(
                        AuthorizationAcceptingState::Trust(state),
                        action,
                    ),
                ),
            },
            AuthorizationAcceptingState::Challenge(state) => match action {
                AuthorizationAcceptingAction::Challenge(action) => state.next_accepting_state(action, cur_state),
                _ => Err(
                    AuthorizationActionError::InvalidAcceptingMessageOrder(
                        AuthorizationAcceptingState::Challenge(state),
                        action,
                    ),
                ),
            },
            other => Err(AuthorizationActionError::InvalidAcceptingMessageOrder(other, action)),
        }
    }

    /// Applies an initiating-side event to `cur_state`.
    fn apply_initiating(cur_state: &mut ManagedAuthorizationState, action: AuthorizationInitiatingAction) -> (r: Result<
        AuthorizationInitiatingState,
        AuthorizationActionError,
    >)
        ensures
            (*final(cur_state), r) == initiating_transition(*old(cur_state), action),
    {
        if let AuthorizationInitiatingAction::Unauthorizing = action {
            cur_state.initiating_state = AuthorizationInitiatingState::Unauthorized;
            cur_state.accepting_state = AuthorizationAcceptingState::Unauthorized;
            return Ok(AuthorizationInitiatingState::Unauthorized);
        }
        match cur_state.initiating_state.clone() {
            AuthorizationInitiatingState::Start => match action {
                AuthorizationInitiatingAction::SendAuthProtocolRequest => {
                    cur_state.initiating_state = AuthorizationInitiatingState::WaitingForAuthProtocolResponse;
                    Ok(AuthorizationInitiatingState::WaitingForAuthProtocolResponse)
                },
                _ => Err(
                    AuthorizationActionError::InvalidInitiatingMessageOrder(
                        AuthorizationInitiatingState::Start,
                        action,
                    ),
                ),
            },
            AuthorizationInitiatingState::WaitingForAuthProtocolResponse => match action {
                AuthorizationInitiatingAction::ReceiveAuthProtocolResponse => {
                    cur_state.initiating_state = AuthorizationInitiatingState::ReceivedAuthProtocolResponse;
                    Ok(AuthorizationInitiatingState::ReceivedAuthProtocolResponse)
                },
                _ => Err(
                    AuthorizationActionError::InvalidInitiatingMessageOrder(
                        AuthorizationInitiatingState::Start,
                        action,
                    ),
                ),
            },
            AuthorizationInitiatingState::ReceivedAuthProtocolResponse => match action {
                AuthorizationInitiatingAction::Trust(action) => {
                    TrustAuthorizationInitiatingState::TrustConnecting.next_initiating_state(action, cur_state)
                },
                AuthorizationInitiatingAction::Challenge(action) => {
                    ChallengeAuthorizationInitiatingState::ChallengeConnecting.next_initiating_state(
                        action,
                        cur_state,
                    )
                },
                _ => Err(
                    AuthorizationActionError::InvalidInitiatingMessageOrder(
                        AuthorizationInitiatingState::WaitingForAuthProtocolResponse,
                        action,
                    ),
                ),
            },
            AuthorizationInitiatingState::Trust(state) => match action {
                AuthorizationInitiatingAction::Trust(action) => state.next_initiating_state(action, cur_state),
                _ => Err(
                    AuthorizationActionError::InvalidInitiatingMessageOrder(
                        AuthorizationInitiatingState::Trust(state),
                        action,
                    ),
                ),
            },
            AuthorizationInitiatingState::Challenge(state) => match action {
                AuthorizationInitiatingAction::Challenge(action) => state.next_initiating_state(action, cur_state),
                _ => Err(
                    AuthorizationActionError::InvalidInitiatingMessageOrder(
                        AuthorizationInitiatingState::Challenge(state),
                        action,
                    ),
                ),
            },
            AuthorizationInitiatingState::Authorized => match action {
                AuthorizationInitiatingAction::SendAuthComplete => {
                    let new_state = if cur_state.received_complete {
                        AuthorizationInitiatingState::AuthorizedAndComplete
                    } else {
                        AuthorizationInitiatingState::WaitForComplete
                    };
                    cur_state.initiating_state = new_state.clone();
                    Ok(new_state)
                },
                _ => Err(
                    AuthorizationActionError::InvalidInitiatingMessageOrder(
                        AuthorizationInitiatingState::Authorized,
                        action,
                    ),
                ),
            },
            other => Err(AuthorizationActionError::InvalidInitiatingMessageOrder(other, action)),
        }
    }

    /// Takes the state of `connection_id` out of the map (the start state if it had none).
    fn take_state(&mut self, connection_id: &str) -> (r: (String, ManagedAuthorizationState))
        ensures
            r.0@ == connection_id@,
            r.1 == state_for(old(self).states(), connection_id@),
            final(self).states() == old(self).states().remove(connection_id@),
    {
        let key = connection_id.to_owned();
        let cur = match self.shared.states.remove(&key) {
            Some(s) => s,
            None => ManagedAuthorizationState::start(),
        };
        (key, cur)
    }

    /// Applies an initiating-side event to the connection `connection_id`.
    ///
    /// The connection gets the start state if it had none; the result is the new initiating
    /// state, or why the event was refused (in which case the connection's state is unchanged).
    pub fn next_initiating_state(&mut self, connection_id: &str, action: AuthorizationInitiatingAction) -> (r: Result<
        AuthorizationInitiatingState,
        AuthorizationActionError,
    >)
        ensures
            ({
                let (s, res) = initiating_transition(state_for(old(self).states(), connection_id@), action);
                final(self).states() == old(self).states().insert(connection_id@, s) && r == res
            }),
    {
        let (key, mut cur_state) = self.take_state(connection_id);
        let r = Self::apply_initiating(&mut cur_state, action);
        self.shared.states.insert(key, cur_state);
        proof {
            assert(self.states() =~= old(self).states().insert(connection_id@, cur_state));
        }
        r
    }

    /// Applies an accepting-side event to the connection `connection_id`.
    ///
    /// The connection gets the start state if it had none; the result is the new accepting
    /// state, or why the event was refused (in which case the connection's state is unchanged).
    pub fn next_accepting_state(&mut self, connection_id: &str, action: AuthorizationAcceptingAction) -> (r: Result<
        AuthorizationAcceptingState,
        AuthorizationActionError,
    >)
        ensures
            ({
                let (s, res) = accepting_transition(state_for(old(self).states(), connection_id@), action);
                final(self).states() == old(self).states().insert(connection_id@, s) && r == res
            }),
    {
        let (key, mut cur_state) = self.take_state(connection_id);
        let r = Self::apply_accepting(&mut cur_state, action);
        self.shared.states.insert(key, cur_state);
        proof {
            assert(self.states() =~= old(self).states().insert(connection_id@, cur_state));
        }
        r
    }

    /// Records that the remote sent its completion message.
    pub fn received_complete(&mut self, connection_id: &str) -> (r: Result<(), AuthorizationActionError>)
        ensures
            r is Ok,
            final(self).states() == old(self).states().insert(
                connection_id@,
                received_complete_transition(state_for(old(self).states(), connection_id@)),
            ),
    {
        let (key, mut cur_state) = self.take_state(connection_id);
        cur_state.received_complete = true;
        if let AuthorizationInitiatingState::WaitForComplete = cur_state.initiating_state {
            cur_state.initiating_state = AuthorizationInitiatingState::AuthorizedAndComplete;
        }
        self.shared.states.insert(key, cur_state);
        proof {
            assert(self.states() =~= old(self).states().insert(connection_id@, cur_state));
        }
        Ok(())
    }

    /// Records the identity the local node uses on the connection.
    pub fn set_local_authorization(&mut self, connection_id: &str, identity: Identity) -> (r: Result<
        (),
        AuthorizationActionError,
    >)
        ensures
            r is Ok,
            final(self).states() == old(self).states().insert(
                connection_id@,
                ManagedAuthorizationState {
                    local_authorization: Some(identity),
                    ..state_for(old(self).states(), connection_id@)
                },
            ),
    {
        let (key, mut cur_state) = self.take_state(connection_id);
        cur_state.local_authorization = Some(identity);
        self.shared.states.insert(key, cur_state);
        proof {
            assert(self.states() =~= old(self).states().insert(connection_id@, cur_state));
        }
        Ok(())
    }
}

} // verus!
