//! The trust (v1) sub-machines: the initiating side sends its identity and waits for the
//! response; the accepting side receives the identity and answers.
use vstd::prelude::*;

use super::{
    AuthorizationAcceptingAction, AuthorizationAcceptingState, AuthorizationActionError,
    AuthorizationInitiatingAction, AuthorizationInitiatingState, Identity,
    ManagedAuthorizationState,
};

verus! {

/// Where the initiating side of a trust handshake stands.
#[derive(Debug, PartialEq)]
pub enum TrustAuthorizationInitiatingState {
    TrustConnecting,
    WaitingForAuthTrustResponse,
}

impl Clone for TrustAuthorizationInitiatingState {
    fn clone(&self) -> (r: Self)
        ensures
            r == *self,
    {
        match self {
            TrustAuthorizationInitiatingState::TrustConnecting => TrustAuthorizationInitiatingState::TrustConnecting,
            TrustAuthorizationInitiatingState::WaitingForAuthTrustResponse => {
                TrustAuthorizationInitiatingState::WaitingForAuthTrustResponse
            },
        }
    }
}

/// Where the accepting side of a trust handshake stands.
#[derive(Debug, PartialEq)]
pub enum TrustAuthorizationAcceptingState {
    TrustConnecting,
    ReceivedAuthTrustRequest(Identity),
}

impl Clone for TrustAuthorizationAcceptingState {
    fn clone(&self) -> (r: Self)
        ensures
            r == *self,
    {
        match self {
            TrustAuthorizationAcceptingState::TrustConnecting => TrustAuthorizationAcceptingState::TrustConnecting,
            TrustAuthorizationAcceptingState::ReceivedAuthTrustRequest(identity) => {
                TrustAuthorizationAcceptingState::ReceivedAuthTrustRequest(identity.clone())
            },
        }
    }
}

/// The events on the accepting side of a trust handshake.
#[derive(Debug, PartialEq)]
pub enum TrustAuthorizationAcceptingAction {
    ReceiveAuthTrustRequest(Identity),
    SendAuthTrustResponse,
}

/// The events on the initiating side of a trust handshake.
#[derive(Debug, PartialEq)]
pub enum TrustAuthorizationInitiatingAction {
    SendAuthTrustRequest(Identity),
    ReceiveAuthTrustResponse,
}

/// The display name of an initiating trust state.
pub open spec fn trust_initiating_state_name(s: TrustAuthorizationInitiatingState) -> Seq<char> {
    match s {
        TrustAuthorizationInitiatingState::TrustConnecting => "TrustConnecting"@,
        TrustAuthorizationInitiatingState::WaitingForAuthTrustResponse => "WaitingForAuthTrustResponse"@,
    }
}

/// The display name of an accepting trust state.
pub open spec fn trust_accepting_state_name(s: TrustAuthorizationAcceptingState) -> Seq<char> {
    match s {
        TrustAuthorizationAcceptingState::TrustConnecting => "TrustConnecting"@,
        TrustAuthorizationAcceptingState::ReceivedAuthTrustRequest(_) => "ReceiveAuthTrustRequest"@,
    }
}

/// The initiating trust transition: the new managed state and the result.
///
/// Sending the request records the local identity; receiving the response authorizes the
/// local side.
pub open spec fn trust_initiating_transition(
    s: TrustAuthorizationInitiatingState,
    a: TrustAuthorizationInitiatingAction,
    cur: ManagedAuthorizationState,
) -> (ManagedAuthorizationState, Result<AuthorizationInitiatingState, AuthorizationActionError>) {
    match (s, a) {
        (
            TrustAuthorizationInitiatingState::TrustConnecting,
            TrustAuthorizationInitiatingAction::SendAuthTrustRequest(id),
        ) => {
            let ns = AuthorizationInitiatingState::Trust(
                TrustAuthorizationInitiatingState::WaitingForAuthTrustResponse,
            );
            (ManagedAuthorizationState { local_authorization: Some(id), initiating_state: ns, ..cur }, Ok(ns))
        },
        (
            TrustAuthorizationInitiatingState::WaitingForAuthTrustResponse,
            TrustAuthorizationInitiatingAction::ReceiveAuthTrustResponse,
        ) => {
            let ns = AuthorizationInitiatingState::Authorized;
            (ManagedAuthorizationState { initiating_state: ns, ..cur }, Ok(ns))
        },
        (s, a) => (
            cur,
            Err(
                AuthorizationActionError::InvalidInitiatingMessageOrder(
                    AuthorizationInitiatingState::Trust(s),
                    AuthorizationInitiatingAction::Trust(a),
                ),
            ),
        ),
    }
}

/// The accepting trust transition: the new managed state and the result.
///
/// Receiving the request records the remote identity; sending the response finishes the
/// accepting side with that identity.
pub open spec fn trust_accepting_transition(
    s: TrustAuthorizationAcceptingState,
    a: TrustAuthorizationAcceptingAction,
    cur: ManagedAuthorizationState,
) -> (ManagedAuthorizationState, Result<AuthorizationAcceptingState, AuthorizationActionError>) {
    match (s, a) {
        (
            TrustAuthorizationAcceptingState::TrustConnecting,
            TrustAuthorizationAcceptingAction::ReceiveAuthTrustRequest(id),
        ) => {
            let ns = AuthorizationAcceptingState::Trust(
                TrustAuthorizationAcceptingState::ReceivedAuthTrustRequest(id),
            );
            (ManagedAuthorizationState { accepting_state: ns, ..cur }, Ok(ns))
        },
        (
            TrustAuthorizationAcceptingState::ReceivedAuthTrustRequest(id),
            TrustAuthorizationAcceptingAction::SendAuthTrustResponse,
        ) => {
            let ns = AuthorizationAcceptingState::Done(id);
            (ManagedAuthorizationState { accepting_state: ns, ..cur }, Ok(ns))
        },
        (s, a) => (
            cur,
            Err(
                AuthorizationActionError::InvalidAcceptingMessageOrder(
                    AuthorizationAcceptingState::Trust(s),
                    AuthorizationAcceptingAction::Trust(a),
                ),
            ),
        ),
    }
}

impl TrustAuthorizationInitiatingState {
    /// The name of the state.
    pub fn name(&self) -> (s: &'static str)
        ensures
            s@ == trust_initiating_state_name(*self),
    {
        match self {
            TrustAuthorizationInitiatingState::TrustConnecting => "TrustConnecting",
            TrustAuthorizationInitiatingState::WaitingForAuthTrustResponse => "WaitingForAuthTrustResponse",
        }
    }

    /// Transitions the initiating side of a trust handshake, updating `cur_state`.
    pub fn next_initiating_state(
        &self,
        action: TrustAuthorizationInitiatingAction,
        cur_state: &mut ManagedAuthorizationState,
    ) -> (r: Result<AuthorizationInitiatingState, AuthorizationActionError>)
        ensures
            (*final(cur_state), r) == trust_initiating_transition(*self, action, *old(cur_state)),
    {
        match self {
            TrustAuthorizationInitiatingState::TrustConnecting => match action {
                TrustAuthorizationInitiatingAction::SendAuthTrustRequest(identity) => {
                    cur_state.local_authorization = Some(identity);
                    let new_state = AuthorizationInitiatingState::Trust(
                        TrustAuthorizationInitiatingState::WaitingForAuthTrustResponse,
                    );
                    cur_state.initiating_state = new_state.clone();
                    Ok(new_state)
                },
                _ => Err(
                    AuthorizationActionError::InvalidInitiatingMessageOrder(
                        AuthorizationInitiatingState::Trust(self.clone()),
                        AuthorizationInitiatingAction::Trust(action),
                    ),
                ),
            },
            TrustAuthorizationInitiatingState::WaitingForAuthTrustResponse => match action {
                TrustAuthorizationInitiatingAction::ReceiveAuthTrustResponse => {
                    let new_state = AuthorizationInitiatingState::Authorized;
                    cur_state.initiating_state = new_state.clone();
                    Ok(new_state)
                },
                _ => Err(
                    AuthorizationActionError::InvalidInitiatingMessageOrder(
                        AuthorizationInitiatingState::Trust(self.clone()),
                        AuthorizationInitiatingAction::Trust(action),
                    ),
                ),
            },
        }
    }
}

impl TrustAuthorizationAcceptingState {
    /// The name of the state.
    pub fn name(&self) -> (s: &'static str)
        ensures
            s@ == trust_accepting_state_name(*self),
    {
        match self {
            TrustAuthorizationAcceptingState::TrustConnecting => "TrustConnecting",
            TrustAuthorizationAcceptingState::ReceivedAuthTrustRequest(_) => "ReceiveAuthTrustRequest",
        }
    }

    /// Transitions the accepting side of a trust handshake, updating `cur_state`.
    pub fn next_accepting_state(
        &self,
        action: TrustAuthorizationAcceptingAction,
        cur_state: &mut ManagedAuthorizationState,
    ) -> (r: Result<AuthorizationAcceptingState, AuthorizationActionError>)
        ensures
            (*final(cur_state), r) == trust_accepting_transition(*self, action, *old(cur_state)),
    {
        match self {
            TrustAuthorizationAcceptingState::TrustConnecting => match action {
                TrustAuthorizationAcceptingAction::ReceiveAuthTrustRequest(identity) => {
                    let new_state = AuthorizationAcceptingState::Trust(
                        TrustAuthorizationAcceptingState::ReceivedAuthTrustRequest(identity),
                    );
                    cur_state.accepting_state = new_state.clone();
                    Ok(new_state)
                },
                _ => Err(
                    AuthorizationActionError::InvalidAcceptingMessageOrder(
                        AuthorizationAcceptingState::Trust(self.clone()),
                        AuthorizationAcceptingAction::Trust(action),
                    ),
                ),
            },
            TrustAuthorizationAcceptingState::ReceivedAuthTrustRequest(identity) => match action {
                TrustAuthorizationAcceptingAction::SendAuthTrustResponse => {
                    cur_state.accepting_state = AuthorizationAcceptingState::Done(identity.clone());
                    Ok(AuthorizationAcceptingState::Done(identity.clone()))
                },
                _ => Err(
                    AuthorizationActionError::InvalidAcceptingMessageOrder(
                        AuthorizationAcceptingState::Trust(self.clone()),
                        AuthorizationAcceptingAction::Trust(action),
                    ),
                ),
            },
        }
    }
}

} // verus!
