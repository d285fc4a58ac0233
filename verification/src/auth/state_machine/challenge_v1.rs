//! The challenge (v1) sub-machines: the initiating side asks for a nonce, signs it and submits
//! the signature; the accepting side hands out the nonce and checks the submission.
use vstd::prelude::*;

use super::{
    AuthorizationAcceptingAction, AuthorizationAcceptingState, AuthorizationActionError,
    AuthorizationInitiatingAction, AuthorizationInitiatingState, Identity,
    ManagedAuthorizationState,
};

verus! {

/// Where the accepting side of a challenge handshake stands.
#[derive(Debug, PartialEq)]
pub enum ChallengeAuthorizationAcceptingState {
    ChallengeConnecting,
    ReceivedAuthChallengeNonce,
    WaitingForAuthChallengeSubmitRequest,
    ReceivedAuthChallengeSubmitRequest(Identity),
}

impl Clone for ChallengeAuthorizationAcceptingState {
    fn clone(&self) -> (r: Self)
        ensures
            r == *self,
    {
        match self {
            ChallengeAuthorizationAcceptingState::ChallengeConnecting => {
                ChallengeAuthorizationAcceptingState::ChallengeConnecting
            },
            ChallengeAuthorizationAcceptingState::ReceivedAuthChallengeNonce => {
                ChallengeAuthorizationAcceptingState::ReceivedAuthChallengeNonce
            },
            ChallengeAuthorizationAcceptingState::WaitingForAuthChallengeSubmitRequest => {
                ChallengeAuthorizationAcceptingState::WaitingForAuthChallengeSubmitRequest
            },
            ChallengeAuthorizationAcceptingState::ReceivedAuthChallengeSubmitRequest(identity) => {
                ChallengeAuthorizationAcceptingState::ReceivedAuthChallengeSubmitRequest(identity.clone())
            },
        }
    }
}

/// Where the initiating side of a challenge handshake stands.
#[derive(Debug, PartialEq)]
pub enum ChallengeAuthorizationInitiatingState {
    ChallengeConnecting,
    WaitingForAuthChallengeNonceResponse,
    ReceivedAuthChallengeNonceResponse,
    WaitingForAuthChallengeSubmitResponse,
}

impl Clone for ChallengeAuthorizationInitiatingState {
    fn clone(&self) -> (r: Self)
        ensures
            r == *self,
    {
        match self {
            ChallengeAuthorizationInitiatingState::ChallengeConnecting => {
                ChallengeAuthorizationInitiatingState::ChallengeConnecting
            },
            ChallengeAuthorizationInitiatingState::WaitingForAuthChallengeNonceResponse => {
                ChallengeAuthorizationInitiatingState::WaitingForAuthChallengeNonceResponse
            },
            ChallengeAuthorizationInitiatingState::ReceivedAuthChallengeNonceResponse => {
                ChallengeAuthorizationInitiatingState::ReceivedAuthChallengeNonceResponse
            },
            ChallengeAuthorizationInitiatingState::WaitingForAuthChallengeSubmitResponse => {
                ChallengeAuthorizationInitiatingState::WaitingForAuthChallengeSubmitResponse
            },
        }
    }
}

/// The events on the accepting side of a challenge handshake.
#[derive(Debug, PartialEq)]
pub enum ChallengeAuthorizationAcceptingAction {
    ReceiveAuthChallengeNonceRequest,
    SendAuthChallengeNonceResponse,
    ReceiveAuthChallengeSubmitRequest(Identity),
    SendAuthChallengeSubmitResponse,
}

/// The events on the initiating side of a challenge handshake.
#[derive(Debug, PartialEq)]
pub enum ChallengeAuthorizationInitiatingAction {
    SendAuthChallengeNonceRequest,
    ReceiveAuthChallengeNonceResponse,
    SendAuthChallengeSubmitRequest,
    ReceiveAuthChallengeSubmitResponse(Identity),
}

/// The display name of an accepting challenge state.
pub open spec fn challenge_accepting_state_name(s: ChallengeAuthorizationAcceptingState) -> Seq<char> {
    match s {
        ChallengeAuthorizationAcceptingState::ChallengeConnecting => "ChallengeConnecting"@,
        ChallengeAuthorizationAcceptingState::ReceivedAuthChallengeNonce => "ReceivedAuthChallengeNonce"@,
        ChallengeAuthorizationAcceptingState::WaitingForAuthChallengeSubmitRequest => {
            "WaitingForAuthChallengeSubmitRequest"@
        },
        ChallengeAuthorizationAcceptingState::ReceivedAuthChallengeSubmitRequest(_) => {
            "ReceivedAuthChallengeSubmitRequest"@
        },
    }
}

/// The display name of an initiating challenge state.
pub open spec fn challenge_initiating_state_name(s: ChallengeAuthorizationInitiatingState) -> Seq<char> {
    match s {
        ChallengeAuthorizationInitiatingState::ChallengeConnecting => "ChallengeConnecting"@,
        ChallengeAuthorizationInitiatingState::WaitingForAuthChallengeNonceResponse => {
            "WaitingForAuthChallengeNonceResponse"@
        },
        ChallengeAuthorizationInitiatingState::ReceivedAuthChallengeNonceResponse => {
            "ReceivedAuthChallengeNonceResponse"@
        },
        ChallengeAuthorizationInitiatingState::WaitingForAuthChallengeSubmitResponse => {
            "WaitingForAuthChallengeSubmitResponse"@
        },
    }
}

/// The accepting challenge transition: nonce request, nonce response, submit request (which
/// records the proven identity), submit response (which finishes with that identity).
pub open spec fn challenge_accepting_transition(
    s: ChallengeAuthorizationAcceptingState,
    a: ChallengeAuthorizationAcceptingAction,
    cur: ManagedAuthorizationState,
) -> (ManagedAuthorizationState, Result<AuthorizationAcceptingState, AuthorizationActionError>) {
    let step = |ns: AuthorizationAcceptingState|
        (ManagedAuthorizationState { accepting_state: ns, ..cur }, Ok::<
            AuthorizationAcceptingState,
            AuthorizationActionError,
        >(ns));
    match (s, a) {
        (
            ChallengeAuthorizationAcceptingState::ChallengeConnecting,
            ChallengeAuthorizationAcceptingAction::ReceiveAuthChallengeNonceRequest,
        ) => step(
            AuthorizationAcceptingState::Challenge(
                ChallengeAuthorizationAcceptingState::ReceivedAuthChallengeNonce,
            ),
        ),
        (
            ChallengeAuthorizationAcceptingState::ReceivedAuthChallengeNonce,
            ChallengeAuthorizationAcceptingAction::SendAuthChallengeNonceResponse,
        ) => step(
            AuthorizationAcceptingState::Challenge(
                ChallengeAuthorizationAcceptingState::WaitingForAuthChallengeSubmitRequest,
            ),
        ),
        (
            ChallengeAuthorizationAcceptingState::WaitingForAuthChallengeSubmitRequest,
            ChallengeAuthorizationAcceptingAction::ReceiveAuthChallengeSubmitRequest(id),
        ) => step(
            AuthorizationAcceptingState::Challenge(
                ChallengeAuthorizationAcceptingState::ReceivedAuthChallengeSubmitRequest(id),
            ),
        ),
        (
            ChallengeAuthorizationAcceptingState::ReceivedAuthChallengeSubmitRequest(id),
            ChallengeAuthorizationAcceptingAction::SendAuthChallengeSubmitResponse,
        ) => step(AuthorizationAcceptingState::Done(id)),
        (s, a) => (
            cur,
            Err(
                AuthorizationActionError::InvalidAcceptingMessageOrder(
                    AuthorizationAcceptingState::Challenge(s),
                    AuthorizationAcceptingAction::Challenge(a),
                ),
            ),
        ),
    }
}

/// The initiating challenge transition: nonce request, nonce response, submit request, submit
/// response (which records the identity the remote confirmed and authorizes the local side).
pub open spec fn challenge_initiating_transition(
    s: ChallengeAuthorizationInitiatingState,
    a: ChallengeAuthorizationInitiatingAction,
    cur: ManagedAuthorizationState,
) -> (ManagedAuthorizationState, Result<AuthorizationInitiatingState, AuthorizationActionError>) {
    let step = |ns: AuthorizationInitiatingState|
        (ManagedAuthorizationState { initiating_state: ns, ..cur }, Ok::<
            AuthorizationInitiatingState,
            AuthorizationActionError,
        >(ns));
    match (s, a) {
        (
            ChallengeAuthorizationInitiatingState::ChallengeConnecting,
            ChallengeAuthorizationInitiatingAction::SendAuthChallengeNonceRequest,
        ) => step(
            AuthorizationInitiatingState::Challenge(
                ChallengeAuthorizationInitiatingState::WaitingForAuthChallengeNonceResponse,
            ),
        ),
        (
            ChallengeAuthorizationInitiatingState::WaitingForAuthChallengeNonceResponse,
            ChallengeAuthorizationInitiatingAction::ReceiveAuthChallengeNonceResponse,
        ) => step(
            AuthorizationInitiatingState::Challenge(
                ChallengeAuthorizationInitiatingState::ReceivedAuthChallengeNonceResponse,
            ),
        ),
        (
            ChallengeAuthorizationInitiatingState::ReceivedAuthChallengeNonceResponse,
            ChallengeAuthorizationInitiatingAction::SendAuthChallengeSubmitRequest,
        ) => step(
            AuthorizationInitiatingState::Challenge(
                ChallengeAuthorizationInitiatingState::WaitingForAuthChallengeSubmitResponse,
            ),
        ),
        (
            ChallengeAuthorizationInitiatingState::WaitingForAuthChallengeSubmitResponse,
            ChallengeAuthorizationInitiatingAction::ReceiveAuthChallengeSubmitResponse(id),
        ) => (
            ManagedAuthorizationState {
                local_authorization: Some(id),
                initiating_state: AuthorizationInitiatingState::Authorized,
                ..cur
            },
            Ok(AuthorizationInitiatingState::Authorized),
        ),
        (s, a) => (
            cur,
            Err(
                AuthorizationActionError::InvalidInitiatingMessageOrder(
                    AuthorizationInitiatingState::Challenge(s),
                    AuthorizationInitiatingAction::Challenge(a),
                ),
            ),
        ),
    }
}

impl ChallengeAuthorizationAcceptingState {
    /// The name of the state.
    pub fn name(&self) -> (s: &'static str)
        ensures
            s@ == challenge_accepting_state_name(*self),
    {
        match self {
            ChallengeAuthorizationAcceptingState::ChallengeConnecting => "ChallengeConnecting",
            ChallengeAuthorizationAcceptingState::ReceivedAuthChallengeNonce => "ReceivedAuthChallengeNonce",
            ChallengeAuthorizationAcceptingState::WaitingForAuthChallengeSubmitRequest => {
                "WaitingForAuthChallengeSubmitRequest"
            },
            ChallengeAuthorizationAcceptingState::ReceivedAuthChallengeSubmitRequest(_) => {
                "ReceivedAuthChallengeSubmitRequest"
            },
        }
    }

    /// Transitions the accepting side of a challenge handshake, updating `cur_state`.
    pub fn next_accepting_state(
        &self,
        action: ChallengeAuthorizationAcceptingAction,
        cur_state: &mut ManagedAuthorizationState,
    ) -> (r: Result<AuthorizationAcceptingState, AuthorizationActionError>)
        ensures
            (*final(cur_state), r) == challenge_accepting_transition(*self, action, *old(cur_state)),
    {
        let new_state = match self {
            ChallengeAuthorizationAcceptingState::ChallengeConnecting => match action {
                ChallengeAuthorizationAcceptingAction::ReceiveAuthChallengeNonceRequest => {
                    AuthorizationAcceptingState::Challenge(
                        ChallengeAuthorizationAcceptingState::ReceivedAuthChallengeNonce,
                    )
                },
                _ => {
                    return Err(
                        AuthorizationActionError::InvalidAcceptingMessageOrder(
                            AuthorizationAcceptingState::Challenge(self.clone()),
                            AuthorizationAcceptingAction::Challenge(action),
                        ),
                    )
                },
            },
            ChallengeAuthorizationAcceptingState::ReceivedAuthChallengeNonce => match action {
                ChallengeAuthorizationAcceptingAction::SendAuthChallengeNonceResponse => {
                    AuthorizationAcceptingState::Challenge(
                        ChallengeAuthorizationAcceptingState::WaitingForAuthChallengeSubmitRequest,
                    )
                },
                _ => {
                    return Err(
                        AuthorizationActionError::InvalidAcceptingMessageOrder(
                            AuthorizationAcceptingState::Challenge(self.clone()),
                            AuthorizationAcceptingAction::Challenge(action),
                        ),
                    )
                },
            },
            ChallengeAuthorizationAcceptingState::WaitingForAuthChallengeSubmitRequest => match action {
                ChallengeAuthorizationAcceptingAction::ReceiveAuthChallengeSubmitRequest(identity) => {
                    AuthorizationAcceptingState::Challenge(
                        ChallengeAuthorizationAcceptingState::ReceivedAuthChallengeSubmitRequest(identity),
                    )
                },
                _ => {
                    return Err(
                        AuthorizationActionError::InvalidAcceptingMessageOrder(
                            AuthorizationAcceptingState::Challenge(self.clone()),
                            AuthorizationAcceptingAction::Challenge(action),
                        ),
                    )
                },
            },
            ChallengeAuthorizationAcceptingState::ReceivedAuthChallengeSubmitRequest(identity) => match action {
                ChallengeAuthorizationAcceptingAction::SendAuthChallengeSubmitResponse => {
                    AuthorizationAcceptingState::Done(identity.clone())
                },
                _ => {
                    return Err(
                        AuthorizationActionError::InvalidAcceptingMessageOrder(
                            AuthorizationAcceptingState::Challenge(self.clone()),
                            AuthorizationAcceptingAction::Challenge(action),
                        ),
                    )
                },
            },
        };
        cur_state.accepting_state = new_state.clone();
        Ok(new_state)
    }
}

impl ChallengeAuthorizationInitiatingState {
    /// The name of the state.
    pub fn name(&self) -> (s: &'static str)
        ensures
            s@ == challenge_initiating_state_name(*self),
    {
        match self {
            ChallengeAuthorizationInitiatingState::ChallengeConnecting => "ChallengeConnecting",
            ChallengeAuthorizationInitiatingState::WaitingForAuthChallengeNonceResponse => {
                "WaitingForAuthChallengeNonceResponse"
            },
            ChallengeAuthorizationInitiatingState::ReceivedAuthChallengeNonceResponse => {
                "ReceivedAuthChallengeNonceResponse"
            },
            ChallengeAuthorizationInitiatingState::WaitingForAuthChallengeSubmitResponse => {
                "WaitingForAuthChallengeSubmitResponse"
            },
        }
    }

    /// Transitions the initiating side of a challenge handshake, updating `cur_state`.
    pub fn next_initiating_state(
        &self,
        action: ChallengeAuthorizationInitiatingAction,
        cur_state: &mut ManagedAuthorizationState,
    ) -> (r: Result<AuthorizationInitiatingState, AuthorizationActionError>)
        ensures
            (*final(cur_state), r) == challenge_initiating_transition(*self, action, *old(cur_state)),
    {
        let new_state = match self {
            ChallengeAuthorizationInitiatingState::ChallengeConnecting => match action {
                ChallengeAuthorizationInitiatingAction::SendAuthChallengeNonceRequest => {
                    AuthorizationInitiatingState::Challenge(
                        ChallengeAuthorizationInitiatingState::WaitingForAuthChallengeNonceResponse,
                    )
                },
                _ => {
                    return Err(
                        AuthorizationActionError::InvalidInitiatingMessageOrder(
                            AuthorizationInitiatingState::Challenge(self.clone()),
                            AuthorizationInitiatingAction::Challenge(action),
                        ),
                    )
                },
            },
            ChallengeAuthorizationInitiatingState::WaitingForAuthChallengeNonceResponse => match action {
                ChallengeAuthorizationInitiatingAction::ReceiveAuthChallengeNonceResponse => {
                    AuthorizationInitiatingState::Challenge(
                        ChallengeAuthorizationInitiatingState::ReceivedAuthChallengeNonceResponse,
                    )
                },
                _ => {
                    return Err(
                        AuthorizationActionError::InvalidInitiatingMessageOrder(
                            AuthorizationInitiatingState::Challenge(self.clone()),
                            AuthorizationInitiatingAction::Challenge(action),
                        ),
                    )
                },
            },
            ChallengeAuthorizationInitiatingState::ReceivedAuthChallengeNonceResponse => match action {
                ChallengeAuthorizationInitiatingAction::SendAuthChallengeSubmitRequest => {
                    AuthorizationInitiatingState::Challenge(
                        ChallengeAuthorizationInitiatingState::WaitingForAuthChallengeSubmitResponse,
                    )
                },
                _ => {
                    return Err(
                        AuthorizationActionError::InvalidInitiatingMessageOrder(
                            AuthorizationInitiatingState::Challenge(self.clone()),
                            AuthorizationInitiatingAction::Challenge(action),
                        ),
                    )
                },
            },
            ChallengeAuthorizationInitiatingState::WaitingForAuthChallengeSubmitResponse => match action {
                ChallengeAuthorizationInitiatingAction::ReceiveAuthChallengeSubmitResponse(identity) => {
                    cur_state.local_authorization = Some(identity);
                    AuthorizationInitiatingState::Authorized
                },
                _ => {
                    return Err(
                        AuthorizationActionError::InvalidInitiatingMessageOrder(
                            AuthorizationInitiatingState::Challenge(self.clone()),
                            AuthorizationInitiatingAction::Challenge(action),
                        ),
                    )
                },
            },
        };
        cur_state.initiating_state = new_state.clone();
        Ok(new_state)
    }
}

} // verus!
