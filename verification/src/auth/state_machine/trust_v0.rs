//! The accepting side of the trust (v0) handshake.
use vstd::prelude::*;

use super::{AuthorizationAcceptingAction, AuthorizationAcceptingState, AuthorizationActionError, Identity};

verus! {

/// Where the accepting side of a v0 trust handshake stands.
#[derive(Debug, PartialEq)]
pub enum TrustV0AuthorizationState {
    Connecting,
    RemoteIdentified(Identity),
    RemoteAccepted,
}

impl Clone for TrustV0AuthorizationState {
    fn clone(&self) -> (r: Self)
        ensures
            r == *self,
    {
        match self {
            TrustV0AuthorizationState::Connecting => TrustV0AuthorizationState::Connecting,
            TrustV0AuthorizationState::RemoteIdentified(identity) => {
                TrustV0AuthorizationState::RemoteIdentified(identity.clone())
            },
            TrustV0AuthorizationState::RemoteAccepted => TrustV0AuthorizationState::RemoteAccepted,
        }
    }
}

/// The events of a v0 trust handshake.
#[derive(Debug, PartialEq)]
pub enum TrustV0AuthorizationAction {
    TrustIdentifyingV0(Identity),
    RemoteAuthorizing,
}

impl TrustV0AuthorizationState {
    /// The name of the state.
    pub fn name(&self) -> (s: &'static str)
        ensures
            s@ == trust_v0_state_name(*self),
    {
        match self {
            TrustV0AuthorizationState::Connecting => "Connecting",
            TrustV0AuthorizationState::RemoteIdentified(_) => "Remote Identified",
            TrustV0AuthorizationState::RemoteAccepted => "Remote Accepted",
        }
    }

    /// Transitions from one v0 state to the next.
    ///
    /// Identifying and being accepted may arrive in either order; once both have arrived the
    /// connection is done with the identity the remote presented.
    pub fn next_state(&self, action: TrustV0AuthorizationAction) -> (r: Result<
        AuthorizationAcceptingState,
        AuthorizationActionError,
    >)
        ensures
            r == trust_v0_transition(*self, action),
    {
        match self {
            TrustV0AuthorizationState::Connecting => match action {
                TrustV0AuthorizationAction::TrustIdentifyingV0(identity) => {
                    Ok(
                        AuthorizationAcceptingState::TrustV0(
                            TrustV0AuthorizationState::RemoteIdentified(identity),
                        ),
                    )
                },
                TrustV0AuthorizationAction::RemoteAuthorizing => {
                    Ok(AuthorizationAcceptingState::TrustV0(TrustV0AuthorizationState::RemoteAccepted))
                },
            },
            TrustV0AuthorizationState::RemoteIdentified(identity) => match action {
                TrustV0AuthorizationAction::RemoteAuthorizing => {
                    Ok(AuthorizationAcceptingState::Done(identity.clone()))
                },
                _ => Err(
                    AuthorizationActionError::InvalidAcceptingMessageOrder(
                        AuthorizationAcceptingState::TrustV0(
                            TrustV0AuthorizationState::RemoteIdentified(identity.clone()),
                        ),
                        AuthorizationAcceptingAction::TrustV0(action),
                    ),
                ),
            },
            TrustV0AuthorizationState::RemoteAccepted => match action {
                TrustV0AuthorizationAction::TrustIdentifyingV0(identity) => {
                    Ok(AuthorizationAcceptingState::Done(identity))
                },
                _ => Err(
                    AuthorizationActionError::InvalidAcceptingMessageOrder(
                        AuthorizationAcceptingState::TrustV0(TrustV0AuthorizationState::RemoteAccepted),
                        AuthorizationAcceptingAction::TrustV0(action),
                    ),
                ),
            },
        }
    }
}

/// The display name of a v0 state.
pub open spec fn trust_v0_state_name(s: TrustV0AuthorizationState) -> Seq<char> {
    match s {
        TrustV0AuthorizationState::Connecting => "Connecting"@,
        TrustV0AuthorizationState::RemoteIdentified(_) => "Remote Identified"@,
        TrustV0AuthorizationState::RemoteAccepted => "Remote Accepted"@,
    }
}

/// The v0 transition table.
pub open spec fn trust_v0_transition(s: TrustV0AuthorizationState, a: TrustV0AuthorizationAction) -> Result<
    AuthorizationAcceptingState,
    AuthorizationActionError,
> {
    match (s, a) {
        (TrustV0AuthorizationState::Connecting, TrustV0AuthorizationAction::TrustIdentifyingV0(id)) => Ok(
            AuthorizationAcceptingState::TrustV0(TrustV0AuthorizationState::RemoteIdentified(id)),
        ),
        (TrustV0AuthorizationState::Connecting, TrustV0AuthorizationAction::RemoteAuthorizing) => Ok(
            AuthorizationAcceptingState::TrustV0(TrustV0AuthorizationState::RemoteAccepted),
        ),
        (TrustV0AuthorizationState::RemoteIdentified(id), TrustV0AuthorizationAction::RemoteAuthorizing) => Ok(
            AuthorizationAcceptingState::Done(id),
        ),
        (TrustV0AuthorizationState::RemoteAccepted, TrustV0AuthorizationAction::TrustIdentifyingV0(id)) => Ok(
            AuthorizationAcceptingState::Done(id),
        ),
        (s, a) => Err(
            AuthorizationActionError::InvalidAcceptingMessageOrder(
                AuthorizationAcceptingState::TrustV0(s),
                AuthorizationAcceptingAction::TrustV0(a),
            ),
        ),
    }
}

} // verus!
