//! How states, events and refusals of the authorization state machine read in messages: a
//! refused event is answered with an authorization error whose text names the state and the
//! event.
use vstd::prelude::*;
use vstd::string::StringExecFns;

use super::challenge_v1::{
    challenge_accepting_state_name, challenge_initiating_state_name, ChallengeAuthorizationAcceptingAction,
    ChallengeAuthorizationInitiatingAction,
};
use super::trust_v0::{trust_v0_state_name, TrustV0AuthorizationAction};
use super::trust_v1::{
    trust_accepting_state_name, trust_initiating_state_name, TrustAuthorizationAcceptingAction,
    TrustAuthorizationInitiatingAction,
};
use super::{
    AuthorizationAcceptingAction, AuthorizationAcceptingState, AuthorizationActionError,
    AuthorizationInitiatingAction, AuthorizationInitiatingState,
};

verus! {

/// The name of a v0 event.
pub open spec fn trust_v0_action_name(a: TrustV0AuthorizationAction) -> Seq<char> {
    match a {
        TrustV0AuthorizationAction::TrustIdentifyingV0(_) => "TrustIdentifyingV0"@,
        TrustV0AuthorizationAction::RemoteAuthorizing => "RemoteAuthorizing"@,
    }
}

/// The name of an accepting trust event.
pub open spec fn trust_accepting_action_name(a: TrustAuthorizationAcceptingAction) -> Seq<char> {
    match a {
        TrustAuthorizationAcceptingAction::ReceiveAuthTrustRequest(_) => "ReceiveAuthTrustRequest"@,
        TrustAuthorizationAcceptingAction::SendAuthTrustResponse => "SendAuthTrustResponse"@,
    }
}

/// The name of an initiating trust event.
pub open spec fn trust_initiating_action_name(a: TrustAuthorizationInitiatingAction) -> Seq<char> {
    match a {
        TrustAuthorizationInitiatingAction::SendAuthTrustRequest(_) => "SendAuthTrustRequest"@,
        TrustAuthorizationInitiatingAction::ReceiveAuthTrustResponse => "ReceiveAuthTrustResponse"@,
    }
}

/// The name of an accepting challenge event.
pub open spec fn challenge_accepting_action_name(a: ChallengeAuthorizationAcceptingAction) -> Seq<char> {
    match a {
        ChallengeAuthorizationAcceptingAction::ReceiveAuthChallengeNonceRequest => {
            "ReceiveAuthChallengeNonceRequest"@
        },
        ChallengeAuthorizationAcceptingAction::SendAuthChallengeNonceResponse => {
            "SendAuthChallengeNonceResponse"@
        },
        ChallengeAuthorizationAcceptingAction::ReceiveAuthChallengeSubmitRequest(_) => {
            "ReceiveAuthChallengeSubmitRequest"@
        },
        ChallengeAuthorizationAcceptingAction::SendAuthChallengeSubmitResponse => {
            "SendAuthChallengeSubmitResponse"@
        },
    }
}

/// The name of an initiating challenge event.
pub open spec fn challenge_initiating_action_name(a: ChallengeAuthorizationInitiatingAction) -> Seq<char> {
    match a {
        ChallengeAuthorizationInitiatingAction::SendAuthChallengeNonceRequest => {
            "SendAuthChallengeNonceRequest"@
        },
        ChallengeAuthorizationInitiatingAction::ReceiveAuthChallengeNonceResponse => {
            "ReceiveAuthChallengeNonceResponse"@
        },
        ChallengeAuthorizationInitiatingAction::SendAuthChallengeSubmitRequest => {
            "SendAuthChallengeSubmitRequest"@
        },
        ChallengeAuthorizationInitiatingAction::ReceiveAuthChallengeSubmitResponse(_) => {
            "ReceiveAuthChallengeSubmitResponse"@
        },
    }
}

/// How an accepting state reads.
pub open spec fn accepting_state_text(s: AuthorizationAcceptingState) -> Seq<char> {
    match s {
        AuthorizationAcceptingState::Start => "Start"@,
        AuthorizationAcceptingState::Done(_) => "Done"@,
        AuthorizationAcceptingState::Unauthorized => "Unauthorized"@,
        AuthorizationAcceptingState::ReceivedAuthProtocolRequest => "ReceivedAuthProtocolRequest"@,
        AuthorizationAcceptingState::SentAuthProtocolResponse => "SentAuthProtocolResponse"@,
        AuthorizationAcceptingState::TrustV0(t) => "TrustV0: "@ + trust_v0_state_name(t),
        AuthorizationAcceptingState::Trust(t) => "Trust: "@ + trust_accepting_state_name(t),
        AuthorizationAcceptingState::Challenge(c) => "Challenge: "@ + challenge_accepting_state_name(c),
    }
}

/// How an initiating state reads.
pub open spec fn initiating_state_text(s: AuthorizationInitiatingState) -> Seq<char> {
    match s {
        AuthorizationInitiatingState::Start => "Start"@,
        AuthorizationInitiatingState::WaitingForAuthProtocolResponse => "WaitingForAuthProtocolResponse"@,
        AuthorizationInitiatingState::ReceivedAuthProtocolResponse => "ReceivedAuthProtocolResponse"@,
        AuthorizationInitiatingState::Authorized => "Authorized"@,
        AuthorizationInitiatingState::WaitForComplete => "WaitForComplete"@,
        AuthorizationInitiatingState::AuthorizedAndComplete => "AuthorizedAndComplete"@,
        AuthorizationInitiatingState::Unauthorized => "Unauthorized"@,
        AuthorizationInitiatingState::Trust(t) => "Trust: "@ + trust_initiating_state_name(t),
        AuthorizationInitiatingState::Challenge(c) => "Challenge: "@ + challenge_initiating_state_name(c),
    }
}

/// How an accepting event reads.
pub open spec fn accepting_action_text(a: AuthorizationAcceptingAction) -> Seq<char> {
    match a {
        AuthorizationAcceptingAction::Connecting => "Connecting"@,
        AuthorizationAcceptingAction::ReceiveAuthProtocolRequest => "ReceiveAuthProtocolRequest"@,
        AuthorizationAcceptingAction::SendAuthProtocolResponse => "SendAuthProtocolResponse"@,
        AuthorizationAcceptingAction::TrustV0(t) => "TrusV0t: "@ + trust_v0_action_name(t),
        AuthorizationAcceptingAction::Trust(t) => "Trust: "@ + trust_accepting_action_name(t),
        AuthorizationAcceptingAction::Challenge(c) => "Challenge: "@ + challenge_accepting_action_name(c),
        AuthorizationAcceptingAction::Unauthorizing => "Unauthorizing"@,
    }
}

/// How an initiating event reads.  Receiving the protocol response reads as its sending, as
/// it always has on the wire.
pub open spec fn initiating_action_text(a: AuthorizationInitiatingAction) -> Seq<char> {
    match a {
        AuthorizationInitiatingAction::SendAuthProtocolRequest => "SendAuthProtocolRequest"@,
        AuthorizationInitiatingAction::ReceiveAuthProtocolResponse => "SendAuthProtocolResponse"@,
        AuthorizationInitiatingAction::Trust(t) => "Trust: "@ + trust_initiating_action_name(t),
        AuthorizationInitiatingAction::Challenge(c) => "Challenge: "@ + challenge_initiating_action_name(c),
        AuthorizationInitiatingAction::SendAuthComplete => "SendAuthComplete"@,
        AuthorizationInitiatingAction::Unauthorizing => "Unauthorizing"@,
    }
}

/// How a refusal reads.
pub open spec fn action_error_text(e: AuthorizationActionError) -> Seq<char> {
    match e {
        AuthorizationActionError::AlreadyConnecting => "Already attempting to connect"@,
        AuthorizationActionError::InvalidAcceptingMessageOrder(s, a) => "Attempting to transition from remote state "@
            + accepting_state_text(s) + " via "@ + accepting_action_text(a),
        AuthorizationActionError::InvalidInitiatingMessageOrder(s, a) => "Attempting to transition from locale state "@
            + initiating_state_text(s) + " via "@ + initiating_action_text(a),
        AuthorizationActionError::InternalError(msg) => msg@,
    }
}

fn push_str(out: &mut String, s: &str)
    ensures
        final(out)@ == old(out)@ + s@,
{
    out.append(s);
}

impl AuthorizationAcceptingState {
    /// Appends how this state reads.
    pub fn push_text(&self, out: &mut String)
        ensures
            final(out)@ == old(out)@ + accepting_state_text(*self),
    {
        match self {
            AuthorizationAcceptingState::Start => push_str(out, "Start"),
            AuthorizationAcceptingState::Done(_) => push_str(out, "Done"),
            AuthorizationAcceptingState::Unauthorized => push_str(out, "Unauthorized"),
            AuthorizationAcceptingState::ReceivedAuthProtocolRequest => {
                push_str(out, "ReceivedAuthProtocolRequest")
            },
            AuthorizationAcceptingState::SentAuthProtocolResponse => push_str(out, "SentAuthProtocolResponse"),
            AuthorizationAcceptingState::TrustV0(t) => {
                push_str(out, "TrustV0: ");
                push_str(out, t.name());
            },
            AuthorizationAcceptingState::Trust(t) => {
                push_str(out, "Trust: ");
                push_str(out, t.name());
            },
            AuthorizationAcceptingState::Challenge(c) => {
                push_str(out, "Challenge: ");
                push_str(out, c.name());
            },
        }
        assert(out@ =~= old(out)@ + accepting_state_text(*self));
    }
}

impl AuthorizationInitiatingState {
    /// Appends how this state reads.
    pub fn push_text(&self, out: &mut String)
        ensures
            final(out)@ == old(out)@ + initiating_state_text(*self),
    {
        match self {
            AuthorizationInitiatingState::Start => push_str(out, "Start"),
            AuthorizationInitiatingState::WaitingForAuthProtocolResponse => {
                push_str(out, "WaitingForAuthProtocolResponse")
            },
            AuthorizationInitiatingState::ReceivedAuthProtocolResponse => {
                push_str(out, "ReceivedAuthProtocolResponse")
            },
            AuthorizationInitiatingState::Authorized => push_str(out, "Authorized"),
            AuthorizationInitiatingState::WaitForComplete => push_str(out, "WaitForComplete"),
            AuthorizationInitiatingState::AuthorizedAndComplete => push_str(out, "AuthorizedAndComplete"),
            AuthorizationInitiatingState::Unauthorized => push_str(out, "Unauthorized"),
            AuthorizationInitiatingState::Trust(t) => {
                push_str(out, "Trust: ");
                push_str(out, t.name());
            },
            AuthorizationInitiatingState::Challenge(c) => {
                push_str(out, "Challenge: ");
                push_str(out, c.name());
            },
        }
        assert(out@ =~= old(out)@ + initiating_state_text(*self));
    }
}

impl AuthorizationAcceptingAction {
    /// Appends how this event reads.
    pub fn push_text(&self, out: &mut String)
        ensures
            final(out)@ == old(out)@ + accepting_action_text(*self),
    {
        match self {
            AuthorizationAcceptingAction::Connecting => push_str(out, "Connecting"),
            AuthorizationAcceptingAction::ReceiveAuthProtocolRequest => {
                push_str(out, "ReceiveAuthProtocolRequest")
            },
            AuthorizationAcceptingAction::SendAuthProtocolResponse => push_str(out, "SendAuthProtocolResponse"),
            AuthorizationAcceptingAction::TrustV0(t) => {
                push_str(out, "TrusV0t: ");
                match t {
                    TrustV0AuthorizationAction::TrustIdentifyingV0(_) => push_str(out, "TrustIdentifyingV0"),
                    TrustV0AuthorizationAction::RemoteAuthorizing => push_str(out, "RemoteAuthorizing"),
                }
            },
            AuthorizationAcceptingAction::Trust(t) => {
                push_str(out, "Trust: ");
                match t {
                    TrustAuthorizationAcceptingAction::ReceiveAuthTrustRequest(_) => {
                        push_str(out, "ReceiveAuthTrustRequest")
                    },
                    TrustAuthorizationAcceptingAction::SendAuthTrustResponse => {
                        push_str(out, "SendAuthTrustResponse")
                    },
                }
            },
            AuthorizationAcceptingAction::Challenge(c) => {
                push_str(out, "Challenge: ");
                match c {
                    ChallengeAuthorizationAcceptingAction::ReceiveAuthChallengeNonceRequest => {
                        push_str(out, "ReceiveAuthChallengeNonceRequest")
                    },
                    ChallengeAuthorizationAcceptingAction::SendAuthChallengeNonceResponse => {
                        push_str(out, "SendAuthChallengeNonceResponse")
                    },
                    ChallengeAuthorizationAcceptingAction::ReceiveAuthChallengeSubmitRequest(_) => {
                        push_str(out, "ReceiveAuthChallengeSubmitRequest")
                    },
                    ChallengeAuthorizationAcceptingAction::SendAuthChallengeSubmitResponse => {
                        push_str(out, "SendAuthChallengeSubmitResponse")
                    },
                }
            },
            AuthorizationAcceptingAction::Unauthorizing => push_str(out, "Unauthorizing"),
        }
        assert(out@ =~= old(out)@ + accepting_action_text(*self));
    }
}

impl AuthorizationInitiatingAction {
    /// Appends how this event reads.
    pub fn push_text(&self, out: &mut String)
        ensures
            final(out)@ == old(out)@ + initiating_action_text(*self),
    {
        match self {
            AuthorizationInitiatingAction::SendAuthProtocolRequest => push_str(out, "SendAuthProtocolRequest"),
            AuthorizationInitiatingAction::ReceiveAuthProtocolResponse => {
                push_str(out, "SendAuthProtocolResponse")
            },
            AuthorizationInitiatingAction::Trust(t) => {
                push_str(out, "Trust: ");
                match t {
                    TrustAuthorizationInitiatingAction::SendAuthTrustRequest(_) => {
                        push_str(out, "SendAuthTrustRequest")
                    },
                    TrustAuthorizationInitiatingAction::ReceiveAuthTrustResponse => {
                        push_str(out, "ReceiveAuthTrustResponse")
                    },
                }
            },
            AuthorizationInitiatingAction::Challenge(c) => {
                push_str(out, "Challenge: ");
                match c {
                    ChallengeAuthorizationInitiatingAction::SendAuthChallengeNonceRequest => {
                        push_str(out, "SendAuthChallengeNonceRequest")
                    },
                    ChallengeAuthorizationInitiatingAction::ReceiveAuthChallengeNonceResponse => {
                        push_str(out, "ReceiveAuthChallengeNonceResponse")
                    },
                    ChallengeAuthorizationInitiatingAction::SendAuthChallengeSubmitRequest => {
                        push_str(out, "SendAuthChallengeSubmitRequest")
                    },
                    ChallengeAuthorizationInitiatingAction::ReceiveAuthChallengeSubmitResponse(_) => {
                        push_str(out, "ReceiveAuthChallengeSubmitResponse")
                    },
                }
            },
            AuthorizationInitiatingAction::SendAuthComplete => push_str(out, "SendAuthComplete"),
            AuthorizationInitiatingAction::Unauthorizing => push_str(out, "Unauthorizing"),
        }
        assert(out@ =~= old(out)@ + initiating_action_text(*self));
    }
}

impl AuthorizationActionError {
    /// How this refusal reads.
    pub fn message(&self) -> (s: String)
        ensures
            s@ == action_error_text(*self),
    {
        let mut out = String::new();
        match self {
            AuthorizationActionError::AlreadyConnecting => push_str(&mut out, "Already attempting to connect"),
            AuthorizationActionError::InvalidAcceptingMessageOrder(s, a) => {
                push_str(&mut out, "Attempting to transition from remote state ");
                s.push_text(&mut out);
                push_str(&mut out, " via ");
                a.push_text(&mut out);
            },
            AuthorizationActionError::InvalidInitiatingMessageOrder(s, a) => {
                push_str(&mut out, "Attempting to transition from locale state ");
                s.push_text(&mut out);
                push_str(&mut out, " via ");
                a.push_text(&mut out);
            },
            AuthorizationActionError::InternalError(msg) => push_str(&mut out, msg.as_str()),
        }
        assert(out@ =~= action_error_text(*self));
        out
    }
}

} // verus!
