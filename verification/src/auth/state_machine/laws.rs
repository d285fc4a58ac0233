//! What the authorization state machine guarantees across events: each handshake, run in
//! order, authorizes with the identity it carried; the remote's completion may come before or
//! after ours; unauthorizing ends both sides from anywhere; a refused event changes nothing.
use vstd::prelude::*;

use super::challenge_v1::{ChallengeAuthorizationAcceptingAction, ChallengeAuthorizationInitiatingAction};
use super::trust_v0::TrustV0AuthorizationAction;
use super::trust_v1::{TrustAuthorizationAcceptingAction, TrustAuthorizationInitiatingAction};
use super::{
    accepting_transition, initiating_transition, received_complete_transition, AuthorizationAcceptingAction,
    AuthorizationAcceptingState, AuthorizationInitiatingAction, AuthorizationInitiatingState, Identity,
    ManagedAuthorizationState,
};

verus! {

/// The state after the accepting events `actions`, applied in order from `s`, or the first
/// refusal.
pub open spec fn run_accepting(s: ManagedAuthorizationState, actions: Seq<AuthorizationAcceptingAction>) -> Option<
    ManagedAuthorizationState,
>
    decreases actions.len(),
{
    if actions.len() == 0 {
        Some(s)
    } else {
        let (ns, r) = accepting_transition(s, actions[0]);
        if r is Ok {
            run_accepting(ns, actions.drop_first())
        } else {
            None
        }
    }
}

/// The state after the initiating events `actions`, applied in order from `s`, or `None` at
/// the first refusal.
pub open spec fn run_initiating(s: ManagedAuthorizationState, actions: Seq<AuthorizationInitiatingAction>) -> Option<
    ManagedAuthorizationState,
>
    decreases actions.len(),
{
    if actions.len() == 0 {
        Some(s)
    } else {
        let (ns, r) = initiating_transition(s, actions[0]);
        if r is Ok {
            run_initiating(ns, actions.drop_first())
        } else {
            None
        }
    }
}

/// The accepting side of a v1 trust handshake: protocol request and response, then the
/// remote's trust request claiming `identity`, then our trust response.
pub open spec fn trust_accepting_events(identity: Identity) -> Seq<AuthorizationAcceptingAction> {
    seq![
        AuthorizationAcceptingAction::ReceiveAuthProtocolRequest,
        AuthorizationAcceptingAction::SendAuthProtocolResponse,
        AuthorizationAcceptingAction::Trust(TrustAuthorizationAcceptingAction::ReceiveAuthTrustRequest(identity)),
        AuthorizationAcceptingAction::Trust(TrustAuthorizationAcceptingAction::SendAuthTrustResponse),
    ]
}

/// The accepting side of a challenge handshake: protocol request and response, the nonce
/// request and our nonce, then the remote's signatures proving `identity` and our verdict.
pub open spec fn challenge_accepting_events(identity: Identity) -> Seq<AuthorizationAcceptingAction> {
    seq![
        AuthorizationAcceptingAction::ReceiveAuthProtocolRequest,
        AuthorizationAcceptingAction::SendAuthProtocolResponse,
        AuthorizationAcceptingAction::Challenge(ChallengeAuthorizationAcceptingAction::ReceiveAuthChallengeNonceRequest),
        AuthorizationAcceptingAction::Challenge(ChallengeAuthorizationAcceptingAction::SendAuthChallengeNonceResponse),
        AuthorizationAcceptingAction::Challenge(
            ChallengeAuthorizationAcceptingAction::ReceiveAuthChallengeSubmitRequest(identity),
        ),
        AuthorizationAcceptingAction::Challenge(ChallengeAuthorizationAcceptingAction::SendAuthChallengeSubmitResponse),
    ]
}

/// The initiating side of a v1 trust handshake: protocol request and response, our trust
/// request claiming `identity`, the remote's trust response.
pub open spec fn trust_initiating_events(identity: Identity) -> Seq<AuthorizationInitiatingAction> {
    seq![
        AuthorizationInitiatingAction::SendAuthProtocolRequest,
        AuthorizationInitiatingAction::ReceiveAuthProtocolResponse,
        AuthorizationInitiatingAction::Trust(TrustAuthorizationInitiatingAction::SendAuthTrustRequest(identity)),
        AuthorizationInitiatingAction::Trust(TrustAuthorizationInitiatingAction::ReceiveAuthTrustResponse),
    ]
}

/// The initiating side of a challenge handshake: protocol request and response, our nonce
/// request, the remote's nonce, our signatures, the remote's verdict naming `identity`.
pub open spec fn challenge_initiating_events(identity: Identity) -> Seq<AuthorizationInitiatingAction> {
    seq![
        AuthorizationInitiatingAction::SendAuthProtocolRequest,
        AuthorizationInitiatingAction::ReceiveAuthProtocolResponse,
        AuthorizationInitiatingAction::Challenge(ChallengeAuthorizationInitiatingAction::SendAuthChallengeNonceRequest),
        AuthorizationInitiatingAction::Challenge(
            ChallengeAuthorizationInitiatingAction::ReceiveAuthChallengeNonceResponse,
        ),
        AuthorizationInitiatingAction::Challenge(ChallengeAuthorizationInitiatingAction::SendAuthChallengeSubmitRequest),
        AuthorizationInitiatingAction::Challenge(
            ChallengeAuthorizationInitiatingAction::ReceiveAuthChallengeSubmitResponse(identity),
        ),
    ]
}

/// A trust handshake on the accepting side, from its start, accepts the remote with the
/// identity it claimed and leaves the initiating side as it was.
pub proof fn lemma_trust_accepting_handshake(cur: ManagedAuthorizationState, identity: Identity)
    requires
        cur.accepting_state is Start,
    ensures
        run_accepting(cur, trust_accepting_events(identity)) == Some(
            ManagedAuthorizationState { accepting_state: AuthorizationAcceptingState::Done(identity), ..cur },
        ),
{
    let es = trust_accepting_events(identity);
    reveal_with_fuel(run_accepting, 5);
    assert(es.drop_first() =~= es.subrange(1, 4));
    assert(es.subrange(1, 4).drop_first() =~= es.subrange(2, 4));
    assert(es.subrange(2, 4).drop_first() =~= es.subrange(3, 4));
    assert(es.subrange(3, 4).drop_first() =~= Seq::<AuthorizationAcceptingAction>::empty());
}

/// A challenge handshake on the accepting side, from its start, accepts the remote with the
/// identity its signatures proved and leaves the initiating side as it was.
pub proof fn lemma_challenge_accepting_handshake(cur: ManagedAuthorizationState, identity: Identity)
    requires
        cur.accepting_state is Start,
    ensures
        run_accepting(cur, challenge_accepting_events(identity)) == Some(
            ManagedAuthorizationState { accepting_state: AuthorizationAcceptingState::Done(identity), ..cur },
        ),
{
    let es = challenge_accepting_events(identity);
    reveal_with_fuel(run_accepting, 7);
    assert(es.drop_first() =~= es.subrange(1, 6));
    assert(es.subrange(1, 6).drop_first() =~= es.subrange(2, 6));
    assert(es.subrange(2, 6).drop_first() =~= es.subrange(3, 6));
    assert(es.subrange(3, 6).drop_first() =~= es.subrange(4, 6));
    assert(es.subrange(4, 6).drop_first() =~= es.subrange(5, 6));
    assert(es.subrange(5, 6).drop_first() =~= Seq::<AuthorizationAcceptingAction>::empty());
}

/// A trust handshake on the initiating side, from its start, authorizes the local side with
/// the identity it claimed and leaves the accepting side as it was.
pub proof fn lemma_trust_initiating_handshake(cur: ManagedAuthorizationState, identity: Identity)
    requires
        cur.initiating_state is Start,
    ensures
        run_initiating(cur, trust_initiating_events(identity)) == Some(
            ManagedAuthorizationState {
                initiating_state: AuthorizationInitiatingState::Authorized,
                local_authorization: Some(identity),
                ..cur
            },
        ),
{
    let es = trust_initiating_events(identity);
    reveal_with_fuel(run_initiating, 5);
    assert(es.drop_first() =~= es.subrange(1, 4));
    assert(es.subrange(1, 4).drop_first() =~= es.subrange(2, 4));
    assert(es.subrange(2, 4).drop_first() =~= es.subrange(3, 4));
    assert(es.subrange(3, 4).drop_first() =~= Seq::<AuthorizationInitiatingAction>::empty());
}

/// A challenge handshake on the initiating side, from its start, authorizes the local side
/// with the identity the remote confirmed and leaves the accepting side as it was.
pub proof fn lemma_challenge_initiating_handshake(cur: ManagedAuthorizationState, identity: Identity)
    requires
        cur.initiating_state is Start,
    ensures
        run_initiating(cur, challenge_initiating_events(identity)) == Some(
            ManagedAuthorizationState {
                initiating_state: AuthorizationInitiatingState::Authorized,
                local_authorization: Some(identity),
                ..cur
            },
        ),
{
    let es = challenge_initiating_events(identity);
    reveal_with_fuel(run_initiating, 7);
    assert(es.drop_first() =~= es.subrange(1, 6));
    assert(es.subrange(1, 6).drop_first() =~= es.subrange(2, 6));
    assert(es.subrange(2, 6).drop_first() =~= es.subrange(3, 6));
    assert(es.subrange(3, 6).drop_first() =~= es.subrange(4, 6));
    assert(es.subrange(4, 6).drop_first() =~= es.subrange(5, 6));
    assert(es.subrange(5, 6).drop_first() =~= Seq::<AuthorizationInitiatingAction>::empty());
}

/// Once the local side is authorized, it ends authorized and complete whether the remote's
/// completion comes before or after our own.
pub proof fn lemma_completion_in_either_order(cur: ManagedAuthorizationState)
    requires
        cur.initiating_state is Authorized,
        !cur.received_complete,
    ensures
        ({
            let (sent_first, r1) = initiating_transition(cur, AuthorizationInitiatingAction::SendAuthComplete);
            let received_first = received_complete_transition(cur);
            let (received_then_sent, r2) = initiating_transition(
                received_first,
                AuthorizationInitiatingAction::SendAuthComplete,
            );
            &&& r1 == Ok::<AuthorizationInitiatingState, super::AuthorizationActionError>(
                AuthorizationInitiatingState::WaitForComplete,
            )
            &&& r2 == Ok::<AuthorizationInitiatingState, super::AuthorizationActionError>(
                AuthorizationInitiatingState::AuthorizedAndComplete,
            )
            &&& received_complete_transition(sent_first) == received_then_sent
            &&& received_then_sent.initiating_state is AuthorizedAndComplete
        }),
{
}

/// A v0 handshake ends with the remote accepted under the identity it claimed, whichever of
/// its identity and our acceptance comes first.
pub proof fn lemma_trust_v0_either_order(cur: ManagedAuthorizationState, identity: Identity)
    requires
        cur.accepting_state is Start,
    ensures
        ({
            let identify = AuthorizationAcceptingAction::TrustV0(TrustV0AuthorizationAction::TrustIdentifyingV0(identity));
            let authorize = AuthorizationAcceptingAction::TrustV0(TrustV0AuthorizationAction::RemoteAuthorizing);
            let done = ManagedAuthorizationState {
                initiating_state: AuthorizationInitiatingState::AuthorizedAndComplete,
                accepting_state: AuthorizationAcceptingState::Done(identity),
                ..cur
            };
            &&& run_accepting(cur, seq![AuthorizationAcceptingAction::Connecting, identify, authorize]) == Some(done)
            &&& run_accepting(cur, seq![AuthorizationAcceptingAction::Connecting, authorize, identify]) == Some(done)
        }),
{
    let identify = AuthorizationAcceptingAction::TrustV0(TrustV0AuthorizationAction::TrustIdentifyingV0(identity));
    let authorize = AuthorizationAcceptingAction::TrustV0(TrustV0AuthorizationAction::RemoteAuthorizing);
    let a = seq![AuthorizationAcceptingAction::Connecting, identify, authorize];
    let b = seq![AuthorizationAcceptingAction::Connecting, authorize, identify];
    reveal_with_fuel(run_accepting, 4);
    assert(a.drop_first() =~= seq![identify, authorize]);
    assert(seq![identify, authorize].drop_first() =~= seq![authorize]);
    assert(b.drop_first() =~= seq![authorize, identify]);
    assert(seq![authorize, identify].drop_first() =~= seq![identify]);
    assert(seq![identify].drop_first() =~= Seq::<AuthorizationAcceptingAction>::empty());
    assert(seq![authorize].drop_first() =~= Seq::<AuthorizationAcceptingAction>::empty());
}

/// Unauthorizing, from either side and from any state, ends both sides unauthorized and
/// keeps the rest.
pub proof fn lemma_unauthorizing_ends_both_sides(cur: ManagedAuthorizationState)
    ensures
        ({
            let ended = ManagedAuthorizationState {
                initiating_state: AuthorizationInitiatingState::Unauthorized,
                accepting_state: AuthorizationAcceptingState::Unauthorized,
                ..cur
            };
            &&& accepting_transition(cur, AuthorizationAcceptingAction::Unauthorizing) == (
                ended,
                Ok::<AuthorizationAcceptingState, super::AuthorizationActionError>(
                    AuthorizationAcceptingState::Unauthorized,
                ),
            )
            &&& initiating_transition(cur, AuthorizationInitiatingAction::Unauthorizing) == (
                ended,
                Ok::<AuthorizationInitiatingState, super::AuthorizationActionError>(
                    AuthorizationInitiatingState::Unauthorized,
                ),
            )
        }),
{
}

/// An event that is refused leaves the connection's state as it was.
pub proof fn lemma_refusal_keeps_state(
    cur: ManagedAuthorizationState,
    accepting: AuthorizationAcceptingAction,
    initiating: AuthorizationInitiatingAction,
)
    ensures
        accepting_transition(cur, accepting).1 is Err ==> accepting_transition(cur, accepting).0 == cur,
        initiating_transition(cur, initiating).1 is Err ==> initiating_transition(cur, initiating).0 == cur,
{
}

} // verus!
