//! Handlers of the v1 handshake: protocol negotiation and completion.
use vstd::prelude::*;
use vstd::utf8::encode_utf8;

use crate::auth::messages::{
    peer_types_bytes, AuthComplete, AuthProtocolRequest, AuthProtocolResponse, AuthTrustRequest,
    AuthorizationMessage, AuthorizationMessageType, AuthChallengeNonceRequest, PeerAuthorizationType,
};
use crate::auth::state_machine::challenge_v1::ChallengeAuthorizationInitiatingAction;
use crate::auth::state_machine::names::action_error_text;
use crate::auth::state_machine::trust_v1::TrustAuthorizationInitiatingAction;
use crate::auth::state_machine::{
    received_complete_transition, state_for, AuthorizationAcceptingAction, AuthorizationInitiatingAction,
    AuthorizationManagerStateMachine, Identity, ManagedAuthorizationState,
};
use crate::dispatch::{sent_since, ConnectionId, DispatchError, Handler, MessageContext, MessageSender};
use crate::wire::{network_message_bytes, u32_be, NetworkMessageType};

use super::{
    accept_step, carried_out, initiate_step, lemma_one_send, lemma_quiet, one_send_plan, quiet_plan, refusal_plan,
    send_authorization_error, send_message, ConnectionAuthorizationType,
};

verus! {

/// The newest version of the authorization protocol this node speaks.
pub const PEER_AUTHORIZATION_PROTOCOL_VERSION: u32 = 1;

/// The oldest version of the authorization protocol this node speaks.
pub const PEER_AUTHORIZATION_PROTOCOL_MIN: u32 = 1;

/// The protocol version to use with a peer that speaks versions `min` to `max`: the newest
/// version both speak, or 0 when they share none (or the range is empty).
pub fn supported_protocol_version(min: u32, max: u32) -> (v: u32)
    ensures
        (max < min || min > PEER_AUTHORIZATION_PROTOCOL_VERSION || max < PEER_AUTHORIZATION_PROTOCOL_MIN)
            ==> v == 0,
        !(max < min || min > PEER_AUTHORIZATION_PROTOCOL_VERSION || max < PEER_AUTHORIZATION_PROTOCOL_MIN)
            ==> v == if max < PEER_AUTHORIZATION_PROTOCOL_VERSION {
            max
        } else {
            PEER_AUTHORIZATION_PROTOCOL_VERSION
        },
{
    if max < min {
        return 0;
    }
    if min > PEER_AUTHORIZATION_PROTOCOL_VERSION {
        return 0;
    } else if max < PEER_AUTHORIZATION_PROTOCOL_MIN {
        return 0;
    }
    if max >= PEER_AUTHORIZATION_PROTOCOL_VERSION {
        PEER_AUTHORIZATION_PROTOCOL_VERSION
    } else if max > PEER_AUTHORIZATION_PROTOCOL_MIN {
        max
    } else if min > PEER_AUTHORIZATION_PROTOCOL_MIN {
        min
    } else {
        PEER_AUTHORIZATION_PROTOCOL_MIN
    }
}

/// The version `supported_protocol_version` picks.
pub open spec fn agreed_version(min: u32, max: u32) -> u32 {
    if max < min || min > PEER_AUTHORIZATION_PROTOCOL_VERSION || max < PEER_AUTHORIZATION_PROTOCOL_MIN {
        0
    } else if max < PEER_AUTHORIZATION_PROTOCOL_VERSION {
        max
    } else {
        PEER_AUTHORIZATION_PROTOCOL_VERSION
    }
}

/// The network bytes of a protocol response.
pub open spec fn protocol_response_bytes(version: u32, accepted: Seq<PeerAuthorizationType>) -> Seq<u8> {
    network_message_bytes(NetworkMessageType::Authorization, seq![8u8] + u32_be(version) + peer_types_bytes(accepted))
}

/// The network bytes of a v1 trust request.
pub open spec fn trust_request_bytes(identity: Seq<char>) -> Seq<u8> {
    network_message_bytes(NetworkMessageType::Authorization, seq![9u8] + encode_utf8(identity))
}

/// The network bytes of a nonce request.
pub open spec fn nonce_request_bytes() -> Seq<u8> {
    network_message_bytes(NetworkMessageType::Authorization, seq![11u8])
}

/// Copies a list of authorization types.
fn copy_types(v: &Vec<PeerAuthorizationType>) -> (r: Vec<PeerAuthorizationType>)
    ensures
        r@ == v@,
{
    let mut r: Vec<PeerAuthorizationType> = Vec::new();
    for i in 0..v.len()
        invariant
            r@ == v@.take(i as int),
    {
        r.push(v[i]);
        assert(r@ =~= v@.take(i + 1));
    }
    assert(v@.take(v@.len() as int) =~= v@);
    r
}

/// Whether `t` is among `types`.
fn accepts(types: &Vec<PeerAuthorizationType>, t: PeerAuthorizationType) -> (b: bool)
    ensures
        b == types@.contains(t),
{
    for i in 0..types.len()
        invariant
            forall|j: int| 0 <= j < i ==> types@[j] != t,
    {
        if types[i] == t {
            return true;
        }
    }
    false
}

/// Handles protocol requests: agrees on a version and answers with the authorization types
/// this node accepts, or refuses the connection.
pub struct AuthProtocolRequestHandler {
    accepted_authorizations: Vec<PeerAuthorizationType>,
}

/// What the protocol request handler does with a request from `conn`.
pub open spec fn protocol_request_plan(
    accepted: Seq<PeerAuthorizationType>,
    request: AuthProtocolRequest,
    conn: Seq<char>,
    states: Map<Seq<char>, ManagedAuthorizationState>,
) -> (Seq<Seq<u8>>, Seq<Map<Seq<char>, ManagedAuthorizationState>>) {
    let (s1, r1) = accept_step(states, conn, AuthorizationAcceptingAction::ReceiveAuthProtocolRequest);
    match r1 {
        Err(e) => refusal_plan(s1, conn, action_error_text(e)),
        Ok(_) => {
            let version = agreed_version(request.auth_protocol_min, request.auth_protocol_max);
            if version == 0 {
                refusal_plan(s1, conn, "Unable to agree on protocol version"@)
            } else {
                one_send_plan(
                    protocol_response_bytes(version, accepted),
                    s1,
                    accept_step(s1, conn, AuthorizationAcceptingAction::SendAuthProtocolResponse).0,
                )
            }
        },
    }
}

impl AuthProtocolRequestHandler {
    /// The authorization types offered in the response.
    pub closed spec fn spec_accepted(&self) -> Seq<PeerAuthorizationType> {
        self.accepted_authorizations@
    }

    /// A handler that offers `accepted_authorizations`.
    pub fn new(accepted_authorizations: Vec<PeerAuthorizationType>) -> (h: Self)
        ensures
            h.spec_accepted() == accepted_authorizations@,
    {
        AuthProtocolRequestHandler { accepted_authorizations }
    }
}

impl Handler for AuthProtocolRequestHandler {
    type Source = ConnectionId;
    type MessageType = AuthorizationMessageType;
    type Message = AuthProtocolRequest;
    type State = AuthorizationManagerStateMachine;

    open spec fn spec_match_type(&self) -> AuthorizationMessageType {
        AuthorizationMessageType::AuthProtocolRequest
    }

    open spec fn handles(
        &self,
        message: AuthProtocolRequest,
        source: ConnectionId,
        before: AuthorizationManagerStateMachine,
        after: AuthorizationManagerStateMachine,
        sent: Seq<(ConnectionId, Seq<u8>)>,
        result: Result<(), DispatchError>,
    ) -> bool {
        carried_out(
            source,
            protocol_request_plan(self.spec_accepted(), message, source.0@, before.states()),
            after.states(),
            sent,
            result,
        )
    }

    fn match_type(&self) -> (t: AuthorizationMessageType) {
        AuthorizationMessageType::AuthProtocolRequest
    }

    fn handle<S: MessageSender<ConnectionId>>(
        &self,
        message: AuthProtocolRequest,
        message_context: &MessageContext<ConnectionId, AuthorizationMessageType>,
        network_sender: &mut S,
        state: &mut AuthorizationManagerStateMachine,
    ) -> (r: Result<(), DispatchError>) {
        let ghost sent0 = network_sender.sent();
        let source = message_context.source_id();
        match state.next_accepting_state(
            message_context.source_connection_id(),
            AuthorizationAcceptingAction::ReceiveAuthProtocolRequest,
        ) {
            Err(err) => {
                let text = err.message();
                send_authorization_error(state, source, network_sender, text.as_str())
            },
            Ok(_) => {
                let version = supported_protocol_version(message.auth_protocol_min, message.auth_protocol_max);
                if version == 0 {
                    return send_authorization_error(
                        state,
                        source,
                        network_sender,
                        "Unable to agree on protocol version",
                    );
                }
                let ghost s1 = state.states();
                let response = AuthorizationMessage::AuthProtocolResponse(
                    AuthProtocolResponse {
                        auth_protocol: version,
                        accepted_authorization_type: copy_types(&self.accepted_authorizations),
                    },
                );
                let msg_bytes = response.to_network_bytes();
                assert(msg_bytes@ =~= protocol_response_bytes(version, self.spec_accepted()));
                let r = send_message(network_sender, source, msg_bytes);
                if r.is_ok() {
                    let _ = state.next_accepting_state(
                        message_context.source_connection_id(),
                        AuthorizationAcceptingAction::SendAuthProtocolResponse,
                    );
                }
                proof {
                    assert(sent_since(sent0, network_sender.sent()) =~= seq![(*source, protocol_response_bytes(version, self.spec_accepted()))]);
                    lemma_one_send(
                        *source,
                        protocol_response_bytes(version, self.spec_accepted()),
                        s1,
                        accept_step(s1, source.0@, AuthorizationAcceptingAction::SendAuthProtocolResponse).0,
                        state.states(),
                        sent_since(sent0, network_sender.sent()),
                        r,
                    );
                }
                r
            },
        }
    }
}

/// Handles protocol responses: starts the authorization the remote accepts (the one this
/// node is required to use, if any), or refuses the connection.
pub struct AuthProtocolResponseHandler {
    identity: String,
    required_local_auth: Option<ConnectionAuthorizationType>,
}

/// What the protocol response handler does with a response from `conn`, where `identity` is
/// the local node id and `required` the authorization the local node must use.
///
/// With no required authorization, trust is started if the remote accepts it, and then
/// challenge if the remote accepts it; the message sent is the last one prepared (nothing,
/// if the remote accepts neither).
pub open spec fn protocol_response_plan(
    identity: String,
    required: Option<ConnectionAuthorizationType>,
    response: AuthProtocolResponse,
    conn: Seq<char>,
    states: Map<Seq<char>, ManagedAuthorizationState>,
) -> (Seq<Seq<u8>>, Seq<Map<Seq<char>, ManagedAuthorizationState>>) {
    let (s1, r1) = initiate_step(states, conn, AuthorizationInitiatingAction::ReceiveAuthProtocolResponse);
    let accepts_trust = response.accepted_authorization_type@.contains(PeerAuthorizationType::Trust);
    let accepts_challenge = response.accepted_authorization_type@.contains(PeerAuthorizationType::Challenge);
    let trust_action = AuthorizationInitiatingAction::Trust(
        TrustAuthorizationInitiatingAction::SendAuthTrustRequest(Identity::Trust { identity }),
    );
    let challenge_action = AuthorizationInitiatingAction::Challenge(
        ChallengeAuthorizationInitiatingAction::SendAuthChallengeNonceRequest,
    );
    match r1 {
        Err(e) => refusal_plan(s1, conn, action_error_text(e)),
        Ok(_) => match required {
            Some(ConnectionAuthorizationType::Challenge { .. }) => if accepts_challenge {
                let s2 = initiate_step(s1, conn, challenge_action).0;
                one_send_plan(nonce_request_bytes(), s2, s2)
            } else {
                refusal_plan(s1, conn, "Required authorization type not supported"@)
            },
            Some(ConnectionAuthorizationType::Trust { .. }) => if accepts_trust {
                let s2 = initiate_step(s1, conn, trust_action).0;
                one_send_plan(trust_request_bytes(identity@), s2, s2)
            } else {
                refusal_plan(s1, conn, "Required authorization type not supported"@)
            },
            None => {
                let s2 = if accepts_trust {
                    initiate_step(s1, conn, trust_action).0
                } else {
                    s1
                };
                let s3 = if accepts_challenge {
                    initiate_step(s2, conn, challenge_action).0
                } else {
                    s2
                };
                let m = if accepts_challenge {
                    nonce_request_bytes()
                } else if accepts_trust {
                    trust_request_bytes(identity@)
                } else {
                    Seq::empty()
                };
                one_send_plan(m, s3, s3)
            },
        },
    }
}

impl AuthProtocolResponseHandler {
    /// The local node id, sent in trust requests.
    pub closed spec fn spec_identity(&self) -> String {
        self.identity
    }

    /// The authorization the local node must use, if any.
    pub closed spec fn spec_required_local_auth(&self) -> Option<ConnectionAuthorizationType> {
        self.required_local_auth
    }

    /// A handler for the local node `identity`, required to use `required_local_auth` if set.
    pub fn new(identity: String, required_local_auth: Option<ConnectionAuthorizationType>) -> (h: Self)
        ensures
            h.spec_identity() == identity,
            h.spec_required_local_auth() == required_local_auth,
    {
        AuthProtocolResponseHandler { identity, required_local_auth }
    }
}

impl Handler for AuthProtocolResponseHandler {
    type Source = ConnectionId;
    type MessageType = AuthorizationMessageType;
    type Message = AuthProtocolResponse;
    type State = AuthorizationManagerStateMachine;

    open spec fn spec_match_type(&self) -> AuthorizationMessageType {
        AuthorizationMessageType::AuthProtocolResponse
    }

    open spec fn handles(
        &self,
        message: AuthProtocolResponse,
        source: ConnectionId,
        before: AuthorizationManagerStateMachine,
        after: AuthorizationManagerStateMachine,
        sent: Seq<(ConnectionId, Seq<u8>)>,
        result: Result<(), DispatchError>,
    ) -> bool {
        carried_out(
            source,
            protocol_response_plan(
                self.spec_identity(),
                self.spec_required_local_auth(),
                message,
                source.0@,
                before.states(),
            ),
            after.states(),
            sent,
            result,
        )
    }

    fn match_type(&self) -> (t: AuthorizationMessageType) {
        AuthorizationMessageType::AuthProtocolResponse
    }

    fn handle<S: MessageSender<ConnectionId>>(
        &self,
        message: AuthProtocolResponse,
        message_context: &MessageContext<ConnectionId, AuthorizationMessageType>,
        network_sender: &mut S,
        state: &mut AuthorizationManagerStateMachine,
    ) -> (r: Result<(), DispatchError>) {
        let ghost sent0 = network_sender.sent();
        let source = message_context.source_id();
        let conn = message_context.source_connection_id();
        match state.next_initiating_state(conn, AuthorizationInitiatingAction::ReceiveAuthProtocolResponse) {
            Err(err) => {
                let text = err.message();
                return send_authorization_error(state, source, network_sender, text.as_str());
            },
            Ok(_) => {},
        }
        let accepts_trust = accepts(&message.accepted_authorization_type, PeerAuthorizationType::Trust);
        let accepts_challenge = accepts(&message.accepted_authorization_type, PeerAuthorizationType::Challenge);
        let msg_bytes: Vec<u8> = match &self.required_local_auth {
            Some(ConnectionAuthorizationType::Challenge { .. }) => {
                if accepts_challenge {
                    let _ = state.next_initiating_state(
                        conn,
                        AuthorizationInitiatingAction::Challenge(
                            ChallengeAuthorizationInitiatingAction::SendAuthChallengeNonceRequest,
                        ),
                    );
                    AuthorizationMessage::AuthChallengeNonceRequest(AuthChallengeNonceRequest).to_network_bytes()
                } else {
                    return send_authorization_error(
                        state,
                        source,
                        network_sender,
                        "Required authorization type not supported",
                    );
                }
            },
            Some(ConnectionAuthorizationType::Trust { .. }) => {
                if accepts_trust {
                    let _ = state.next_initiating_state(
                        conn,
                        AuthorizationInitiatingAction::Trust(
                            TrustAuthorizationInitiatingAction::SendAuthTrustRequest(
                                Identity::Trust { identity: self.identity.clone() },
                            ),
                        ),
                    );
                    AuthorizationMessage::AuthTrustRequest(AuthTrustRequest { identity: self.identity.clone() })
                        .to_network_bytes()
                } else {
                    return send_authorization_error(
                        state,
                        source,
                        network_sender,
                        "Required authorization type not supported",
                    );
                }
            },
            None => {
                let mut bytes: Vec<u8> = Vec::new();
                if accepts_trust {
                    let _ = state.next_initiating_state(
                        conn,
                        AuthorizationInitiatingAction::Trust(
                            TrustAuthorizationInitiatingAction::SendAuthTrustRequest(
                                Identity::Trust { identity: self.identity.clone() },
                            ),
                        ),
                    );
                    bytes = AuthorizationMessage::AuthTrustRequest(
                        AuthTrustRequest { identity: self.identity.clone() },
                    ).to_network_bytes();
                }
                if accepts_challenge {
                    let _ = state.next_initiating_state(
                        conn,
                        AuthorizationInitiatingAction::Challenge(
                            ChallengeAuthorizationInitiatingAction::SendAuthChallengeNonceRequest,
                        ),
                    );
                    bytes = AuthorizationMessage::AuthChallengeNonceRequest(AuthChallengeNonceRequest)
                        .to_network_bytes();
                }
                bytes
            },
        };
        let ghost s3 = state.states();
        let ghost m = msg_bytes@;
        let r = send_message(network_sender, source, msg_bytes);
        proof {
            assert(nonce_request_bytes() =~= crate::auth::messages::auth_network_bytes(
                AuthorizationMessage::AuthChallengeNonceRequest(AuthChallengeNonceRequest),
            ));
            assert(sent_since(sent0, network_sender.sent()) =~= seq![(*source, m)]);
            lemma_one_send(*source, m, s3, s3, state.states(), sent_since(sent0, network_sender.sent()), r);
        }
        r
    }
}

/// Handles the remote's completion message: records it, which finishes the initiating side
/// if it was waiting for it.
pub struct AuthCompleteHandler;

impl AuthCompleteHandler {
    pub fn new() -> (h: Self) {
        AuthCompleteHandler
    }
}

impl Handler for AuthCompleteHandler {
    type Source = ConnectionId;
    type MessageType = AuthorizationMessageType;
    type Message = AuthComplete;
    type State = AuthorizationManagerStateMachine;

    open spec fn spec_match_type(&self) -> AuthorizationMessageType {
        AuthorizationMessageType::AuthComplete
    }

    open spec fn handles(
        &self,
        message: AuthComplete,
        source: ConnectionId,
        before: AuthorizationManagerStateMachine,
        after: AuthorizationManagerStateMachine,
        sent: Seq<(ConnectionId, Seq<u8>)>,
        result: Result<(), DispatchError>,
    ) -> bool {
        carried_out(
            source,
            quiet_plan(
                before.states().insert(
                    source.0@,
                    received_complete_transition(state_for(before.states(), source.0@)),
                ),
            ),
            after.states(),
            sent,
            result,
        )
    }

    fn match_type(&self) -> (t: AuthorizationMessageType) {
        AuthorizationMessageType::AuthComplete
    }

    fn handle<S: MessageSender<ConnectionId>>(
        &self,
        message: AuthComplete,
        message_context: &MessageContext<ConnectionId, AuthorizationMessageType>,
        network_sender: &mut S,
        state: &mut AuthorizationManagerStateMachine,
    ) -> (r: Result<(), DispatchError>) {
        let ghost sent0 = network_sender.sent();
        match state.received_complete(message_context.source_connection_id()) {
            Err(err) => {
                let text = err.message();
                send_authorization_error(state, message_context.source_id(), network_sender, text.as_str())
            },
            Ok(()) => {
                proof {
                    assert(sent_since(sent0, network_sender.sent()) =~= Seq::empty());
                    lemma_quiet(
                        message_context.spec_source_id(),
                        state.states(),
                        sent_since(sent0, network_sender.sent()),
                        Ok(()),
                    );
                }
                Ok(())
            },
        }
    }
}

} // verus!
