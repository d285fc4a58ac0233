//! Trust authorization (v0): each side sends a connect request, names itself in a trust
//! request, and accepts the other with an authorized message.  Messages out of order are
//! ignored.
use vstd::prelude::*;
use vstd::utf8::encode_utf8;

use crate::auth::handlers::{
    accept_step, carried_out, lemma_one_send, lemma_quiet, lemma_two_sends, one_send_plan, quiet_plan, send_message,
    two_send_plan, AuthorizationHandler,
};
use crate::auth::messages::{
    AuthorizationMessage, AuthorizationMessageType, AuthorizationType, Authorized, ConnectRequest,
    ConnectResponse, TrustRequest,
};
use crate::auth::state_machine::trust_v0::{TrustV0AuthorizationAction, TrustV0AuthorizationState};
use crate::auth::state_machine::{
    state_for, AuthorizationAcceptingAction, AuthorizationAcceptingState, AuthorizationManagerStateMachine, Identity, ManagedAuthorizationState,
};
use crate::dispatch::{sent_since, ConnectionId, DispatchError, Handler, MessageContext, MessageSender};
use crate::error::InvalidStateError;
use crate::wire::{network_message_bytes, NetworkMessageType};

use super::Authorization;

verus! {

/// The network bytes of a unidirectional connect request.
pub open spec fn unidirectional_request_bytes() -> Seq<u8> {
    network_message_bytes(NetworkMessageType::Authorization, seq![1u8, 2u8])
}

/// The network bytes of a connect response that accepts trust.
pub open spec fn connect_response_bytes() -> Seq<u8> {
    network_message_bytes(NetworkMessageType::Authorization, seq![2u8, 1u8])
}

/// The network bytes of a v0 trust request.
pub open spec fn trust_v0_request_bytes(identity: Seq<char>) -> Seq<u8> {
    network_message_bytes(NetworkMessageType::Authorization, seq![5u8] + encode_utf8(identity))
}

/// The network bytes of an authorized message.
pub open spec fn authorized_bytes() -> Seq<u8> {
    network_message_bytes(NetworkMessageType::Authorization, seq![3u8])
}

/// Handles authorized messages: the remote accepted us.
pub struct AuthorizedHandler;

impl AuthorizedHandler {
    pub fn new() -> (h: Self) {
        AuthorizedHandler
    }
}

impl Handler for AuthorizedHandler {
    type Source = ConnectionId;
    type MessageType = AuthorizationMessageType;
    type Message = Authorized;
    type State = AuthorizationManagerStateMachine;

    open spec fn spec_match_type(&self) -> AuthorizationMessageType {
        AuthorizationMessageType::Authorize
    }

    open spec fn handles(
        &self,
        message: Authorized,
        source: ConnectionId,
        before: AuthorizationManagerStateMachine,
        after: AuthorizationManagerStateMachine,
        sent: Seq<(ConnectionId, Seq<u8>)>,
        result: Result<(), DispatchError>,
    ) -> bool {
        carried_out(
            source,
            quiet_plan(
                accept_step(
                    before.states(),
                    source.0@,
                    AuthorizationAcceptingAction::TrustV0(TrustV0AuthorizationAction::RemoteAuthorizing),
                ).0,
            ),
            after.states(),
            sent,
            result,
        )
    }

    fn match_type(&self) -> (t: AuthorizationMessageType) {
        AuthorizationMessageType::Authorize
    }

    fn handle<S: MessageSender<ConnectionId>>(
        &self,
        message: Authorized,
        message_context: &MessageContext<ConnectionId, AuthorizationMessageType>,
        network_sender: &mut S,
        state: &mut AuthorizationManagerStateMachine,
    ) -> (r: Result<(), DispatchError>) {
        let _ = state.next_accepting_state(
            message_context.source_connection_id(),
            AuthorizationAcceptingAction::TrustV0(TrustV0AuthorizationAction::RemoteAuthorizing),
        );
        proof {
            assert(sent_since(network_sender.sent(), network_sender.sent()) =~= Seq::empty());
            lemma_quiet(
                message_context.spec_source_id(),
                state.states(),
                sent_since(network_sender.sent(), network_sender.sent()),
                Ok(()),
            );
        }
        Ok(())
    }
}

/// Handles connect requests: starts the handshake, asks the remote to connect back when it
/// asked for a bidirectional handshake, and answers that trust is accepted.  A request on a
/// connection already in the handshake is ignored.
pub struct ConnectRequestHandler;

/// What the connect request handler does with a request from `conn`.
pub open spec fn connect_request_plan(
    request: ConnectRequest,
    conn: Seq<char>,
    states: Map<Seq<char>, ManagedAuthorizationState>,
) -> (Seq<Seq<u8>>, Seq<Map<Seq<char>, ManagedAuthorizationState>>) {
    let (s1, r1) = accept_step(states, conn, AuthorizationAcceptingAction::Connecting);
    match r1 {
        Err(_) => quiet_plan(s1),
        Ok(_) => match request {
            ConnectRequest::Bidirectional => two_send_plan(unidirectional_request_bytes(), connect_response_bytes(), s1),
            ConnectRequest::Unidirectional => one_send_plan(connect_response_bytes(), s1, s1),
        },
    }
}

impl ConnectRequestHandler {
    pub fn new() -> (h: Self) {
        ConnectRequestHandler
    }
}

impl Handler for ConnectRequestHandler {
    type Source = ConnectionId;
    type MessageType = AuthorizationMessageType;
    type Message = ConnectRequest;
    type State = AuthorizationManagerStateMachine;

    open spec fn spec_match_type(&self) -> AuthorizationMessageType {
        AuthorizationMessageType::ConnectRequest
    }

    open spec fn handles(
        &self,
        message: ConnectRequest,
        source: ConnectionId,
        before: AuthorizationManagerStateMachine,
        after: AuthorizationManagerStateMachine,
        sent: Seq<(ConnectionId, Seq<u8>)>,
        result: Result<(), DispatchError>,
    ) -> bool {
        carried_out(source, connect_request_plan(message, source.0@, before.states()), after.states(), sent, result)
    }

    fn match_type(&self) -> (t: AuthorizationMessageType) {
        AuthorizationMessageType::ConnectRequest
    }

    fn handle<S: MessageSender<ConnectionId>>(
        &self,
        message: ConnectRequest,
        message_context: &MessageContext<ConnectionId, AuthorizationMessageType>,
        network_sender: &mut S,
        state: &mut AuthorizationManagerStateMachine,
    ) -> (r: Result<(), DispatchError>) {
        let ghost sent0 = network_sender.sent();
        let source = message_context.source_id();
        match state.next_accepting_state(message_context.source_connection_id(), AuthorizationAcceptingAction::Connecting) {
            Err(_) => {
                proof {
                    assert(sent_since(sent0, network_sender.sent()) =~= Seq::empty());
                    lemma_quiet(*source, state.states(), sent_since(sent0, network_sender.sent()), Ok(()));
                }
                Ok(())
            },
            Ok(_) => {
                let ghost s1 = state.states();
                let response = AuthorizationMessage::ConnectResponse(
                    ConnectResponse { accepted_authorization_types: vec![AuthorizationType::Trust] },
                );
                let response_bytes = response.to_network_bytes();
                assert(response_bytes@ =~= connect_response_bytes());
                match message {
                    ConnectRequest::Bidirectional => {
                        let request_bytes = AuthorizationMessage::ConnectRequest(ConnectRequest::Unidirectional)
                            .to_network_bytes();
                        assert(request_bytes@ =~= unidirectional_request_bytes());
                        let r1 = send_message(network_sender, source, request_bytes);
                        let r = if r1.is_ok() {
                            send_message(network_sender, source, response_bytes)
                        } else {
                            r1
                        };
                        proof {
                            let sent = sent_since(sent0, network_sender.sent());
                            if r1 is Ok {
                                assert(sent =~= seq![
                                    (*source, unidirectional_request_bytes()),
                                    (*source, connect_response_bytes()),
                                ]);
                            } else {
                                assert(sent =~= seq![(*source, unidirectional_request_bytes())]);
                            }
                            lemma_two_sends(*source, unidirectional_request_bytes(), connect_response_bytes(), s1, sent, r);
                        }
                        r
                    },
                    ConnectRequest::Unidirectional => {
                        let r = send_message(network_sender, source, response_bytes);
                        proof {
                            assert(sent_since(sent0, network_sender.sent()) =~= seq![(*source, connect_response_bytes())]);
                            lemma_one_send(
                                *source,
                                connect_response_bytes(),
                                s1,
                                s1,
                                state.states(),
                                sent_since(sent0, network_sender.sent()),
                                r,
                            );
                        }
                        r
                    },
                }
            },
        }
    }
}

/// Handles connect responses: records that the local node authorizes itself by its node id
/// on the connection, and names itself if the remote accepts trust.
pub struct ConnectResponseHandler {
    identity: String,
}

/// What the connect response handler does with a response from `conn`.
pub open spec fn connect_response_plan(
    identity: String,
    response: ConnectResponse,
    conn: Seq<char>,
    states: Map<Seq<char>, ManagedAuthorizationState>,
) -> (Seq<Seq<u8>>, Seq<Map<Seq<char>, ManagedAuthorizationState>>) {
    let s1 = states.insert(
        conn,
        ManagedAuthorizationState {
            local_authorization: Some(Identity::Trust { identity }),
            ..state_for(states, conn)
        },
    );
    if response.accepted_authorization_types@.contains(AuthorizationType::Trust) {
        one_send_plan(trust_v0_request_bytes(identity@), s1, s1)
    } else {
        quiet_plan(s1)
    }
}

impl ConnectResponseHandler {
    /// The local node id.
    pub closed spec fn spec_identity(&self) -> String {
        self.identity
    }

    /// A handler for the local node `identity`.
    pub fn new(identity: String) -> (h: Self)
        ensures
            h.spec_identity() == identity,
    {
        ConnectResponseHandler { identity }
    }
}

impl Handler for ConnectResponseHandler {
    type Source = ConnectionId;
    type MessageType = AuthorizationMessageType;
    type Message = ConnectResponse;
    type State = AuthorizationManagerStateMachine;

    open spec fn spec_match_type(&self) -> AuthorizationMessageType {
        AuthorizationMessageType::ConnectResponse
    }

    open spec fn handles(
        &self,
        message: ConnectResponse,
        source: ConnectionId,
        before: AuthorizationManagerStateMachine,
        after: AuthorizationManagerStateMachine,
        sent: Seq<(ConnectionId, Seq<u8>)>,
        result: Result<(), DispatchError>,
    ) -> bool {
        carried_out(
            source,
            connect_response_plan(self.spec_identity(), message, source.0@, before.states()),
            after.states(),
            sent,
            result,
        )
    }

    fn match_type(&self) -> (t: AuthorizationMessageType) {
        AuthorizationMessageType::ConnectResponse
    }

    fn handle<S: MessageSender<ConnectionId>>(
        &self,
        message: ConnectResponse,
        message_context: &MessageContext<ConnectionId, AuthorizationMessageType>,
        network_sender: &mut S,
        state: &mut AuthorizationManagerStateMachine,
    ) -> (r: Result<(), DispatchError>) {
        let ghost sent0 = network_sender.sent();
        let source = message_context.source_id();
        let _ = state.set_local_authorization(
            message_context.source_connection_id(),
            Identity::Trust { identity: self.identity.clone() },
        );
        let ghost s1 = state.states();
        let mut accepts_trust = false;
        for i in 0..message.accepted_authorization_types.len()
            invariant
                accepts_trust == (exists|j: int|
                    0 <= j < i && message.accepted_authorization_types@[j] == AuthorizationType::Trust),
        {
            if message.accepted_authorization_types[i] == AuthorizationType::Trust {
                accepts_trust = true;
            }
        }
        if accepts_trust {
            let request = AuthorizationMessage::TrustRequest(TrustRequest { identity: self.identity.clone() });
            let request_bytes = request.to_network_bytes();
            assert(request_bytes@ =~= trust_v0_request_bytes(self.identity@));
            let r = send_message(network_sender, source, request_bytes);
            proof {
                assert(sent_since(sent0, network_sender.sent()) =~= seq![(*source, trust_v0_request_bytes(self.identity@))]);
                lemma_one_send(
                    *source,
                    trust_v0_request_bytes(self.identity@),
                    s1,
                    s1,
                    state.states(),
                    sent_since(sent0, network_sender.sent()),
                    r,
                );
            }
            r
        } else {
            proof {
                assert(sent_since(sent0, network_sender.sent()) =~= Seq::empty());
                lemma_quiet(*source, s1, sent_since(sent0, network_sender.sent()), Ok(()));
            }
            Ok(())
        }
    }
}

/// Handles v0 trust requests: records the identity the remote claims and accepts it.  A
/// request out of order is ignored.
pub struct TrustRequestHandler;

/// What the v0 trust request handler does with a request from `conn`.
pub open spec fn trust_v0_request_plan(
    request: TrustRequest,
    conn: Seq<char>,
    states: Map<Seq<char>, ManagedAuthorizationState>,
) -> (Seq<Seq<u8>>, Seq<Map<Seq<char>, ManagedAuthorizationState>>) {
    let (s1, r1) = accept_step(
        states,
        conn,
        AuthorizationAcceptingAction::TrustV0(
            TrustV0AuthorizationAction::TrustIdentifyingV0(Identity::Trust { identity: request.identity }),
        ),
    );
    match r1 {
        Err(_) => quiet_plan(s1),
        Ok(_) => one_send_plan(authorized_bytes(), s1, s1),
    }
}

impl TrustRequestHandler {
    pub fn new() -> (h: Self) {
        TrustRequestHandler
    }
}

impl Handler for TrustRequestHandler {
    type Source = ConnectionId;
    type MessageType = AuthorizationMessageType;
    type Message = TrustRequest;
    type State = AuthorizationManagerStateMachine;

    open spec fn spec_match_type(&self) -> AuthorizationMessageType {
        AuthorizationMessageType::TrustRequest
    }

    open spec fn handles(
        &self,
        message: TrustRequest,
        source: ConnectionId,
        before: AuthorizationManagerStateMachine,
        after: AuthorizationManagerStateMachine,
        sent: Seq<(ConnectionId, Seq<u8>)>,
        result: Result<(), DispatchError>,
    ) -> bool {
        carried_out(source, trust_v0_request_plan(message, source.0@, before.states()), after.states(), sent, result)
    }

    fn match_type(&self) -> (t: AuthorizationMessageType) {
        AuthorizationMessageType::TrustRequest
    }

    fn handle<S: MessageSender<ConnectionId>>(
        &self,
        message: TrustRequest,
        message_context: &MessageContext<ConnectionId, AuthorizationMessageType>,
        network_sender: &mut S,
        state: &mut AuthorizationManagerStateMachine,
    ) -> (r: Result<(), DispatchError>) {
        let ghost sent0 = network_sender.sent();
        let source = message_context.source_id();
        match state.next_accepting_state(
            message_context.source_connection_id(),
            AuthorizationAcceptingAction::TrustV0(
                TrustV0AuthorizationAction::TrustIdentifyingV0(Identity::Trust { identity: message.identity }),
            ),
        ) {
            Err(_) => {
                proof {
                    assert(sent_since(sent0, network_sender.sent()) =~= Seq::empty());
                    lemma_quiet(*source, state.states(), sent_since(sent0, network_sender.sent()), Ok(()));
                }
                Ok(())
            },
            Ok(_) => {
                let ghost s1 = state.states();
                let msg_bytes = AuthorizationMessage::Authorized(Authorized).to_network_bytes();
                assert(msg_bytes@ =~= authorized_bytes());
                let r = send_message(network_sender, source, msg_bytes);
                proof {
                    assert(sent_since(sent0, network_sender.sent()) =~= seq![(*source, authorized_bytes())]);
                    lemma_one_send(
                        *source,
                        authorized_bytes(),
                        s1,
                        s1,
                        state.states(),
                        sent_since(sent0, network_sender.sent()),
                        r,
                    );
                }
                r
            },
        }
    }
}

/// Trust authorization of the v0 handshake, for the local node `identity`: its handlers.
pub struct TrustV0Authorization {
    identity: String,
}

impl TrustV0Authorization {
    /// The local node id.
    pub closed spec fn spec_identity(&self) -> String {
        self.identity
    }

    /// The v0 trust authorization of the local node `identity`.
    pub fn new(identity: String) -> (a: Self)
        ensures
            a.spec_identity() == identity,
    {
        TrustV0Authorization { identity }
    }
}

impl Authorization for TrustV0Authorization {
    open spec fn supplies_handlers(&self) -> bool {
        true
    }

    open spec fn handlers_are(&self, handlers: Seq<AuthorizationHandler>) -> bool {
        handlers == seq![
            AuthorizationHandler::ConnectRequest(ConnectRequestHandler),
            AuthorizationHandler::ConnectResponse(ConnectResponseHandler::new_spec(self.spec_identity())),
            AuthorizationHandler::TrustV0Request(TrustRequestHandler),
            AuthorizationHandler::Authorized(AuthorizedHandler),
        ]
    }

    fn get_handlers(&mut self) -> (r: Result<Vec<AuthorizationHandler>, InvalidStateError>)
        ensures
            r matches Ok(hs) && hs@ == seq![
                AuthorizationHandler::ConnectRequest(ConnectRequestHandler),
                AuthorizationHandler::ConnectResponse(ConnectResponseHandler::new_spec(old(self).spec_identity())),
                AuthorizationHandler::TrustV0Request(TrustRequestHandler),
                AuthorizationHandler::Authorized(AuthorizedHandler),
            ],
    {
        let mut handlers: Vec<AuthorizationHandler> = Vec::new();
        handlers.push(AuthorizationHandler::ConnectRequest(ConnectRequestHandler::new()));
        handlers.push(AuthorizationHandler::ConnectResponse(ConnectResponseHandler::new(self.identity.clone())));
        handlers.push(AuthorizationHandler::TrustV0Request(TrustRequestHandler::new()));
        handlers.push(AuthorizationHandler::Authorized(AuthorizedHandler::new()));
        assert(handlers@ =~= seq![
            AuthorizationHandler::ConnectRequest(ConnectRequestHandler),
            AuthorizationHandler::ConnectResponse(ConnectResponseHandler::new_spec(self.spec_identity())),
            AuthorizationHandler::TrustV0Request(TrustRequestHandler),
            AuthorizationHandler::Authorized(AuthorizedHandler),
        ]);
        Ok(handlers)
    }
}

impl ConnectResponseHandler {
    /// The handler for the local node `identity`.
    pub closed spec fn new_spec(identity: String) -> Self {
        ConnectResponseHandler { identity }
    }

    /// The handler made for the local node `identity` announces `identity`.
    pub proof fn lemma_new_spec_identity(identity: String)
        ensures
            Self::new_spec(identity).spec_identity() == identity,
    {
    }
}

/// A v0 trust request on a connection whose handshake has started identifies the remote with
/// the identity the request claims, whatever came of the reply; the authorized message that
/// follows then ends the accepting side done, with that identity.
pub proof fn lemma_v0_trust_request_identifies_remote(
    request: TrustRequest,
    authorized: Authorized,
    source: ConnectionId,
    before: AuthorizationManagerStateMachine,
    middle: AuthorizationManagerStateMachine,
    after: AuthorizationManagerStateMachine,
    sent1: Seq<(ConnectionId, Seq<u8>)>,
    r1: Result<(), DispatchError>,
    sent2: Seq<(ConnectionId, Seq<u8>)>,
    r2: Result<(), DispatchError>,
)
    requires
        state_for(before.states(), source.0@).accepting_state == AuthorizationAcceptingState::TrustV0(
            TrustV0AuthorizationState::Connecting,
        ),
        TrustRequestHandler.handles(request, source, before, middle, sent1, r1),
        AuthorizedHandler.handles(authorized, source, middle, after, sent2, r2),
    ensures
        middle.states().contains_key(source.0@),
        middle.states()[source.0@].accepting_state == AuthorizationAcceptingState::TrustV0(
            TrustV0AuthorizationState::RemoteIdentified(Identity::Trust { identity: request.identity }),
        ),
        after.states().contains_key(source.0@),
        after.states()[source.0@].accepting_state == AuthorizationAcceptingState::Done(
            Identity::Trust { identity: request.identity },
        ),
{
}

} // verus!
