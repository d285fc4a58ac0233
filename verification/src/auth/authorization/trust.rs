//! Trust authorization (v1): the initiating side names itself, the accepting side accepts the
//! name.
use vstd::prelude::*;

use crate::auth::handlers::{
    accept_step, carried_out, initiate_step, lemma_one_send, one_send_plan, refusal_plan, send_authorization_error,
    send_message, AuthorizationHandler,
};
use crate::auth::messages::{
    AuthComplete, AuthTrustRequest, AuthTrustResponse, AuthorizationMessage, AuthorizationMessageType,
};
use crate::auth::state_machine::names::action_error_text;
use crate::auth::state_machine::trust_v1::{TrustAuthorizationAcceptingAction, TrustAuthorizationInitiatingAction};
use crate::auth::state_machine::{
    AuthorizationAcceptingAction, AuthorizationInitiatingAction, AuthorizationManagerStateMachine, Identity,
    ManagedAuthorizationState,
};
use crate::dispatch::{sent_since, ConnectionId, DispatchError, Handler, MessageContext, MessageSender};
use crate::error::InvalidStateError;
use crate::wire::{network_message_bytes, NetworkMessageType};

use super::Authorization;

verus! {

/// The network bytes of a v1 trust response.
pub open spec fn trust_response_bytes() -> Seq<u8> {
    network_message_bytes(NetworkMessageType::Authorization, seq![10u8])
}

/// The network bytes of a completion message.
pub open spec fn complete_bytes() -> Seq<u8> {
    network_message_bytes(NetworkMessageType::Authorization, seq![6u8])
}

/// Handles v1 trust requests: records the identity the remote claims and accepts it.
pub struct AuthTrustRequestHandler;

/// What the trust request handler does with a request from `conn`.
pub open spec fn trust_request_plan(
    request: AuthTrustRequest,
    conn: Seq<char>,
    states: Map<Seq<char>, ManagedAuthorizationState>,
) -> (Seq<Seq<u8>>, Seq<Map<Seq<char>, ManagedAuthorizationState>>) {
    let (s1, r1) = accept_step(
        states,
        conn,
        AuthorizationAcceptingAction::Trust(
            TrustAuthorizationAcceptingAction::ReceiveAuthTrustRequest(Identity::Trust { identity: request.identity }),
        ),
    );
    match r1 {
        Err(e) => refusal_plan(s1, conn, action_error_text(e)),
        Ok(_) => one_send_plan(
            trust_response_bytes(),
            s1,
            accept_step(
                s1,
                conn,
                AuthorizationAcceptingAction::Trust(TrustAuthorizationAcceptingAction::SendAuthTrustResponse),
            ).0,
        ),
    }
}

impl AuthTrustRequestHandler {
    pub fn new() -> (h: Self) {
        AuthTrustRequestHandler
    }
}

impl Handler for AuthTrustRequestHandler {
    type Source = ConnectionId;
    type MessageType = AuthorizationMessageType;
    type Message = AuthTrustRequest;
    type State = AuthorizationManagerStateMachine;

    open spec fn spec_match_type(&self) -> AuthorizationMessageType {
        AuthorizationMessageType::AuthTrustRequest
    }

    open spec fn handles(
        &self,
        message: AuthTrustRequest,
        source: ConnectionId,
        before: AuthorizationManagerStateMachine,
        after: AuthorizationManagerStateMachine,
        sent: Seq<(ConnectionId, Seq<u8>)>,
        result: Result<(), DispatchError>,
    ) -> bool {
        carried_out(source, trust_request_plan(message, source.0@, before.states()), after.states(), sent, result)
    }

    fn match_type(&self) -> (t: AuthorizationMessageType) {
        AuthorizationMessageType::AuthTrustRequest
    }

    fn handle<S: MessageSender<ConnectionId>>(
        &self,
        message: AuthTrustRequest,
        message_context: &MessageContext<ConnectionId, AuthorizationMessageType>,
        network_sender: &mut S,
        state: &mut AuthorizationManagerStateMachine,
    ) -> (r: Result<(), DispatchError>) {
        let ghost sent0 = network_sender.sent();
        let source = message_context.source_id();
        let conn = message_context.source_connection_id();
        match state.next_accepting_state(
            conn,
            AuthorizationAcceptingAction::Trust(
                TrustAuthorizationAcceptingAction::ReceiveAuthTrustRequest(
                    Identity::Trust { identity: message.identity },
                ),
            ),
        ) {
            Err(err) => {
                let text = err.message();
                send_authorization_error(state, source, network_sender, text.as_str())
            },
            Ok(_) => {
                let ghost s1 = state.states();
                let msg_bytes = AuthorizationMessage::AuthTrustResponse(AuthTrustResponse).to_network_bytes();
                assert(msg_bytes@ =~= trust_response_bytes());
                let r = send_message(network_sender, source, msg_bytes);
                if r.is_ok() {
                    let _ = state.next_accepting_state(
                        conn,
                        AuthorizationAcceptingAction::Trust(TrustAuthorizationAcceptingAction::SendAuthTrustResponse),
                    );
                }
                proof {
                    assert(sent_since(sent0, network_sender.sent()) =~= seq![(*source, trust_response_bytes())]);
                    lemma_one_send(
                        *source,
                        trust_response_bytes(),
                        s1,
                        accept_step(
                            s1,
                            source.0@,
                            AuthorizationAcceptingAction::Trust(
                                TrustAuthorizationAcceptingAction::SendAuthTrustResponse,
                            ),
                        ).0,
                        state.states(),
                        sent_since(sent0, network_sender.sent()),
                        r,
                    );
                }
                r
            },
        }
    }
}

/// Handles v1 trust responses: the remote accepted us, so the local side is authorized and
/// the completion message is sent.
pub struct AuthTrustResponseHandler;

/// What the trust response handler does with a response from `conn`.
pub open spec fn trust_response_plan(conn: Seq<char>, states: Map<Seq<char>, ManagedAuthorizationState>) -> (
    Seq<Seq<u8>>,
    Seq<Map<Seq<char>, ManagedAuthorizationState>>,
) {
    let (s1, r1) = initiate_step(
        states,
        conn,
        AuthorizationInitiatingAction::Trust(TrustAuthorizationInitiatingAction::ReceiveAuthTrustResponse),
    );
    match r1 {
        Err(e) => refusal_plan(s1, conn, action_error_text(e)),
        Ok(_) => one_send_plan(
            complete_bytes(),
            s1,
            initiate_step(s1, conn, AuthorizationInitiatingAction::SendAuthComplete).0,
        ),
    }
}

impl AuthTrustResponseHandler {
    pub fn new() -> (h: Self) {
        AuthTrustResponseHandler
    }
}

impl Handler for AuthTrustResponseHandler {
    type Source = ConnectionId;
    type MessageType = AuthorizationMessageType;
    type Message = AuthTrustResponse;
    type State = AuthorizationManagerStateMachine;

    open spec fn spec_match_type(&self) -> AuthorizationMessageType {
        AuthorizationMessageType::AuthTrustResponse
    }

    open spec fn handles(
        &self,
        message: AuthTrustResponse,
        source: ConnectionId,
        before: AuthorizationManagerStateMachine,
        after: AuthorizationManagerStateMachine,
        sent: Seq<(ConnectionId, Seq<u8>)>,
        result: Result<(), DispatchError>,
    ) -> bool {
        carried_out(source, trust_response_plan(source.0@, before.states()), after.states(), sent, result)
    }

    fn match_type(&self) -> (t: AuthorizationMessageType) {
        AuthorizationMessageType::AuthTrustResponse
    }

    fn handle<S: MessageSender<ConnectionId>>(
        &self,
        message: AuthTrustResponse,
        message_context: &MessageContext<ConnectionId, AuthorizationMessageType>,
        network_sender: &mut S,
        state: &mut AuthorizationManagerStateMachine,
    ) -> (r: Result<(), DispatchError>) {
        let ghost sent0 = network_sender.sent();
        let source = message_context.source_id();
        let conn = message_context.source_connection_id();
        match state.next_initiating_state(
            conn,
            AuthorizationInitiatingAction::Trust(TrustAuthorizationInitiatingAction::ReceiveAuthTrustResponse),
        ) {
            Err(err) => {
                let text = err.message();
                return send_authorization_error(state, source, network_sender, text.as_str());
            },
            Ok(_) => {},
        }
        let ghost s1 = state.states();
        let msg_bytes = AuthorizationMessage::AuthComplete(AuthComplete).to_network_bytes();
        assert(msg_bytes@ =~= complete_bytes());
        let r = send_message(network_sender, source, msg_bytes);
        if r.is_ok() {
            match state.next_initiating_state(conn, AuthorizationInitiatingAction::SendAuthComplete) {
                Err(err) => {
                    assert(false);
                },
                Ok(_) => {},
            }
        }
        proof {
            assert(sent_since(sent0, network_sender.sent()) =~= seq![(*source, complete_bytes())]);
            lemma_one_send(
                *source,
                complete_bytes(),
                s1,
                initiate_step(s1, source.0@, AuthorizationInitiatingAction::SendAuthComplete).0,
                state.states(),
                sent_since(sent0, network_sender.sent()),
                r,
            );
        }
        r
    }
}

/// Trust authorization: its handlers.
pub struct TrustAuthorization;

impl TrustAuthorization {
    pub fn new() -> (a: Self) {
        TrustAuthorization
    }
}

impl Authorization for TrustAuthorization {
    open spec fn supplies_handlers(&self) -> bool {
        true
    }

    open spec fn handlers_are(&self, handlers: Seq<AuthorizationHandler>) -> bool {
        handlers == seq![
            AuthorizationHandler::TrustRequest(AuthTrustRequestHandler),
            AuthorizationHandler::TrustResponse(AuthTrustResponseHandler),
        ]
    }

    fn get_handlers(&mut self) -> (r: Result<Vec<AuthorizationHandler>, InvalidStateError>)
        ensures
            r matches Ok(hs) && hs@ == seq![
                AuthorizationHandler::TrustRequest(AuthTrustRequestHandler),
                AuthorizationHandler::TrustResponse(AuthTrustResponseHandler),
            ],
    {
        let mut handlers: Vec<AuthorizationHandler> = Vec::new();
        handlers.push(AuthorizationHandler::TrustRequest(AuthTrustRequestHandler::new()));
        handlers.push(AuthorizationHandler::TrustResponse(AuthTrustResponseHandler::new()));
        assert(handlers@ =~= seq![
            AuthorizationHandler::TrustRequest(AuthTrustRequestHandler),
            AuthorizationHandler::TrustResponse(AuthTrustResponseHandler),
        ]);
        Ok(handlers)
    }
}

} // verus!
