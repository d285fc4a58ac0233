//! The handlers of the pool's trust handshake: connect requests start it, a trust request
//! completes it authorized, an authorization error completes it unauthorized.  Messages out of
//! order are ignored.
use vstd::prelude::*;

use crate::auth::authorization::trust_v0::{
    authorized_bytes, connect_response_bytes, trust_v0_request_bytes, unidirectional_request_bytes,
};
use crate::auth::handlers::{addressed, send_failed, send_message};
use crate::auth::messages::{
    AuthorizationEnvelope, AuthorizationError, AuthorizationMessage, AuthorizationMessageType, AuthorizationType,
    Authorized, ConnectRequest, ConnectResponse, TrustRequest,
};
use crate::dispatch::{
    decode_and_handle, decoded_and_handled, dispatched, sent_since, ConnectionId, DispatchError, Dispatcher, Handler,
    MessageContext, MessageSender, RawBytes,
};
use crate::wire::NetworkMessageType;

use super::{pool_transition, AuthorizationAction, AuthorizationPoolStateMachine, AuthorizationState};

verus! {

/// The messages `msgs` were handed to the sender for `to` in order, and `r` was returned:
/// either all of them went out and the result is `Ok`, or the first `k` went out and message
/// `k`, the last handed over, could not be sent.
pub open spec fn sent_in_order(
    to: ConnectionId,
    msgs: Seq<Seq<u8>>,
    sent: Seq<(ConnectionId, Seq<u8>)>,
    r: Result<(), DispatchError>,
) -> bool {
    ||| (sent == addressed(to, msgs) && r is Ok)
    ||| exists|k: int| 0 <= k < msgs.len() && sent == addressed(to, msgs.take(k + 1)) && #[trigger] send_failed(r, to, msgs[k])
}

proof fn lemma_one_sent(to: ConnectionId, m: Seq<u8>, sent: Seq<(ConnectionId, Seq<u8>)>, r: Result<(), DispatchError>)
    requires
        sent == seq![(to, m)],
        r is Ok || send_failed(r, to, m),
    ensures
        sent_in_order(to, seq![m], sent, r),
{
    if r is Ok {
        assert(sent =~= addressed(to, seq![m]));
    } else {
        assert(sent =~= addressed(to, seq![m].take(1)));
        assert(send_failed(r, to, seq![m][0]));
    }
}

proof fn lemma_two_sent(
    to: ConnectionId,
    m1: Seq<u8>,
    m2: Seq<u8>,
    sent: Seq<(ConnectionId, Seq<u8>)>,
    r: Result<(), DispatchError>,
)
    requires
        (sent == seq![(to, m1), (to, m2)] && (r is Ok || send_failed(r, to, m2))) || (sent == seq![(to, m1)]
            && send_failed(r, to, m1)),
    ensures
        sent_in_order(to, seq![m1, m2], sent, r),
{
    let msgs = seq![m1, m2];
    if r is Ok {
        assert(sent =~= addressed(to, msgs));
    } else if sent.len() == 2 {
        assert(sent =~= addressed(to, msgs.take(2)));
        assert(send_failed(r, to, msgs[1]));
    } else {
        assert(sent =~= addressed(to, msgs.take(1)));
        assert(send_failed(r, to, msgs[0]));
    }
}

/// Handles connect requests: starts the handshake, asks the remote to connect back when it
/// asked for a bidirectional handshake, and answers that trust is accepted.  A request on a
/// connection already in the handshake is ignored.
pub struct ConnectRequestHandler;

impl ConnectRequestHandler {
    pub fn new() -> (h: Self) {
        ConnectRequestHandler
    }
}

impl Handler for ConnectRequestHandler {
    type Source = ConnectionId;
    type MessageType = AuthorizationMessageType;
    type Message = ConnectRequest;
    type State = AuthorizationPoolStateMachine;

    open spec fn spec_match_type(&self) -> AuthorizationMessageType {
        AuthorizationMessageType::ConnectRequest
    }

    open spec fn handles(
        &self,
        message: ConnectRequest,
        source: ConnectionId,
        before: AuthorizationPoolStateMachine,
        after: AuthorizationPoolStateMachine,
        sent: Seq<(ConnectionId, Seq<u8>)>,
        result: Result<(), DispatchError>,
    ) -> bool {
        let (v1, r1) = pool_transition(before.shared@, source.0@, AuthorizationAction::Connecting);
        &&& after.shared@ == v1
        &&& match r1 {
            Err(_) => sent.len() == 0 && result is Ok,
            Ok(_) => sent_in_order(
                source,
                match message {
                    ConnectRequest::Bidirectional => seq![unidirectional_request_bytes(), connect_response_bytes()],
                    ConnectRequest::Unidirectional => seq![connect_response_bytes()],
                },
                sent,
                result,
            ),
        }
    }

    fn match_type(&self) -> (t: AuthorizationMessageType) {
        AuthorizationMessageType::ConnectRequest
    }

    fn handle<S: MessageSender<ConnectionId>>(
        &self,
        message: ConnectRequest,
        message_context: &MessageContext<ConnectionId, AuthorizationMessageType>,
        network_sender: &mut S,
        state: &mut AuthorizationPoolStateMachine,
    ) -> (r: Result<(), DispatchError>) {
        let ghost sent0 = network_sender.sent();
        let source = message_context.source_id();
        assert(sent0.is_prefix_of(network_sender.sent())) by {
            assert(sent0.subrange(0, sent0.len() as int) =~= sent0);
        }
        match state.next_state(message_context.source_connection_id(), AuthorizationAction::Connecting) {
            Err(_) => {
                assert(sent_since(sent0, network_sender.sent()) =~= Seq::empty());
                Ok(())
            },
            Ok(_) => {
                let response = AuthorizationMessage::ConnectResponse(
                    ConnectResponse { accepted_authorization_types: vec![AuthorizationType::Trust] },
                );
                let response_bytes = response.to_network_bytes();
                assert(response_bytes@ =~= connect_response_bytes());
                match message {
                    ConnectRequest::Bidirectional => {
                        let request_bytes = AuthorizationMessage::ConnectRequest(ConnectRequest::Unidirectional)
                            .to_network_bytes();
                        assert(request_bytes@ =~= unidirectional_request_bytes());
                        let r1 = send_message(network_sender, source, request_bytes);
                        let r = if r1.is_ok() {
                            send_message(network_sender, source, response_bytes)
                        } else {
                            r1
                        };
                        proof {
                            let sent = sent_since(sent0, network_sender.sent());
                            if r1 is Ok {
                                assert(sent =~= seq![
                                    (*source, unidirectional_request_bytes()),
                                    (*source, connect_response_bytes()),
                                ]);
                            } else {
                                assert(sent =~= seq![(*source, unidirectional_request_bytes())]);
                            }
                            lemma_two_sent(*source, unidirectional_request_bytes(), connect_response_bytes(), sent, r);
                        }
                        r
                    },
                    ConnectRequest::Unidirectional => {
                        let r = send_message(network_sender, source, response_bytes);
                        proof {
                            assert(sent_since(sent0, network_sender.sent()) =~= seq![(*source, connect_response_bytes())]);
                            lemma_one_sent(*source, connect_response_bytes(), sent_since(sent0, network_sender.sent()), r);
                        }
                        r
                    },
                }
            },
        }
    }
}

/// Handles connect responses: names the local node `identity` if the remote accepts trust.
pub struct ConnectResponseHandler {
    identity: String,
}

impl ConnectResponseHandler {
    /// The local node id.
    pub closed spec fn spec_identity(&self) -> String {
        self.identity
    }

    /// The handler for the local node `identity`.
    pub closed spec fn new_spec(identity: String) -> Self {
        ConnectResponseHandler { identity }
    }

    /// The handler made for the local node `identity` announces `identity`.
    pub proof fn lemma_new_spec_identity(identity: String)
        ensures
            Self::new_spec(identity).spec_identity() == identity,
    {
    }

    /// A handler for the local node `identity`.
    pub fn new(identity: String) -> (h: Self)
        ensures
            h == Self::new_spec(identity),
            h.spec_identity() == identity,
    {
        ConnectResponseHandler { identity }
    }
}

impl Handler for ConnectResponseHandler {
    type Source = ConnectionId;
    type MessageType = AuthorizationMessageType;
    type Message = ConnectResponse;
    type State = AuthorizationPoolStateMachine;

    open spec fn spec_match_type(&self) -> AuthorizationMessageType {
        AuthorizationMessageType::ConnectResponse
    }

    open spec fn handles(
        &self,
        message: ConnectResponse,
        source: ConnectionId,
        before: AuthorizationPoolStateMachine,
        after: AuthorizationPoolStateMachine,
        sent: Seq<(ConnectionId, Seq<u8>)>,
        result: Result<(), DispatchError>,
    ) -> bool {
        &&& after.shared@ == before.shared@
        &&& if message.accepted_authorization_types@.contains(AuthorizationType::Trust) {
            sent_in_order(source, seq![trust_v0_request_bytes(self.spec_identity()@)], sent, result)
        } else {
            sent.len() == 0 && result is Ok
        }
    }

    fn match_type(&self) -> (t: AuthorizationMessageType) {
        AuthorizationMessageType::ConnectResponse
    }

    fn handle<S: MessageSender<ConnectionId>>(
        &self,
        message: ConnectResponse,
        message_context: &MessageContext<ConnectionId, AuthorizationMessageType>,
        network_sender: &mut S,
        state: &mut AuthorizationPoolStateMachine,
    ) -> (r: Result<(), DispatchError>) {
        let ghost sent0 = network_sender.sent();
        let source = message_context.source_id();
        assert(sent0.is_prefix_of(network_sender.sent())) by {
            assert(sent0.subrange(0, sent0.len() as int) =~= sent0);
        }
        let mut accepts_trust = false;
        for i in 0..message.accepted_authorization_types.len()
            invariant
                accepts_trust == (exists|j: int|
                    0 <= j < i && message.accepted_authorization_types@[j] == AuthorizationType::Trust),
        {
            if message.accepted_authorization_types[i] == AuthorizationType::Trust {
                accepts_trust = true;
            }
        }
        if accepts_trust {
            let request = AuthorizationMessage::TrustRequest(TrustRequest { identity: self.identity.clone() });
            let request_bytes = request.to_network_bytes();
            assert(request_bytes@ =~= trust_v0_request_bytes(self.identity@));
            let r = send_message(network_sender, source, request_bytes);
            proof {
                assert(sent_since(sent0, network_sender.sent()) =~= seq![(*source, trust_v0_request_bytes(self.identity@))]);
                lemma_one_sent(
                    *source,
                    trust_v0_request_bytes(self.identity@),
                    sent_since(sent0, network_sender.sent()),
                    r,
                );
            }
            r
        } else {
            assert(sent_since(sent0, network_sender.sent()) =~= Seq::empty());
            Ok(())
        }
    }
}

/// Handles trust requests: the remote's identification completes its handshake authorized,
/// and it is told so.  A request out of order is ignored.
pub struct TrustRequestHandler;

impl TrustRequestHandler {
    pub fn new() -> (h: Self) {
        TrustRequestHandler
    }
}

impl Handler for TrustRequestHandler {
    type Source = ConnectionId;
    type MessageType = AuthorizationMessageType;
    type Message = TrustRequest;
    type State = AuthorizationPoolStateMachine;

    open spec fn spec_match_type(&self) -> AuthorizationMessageType {
        AuthorizationMessageType::TrustRequest
    }

    open spec fn handles(
        &self,
        message: TrustRequest,
        source: ConnectionId,
        before: AuthorizationPoolStateMachine,
        after: AuthorizationPoolStateMachine,
        sent: Seq<(ConnectionId, Seq<u8>)>,
        result: Result<(), DispatchError>,
    ) -> bool {
        let (v1, r1) = pool_transition(
            before.shared@,
            source.0@,
            AuthorizationAction::TrustIdentifying(message.identity),
        );
        &&& after.shared@ == v1
        &&& if r1 is Ok {
            sent_in_order(source, seq![authorized_bytes()], sent, result)
        } else {
            sent.len() == 0 && result is Ok
        }
    }

    fn match_type(&self) -> (t: AuthorizationMessageType) {
        AuthorizationMessageType::TrustRequest
    }

    fn handle<S: MessageSender<ConnectionId>>(
        &self,
        message: TrustRequest,
        message_context: &MessageContext<ConnectionId, AuthorizationMessageType>,
        network_sender: &mut S,
        state: &mut AuthorizationPoolStateMachine,
    ) -> (r: Result<(), DispatchError>) {
        let ghost sent0 = network_sender.sent();
        let source = message_context.source_id();
        assert(sent0.is_prefix_of(network_sender.sent())) by {
            assert(sent0.subrange(0, sent0.len() as int) =~= sent0);
        }
        match state.next_state(
            message_context.source_connection_id(),
            AuthorizationAction::TrustIdentifying(message.identity),
        ) {
            Err(_) => {
                assert(sent_since(sent0, network_sender.sent()) =~= Seq::empty());
                Ok(())
            },
            Ok(_) => {
                let msg_bytes = AuthorizationMessage::Authorized(Authorized).to_network_bytes();
                assert(msg_bytes@ =~= authorized_bytes());
                let r = send_message(network_sender, source, msg_bytes);
                proof {
                    assert(sent_since(sent0, network_sender.sent()) =~= seq![(*source, authorized_bytes())]);
                    lemma_one_sent(*source, authorized_bytes(), sent_since(sent0, network_sender.sent()), r);
                }
                r
            },
        }
    }
}

/// Handles authorized messages: the remote accepted us; nothing changes.
pub struct AuthorizedHandler;

impl AuthorizedHandler {
    pub fn new() -> (h: Self) {
        AuthorizedHandler
    }
}

impl Handler for AuthorizedHandler {
    type Source = ConnectionId;
    type MessageType = AuthorizationMessageType;
    type Message = Authorized;
    type State = AuthorizationPoolStateMachine;

    open spec fn spec_match_type(&self) -> AuthorizationMessageType {
        AuthorizationMessageType::Authorize
    }

    open spec fn handles(
        &self,
        message: Authorized,
        source: ConnectionId,
        before: AuthorizationPoolStateMachine,
        after: AuthorizationPoolStateMachine,
        sent: Seq<(ConnectionId, Seq<u8>)>,
        result: Result<(), DispatchError>,
    ) -> bool {
        after == before && sent.len() == 0 && result is Ok
    }

    fn match_type(&self) -> (t: AuthorizationMessageType) {
        AuthorizationMessageType::Authorize
    }

    fn handle<S: MessageSender<ConnectionId>>(
        &self,
        message: Authorized,
        message_context: &MessageContext<ConnectionId, AuthorizationMessageType>,
        network_sender: &mut S,
        state: &mut AuthorizationPoolStateMachine,
    ) -> (r: Result<(), DispatchError>) {
        assert(sent_since(network_sender.sent(), network_sender.sent()) =~= Seq::empty());
        assert(network_sender.sent().is_prefix_of(network_sender.sent())) by {
            assert(network_sender.sent().subrange(0, network_sender.sent().len() as int) =~= network_sender.sent());
        }
        Ok(())
    }
}

/// Handles authorization errors: the remote refused us, so the handshake completes
/// unauthorized.
pub struct AuthorizationErrorHandler;

impl AuthorizationErrorHandler {
    pub fn new() -> (h: Self) {
        AuthorizationErrorHandler
    }
}

impl Handler for AuthorizationErrorHandler {
    type Source = ConnectionId;
    type MessageType = AuthorizationMessageType;
    type Message = AuthorizationError;
    type State = AuthorizationPoolStateMachine;

    open spec fn spec_match_type(&self) -> AuthorizationMessageType {
        AuthorizationMessageType::AuthorizationError
    }

    open spec fn handles(
        &self,
        message: AuthorizationError,
        source: ConnectionId,
        before: AuthorizationPoolStateMachine,
        after: AuthorizationPoolStateMachine,
        sent: Seq<(ConnectionId, Seq<u8>)>,
        result: Result<(), DispatchError>,
    ) -> bool {
        &&& after.shared@ == pool_transition(before.shared@, source.0@, AuthorizationAction::Unauthorizing).0
        &&& sent.len() == 0
        &&& result is Ok
    }

    fn match_type(&self) -> (t: AuthorizationMessageType) {
        AuthorizationMessageType::AuthorizationError
    }

    fn handle<S: MessageSender<ConnectionId>>(
        &self,
        message: AuthorizationError,
        message_context: &MessageContext<ConnectionId, AuthorizationMessageType>,
        network_sender: &mut S,
        state: &mut AuthorizationPoolStateMachine,
    ) -> (r: Result<(), DispatchError>) {
        let _ = state.next_state(message_context.source_connection_id(), AuthorizationAction::Unauthorizing);
        assert(sent_since(network_sender.sent(), network_sender.sent()) =~= Seq::empty());
        assert(network_sender.sent().is_prefix_of(network_sender.sent())) by {
            assert(network_sender.sent().subrange(0, network_sender.sent().len() as int) =~= network_sender.sent());
        }
        Ok(())
    }
}

/// Any handler of the pool's authorization messages.
pub enum PoolAuthorizationHandler {
    ConnectRequest(ConnectRequestHandler),
    ConnectResponse(ConnectResponseHandler),
    TrustRequest(TrustRequestHandler),
    Authorized(AuthorizedHandler),
    Error(AuthorizationErrorHandler),
}

impl Handler for PoolAuthorizationHandler {
    type Source = ConnectionId;
    type MessageType = AuthorizationMessageType;
    type Message = RawBytes;
    type State = AuthorizationPoolStateMachine;

    open spec fn spec_match_type(&self) -> AuthorizationMessageType {
        match self {
            PoolAuthorizationHandler::ConnectRequest(h) => h.spec_match_type(),
            PoolAuthorizationHandler::ConnectResponse(h) => h.spec_match_type(),
            PoolAuthorizationHandler::TrustRequest(h) => h.spec_match_type(),
            PoolAuthorizationHandler::Authorized(h) => h.spec_match_type(),
            PoolAuthorizationHandler::Error(h) => h.spec_match_type(),
        }
    }

    open spec fn handles(
        &self,
        message: RawBytes,
        source: ConnectionId,
        before: AuthorizationPoolStateMachine,
        after: AuthorizationPoolStateMachine,
        sent: Seq<(ConnectionId, Seq<u8>)>,
        result: Result<(), DispatchError>,
    ) -> bool {
        let b = message.spec_bytes();
        match self {
            PoolAuthorizationHandler::ConnectRequest(h) => decoded_and_handled(*h, source, b, before, after, sent, result),
            PoolAuthorizationHandler::ConnectResponse(h) => decoded_and_handled(*h, source, b, before, after, sent, result),
            PoolAuthorizationHandler::TrustRequest(h) => decoded_and_handled(*h, source, b, before, after, sent, result),
            PoolAuthorizationHandler::Authorized(h) => decoded_and_handled(*h, source, b, before, after, sent, result),
            PoolAuthorizationHandler::Error(h) => decoded_and_handled(*h, source, b, before, after, sent, result),
        }
    }

    fn match_type(&self) -> (t: AuthorizationMessageType) {
        match self {
            PoolAuthorizationHandler::ConnectRequest(h) => h.match_type(),
            PoolAuthorizationHandler::ConnectResponse(h) => h.match_type(),
            PoolAuthorizationHandler::TrustRequest(h) => h.match_type(),
            PoolAuthorizationHandler::Authorized(h) => h.match_type(),
            PoolAuthorizationHandler::Error(h) => h.match_type(),
        }
    }

    fn handle<S: MessageSender<ConnectionId>>(
        &self,
        message: RawBytes,
        message_context: &MessageContext<ConnectionId, AuthorizationMessageType>,
        network_sender: &mut S,
        state: &mut AuthorizationPoolStateMachine,
    ) -> (r: Result<(), DispatchError>) {
        let b = message.bytes();
        match self {
            PoolAuthorizationHandler::ConnectRequest(h) => decode_and_handle(h, b, message_context, network_sender, state),
            PoolAuthorizationHandler::ConnectResponse(h) => decode_and_handle(h, b, message_context, network_sender, state),
            PoolAuthorizationHandler::TrustRequest(h) => decode_and_handle(h, b, message_context, network_sender, state),
            PoolAuthorizationHandler::Authorized(h) => decode_and_handle(h, b, message_context, network_sender, state),
            PoolAuthorizationHandler::Error(h) => decode_and_handle(h, b, message_context, network_sender, state),
        }
    }
}

/// Handles authorization network messages for the pool: unwraps the envelope and hands the
/// message to the dispatcher of the pool's authorization messages.
pub struct AuthorizationMessageHandler {
    auth_dispatcher: Dispatcher<PoolAuthorizationHandler>,
}

impl AuthorizationMessageHandler {
    /// The dispatcher the messages are handed to.
    pub closed spec fn spec_auth_dispatcher(&self) -> Dispatcher<PoolAuthorizationHandler> {
        self.auth_dispatcher
    }

    /// A handler that hands authorization messages to `auth_dispatcher`.
    pub fn new(auth_dispatcher: Dispatcher<PoolAuthorizationHandler>) -> (h: Self)
        ensures
            h.spec_auth_dispatcher() == auth_dispatcher,
    {
        AuthorizationMessageHandler { auth_dispatcher }
    }
}

impl Handler for AuthorizationMessageHandler {
    type Source = ConnectionId;
    type MessageType = NetworkMessageType;
    type Message = AuthorizationEnvelope;
    type State = AuthorizationPoolStateMachine;

    open spec fn spec_match_type(&self) -> NetworkMessageType {
        NetworkMessageType::Authorization
    }

    open spec fn handles(
        &self,
        message: AuthorizationEnvelope,
        source: ConnectionId,
        before: AuthorizationPoolStateMachine,
        after: AuthorizationPoolStateMachine,
        sent: Seq<(ConnectionId, Seq<u8>)>,
        result: Result<(), DispatchError>,
    ) -> bool {
        dispatched(
            self.spec_auth_dispatcher().handlers(),
            source,
            message.message_type,
            message.payload@,
            before,
            after,
            sent,
            result,
        )
    }

    fn match_type(&self) -> (t: NetworkMessageType) {
        NetworkMessageType::Authorization
    }

    fn handle<S: MessageSender<ConnectionId>>(
        &self,
        message: AuthorizationEnvelope,
        message_context: &MessageContext<ConnectionId, NetworkMessageType>,
        network_sender: &mut S,
        state: &mut AuthorizationPoolStateMachine,
    ) -> (r: Result<(), DispatchError>) {
        let AuthorizationEnvelope { message_type, payload } = message;
        self.auth_dispatcher.dispatch(
            message_context.source_id().clone(),
            &message_type,
            payload,
            network_sender,
            state,
        )
    }
}

/// The handlers of the pool's handshake for the local node `identity`, in the order they are
/// set.
pub open spec fn pool_handlers(identity: String) -> Seq<PoolAuthorizationHandler> {
    seq![
        PoolAuthorizationHandler::ConnectRequest(ConnectRequestHandler),
        PoolAuthorizationHandler::ConnectResponse(ConnectResponseHandler::new_spec(identity)),
        PoolAuthorizationHandler::TrustRequest(TrustRequestHandler),
        PoolAuthorizationHandler::Authorized(AuthorizedHandler),
        PoolAuthorizationHandler::Error(AuthorizationErrorHandler),
    ]
}

/// The dispatcher of the pool's authorization network messages for the local node
/// `identity`: one handler, which hands the messages to the handlers of `pool_handlers`.
pub fn create_authorization_dispatcher(identity: String) -> (d: Dispatcher<AuthorizationMessageHandler>)
    ensures
        d.handlers().len() == 1,
        d.handlers()[0].spec_auth_dispatcher().handlers() == pool_handlers(identity),
{
    let mut auth_dispatcher: Dispatcher<PoolAuthorizationHandler> = Dispatcher::new();
    auth_dispatcher.set_handler(PoolAuthorizationHandler::ConnectRequest(ConnectRequestHandler::new()));
    auth_dispatcher.set_handler(PoolAuthorizationHandler::ConnectResponse(ConnectResponseHandler::new(identity)));
    auth_dispatcher.set_handler(PoolAuthorizationHandler::TrustRequest(TrustRequestHandler::new()));
    auth_dispatcher.set_handler(PoolAuthorizationHandler::Authorized(AuthorizedHandler::new()));
    auth_dispatcher.set_handler(PoolAuthorizationHandler::Error(AuthorizationErrorHandler::new()));
    assert(auth_dispatcher.handlers() =~= pool_handlers(identity));
    let mut network_dispatcher: Dispatcher<AuthorizationMessageHandler> = Dispatcher::new();
    network_dispatcher.set_handler(AuthorizationMessageHandler::new(auth_dispatcher));
    network_dispatcher
}

} // verus!
