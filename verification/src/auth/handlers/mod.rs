//! Handlers for authorization messages.
//!
//! Every handler works on the authorization states of the connections and answers over the
//! connection the message came from.  What a handler does is given as a plan: the messages it
//! sends, in order, and the states the connections are in before each send and at the end.
//! Sending may fail; then the handler stops with a send error, in the state it had reached.
use vstd::prelude::*;
use vstd::utf8::encode_utf8;

use crate::auth::authorization::challenge::{
    AuthChallengeNonceRequestHandler, AuthChallengeNonceResponseHandler, AuthChallengeSubmitRequestHandler,
    AuthChallengeSubmitResponseHandler,
};
use crate::auth::authorization::trust::{AuthTrustRequestHandler, AuthTrustResponseHandler};
use crate::auth::authorization::trust_v0::{
    AuthorizedHandler, ConnectRequestHandler, ConnectResponseHandler, TrustRequestHandler,
};
use crate::auth::messages::{
    auth_network_bytes, AuthorizationEnvelope, AuthorizationError, AuthorizationMessage,
    AuthorizationMessageType,
};
use crate::auth::state_machine::{
    accepting_transition, initiating_transition, state_for, AuthorizationAcceptingAction,
    AuthorizationAcceptingState, AuthorizationActionError, AuthorizationInitiatingAction,
    AuthorizationInitiatingState, AuthorizationManagerStateMachine, ManagedAuthorizationState,
};
use crate::dispatch::{
    decode_and_handle, decoded_and_handled, dispatched, refusals_kept, sent_since, ConnectionId, DispatchError, Dispatcher,
    Handler, MessageContext, MessageSender, RawBytes,
};
use crate::wire::{network_message_bytes, NetworkMessageType};

pub mod builders;
pub mod v1;

pub use self::builders::AuthorizationDispatchBuilder;
use self::v1::{AuthCompleteHandler, AuthProtocolRequestHandler, AuthProtocolResponseHandler};

verus! {

/// How a node authorizes itself, or is expected to: by its node id (trust) or by proving it
/// holds the private key of a public key, in hex (challenge).
#[derive(Debug, PartialEq)]
pub enum ConnectionAuthorizationType {
    Trust { identity: String },
    Challenge { public_key: String },
}

impl Clone for ConnectionAuthorizationType {
    fn clone(&self) -> (r: Self)
        ensures
            r == *self,
    {
        match self {
            ConnectionAuthorizationType::Trust { identity } => ConnectionAuthorizationType::Trust {
                identity: identity.clone(),
            },
            ConnectionAuthorizationType::Challenge { public_key } => ConnectionAuthorizationType::Challenge {
                public_key: public_key.clone(),
            },
        }
    }
}

/// Applies an accepting-side event to connection `conn`: the new states and the result.
pub open spec fn accept_step(
    states: Map<Seq<char>, ManagedAuthorizationState>,
    conn: Seq<char>,
    action: AuthorizationAcceptingAction,
) -> (Map<Seq<char>, ManagedAuthorizationState>, Result<AuthorizationAcceptingState, AuthorizationActionError>) {
    let (s, r) = accepting_transition(state_for(states, conn), action);
    (states.insert(conn, s), r)
}

/// Applies an initiating-side event to connection `conn`: the new states and the result.
pub open spec fn initiate_step(
    states: Map<Seq<char>, ManagedAuthorizationState>,
    conn: Seq<char>,
    action: AuthorizationInitiatingAction,
) -> (Map<Seq<char>, ManagedAuthorizationState>, Result<AuthorizationInitiatingState, AuthorizationActionError>) {
    let (s, r) = initiating_transition(state_for(states, conn), action);
    (states.insert(conn, s), r)
}

/// Each message of `msgs`, addressed to `to`.
pub open spec fn addressed(to: ConnectionId, msgs: Seq<Seq<u8>>) -> Seq<(ConnectionId, Seq<u8>)> {
    Seq::new(msgs.len(), |i: int| (to, msgs[i]))
}

/// `r` is the failure to send `m` to `to`.
pub open spec fn send_failed(r: Result<(), DispatchError>, to: ConnectionId, m: Seq<u8>) -> bool {
    r matches Err(DispatchError::NetworkSendError((id, bytes))) && id@ == to.0@ && bytes@ == m
}

/// Carrying out the plan `(msgs, states)` towards `to` ended in `after`, having sent `sent`
/// and returned `r`.
///
/// `states[k]` is the state once the first `k` messages are out, `states[msgs.len()]` the
/// state at the end.  Either every message went out, the state is the last one and the
/// result is `Ok`, or the first `k` went out, message `k` was handed to the sender and could
/// not be sent, and the state is `states[k]`.
pub open spec fn carried_out(
    to: ConnectionId,
    plan: (Seq<Seq<u8>>, Seq<Map<Seq<char>, ManagedAuthorizationState>>),
    after: Map<Seq<char>, ManagedAuthorizationState>,
    sent: Seq<(ConnectionId, Seq<u8>)>,
    r: Result<(), DispatchError>,
) -> bool {
    let (msgs, states) = plan;
    ||| (sent == addressed(to, msgs) && after == states[msgs.len() as int] && r is Ok)
    ||| exists|k: int|
        0 <= k < msgs.len() && sent == addressed(to, msgs.take(k + 1)) && after == #[trigger] states[k]
            && send_failed(r, to, msgs[k])
}

/// A plan carried out without a send error sent every planned message, in order, ended in
/// the plan's last state and returned `Ok`: the outcome for a sender that refuses nothing.
pub proof fn lemma_plan_without_send_error(
    to: ConnectionId,
    plan: (Seq<Seq<u8>>, Seq<Map<Seq<char>, ManagedAuthorizationState>>),
    after: Map<Seq<char>, ManagedAuthorizationState>,
    sent: Seq<(ConnectionId, Seq<u8>)>,
    r: Result<(), DispatchError>,
)
    requires
        carried_out(to, plan, after, sent, r),
        !(r matches Err(DispatchError::NetworkSendError(_))),
    ensures
        sent == addressed(to, plan.0),
        after == plan.1[plan.0.len() as int],
        r is Ok,
{
}

/// A plan that sends nothing and ends in `s`.
pub open spec fn quiet_plan(s: Map<Seq<char>, ManagedAuthorizationState>) -> (
    Seq<Seq<u8>>,
    Seq<Map<Seq<char>, ManagedAuthorizationState>>,
) {
    (Seq::empty(), seq![s])
}

/// A plan that sends `m` in state `s0` and then ends in `s1`.
pub open spec fn one_send_plan(
    m: Seq<u8>,
    s0: Map<Seq<char>, ManagedAuthorizationState>,
    s1: Map<Seq<char>, ManagedAuthorizationState>,
) -> (Seq<Seq<u8>>, Seq<Map<Seq<char>, ManagedAuthorizationState>>) {
    (seq![m], seq![s0, s1])
}

/// A plan that sends `m1` and then `m2`, staying in state `s`.
pub open spec fn two_send_plan(m1: Seq<u8>, m2: Seq<u8>, s: Map<Seq<char>, ManagedAuthorizationState>) -> (
    Seq<Seq<u8>>,
    Seq<Map<Seq<char>, ManagedAuthorizationState>>,
) {
    (seq![m1, m2], seq![s, s, s])
}

/// The network bytes of an authorization error with text `text`.
pub open spec fn error_bytes(text: Seq<char>) -> Seq<u8> {
    network_message_bytes(NetworkMessageType::Authorization, seq![4u8] + encode_utf8(text))
}

/// Refusing connection `conn` with `text`: the error is sent, then both sides of the
/// connection are unauthorized.
pub open spec fn refusal_plan(states: Map<Seq<char>, ManagedAuthorizationState>, conn: Seq<char>, text: Seq<char>) -> (
    Seq<Seq<u8>>,
    Seq<Map<Seq<char>, ManagedAuthorizationState>>,
) {
    one_send_plan(error_bytes(text), states, accept_step(states, conn, AuthorizationAcceptingAction::Unauthorizing).0)
}

/// A refusal sends exactly the authorization error with its reason, and once it is out both
/// sides of the connection are unauthorized, the rest of its state kept.
pub proof fn lemma_refusal_unauthorizes(
    states: Map<Seq<char>, ManagedAuthorizationState>,
    conn: Seq<char>,
    text: Seq<char>,
)
    ensures
        refusal_plan(states, conn, text).0 == seq![error_bytes(text)],
        refusal_plan(states, conn, text).1[0] == states,
        refusal_plan(states, conn, text).1[1] == states.insert(
            conn,
            ManagedAuthorizationState {
                initiating_state: AuthorizationInitiatingState::Unauthorized,
                accepting_state: AuthorizationAcceptingState::Unauthorized,
                ..state_for(states, conn)
            },
        ),
{
}

pub proof fn lemma_quiet(
    to: ConnectionId,
    s: Map<Seq<char>, ManagedAuthorizationState>,
    sent: Seq<(ConnectionId, Seq<u8>)>,
    r: Result<(), DispatchError>,
)
    requires
        sent.len() == 0,
        r is Ok,
    ensures
        carried_out(to, quiet_plan(s), s, sent, r),
{
    assert(sent =~= addressed(to, Seq::<Seq<u8>>::empty()));
}

pub proof fn lemma_one_send(
    to: ConnectionId,
    m: Seq<u8>,
    s0: Map<Seq<char>, ManagedAuthorizationState>,
    s1: Map<Seq<char>, ManagedAuthorizationState>,
    after: Map<Seq<char>, ManagedAuthorizationState>,
    sent: Seq<(ConnectionId, Seq<u8>)>,
    r: Result<(), DispatchError>,
)
    requires
        sent == seq![(to, m)],
        (after == s1 && r is Ok) || (after == s0 && send_failed(r, to, m)),
    ensures
        carried_out(to, one_send_plan(m, s0, s1), after, sent, r),
{
    let plan = one_send_plan(m, s0, s1);
    if r is Ok {
        assert(sent =~= addressed(to, plan.0));
    } else {
        assert(sent =~= addressed(to, plan.0.take(1)));
        assert(plan.1[0] == s0);
    }
}

pub proof fn lemma_two_sends(
    to: ConnectionId,
    m1: Seq<u8>,
    m2: Seq<u8>,
    s: Map<Seq<char>, ManagedAuthorizationState>,
    sent: Seq<(ConnectionId, Seq<u8>)>,
    r: Result<(), DispatchError>,
)
    requires
        (sent == seq![(to, m1), (to, m2)] && (r is Ok || send_failed(r, to, m2))) || (sent == seq![(to, m1)]
            && send_failed(r, to, m1)),
    ensures
        carried_out(to, two_send_plan(m1, m2, s), s, sent, r),
{
    let plan = two_send_plan(m1, m2, s);
    if r is Ok {
        assert(sent =~= addressed(to, plan.0));
    } else if sent.len() == 2 {
        assert(sent =~= addressed(to, plan.0.take(2)));
        assert(plan.1[1] == s);
    } else {
        assert(sent =~= addressed(to, plan.0.take(1)));
        assert(plan.1[0] == s);
    }
}

/// Sends `msg` to `to`, turning a failure into a send error.
pub fn send_message<S: MessageSender<ConnectionId>>(sender: &mut S, to: &ConnectionId, msg: Vec<u8>) -> (r: Result<
    (),
    DispatchError,
>)
    ensures
        final(sender).sent() == old(sender).sent().push((*to, msg@)),
        r is Ok ==> final(sender).refusals() == old(sender).refusals(),
        r is Err ==> final(sender).refusals() == old(sender).refusals() + 1 && send_failed(r, *to, msg@),
{
    match sender.send(to.clone(), msg) {
        Ok(()) => Ok(()),
        Err((recipient, payload)) => Err(DispatchError::NetworkSendError((recipient.0, payload))),
    }
}

/// Refuses connection `source_id`: sends an authorization error with `error_string`, then
/// unauthorizes both sides of the connection.
pub fn send_authorization_error<S: MessageSender<ConnectionId>>(
    auth_manager: &mut AuthorizationManagerStateMachine,
    source_id: &ConnectionId,
    sender: &mut S,
    error_string: &str,
) -> (r: Result<(), DispatchError>)
    ensures
        old(sender).sent().is_prefix_of(final(sender).sent()),
        refusals_kept(*old(sender), *final(sender), r),
        carried_out(
            *source_id,
            refusal_plan(old(auth_manager).states(), source_id.0@, error_string@),
            final(auth_manager).states(),
            sent_since(old(sender).sent(), final(sender).sent()),
            r,
        ),
{
    let ghost sent0 = sender.sent();
    let ghost s0 = auth_manager.states();
    let response = AuthorizationMessage::AuthorizationError(
        AuthorizationError::AuthorizationRejected(error_string.to_owned()),
    );
    let msg_bytes = response.to_network_bytes();
    assert(msg_bytes@ =~= error_bytes(error_string@));
    let r = send_message(sender, source_id, msg_bytes);
    if r.is_ok() {
        let _ = auth_manager.next_accepting_state(source_id.as_str(), AuthorizationAcceptingAction::Unauthorizing);
    }
    proof {
        assert(sent_since(sent0, sender.sent()) =~= seq![(*source_id, error_bytes(error_string@))]);
        assert(sent0.is_prefix_of(sender.sent()));
        lemma_one_send(
            *source_id,
            error_bytes(error_string@),
            s0,
            accept_step(s0, source_id.0@, AuthorizationAcceptingAction::Unauthorizing).0,
            auth_manager.states(),
            sent_since(sent0, sender.sent()),
            r,
        );
    }
    r
}

/// Handles authorization errors: the remote refused us, so both sides of the connection are
/// unauthorized.
pub struct AuthorizationErrorHandler;

impl AuthorizationErrorHandler {
    pub fn new() -> (h: Self) {
        AuthorizationErrorHandler
    }
}

impl Handler for AuthorizationErrorHandler {
    type Source = ConnectionId;
    type MessageType = AuthorizationMessageType;
    type Message = AuthorizationError;
    type State = AuthorizationManagerStateMachine;

    open spec fn spec_match_type(&self) -> AuthorizationMessageType {
        AuthorizationMessageType::AuthorizationError
    }

    open spec fn handles(
        &self,
        message: AuthorizationError,
        source: ConnectionId,
        before: AuthorizationManagerStateMachine,
        after: AuthorizationManagerStateMachine,
        sent: Seq<(ConnectionId, Seq<u8>)>,
        result: Result<(), DispatchError>,
    ) -> bool {
        carried_out(
            source,
            quiet_plan(accept_step(before.states(), source.0@, AuthorizationAcceptingAction::Unauthorizing).0),
            after.states(),
            sent,
            result,
        )
    }

    fn match_type(&self) -> (t: AuthorizationMessageType) {
        AuthorizationMessageType::AuthorizationError
    }

    fn handle<S: MessageSender<ConnectionId>>(
        &self,
        message: AuthorizationError,
        message_context: &MessageContext<ConnectionId, AuthorizationMessageType>,
        network_sender: &mut S,
        state: &mut AuthorizationManagerStateMachine,
    ) -> (r: Result<(), DispatchError>) {
        let _ = state.next_accepting_state(
            message_context.source_connection_id(),
            AuthorizationAcceptingAction::Unauthorizing,
        );
        proof {
            assert(sent_since(network_sender.sent(), network_sender.sent()) =~= Seq::empty());
            lemma_quiet(
                message_context.spec_source_id(),
                state.states(),
                sent_since(network_sender.sent(), network_sender.sent()),
                Ok(()),
            );
        }
        Ok(())
    }
}

/// Any handler of an authorization message; the dispatcher of authorization messages holds
/// these.  Each decodes the message bytes into its own kind of message and handles it.
pub enum AuthorizationHandler {
    ProtocolRequest(AuthProtocolRequestHandler),
    ProtocolResponse(AuthProtocolResponseHandler),
    Complete(AuthCompleteHandler),
    Error(AuthorizationErrorHandler),
    TrustRequest(AuthTrustRequestHandler),
    TrustResponse(AuthTrustResponseHandler),
    ConnectRequest(ConnectRequestHandler),
    ConnectResponse(ConnectResponseHandler),
    TrustV0Request(TrustRequestHandler),
    Authorized(AuthorizedHandler),
    ChallengeNonceRequest(AuthChallengeNonceRequestHandler),
    ChallengeNonceResponse(AuthChallengeNonceResponseHandler),
    ChallengeSubmitRequest(AuthChallengeSubmitRequestHandler),
    ChallengeSubmitResponse(AuthChallengeSubmitResponseHandler),
}

impl Handler for AuthorizationHandler {
    type Source = ConnectionId;
    type MessageType = AuthorizationMessageType;
    type Message = RawBytes;
    type State = AuthorizationManagerStateMachine;

    open spec fn spec_match_type(&self) -> AuthorizationMessageType {
        match self {
            AuthorizationHandler::ProtocolRequest(h) => h.spec_match_type(),
            AuthorizationHandler::ProtocolResponse(h) => h.spec_match_type(),
            AuthorizationHandler::Complete(h) => h.spec_match_type(),
            AuthorizationHandler::Error(h) => h.spec_match_type(),
            AuthorizationHandler::TrustRequest(h) => h.spec_match_type(),
            AuthorizationHandler::TrustResponse(h) => h.spec_match_type(),
            AuthorizationHandler::ConnectRequest(h) => h.spec_match_type(),
            AuthorizationHandler::ConnectResponse(h) => h.spec_match_type(),
            AuthorizationHandler::TrustV0Request(h) => h.spec_match_type(),
            AuthorizationHandler::Authorized(h) => h.spec_match_type(),
            AuthorizationHandler::ChallengeNonceRequest(h) => h.spec_match_type(),
            AuthorizationHandler::ChallengeNonceResponse(h) => h.spec_match_type(),
            AuthorizationHandler::ChallengeSubmitRequest(h) => h.spec_match_type(),
            AuthorizationHandler::ChallengeSubmitResponse(h) => h.spec_match_type(),
        }
    }

    open spec fn handles(
        &self,
        message: RawBytes,
        source: ConnectionId,
        before: AuthorizationManagerStateMachine,
        after: AuthorizationManagerStateMachine,
        sent: Seq<(ConnectionId, Seq<u8>)>,
        result: Result<(), DispatchError>,
    ) -> bool {
        let b = message.spec_bytes();
        match self {
            AuthorizationHandler::ProtocolRequest(h) => decoded_and_handled(*h, source, b, before, after, sent, result),
            AuthorizationHandler::ProtocolResponse(h) => decoded_and_handled(*h, source, b, before, after, sent, result),
            AuthorizationHandler::Complete(h) => decoded_and_handled(*h, source, b, before, after, sent, result),
            AuthorizationHandler::Error(h) => decoded_and_handled(*h, source, b, before, after, sent, result),
            AuthorizationHandler::TrustRequest(h) => decoded_and_handled(*h, source, b, before, after, sent, result),
            AuthorizationHandler::TrustResponse(h) => decoded_and_handled(*h, source, b, before, after, sent, result),
            AuthorizationHandler::ConnectRequest(h) => decoded_and_handled(*h, source, b, before, after, sent, result),
            AuthorizationHandler::ConnectResponse(h) => decoded_and_handled(*h, source, b, before, after, sent, result),
            AuthorizationHandler::TrustV0Request(h) => decoded_and_handled(*h, source, b, before, after, sent, result),
            AuthorizationHandler::Authorized(h) => decoded_and_handled(*h, source, b, before, after, sent, result),
            AuthorizationHandler::ChallengeNonceRequest(h) => decoded_and_handled(*h, source, b, before, after, sent, result),
            AuthorizationHandler::ChallengeNonceResponse(h) => decoded_and_handled(*h, source, b, before, after, sent, result),
            AuthorizationHandler::ChallengeSubmitRequest(h) => decoded_and_handled(*h, source, b, before, after, sent, result),
            AuthorizationHandler::ChallengeSubmitResponse(h) => decoded_and_handled(*h, source, b, before, after, sent, result),
        }
    }

    fn match_type(&self) -> (t: AuthorizationMessageType) {
        match self {
            AuthorizationHandler::ProtocolRequest(h) => h.match_type(),
            AuthorizationHandler::ProtocolResponse(h) => h.match_type(),
            AuthorizationHandler::Complete(h) => h.match_type(),
            AuthorizationHandler::Error(h) => h.match_type(),
            AuthorizationHandler::TrustRequest(h) => h.match_type(),
            AuthorizationHandler::TrustResponse(h) => h.match_type(),
            AuthorizationHandler::ConnectRequest(h) => h.match_type(),
            AuthorizationHandler::ConnectResponse(h) => h.match_type(),
            AuthorizationHandler::TrustV0Request(h) => h.match_type(),
            AuthorizationHandler::Authorized(h) => h.match_type(),
            AuthorizationHandler::ChallengeNonceRequest(h) => h.match_type(),
            AuthorizationHandler::ChallengeNonceResponse(h) => h.match_type(),
            AuthorizationHandler::ChallengeSubmitRequest(h) => h.match_type(),
            AuthorizationHandler::ChallengeSubmitResponse(h) => h.match_type(),
        }
    }

    fn handle<S: MessageSender<ConnectionId>>(
        &self,
        message: RawBytes,
        message_context: &MessageContext<ConnectionId, AuthorizationMessageType>,
        network_sender: &mut S,
        state: &mut AuthorizationManagerStateMachine,
    ) -> (r: Result<(), DispatchError>) {
        let b = message.bytes();
        match self {
            AuthorizationHandler::ProtocolRequest(h) => decode_and_handle(h, b, message_context, network_sender, state),
            AuthorizationHandler::ProtocolResponse(h) => decode_and_handle(h, b, message_context, network_sender, state),
            AuthorizationHandler::Complete(h) => decode_and_handle(h, b, message_context, network_sender, state),
            AuthorizationHandler::Error(h) => decode_and_handle(h, b, message_context, network_sender, state),
            AuthorizationHandler::TrustRequest(h) => decode_and_handle(h, b, message_context, network_sender, state),
            AuthorizationHandler::TrustResponse(h) => decode_and_handle(h, b, message_context, network_sender, state),
            AuthorizationHandler::ConnectRequest(h) => decode_and_handle(h, b, message_context, network_sender, state),
            AuthorizationHandler::ConnectResponse(h) => decode_and_handle(h, b, message_context, network_sender, state),
            AuthorizationHandler::TrustV0Request(h) => decode_and_handle(h, b, message_context, network_sender, state),
            AuthorizationHandler::Authorized(h) => decode_and_handle(h, b, message_context, network_sender, state),
            AuthorizationHandler::ChallengeNonceRequest(h) => decode_and_handle(h, b, message_context, network_sender, state),
            AuthorizationHandler::ChallengeNonceResponse(h) => decode_and_handle(h, b, message_context, network_sender, state),
            AuthorizationHandler::ChallengeSubmitRequest(h) => decode_and_handle(h, b, message_context, network_sender, state),
            AuthorizationHandler::ChallengeSubmitResponse(h) => decode_and_handle(h, b, message_context, network_sender, state),
        }
    }
}

/// Handles authorization network messages: unwraps the envelope and hands the message to
/// the dispatcher of authorization messages.
pub struct AuthorizationMessageHandler {
    auth_dispatcher: Dispatcher<AuthorizationHandler>,
}

impl AuthorizationMessageHandler {
    /// The dispatcher the messages are handed to.
    pub closed spec fn spec_auth_dispatcher(&self) -> Dispatcher<AuthorizationHandler> {
        self.auth_dispatcher
    }

    /// A handler that hands authorization messages to `auth_dispatcher`.
    pub fn new(auth_dispatcher: Dispatcher<AuthorizationHandler>) -> (h: Self)
        ensures
            h.spec_auth_dispatcher() == auth_dispatcher,
    {
        AuthorizationMessageHandler { auth_dispatcher }
    }
}

impl Handler for AuthorizationMessageHandler {
    type Source = ConnectionId;
    type MessageType = NetworkMessageType;
    type Message = AuthorizationEnvelope;
    type State = AuthorizationManagerStateMachine;

    open spec fn spec_match_type(&self) -> NetworkMessageType {
        NetworkMessageType::Authorization
    }

    open spec fn handles(
        &self,
        message: AuthorizationEnvelope,
        source: ConnectionId,
        before: AuthorizationManagerStateMachine,
        after: AuthorizationManagerStateMachine,
        sent: Seq<(ConnectionId, Seq<u8>)>,
        result: Result<(), DispatchError>,
    ) -> bool {
        dispatched(
            self.spec_auth_dispatcher().handlers(),
            source,
            message.message_type,
            message.payload@,
            before,
            after,
            sent,
            result,
        )
    }

    fn match_type(&self) -> (t: NetworkMessageType) {
        NetworkMessageType::Authorization
    }

    fn handle<S: MessageSender<ConnectionId>>(
        &self,
        message: AuthorizationEnvelope,
        message_context: &MessageContext<ConnectionId, NetworkMessageType>,
        network_sender: &mut S,
        state: &mut AuthorizationManagerStateMachine,
    ) -> (r: Result<(), DispatchError>) {
        let AuthorizationEnvelope { message_type, payload } = message;
        self.auth_dispatcher.dispatch(
            message_context.source_id().clone(),
            &message_type,
            payload,
            network_sender,
            state,
        )
    }
}

} // verus!
