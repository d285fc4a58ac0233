use splinter::auth::messages::{
    AuthorizationEnvelope, AuthorizationError, AuthorizationMessage, AuthorizationMessageType,
    AuthorizationType, Authorized, ConnectRequest, ConnectResponse, TrustRequest,
};
use splinter::auth2::handlers::create_authorization_dispatcher;
use splinter::auth2::AuthorizationPoolStateMachine;
use splinter::dispatch::{ConnectionId, FromMessageBytes, OutboundQueue};
use splinter::wire::{decode_network_message, NetworkMessageType};

fn expect_auth_message<M: FromMessageBytes>(message_type: AuthorizationMessageType, msg_bytes: &[u8]) -> M {
    let (network_type, payload) = decode_network_message(msg_bytes).expect("Unable to parse network message");
    assert_eq!(NetworkMessageType::Authorization, network_type);
    let envelope = AuthorizationEnvelope::from_message_bytes(&payload).expect("Unable to parse auth message");
    assert_eq!(message_type, envelope.message_type);
    match M::from_message_bytes(&envelope.payload) {
        Ok(msg) => msg,
        Err(err) => panic!("unable to parse message for type {:?}: {:?}", message_type, err),
    }
}

fn deliver(
    state: &mut AuthorizationPoolStateMachine,
    sender: &mut OutboundQueue<ConnectionId>,
    connection_id: &str,
    message: AuthorizationMessage,
) {
    let dispatcher = create_authorization_dispatcher("local_identity".to_string());
    assert!(dispatcher
        .dispatch(
            ConnectionId(connection_id.to_string()),
            &NetworkMessageType::Authorization,
            message.to_bytes(),
            sender,
            state,
        )
        .is_ok());
}

/// The whole handshake as a remote drives it: the pool answers each message, and the
/// connection completes authorized with the identity the remote gave.
#[test]
fn pool_trust_handshake_completes_authorized() {
    let mut state = AuthorizationPoolStateMachine::default();
    let mut sender: OutboundQueue<ConnectionId> = OutboundQueue::new();
    let connection_id = "test_connection";

    deliver(&mut state, &mut sender, connection_id, AuthorizationMessage::ConnectRequest(ConnectRequest::Bidirectional));
    let (recipient, bytes) = sender.next_outbound().expect("no connect request sent");
    assert_eq!(ConnectionId(connection_id.to_string()), recipient);
    let request: ConnectRequest = expect_auth_message(AuthorizationMessageType::ConnectRequest, &bytes);
    assert_eq!(ConnectRequest::Unidirectional, request);
    let (_, bytes) = sender.next_outbound().expect("no connect response sent");
    let response: ConnectResponse = expect_auth_message(AuthorizationMessageType::ConnectResponse, &bytes);
    assert_eq!(vec![AuthorizationType::Trust], response.accepted_authorization_types);
    assert!(sender.next_outbound().is_none());
    assert_eq!(None, state.shared.check_completion(connection_id));

    deliver(
        &mut state,
        &mut sender,
        connection_id,
        AuthorizationMessage::ConnectResponse(ConnectResponse { accepted_authorization_types: vec![AuthorizationType::Trust] }),
    );
    let (_, bytes) = sender.next_outbound().expect("no trust request sent");
    let trust: TrustRequest = expect_auth_message(AuthorizationMessageType::TrustRequest, &bytes);
    assert_eq!("local_identity", trust.identity);

    deliver(&mut state, &mut sender, connection_id, AuthorizationMessage::Authorized(Authorized));
    assert!(sender.next_outbound().is_none());
    assert_eq!(None, state.shared.check_completion(connection_id));

    deliver(
        &mut state,
        &mut sender,
        connection_id,
        AuthorizationMessage::TrustRequest(TrustRequest { identity: "test_identity".to_string() }),
    );
    let (_, bytes) = sender.next_outbound().expect("no authorized message sent");
    let _: Authorized = expect_auth_message(AuthorizationMessageType::Authorize, &bytes);
    assert_eq!(Some(Some("test_identity".to_string())), state.shared.check_completion(connection_id));
    // The completed connection is forgotten.
    assert_eq!(None, state.shared.check_completion(connection_id));
}

/// A trust request before any connect request is out of order: nothing is sent and the
/// handshake does not complete.
#[test]
fn pool_trust_request_out_of_order_is_ignored() {
    let mut state = AuthorizationPoolStateMachine::default();
    let mut sender: OutboundQueue<ConnectionId> = OutboundQueue::new();
    deliver(
        &mut state,
        &mut sender,
        "conn",
        AuthorizationMessage::TrustRequest(TrustRequest { identity: "someone".to_string() }),
    );
    assert!(sender.next_outbound().is_none());
    assert_eq!(None, state.shared.is_complete("conn"));
}

/// A second connect request on a connection in the handshake is ignored.
#[test]
fn pool_second_connect_request_is_ignored() {
    let mut state = AuthorizationPoolStateMachine::default();
    let mut sender: OutboundQueue<ConnectionId> = OutboundQueue::new();
    deliver(&mut state, &mut sender, "conn", AuthorizationMessage::ConnectRequest(ConnectRequest::Unidirectional));
    let (_, bytes) = sender.next_outbound().expect("no connect response sent");
    let _: ConnectResponse = expect_auth_message(AuthorizationMessageType::ConnectResponse, &bytes);
    assert!(sender.next_outbound().is_none());
    deliver(&mut state, &mut sender, "conn", AuthorizationMessage::ConnectRequest(ConnectRequest::Unidirectional));
    assert!(sender.next_outbound().is_none());
}

/// A connect response that does not offer trust is not answered.
#[test]
fn pool_connect_response_without_trust_is_not_answered() {
    let mut state = AuthorizationPoolStateMachine::default();
    let mut sender: OutboundQueue<ConnectionId> = OutboundQueue::new();
    deliver(
        &mut state,
        &mut sender,
        "conn",
        AuthorizationMessage::ConnectResponse(ConnectResponse { accepted_authorization_types: vec![] }),
    );
    assert!(sender.next_outbound().is_none());
}

/// An authorization error from the remote completes the handshake unauthorized.
#[test]
fn pool_authorization_error_completes_unauthorized() {
    let mut state = AuthorizationPoolStateMachine::default();
    let mut sender: OutboundQueue<ConnectionId> = OutboundQueue::new();
    deliver(&mut state, &mut sender, "conn", AuthorizationMessage::ConnectRequest(ConnectRequest::Unidirectional));
    let _ = sender.next_outbound();
    deliver(
        &mut state,
        &mut sender,
        "conn",
        AuthorizationMessage::AuthorizationError(AuthorizationError::AuthorizationRejected("no".to_string())),
    );
    assert!(sender.next_outbound().is_none());
    assert_eq!(Some(false), state.shared.is_complete("conn"));
    assert_eq!(Some(None), state.shared.check_completion("conn"));
}
