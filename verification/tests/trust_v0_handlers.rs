use splinter::auth::handlers::AuthorizationDispatchBuilder;
use splinter::auth::messages::{
    AuthorizationEnvelope, AuthorizationMessage, AuthorizationMessageType, AuthorizationType,
    Authorized, ConnectRequest, ConnectResponse, TrustRequest,
};
use splinter::auth::state_machine::AuthorizationManagerStateMachine;
use splinter::dispatch::{ConnectionId, Dispatcher, FromMessageBytes, OutboundQueue};
use splinter::auth::handlers::AuthorizationMessageHandler;
use splinter::wire::{decode_network_message, NetworkMessageType};

fn expect_auth_message<M: FromMessageBytes>(
    message_type: AuthorizationMessageType,
    msg_bytes: &[u8],
) -> M {
    let (network_type, payload) =
        decode_network_message(msg_bytes).expect("Unable to parse network message");
    assert_eq!(NetworkMessageType::Authorization, network_type);
    let envelope =
        AuthorizationEnvelope::from_message_bytes(&payload).expect("Unable to parse auth message");
    assert_eq!(message_type, envelope.message_type);
    match M::from_message_bytes(&envelope.payload) {
        Ok(msg) => msg,
        Err(err) => panic!(
            "unable to parse message for type {:?}: {:?}",
            message_type, err
        ),
    }
}


fn trust_v0_dispatcher() -> Dispatcher<AuthorizationMessageHandler> {
    AuthorizationDispatchBuilder::new()
        .with_identity("mock_identity")
        .build()
        .expect("Unable to build authorization dispatcher")
}

/// A bidirectional connect request is answered with a unidirectional connect request and a
/// connect response offering trust.
#[test]
fn handlers_connect_request_dispatch() {
    let mut auth_mgr = AuthorizationManagerStateMachine::default();
    let mut mock_sender: OutboundQueue<ConnectionId> = OutboundQueue::new();
    let dispatcher = trust_v0_dispatcher();

    let connection_id = "test_connection".to_string();
    let msg_bytes = AuthorizationMessage::ConnectRequest(ConnectRequest::Bidirectional).to_bytes();

    assert!(dispatcher
        .dispatch(
            connection_id.clone().into(),
            &NetworkMessageType::Authorization,
            msg_bytes,
            &mut mock_sender,
            &mut auth_mgr,
        )
        .is_ok());

    let (recipient, message_bytes) = mock_sender
        .next_outbound()
        .expect("Unable to receive message over the network");
    let recipient: String = recipient.into();
    assert_eq!(&connection_id, &recipient);
    let connect_req_msg: ConnectRequest =
        expect_auth_message(AuthorizationMessageType::ConnectRequest, &message_bytes);
    assert_eq!(ConnectRequest::Unidirectional, connect_req_msg);

    let (_, message_bytes) = mock_sender
        .next_outbound()
        .expect("Unable to receive message over the network");

    let connect_res_msg: ConnectResponse =
        expect_auth_message(AuthorizationMessageType::ConnectResponse, &message_bytes);
    assert_eq!(
        vec![AuthorizationType::Trust],
        connect_res_msg.accepted_authorization_types
    );
}

/// A connect response offering trust is answered with a trust request for the local
/// identity.
#[test]
fn handlers_connect_response_dispatch() {
    let mut auth_mgr = AuthorizationManagerStateMachine::default();
    let mut mock_sender: OutboundQueue<ConnectionId> = OutboundQueue::new();
    let dispatcher = trust_v0_dispatcher();
    let connection_id = "test_connection".to_string();
    let msg_bytes = AuthorizationMessage::ConnectResponse(ConnectResponse {
        accepted_authorization_types: vec![AuthorizationType::Trust],
    })
    .to_bytes();

    assert!(dispatcher
        .dispatch(
            connection_id.clone().into(),
            &NetworkMessageType::Authorization,
            msg_bytes,
            &mut mock_sender,
            &mut auth_mgr,
        )
        .is_ok());

    let (_, msg_bytes) = mock_sender
        .next_outbound()
        .expect("Unable to receive message over the network");

    let trust_req: TrustRequest =
        expect_auth_message(AuthorizationMessageType::TrustRequest, &msg_bytes);
    assert_eq!("mock_identity", trust_req.identity);
}

/// After a unidirectional connect request, a trust request is answered with the
/// authorized message.
#[test]
fn handlers_trust_request_dispatch() {
    let mut auth_mgr = AuthorizationManagerStateMachine::default();
    let mut mock_sender: OutboundQueue<ConnectionId> = OutboundQueue::new();
    let dispatcher = trust_v0_dispatcher();
    let connection_id = "test_connection".to_string();
    // Begin the connection process, otherwise, the response will fail
    let msg_bytes = AuthorizationMessage::ConnectRequest(ConnectRequest::Unidirectional).to_bytes();
    assert!(dispatcher
        .dispatch(
            connection_id.clone().into(),
            &NetworkMessageType::Authorization,
            msg_bytes,
            &mut mock_sender,
            &mut auth_mgr,
        )
        .is_ok());

    let (_, msg_bytes) = mock_sender
        .next_outbound()
        .expect("Unable to receive message over the network");

    let _connect_res_msg: ConnectResponse =
        expect_auth_message(AuthorizationMessageType::ConnectResponse, &msg_bytes);

    let msg_bytes = AuthorizationMessage::TrustRequest(TrustRequest {
        identity: "my_identity".into(),
    })
    .to_bytes();
    assert!(dispatcher
        .dispatch(
            connection_id.clone().into(),
            &NetworkMessageType::Authorization,
            msg_bytes,
            &mut mock_sender,
            &mut auth_mgr,
        )
        .is_ok());

    let (_, msg_bytes) = mock_sender
        .next_outbound()
        .expect("Unable to receive message over the network");

    let _auth_msg: Authorized = expect_auth_message(AuthorizationMessageType::Authorize, &msg_bytes);
}
