use cylinder::secp256k1::Secp256k1Context;
use cylinder::{Context, PrivateKey};

use splinter::auth::authorization::trust::TrustAuthorization;
use splinter::auth::handlers::{AuthorizationDispatchBuilder, ConnectionAuthorizationType};
use splinter::auth::messages::{
    AuthProtocolRequest, AuthProtocolResponse, AuthComplete, AuthTrustRequest, AuthTrustResponse,
    AuthorizationEnvelope, AuthorizationMessage, AuthorizationMessageType, PeerAuthorizationType,
};
use splinter::auth::state_machine::trust_v1::TrustAuthorizationInitiatingState;
use splinter::auth::state_machine::{
    AuthorizationAcceptingState, AuthorizationInitiatingState, AuthorizationManagerStateMachine,
    Identity, ManagedAuthorizationState,
};
use splinter::dispatch::{ConnectionId, FromMessageBytes, OutboundQueue};
use splinter::wire::{decode_network_message, NetworkMessageType};

fn new_public_key_hex() -> String {
    let context = Secp256k1Context::new();
    let key: PrivateKey = context.new_random_private_key();
    context
        .get_public_key(&key)
        .expect("unable to get public key")
        .as_hex()
}

fn insert_state(
    auth_mgr: &mut AuthorizationManagerStateMachine,
    connection_id: &str,
    state: ManagedAuthorizationState,
) {
    auth_mgr.shared.states.insert(connection_id.to_string(), state);
}

fn managed_state(
    auth_mgr: &AuthorizationManagerStateMachine,
    connection_id: &String,
) -> ManagedAuthorizationState {
    auth_mgr
        .shared
        .states
        .get(connection_id)
        .cloned()
        .expect("missing managed state for connection id")
}

fn expect_auth_message<M: FromMessageBytes>(
    message_type: AuthorizationMessageType,
    msg_bytes: &[u8],
) -> M {
    let (network_type, payload) =
        decode_network_message(msg_bytes).expect("Unable to parse network message");
    assert_eq!(NetworkMessageType::Authorization, network_type);
    let envelope =
        AuthorizationEnvelope::from_message_bytes(&payload).expect("Unable to parse auth message");
    assert_eq!(message_type, envelope.message_type);
    match M::from_message_bytes(&envelope.payload) {
        Ok(msg) => msg,
        Err(err) => panic!(
            "unable to parse message for type {:?}: {:?}",
            message_type, err
        ),
    }
}


fn trust_dispatcher() -> splinter::dispatch::Dispatcher<splinter::auth::handlers::AuthorizationMessageHandler> {
    AuthorizationDispatchBuilder::new()
        .with_identity("mock_identity")
        .add_authorization(TrustAuthorization::new())
        .with_expected_authorization(None)
        .with_local_authorization(None)
        .build()
        .expect("Unable to build authorization dispatcher")
}

/// A protocol request with no required authorization is answered with version 1 and both
/// authorization types.
fn mod_protocol_request_dispatch_no_required_auth_scenario() {
    let mut auth_mgr = AuthorizationManagerStateMachine::default();
    let mut mock_sender: OutboundQueue<ConnectionId> = OutboundQueue::new();

    let dispatcher = AuthorizationDispatchBuilder::new()
        .with_identity("mock_identity")
        .build()
        .expect("Unable to build authorization dispatcher");

    let connection_id = "test_connection".to_string();
    let msg_bytes = AuthorizationMessage::AuthProtocolRequest(AuthProtocolRequest {
        auth_protocol_min: 1,
        auth_protocol_max: 1,
    })
    .to_bytes();

    assert!(dispatcher
        .dispatch(
            connection_id.clone().into(),
            &NetworkMessageType::Authorization,
            msg_bytes,
            &mut mock_sender,
            &mut auth_mgr,
        )
        .is_ok());

    let (recipient, message_bytes) = mock_sender
        .next_outbound()
        .expect("Unable to receive message over the network");
    let recipient: String = recipient.into();
    assert_eq!(&connection_id, &recipient);

    let auth_protocol_response: AuthProtocolResponse = expect_auth_message(
        AuthorizationMessageType::AuthProtocolResponse,
        &message_bytes,
    );
    assert_eq!(1, auth_protocol_response.auth_protocol);

    assert_eq!(
        vec![PeerAuthorizationType::Trust, PeerAuthorizationType::Challenge],
        auth_protocol_response.accepted_authorization_type
    );
}

/// A protocol request when challenge is required is answered with challenge alone.
fn mod_protocol_request_dispatch_challenge_required_auth_scenario() {
    let mut auth_mgr = AuthorizationManagerStateMachine::default();
    let mut mock_sender: OutboundQueue<ConnectionId> = OutboundQueue::new();
    let dispatcher = AuthorizationDispatchBuilder::new()
        .with_identity("mock_identity")
        .with_expected_authorization(Some(ConnectionAuthorizationType::Challenge {
            public_key: new_public_key_hex(),
        }))
        .with_local_authorization(Some(ConnectionAuthorizationType::Challenge {
            public_key: new_public_key_hex(),
        }))
        .build()
        .expect("Unable to build authorization dispatcher");

    let connection_id = "test_connection".to_string();
    let msg_bytes = AuthorizationMessage::AuthProtocolRequest(AuthProtocolRequest {
        auth_protocol_min: 1,
        auth_protocol_max: 1,
    })
    .to_bytes();

    assert!(dispatcher
        .dispatch(
            connection_id.clone().into(),
            &NetworkMessageType::Authorization,
            msg_bytes,
            &mut mock_sender,
            &mut auth_mgr,
        )
        .is_ok());

    let (recipient, message_bytes) = mock_sender
        .next_outbound()
        .expect("Unable to receive message over the network");
    let recipient: String = recipient.into();
    assert_eq!(&connection_id, &recipient);

    let auth_protocol_response: AuthProtocolResponse = expect_auth_message(
        AuthorizationMessageType::AuthProtocolResponse,
        &message_bytes,
    );
    assert_eq!(1, auth_protocol_response.auth_protocol);

    assert_eq!(
        vec![PeerAuthorizationType::Challenge],
        auth_protocol_response.accepted_authorization_type
    );
}

/// A protocol response accepting trust is answered with a trust request for the local
/// identity.
fn trust_protocol_response_trust_scenario() {
    let connection_id = "test_connection".to_string();
    let mut auth_mgr = AuthorizationManagerStateMachine::default();
    insert_state(
        &mut auth_mgr,
        &connection_id,
        ManagedAuthorizationState {
            initiating_state: AuthorizationInitiatingState::WaitingForAuthProtocolResponse,
            accepting_state: AuthorizationAcceptingState::SentAuthProtocolResponse,
            received_complete: false,
            local_authorization: None,
        },
    );
    let mut mock_sender: OutboundQueue<ConnectionId> = OutboundQueue::new();
    let dispatcher = trust_dispatcher();

    let msg_bytes = AuthorizationMessage::AuthProtocolResponse(AuthProtocolResponse {
        auth_protocol: 1,
        accepted_authorization_type: vec![PeerAuthorizationType::Trust],
    })
    .to_bytes();

    assert_eq!(
        Ok(()),
        dispatcher.dispatch(
            connection_id.clone().into(),
            &NetworkMessageType::Authorization,
            msg_bytes,
            &mut mock_sender,
            &mut auth_mgr,
        )
    );

    let (recipient, message_bytes) = mock_sender
        .next_outbound()
        .expect("Unable to receive message over the network");
    let recipient: String = recipient.into();
    assert_eq!(&connection_id, &recipient);

    let trust_request: AuthTrustRequest =
        expect_auth_message(AuthorizationMessageType::AuthTrustRequest, &message_bytes);
    assert_eq!("mock_identity", trust_request.identity);
}

/// A trust request is accepted: the remote is done with the identity it claimed.
fn trust_trust_request_scenario() {
    let connection_id = "test_connection".to_string();
    let mut auth_mgr = AuthorizationManagerStateMachine::default();
    insert_state(
        &mut auth_mgr,
        &connection_id,
        ManagedAuthorizationState {
            initiating_state: AuthorizationInitiatingState::Trust(
                TrustAuthorizationInitiatingState::WaitingForAuthTrustResponse,
            ),
            accepting_state: AuthorizationAcceptingState::SentAuthProtocolResponse,
            received_complete: false,
            local_authorization: None,
        },
    );
    let mut mock_sender: OutboundQueue<ConnectionId> = OutboundQueue::new();
    let dispatcher = trust_dispatcher();

    let msg_bytes = AuthorizationMessage::AuthTrustRequest(AuthTrustRequest {
        identity: "other_identity".to_string(),
    })
    .to_bytes();

    assert_eq!(
        Ok(()),
        dispatcher.dispatch(
            connection_id.clone().into(),
            &NetworkMessageType::Authorization,
            msg_bytes,
            &mut mock_sender,
            &mut auth_mgr,
        )
    );

    let (recipient, message_bytes) = mock_sender
        .next_outbound()
        .expect("Unable to receive message over the network");
    let recipient: String = recipient.into();
    assert_eq!(&connection_id, &recipient);

    let _trust_response: AuthTrustResponse =
        expect_auth_message(AuthorizationMessageType::AuthTrustResponse, &message_bytes);

    let managed_state = managed_state(&auth_mgr, &connection_id);
    assert_eq!(
        managed_state.initiating_state,
        AuthorizationInitiatingState::Trust(TrustAuthorizationInitiatingState::WaitingForAuthTrustResponse)
    );
    assert_eq!(
        managed_state.accepting_state,
        AuthorizationAcceptingState::Done(Identity::Trust {
            identity: "other_identity".to_string()
        })
    );
    assert_eq!(managed_state.received_complete, false);
}

fn trust_response_scenario(received_complete: bool) -> ManagedAuthorizationState {
    let connection_id = "test_connection".to_string();
    let mut auth_mgr = AuthorizationManagerStateMachine::default();
    insert_state(
        &mut auth_mgr,
        &connection_id,
        ManagedAuthorizationState {
            initiating_state: AuthorizationInitiatingState::Trust(
                TrustAuthorizationInitiatingState::WaitingForAuthTrustResponse,
            ),
            accepting_state: AuthorizationAcceptingState::Done(Identity::Trust {
                identity: "other_identity".to_string(),
            }),
            received_complete,
            local_authorization: None,
        },
    );
    let mut mock_sender: OutboundQueue<ConnectionId> = OutboundQueue::new();
    let dispatcher = trust_dispatcher();

    let msg_bytes = AuthorizationMessage::AuthTrustResponse(AuthTrustResponse).to_bytes();

    assert_eq!(
        Ok(()),
        dispatcher.dispatch(
            connection_id.clone().into(),
            &NetworkMessageType::Authorization,
            msg_bytes,
            &mut mock_sender,
            &mut auth_mgr,
        )
    );

    let (recipient, message_bytes) = mock_sender
        .next_outbound()
        .expect("Unable to receive message over the network");
    let recipient: String = recipient.into();
    assert_eq!(&connection_id, &recipient);

    let _auth_complete: AuthComplete =
        expect_auth_message(AuthorizationMessageType::AuthComplete, &message_bytes);

    managed_state(&auth_mgr, &connection_id)
}

/// A trust response is answered with the completion message; without the remote's
/// completion the initiating side waits for it.
fn trust_trust_response_scenario() {
    let managed_state = trust_response_scenario(false);
    assert_eq!(
        managed_state.initiating_state,
        AuthorizationInitiatingState::WaitForComplete,
    );
    assert_eq!(
        managed_state.accepting_state,
        AuthorizationAcceptingState::Done(Identity::Trust {
            identity: "other_identity".to_string()
        })
    );
    assert_eq!(managed_state.received_complete, false);
}

/// A trust response after the remote's completion completes the initiating side.
fn trust_trust_response_complete_scenario() {
    let managed_state = trust_response_scenario(true);
    assert_eq!(
        managed_state.initiating_state,
        AuthorizationInitiatingState::AuthorizedAndComplete,
    );
    assert_eq!(
        managed_state.accepting_state,
        AuthorizationAcceptingState::Done(Identity::Trust {
            identity: "other_identity".to_string()
        })
    );
    assert_eq!(managed_state.received_complete, true);
}

#[test]
fn mod_protocol_request_dispatch_no_required_auth() {
    mod_protocol_request_dispatch_no_required_auth_scenario();
}

#[test]
fn v1_handlers_protocol_request_dispatch_no_required_auth() {
    mod_protocol_request_dispatch_no_required_auth_scenario();
}

#[test]
fn mod_protocol_request_dispatch_challenge_required_auth() {
    mod_protocol_request_dispatch_challenge_required_auth_scenario();
}

#[test]
fn v1_handlers_protocol_request_dispatch_challenge_required_auth() {
    mod_protocol_request_dispatch_challenge_required_auth_scenario();
}

#[test]
fn trust_protocol_response_trust() {
    trust_protocol_response_trust_scenario();
}

#[test]
fn v1_handlers_protocol_response_trust() {
    trust_protocol_response_trust_scenario();
}

#[test]
fn trust_trust_request() {
    trust_trust_request_scenario();
}

#[test]
fn v1_handlers_trust_request() {
    trust_trust_request_scenario();
}

#[test]
fn trust_trust_response() {
    trust_trust_response_scenario();
}

#[test]
fn v1_handlers_trust_response() {
    trust_trust_response_scenario();
}

#[test]
fn trust_trust_response_complete() {
    trust_trust_response_complete_scenario();
}

#[test]
fn v1_handlers_trust_response_complete() {
    trust_trust_response_complete_scenario();
}
