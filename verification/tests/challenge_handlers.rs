use cylinder::secp256k1::Secp256k1Context;
use cylinder::{Context, PrivateKey};

use splinter::auth::authorization::challenge::ChallengeAuthorization;
use splinter::auth::handlers::{AuthorizationDispatchBuilder, ConnectionAuthorizationType};
use splinter::auth::messages::{
    AuthChallengeNonceRequest, AuthChallengeNonceResponse, AuthChallengeSubmitRequest,
    AuthChallengeSubmitResponse, AuthComplete, AuthProtocolResponse, AuthorizationEnvelope,
    AuthorizationMessage, AuthorizationMessageType, PeerAuthorizationType, SubmitRequest,
};
use splinter::auth::state_machine::challenge_v1::{
    ChallengeAuthorizationAcceptingState, ChallengeAuthorizationInitiatingState,
};
use splinter::auth::state_machine::{
    AuthorizationAcceptingState, AuthorizationInitiatingState, AuthorizationManagerStateMachine,
    Identity, ManagedAuthorizationState,
};
use splinter::dispatch::{ConnectionId, FromMessageBytes, OutboundQueue};
use splinter::signing::{SignatureVerifier, SigningKey};
use splinter::wire::{decode_network_message, NetworkMessageType};

/// A secp256k1 key pair made by cylinder.
struct TestSigner {
    private_key: Vec<u8>,
}

impl TestSigner {
    fn new() -> Self {
        let context = Secp256k1Context::new();
        TestSigner {
            private_key: context.new_random_private_key().into_bytes(),
        }
    }

    fn public_key(&self) -> Vec<u8> {
        Secp256k1Context::new()
            .get_public_key(&PrivateKey::new(self.private_key.clone()))
            .expect("unable to get public key")
            .into_bytes()
    }

    fn public_key_hex(&self) -> String {
        Secp256k1Context::new()
            .get_public_key(&PrivateKey::new(self.private_key.clone()))
            .expect("unable to get public key")
            .as_hex()
    }

    fn sign(&self, message: &[u8]) -> Vec<u8> {
        Secp256k1Context::new()
            .new_signer(PrivateKey::new(self.private_key.clone()))
            .sign(message)
            .expect("Unable to sign nonce")
            .take_bytes()
    }

    fn signing_key(&self) -> SigningKey {
        SigningKey::new(self.private_key.clone())
    }
}

fn test_nonce() -> Vec<u8> {
    (0..70).map(|i| (i * 37 % 251) as u8).collect()
}

fn insert_state(
    auth_mgr: &mut AuthorizationManagerStateMachine,
    connection_id: &str,
    state: ManagedAuthorizationState,
) {
    auth_mgr.shared.states.insert(connection_id.to_string(), state);
}

fn managed_state(
    auth_mgr: &AuthorizationManagerStateMachine,
    connection_id: &String,
) -> ManagedAuthorizationState {
    auth_mgr
        .shared
        .states
        .get(connection_id)
        .cloned()
        .expect("missing managed state for connection id")
}

fn challenge_dispatcher(
    local_signer: &TestSigner,
    other_signer: &TestSigner,
    nonce: Vec<u8>,
) -> splinter::dispatch::Dispatcher<splinter::auth::handlers::AuthorizationMessageHandler> {
    let expected_authorization = Some(ConnectionAuthorizationType::Challenge {
        public_key: other_signer.public_key_hex(),
    });
    let local_authorization = Some(ConnectionAuthorizationType::Challenge {
        public_key: local_signer.public_key_hex(),
    });
    AuthorizationDispatchBuilder::new()
        .with_identity("mock_identity")
        .add_authorization(ChallengeAuthorization::new(
            vec![local_signer.signing_key()],
            nonce,
            SignatureVerifier::new(),
            expected_authorization.clone(),
            local_authorization.clone(),
        ))
        .with_expected_authorization(expected_authorization)
        .with_local_authorization(local_authorization)
        .build()
        .expect("Unable to build authorization dispatcher")
}

fn expect_auth_message<M: FromMessageBytes>(
    message_type: AuthorizationMessageType,
    msg_bytes: &[u8],
) -> M {
    let (network_type, payload) =
        decode_network_message(msg_bytes).expect("Unable to parse network message");
    assert_eq!(NetworkMessageType::Authorization, network_type);
    let envelope =
        AuthorizationEnvelope::from_message_bytes(&payload).expect("Unable to parse auth message");
    assert_eq!(message_type, envelope.message_type);
    match M::from_message_bytes(&envelope.payload) {
        Ok(msg) => msg,
        Err(err) => panic!(
            "unable to parse message for type {:?}: {:?}",
            message_type, err
        ),
    }
}

/// A protocol response that accepts only challenge starts the challenge: a nonce request is
/// sent.
fn handlers_protocol_response_challenge_scenario() {
    let connection_id = "test_connection".to_string();
    let mut auth_mgr = AuthorizationManagerStateMachine::default();
    insert_state(
        &mut auth_mgr,
        &connection_id,
        ManagedAuthorizationState {
            initiating_state: AuthorizationInitiatingState::WaitingForAuthProtocolResponse,
            accepting_state: AuthorizationAcceptingState::SentAuthProtocolResponse,
            received_complete: true,
            local_authorization: None,
        },
    );
    let mut mock_sender: OutboundQueue<ConnectionId> = OutboundQueue::new();
    let local_signer = TestSigner::new();
    let other_signer = TestSigner::new();
    let dispatcher = challenge_dispatcher(&local_signer, &other_signer, test_nonce());

    let msg_bytes = AuthorizationMessage::AuthProtocolResponse(AuthProtocolResponse {
        auth_protocol: 1,
        accepted_authorization_type: vec![PeerAuthorizationType::Challenge],
    })
    .to_bytes();

    assert!(dispatcher
        .dispatch(
            connection_id.clone().into(),
            &NetworkMessageType::Authorization,
            msg_bytes,
            &mut mock_sender,
            &mut auth_mgr,
        )
        .is_ok());

    let (recipient, message_bytes) = mock_sender
        .next_outbound()
        .expect("Unable to receive message over the network");
    let recipient: String = recipient.into();
    assert_eq!(&connection_id, &recipient);

    let _nonce_request: AuthChallengeNonceRequest = expect_auth_message(
        AuthorizationMessageType::AuthChallengeNonceRequest,
        &message_bytes,
    );

    let managed_state = managed_state(&auth_mgr, &connection_id);
    assert_eq!(
        managed_state.initiating_state,
        AuthorizationInitiatingState::Challenge(
            ChallengeAuthorizationInitiatingState::WaitingForAuthChallengeNonceResponse
        ),
    );
    assert_eq!(
        managed_state.accepting_state,
        AuthorizationAcceptingState::SentAuthProtocolResponse
    );
    assert_eq!(managed_state.received_complete, true);
}

/// A nonce request is answered with this node's nonce.
fn handlers_auth_challenge_nonce_request_scenario() {
    let connection_id = "test_connection".to_string();
    let mut auth_mgr = AuthorizationManagerStateMachine::default();
    insert_state(
        &mut auth_mgr,
        &connection_id,
        ManagedAuthorizationState {
            initiating_state: AuthorizationInitiatingState::Challenge(
                ChallengeAuthorizationInitiatingState::WaitingForAuthChallengeNonceResponse,
            ),
            accepting_state: AuthorizationAcceptingState::SentAuthProtocolResponse,
            received_complete: true,
            local_authorization: None,
        },
    );
    let mut mock_sender: OutboundQueue<ConnectionId> = OutboundQueue::new();
    let local_signer = TestSigner::new();
    let other_signer = TestSigner::new();
    let nonce = test_nonce();
    let dispatcher = challenge_dispatcher(&local_signer, &other_signer, nonce.clone());

    let msg_bytes =
        AuthorizationMessage::AuthChallengeNonceRequest(AuthChallengeNonceRequest).to_bytes();

    assert!(dispatcher
        .dispatch(
            connection_id.clone().into(),
            &NetworkMessageType::Authorization,
            msg_bytes,
            &mut mock_sender,
            &mut auth_mgr,
        )
        .is_ok());

    let (recipient, message_bytes) = mock_sender
        .next_outbound()
        .expect("Unable to receive message over the network");
    let recipient: String = recipient.into();
    assert_eq!(&connection_id, &recipient);

    let nonce_response: AuthChallengeNonceResponse = expect_auth_message(
        AuthorizationMessageType::AuthChallengeNonceResponse,
        &message_bytes,
    );
    assert_eq!(nonce, nonce_response.nonce);

    let managed_state = managed_state(&auth_mgr, &connection_id);
    assert_eq!(
        managed_state.initiating_state,
        AuthorizationInitiatingState::Challenge(
            ChallengeAuthorizationInitiatingState::WaitingForAuthChallengeNonceResponse
        ),
    );
    assert_eq!(
        managed_state.accepting_state,
        AuthorizationAcceptingState::Challenge(
            ChallengeAuthorizationAcceptingState::WaitingForAuthChallengeSubmitRequest
        )
    );
    assert_eq!(managed_state.received_complete, true);
}

/// A nonce response is answered with the signature of the nonce by the local key.
fn handlers_auth_challenge_nonce_response_scenario() {
    let connection_id = "test_connection".to_string();
    let mut auth_mgr = AuthorizationManagerStateMachine::default();
    insert_state(
        &mut auth_mgr,
        &connection_id,
        ManagedAuthorizationState {
            initiating_state: AuthorizationInitiatingState::Challenge(
                ChallengeAuthorizationInitiatingState::WaitingForAuthChallengeNonceResponse,
            ),
            accepting_state: AuthorizationAcceptingState::Challenge(
                ChallengeAuthorizationAcceptingState::WaitingForAuthChallengeSubmitRequest,
            ),
            received_complete: true,
            local_authorization: None,
        },
    );
    let mut mock_sender: OutboundQueue<ConnectionId> = OutboundQueue::new();
    let local_signer = TestSigner::new();
    let other_signer = TestSigner::new();
    let nonce = test_nonce();
    let dispatcher = challenge_dispatcher(&local_signer, &other_signer, nonce.clone());

    let msg_bytes =
        AuthorizationMessage::AuthChallengeNonceResponse(AuthChallengeNonceResponse { nonce })
            .to_bytes();

    assert!(dispatcher
        .dispatch(
            connection_id.clone().into(),
            &NetworkMessageType::Authorization,
            msg_bytes,
            &mut mock_sender,
            &mut auth_mgr,
        )
        .is_ok());

    let (recipient, message_bytes) = mock_sender
        .next_outbound()
        .expect("Unable to receive message over the network");
    let recipient: String = recipient.into();
    assert_eq!(&connection_id, &recipient);

    let submit_requests: AuthChallengeSubmitRequest = expect_auth_message(
        AuthorizationMessageType::AuthChallengeSubmitRequest,
        &message_bytes,
    );

    assert_eq!(1, submit_requests.submit_requests.len());

    let submit_request = submit_requests
        .submit_requests
        .get(0)
        .expect("Unable to get submit request");

    assert_eq!(local_signer.public_key(), submit_request.public_key);

    assert!(!submit_request.signature.is_empty());

    let managed_state = managed_state(&auth_mgr, &connection_id);
    assert_eq!(
        managed_state.initiating_state,
        AuthorizationInitiatingState::Challenge(
            ChallengeAuthorizationInitiatingState::WaitingForAuthChallengeSubmitResponse
        ),
    );
    assert_eq!(
        managed_state.accepting_state,
        AuthorizationAcceptingState::Challenge(
            ChallengeAuthorizationAcceptingState::WaitingForAuthChallengeSubmitRequest
        )
    );
    assert_eq!(managed_state.received_complete, true);
}

/// A submit request with a valid signature by the expected key is accepted.
fn handlers_auth_challenge_submit_request_scenario() {
    let connection_id = "test_connection".to_string();
    let mut auth_mgr = AuthorizationManagerStateMachine::default();
    insert_state(
        &mut auth_mgr,
        &connection_id,
        ManagedAuthorizationState {
            initiating_state: AuthorizationInitiatingState::Challenge(
                ChallengeAuthorizationInitiatingState::WaitingForAuthChallengeSubmitResponse,
            ),
            accepting_state: AuthorizationAcceptingState::Challenge(
                ChallengeAuthorizationAcceptingState::WaitingForAuthChallengeSubmitRequest,
            ),
            received_complete: false,
            local_authorization: None,
        },
    );
    let mut mock_sender: OutboundQueue<ConnectionId> = OutboundQueue::new();
    let local_signer = TestSigner::new();
    let other_signer = TestSigner::new();
    let nonce = test_nonce();
    let dispatcher = challenge_dispatcher(&local_signer, &other_signer, nonce.clone());

    let msg_bytes = AuthorizationMessage::AuthChallengeSubmitRequest(AuthChallengeSubmitRequest {
        submit_requests: vec![SubmitRequest {
            public_key: other_signer.public_key(),
            signature: other_signer.sign(&nonce),
        }],
    })
    .to_bytes();

    assert!(dispatcher
        .dispatch(
            connection_id.clone().into(),
            &NetworkMessageType::Authorization,
            msg_bytes,
            &mut mock_sender,
            &mut auth_mgr,
        )
        .is_ok());

    let (recipient, message_bytes) = mock_sender
        .next_outbound()
        .expect("Unable to receive message over the network");
    let recipient: String = recipient.into();
    assert_eq!(&connection_id, &recipient);

    let _submit_response: AuthChallengeSubmitResponse = expect_auth_message(
        AuthorizationMessageType::AuthChallengeSubmitResponse,
        &message_bytes,
    );

    let managed_state = managed_state(&auth_mgr, &connection_id);
    assert_eq!(
        managed_state.initiating_state,
        AuthorizationInitiatingState::Challenge(
            ChallengeAuthorizationInitiatingState::WaitingForAuthChallengeSubmitResponse
        ),
    );
    assert_eq!(
        managed_state.accepting_state,
        AuthorizationAcceptingState::Done(Identity::Challenge {
            public_key: other_signer.public_key_hex()
        })
    );
    assert_eq!(managed_state.received_complete, false);
}

fn submit_response_scenario(received_complete: bool) -> (ManagedAuthorizationState, String) {
    let connection_id = "test_connection".to_string();
    let other_signer = TestSigner::new();
    let public_key = other_signer.public_key_hex();
    let mut auth_mgr = AuthorizationManagerStateMachine::default();
    insert_state(
        &mut auth_mgr,
        &connection_id,
        ManagedAuthorizationState {
            initiating_state: AuthorizationInitiatingState::Challenge(
                ChallengeAuthorizationInitiatingState::WaitingForAuthChallengeSubmitResponse,
            ),
            accepting_state: AuthorizationAcceptingState::Done(Identity::Challenge {
                public_key: public_key.clone(),
            }),
            received_complete,
            local_authorization: None,
        },
    );
    let mut mock_sender: OutboundQueue<ConnectionId> = OutboundQueue::new();
    let local_signer = TestSigner::new();
    let dispatcher = challenge_dispatcher(&local_signer, &other_signer, test_nonce());

    let msg_bytes = AuthorizationMessage::AuthChallengeSubmitResponse(AuthChallengeSubmitResponse {
        public_key: local_signer.public_key(),
    })
    .to_bytes();

    assert!(dispatcher
        .dispatch(
            connection_id.clone().into(),
            &NetworkMessageType::Authorization,
            msg_bytes,
            &mut mock_sender,
            &mut auth_mgr,
        )
        .is_ok());

    let (recipient, message_bytes) = mock_sender
        .next_outbound()
        .expect("Unable to receive message over the network");
    let recipient: String = recipient.into();
    assert_eq!(&connection_id, &recipient);

    let _auth_complete: AuthComplete =
        expect_auth_message(AuthorizationMessageType::AuthComplete, &message_bytes);

    (managed_state(&auth_mgr, &connection_id), public_key)
}

/// A submit response is answered with the completion message; without the remote's
/// completion the initiating side waits for it.
fn handlers_auth_challenge_submit_response_scenario() {
    let (managed_state, public_key) = submit_response_scenario(false);
    assert_eq!(
        managed_state.initiating_state,
        AuthorizationInitiatingState::WaitForComplete
    );
    assert_eq!(
        managed_state.accepting_state,
        AuthorizationAcceptingState::Done(Identity::Challenge { public_key })
    );
    assert_eq!(managed_state.received_complete, false);
}

/// A submit response after the remote's completion completes the initiating side.
fn handlers_auth_challenge_submit_response_complete_scenario() {
    let (managed_state, public_key) = submit_response_scenario(true);
    assert_eq!(
        managed_state.initiating_state,
        AuthorizationInitiatingState::AuthorizedAndComplete,
    );
    assert_eq!(
        managed_state.accepting_state,
        AuthorizationAcceptingState::Done(Identity::Challenge { public_key })
    );
    assert_eq!(managed_state.received_complete, true);
}

#[test]
fn handlers_protocol_response_challenge() {
    handlers_protocol_response_challenge_scenario();
}

#[test]
fn v1_handlers_protocol_response_challenge() {
    handlers_protocol_response_challenge_scenario();
}

#[test]
fn handlers_auth_challenge_nonce_request() {
    handlers_auth_challenge_nonce_request_scenario();
}

#[test]
fn v1_handlers_auth_challenge_nonce_request() {
    handlers_auth_challenge_nonce_request_scenario();
}

#[test]
fn handlers_auth_challenge_nonce_response() {
    handlers_auth_challenge_nonce_response_scenario();
}

#[test]
fn v1_handlers_auth_challenge_nonce_response() {
    handlers_auth_challenge_nonce_response_scenario();
}

#[test]
fn handlers_auth_challenge_submit_request() {
    handlers_auth_challenge_submit_request_scenario();
}

#[test]
fn v1_handlers_auth_challenge_submit_request() {
    handlers_auth_challenge_submit_request_scenario();
}

#[test]
fn handlers_auth_challenge_submit_response() {
    handlers_auth_challenge_submit_response_scenario();
}

#[test]
fn v1_handlers_auth_challenge_submit_response() {
    handlers_auth_challenge_submit_response_scenario();
}

#[test]
fn handlers_auth_challenge_submit_response_complete() {
    handlers_auth_challenge_submit_response_complete_scenario();
}

#[test]
fn v1_handlers_auth_challenge_submit_response_complete() {
    handlers_auth_challenge_submit_response_complete_scenario();
}
