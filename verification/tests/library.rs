use cylinder::secp256k1::Secp256k1Context;
use cylinder::{Context, PrivateKey};

use splinter::auth::authorization::challenge::ChallengeAuthorization;
use splinter::auth::authorization::Authorization;
use splinter::auth::handlers::{AuthorizationDispatchBuilder, ConnectionAuthorizationType};
use splinter::auth::messages::{
    AuthChallengeSubmitRequest, AuthorizationEnvelope, AuthorizationError, AuthorizationMessage,
    AuthorizationMessageType, SubmitRequest,
};
use splinter::auth::pool::{ThreadPoolBuildError, ThreadPoolBuilder};
use splinter::auth::state_machine::challenge_v1::ChallengeAuthorizationAcceptingState;
use splinter::auth::state_machine::trust_v1::{
    TrustAuthorizationAcceptingAction, TrustAuthorizationInitiatingAction,
};
use splinter::auth::state_machine::{
    AuthorizationAcceptingAction, AuthorizationAcceptingState, AuthorizationInitiatingAction,
    AuthorizationInitiatingState, AuthorizationManagerStateMachine, Identity,
    ManagedAuthorizationState,
};
use splinter::collections::{RefMap, StringMap};
use splinter::dispatch::{ConnectionId, FromMessageBytes, OutboundQueue};
use splinter::peer_manager::{AddPeer, PeerManagerState};
use splinter::public_key::to_hex;
use splinter::signing::{SignatureVerifier, SigningKey};
use splinter::wire::{decode_network_message, encode_network_message, NetworkMessageType};

fn new_private_key() -> Vec<u8> {
    Secp256k1Context::new().new_random_private_key().into_bytes()
}

fn public_key_of(private_key: &[u8]) -> Vec<u8> {
    Secp256k1Context::new()
        .get_public_key(&PrivateKey::new(private_key.to_vec()))
        .expect("unable to get public key")
        .into_bytes()
}

fn sign(private_key: &[u8], message: &[u8]) -> Vec<u8> {
    Secp256k1Context::new()
        .new_signer(PrivateKey::new(private_key.to_vec()))
        .sign(message)
        .expect("unable to sign")
        .take_bytes()
}

/// The trust handshake, both sides: the remote is done with its identity and the local side
/// ends authorized and complete once the remote's completion came first.
#[test]
fn trust_handshake_authorizes_both_sides() {
    let mut machine = AuthorizationManagerStateMachine::default();
    let conn = "conn";
    let identity = Identity::Trust {
        identity: "remote".to_string(),
    };
    let steps = vec![
        AuthorizationAcceptingAction::ReceiveAuthProtocolRequest,
        AuthorizationAcceptingAction::SendAuthProtocolResponse,
        AuthorizationAcceptingAction::Trust(TrustAuthorizationAcceptingAction::ReceiveAuthTrustRequest(
            identity.clone(),
        )),
        AuthorizationAcceptingAction::Trust(TrustAuthorizationAcceptingAction::SendAuthTrustResponse),
    ];
    for step in steps {
        assert!(machine.next_accepting_state(conn, step).is_ok());
    }
    let local = Identity::Trust {
        identity: "local".to_string(),
    };
    let steps = vec![
        AuthorizationInitiatingAction::SendAuthProtocolRequest,
        AuthorizationInitiatingAction::ReceiveAuthProtocolResponse,
        AuthorizationInitiatingAction::Trust(TrustAuthorizationInitiatingAction::SendAuthTrustRequest(
            local.clone(),
        )),
        AuthorizationInitiatingAction::Trust(TrustAuthorizationInitiatingAction::ReceiveAuthTrustResponse),
    ];
    for step in steps {
        assert!(machine.next_initiating_state(conn, step).is_ok());
    }
    assert!(machine.received_complete(conn).is_ok());
    assert_eq!(
        machine.next_initiating_state(conn, AuthorizationInitiatingAction::SendAuthComplete),
        Ok(AuthorizationInitiatingState::AuthorizedAndComplete)
    );
    let state = machine
        .shared
        .states
        .get(&conn.to_string())
        .cloned()
        .expect("no state");
    assert_eq!(state.accepting_state, AuthorizationAcceptingState::Done(identity));
    assert_eq!(state.local_authorization, Some(local));
}

/// An event out of order is refused and changes nothing; unauthorizing ends both sides.
#[test]
fn refused_event_changes_nothing_and_unauthorizing_ends_both() {
    let mut machine = AuthorizationManagerStateMachine::default();
    let conn = "conn";
    assert!(machine
        .next_accepting_state(conn, AuthorizationAcceptingAction::SendAuthProtocolResponse)
        .is_err());
    let state = machine.shared.states.get(&conn.to_string()).cloned().unwrap();
    assert_eq!(state.accepting_state, AuthorizationAcceptingState::Start);
    assert_eq!(state.initiating_state, AuthorizationInitiatingState::Start);
    assert_eq!(
        machine.next_initiating_state(conn, AuthorizationInitiatingAction::Unauthorizing),
        Ok(AuthorizationInitiatingState::Unauthorized)
    );
    let state = machine.shared.states.get(&conn.to_string()).cloned().unwrap();
    assert_eq!(state.accepting_state, AuthorizationAcceptingState::Unauthorized);
}

/// A reference added and then removed leaves the counts as they were.
#[test]
fn reference_added_then_removed() {
    let mut refs = RefMap::new();
    assert_eq!(refs.add_ref("peer".to_string()), 1);
    assert_eq!(refs.add_ref("peer".to_string()), 2);
    assert_eq!(refs.remove_ref("peer"), None);
    assert_eq!(refs.remove_ref("peer"), Some("peer".to_string()));
    assert_eq!(refs.remove_ref("peer"), None);
}

/// A map of strings gives back what was inserted and forgets what was removed.
#[test]
fn string_map_insert_get_remove() {
    let mut map: StringMap<u64> = StringMap::new();
    assert_eq!(map.insert("a".to_string(), 1), None);
    assert_eq!(map.insert("a".to_string(), 2), Some(1));
    assert_eq!(map.get(&"a".to_string()), Some(&2));
    assert_eq!(map.remove(&"a".to_string()), Some(2));
    assert_eq!(map.get(&"a".to_string()), None);
    assert_eq!(map.len(), 0);
}

/// A network message decodes to the kind and payload it was encoded from; bytes of no
/// network message do not decode.
#[test]
fn network_message_roundtrip() {
    let bytes = encode_network_message(&NetworkMessageType::Gossip, b"payload");
    assert_eq!(bytes[0], 5);
    assert_eq!(
        decode_network_message(&bytes),
        Some((NetworkMessageType::Gossip, b"payload".to_vec()))
    );
    assert_eq!(decode_network_message(&[]), None);
    assert_eq!(decode_network_message(&[9, 1, 2]), None);
}

/// A submit request with two signatures decodes to what was encoded; its bytes cut short do
/// not decode.
#[test]
fn submit_request_roundtrip() {
    let request = AuthChallengeSubmitRequest {
        submit_requests: vec![
            SubmitRequest {
                public_key: vec![1, 2, 3],
                signature: vec![4, 5],
            },
            SubmitRequest {
                public_key: vec![],
                signature: vec![6],
            },
        ],
    };
    let bytes = AuthorizationMessage::AuthChallengeSubmitRequest(request.clone()).to_bytes();
    let envelope = AuthorizationEnvelope::from_message_bytes(&bytes).expect("envelope");
    assert_eq!(envelope.message_type, AuthorizationMessageType::AuthChallengeSubmitRequest);
    assert_eq!(envelope.payload.len(), 8 + 3 + 8 + 2 + 8 + 0 + 8 + 1);
    let decoded = AuthChallengeSubmitRequest::from_message_bytes(&envelope.payload).expect("decode");
    assert_eq!(decoded, request);
    let short = &envelope.payload[..envelope.payload.len() - 1];
    assert!(AuthChallengeSubmitRequest::from_message_bytes(short).is_err());
}

/// The pool settings: an error without a size or with size 0, the default prefix otherwise.
#[test]
fn thread_pool_settings() {
    assert_eq!(
        ThreadPoolBuilder::new().settings(),
        Err(ThreadPoolBuildError("Must configure thread pool size".to_string()))
    );
    assert_eq!(
        ThreadPoolBuilder::new().with_size(0).settings(),
        Err(ThreadPoolBuildError("Must configure more than 0 threads".to_string()))
    );
    assert_eq!(
        ThreadPoolBuilder::new().with_size(8).settings(),
        Ok((8, "ThreadPool-".to_string()))
    );
    assert_eq!(
        ThreadPoolBuilder::new()
            .with_prefix("Auth-".to_string())
            .with_size(2)
            .settings(),
        Ok((2, "Auth-".to_string()))
    );
}

/// A new peer gets a connection request under a fresh 36-character connection id; a second
/// reference is ready at once.
#[test]
fn add_peer_requests_connection_with_fresh_id() {
    let mut state = PeerManagerState::new(None);
    match state
        .add_peer("peer".to_string(), vec!["tcp://a:1".to_string()], 0)
        .expect("add peer")
    {
        AddPeer::Connect {
            peer_id,
            connection_id,
            endpoints,
        } => {
            assert_eq!(peer_id, "peer");
            assert_eq!(connection_id.len(), 36);
            assert_eq!(connection_id.chars().filter(|c| *c == '-').count(), 4);
            assert_eq!(endpoints, vec!["tcp://a:1".to_string()]);
        }
        AddPeer::Ready(_) => panic!("expected a connection request"),
    }
    assert!(matches!(
        state.add_peer("peer".to_string(), vec![], 0),
        Ok(AddPeer::Ready(_))
    ));
}

/// A new peer with no endpoints is an error.
#[test]
fn add_peer_without_endpoints_fails() {
    let mut state = PeerManagerState::new(None);
    assert!(state.add_peer("peer".to_string(), vec![], 0).is_err());
}

/// Public keys are named by their lower-case hex.
#[test]
fn public_key_hex() {
    assert_eq!(to_hex(&[0x00, 0xab, 0x10, 0xff]), "00ab10ff");
    assert_eq!(to_hex(&[]), "");
}

fn challenge_refusal(submit_requests: Vec<SubmitRequest>, expected: Option<String>) -> String {
    let connection_id = "test_connection".to_string();
    let nonce: Vec<u8> = (0..32).collect();
    let mut auth_mgr = AuthorizationManagerStateMachine::default();
    auth_mgr.shared.states.insert(
        connection_id.clone(),
        ManagedAuthorizationState {
            initiating_state: AuthorizationInitiatingState::WaitingForAuthProtocolResponse,
            accepting_state: AuthorizationAcceptingState::Challenge(
                ChallengeAuthorizationAcceptingState::WaitingForAuthChallengeSubmitRequest,
            ),
            received_complete: false,
            local_authorization: None,
        },
    );
    let expected_authorization =
        expected.map(|public_key| ConnectionAuthorizationType::Challenge { public_key });
    let dispatcher = AuthorizationDispatchBuilder::new()
        .with_identity("mock_identity")
        .add_authorization(ChallengeAuthorization::new(
            vec![],
            nonce,
            SignatureVerifier::new(),
            expected_authorization.clone(),
            None,
        ))
        .with_expected_authorization(expected_authorization)
        .build()
        .expect("dispatcher");
    let mut sender: OutboundQueue<ConnectionId> = OutboundQueue::new();
    let msg_bytes = AuthorizationMessage::AuthChallengeSubmitRequest(AuthChallengeSubmitRequest {
        submit_requests,
    })
    .to_bytes();
    assert_eq!(
        Ok(()),
        dispatcher.dispatch(
            connection_id.clone().into(),
            &NetworkMessageType::Authorization,
            msg_bytes,
            &mut sender,
            &mut auth_mgr,
        )
    );
    let state = auth_mgr.shared.states.get(&connection_id).cloned().unwrap();
    assert_eq!(state.accepting_state, AuthorizationAcceptingState::Unauthorized);
    assert_eq!(state.initiating_state, AuthorizationInitiatingState::Unauthorized);
    let (_, bytes) = sender.next_outbound().expect("refusal");
    let (_, payload) = decode_network_message(&bytes).unwrap();
    let envelope = AuthorizationEnvelope::from_message_bytes(&payload).unwrap();
    assert_eq!(envelope.message_type, AuthorizationMessageType::AuthorizationError);
    let AuthorizationError::AuthorizationRejected(text) =
        AuthorizationError::from_message_bytes(&envelope.payload).unwrap();
    text
}

/// A signature that does not match the nonce is refused.
#[test]
fn challenge_with_bad_signature_is_refused() {
    let key = new_private_key();
    let text = challenge_refusal(
        vec![SubmitRequest {
            public_key: public_key_of(&key),
            signature: sign(&key, b"some other message"),
        }],
        None,
    );
    assert_eq!(text, "Challenge signature was not valid");
}

/// A submission without the expected key is refused.
#[test]
fn challenge_without_expected_key_is_refused() {
    let key = new_private_key();
    let other = new_private_key();
    let nonce: Vec<u8> = (0..32).collect();
    let text = challenge_refusal(
        vec![SubmitRequest {
            public_key: public_key_of(&key),
            signature: sign(&key, &nonce),
        }],
        Some(to_hex(&public_key_of(&other))),
    );
    assert_eq!(text, "Required public key not submitted");
}

/// A submission with no signature at all is refused.
#[test]
fn challenge_without_keys_is_refused() {
    let text = challenge_refusal(vec![], None);
    assert_eq!(text, "No public keys submitted");
}

/// A signature that cannot be read stops the handler with an error and changes nothing.
#[test]
fn challenge_with_unreadable_signature_fails() {
    let connection_id = "test_connection".to_string();
    let mut auth_mgr = AuthorizationManagerStateMachine::default();
    let dispatcher = AuthorizationDispatchBuilder::new()
        .with_identity("mock_identity")
        .add_authorization(ChallengeAuthorization::new(
            vec![],
            vec![1, 2, 3],
            SignatureVerifier::new(),
            None,
            None,
        ))
        .build()
        .expect("dispatcher");
    let mut sender: OutboundQueue<ConnectionId> = OutboundQueue::new();
    let msg_bytes = AuthorizationMessage::AuthChallengeSubmitRequest(AuthChallengeSubmitRequest {
        submit_requests: vec![SubmitRequest {
            public_key: vec![1, 2, 3],
            signature: vec![4],
        }],
    })
    .to_bytes();
    let result = dispatcher.dispatch(
        connection_id.clone().into(),
        &NetworkMessageType::Authorization,
        msg_bytes,
        &mut sender,
        &mut auth_mgr,
    );
    assert!(matches!(
        result,
        Err(splinter::dispatch::DispatchError::HandleError(_))
    ));
    assert_eq!(sender.len(), 0);
    assert!(auth_mgr.shared.states.get(&connection_id).is_none());
}

/// The local node must hold a signer for the key it authorizes with; the verifier goes to
/// the first set of handlers only.
#[test]
fn challenge_handlers_errors() {
    let key = new_private_key();
    let mut authorization = ChallengeAuthorization::new(
        vec![SigningKey::new(key.clone())],
        vec![1],
        SignatureVerifier::new(),
        None,
        Some(ConnectionAuthorizationType::Challenge {
            public_key: to_hex(&public_key_of(&new_private_key())),
        }),
    );
    let err = authorization.get_handlers().err().expect("no signer for the key");
    assert_eq!(err.message(), "Required local authorization is not supported");

    let mut authorization = ChallengeAuthorization::new(
        vec![SigningKey::new(key.clone())],
        vec![1],
        SignatureVerifier::new(),
        None,
        Some(ConnectionAuthorizationType::Challenge {
            public_key: to_hex(&public_key_of(&key)),
        }),
    );
    assert_eq!(authorization.get_handlers().map(|hs| hs.len()).ok(), Some(4));
    let err = authorization.get_handlers().err().expect("verifier taken");
    assert_eq!(err.message(), "No verifier to add to handler");
}
