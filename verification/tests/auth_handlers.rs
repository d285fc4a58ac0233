use splinter::auth::handlers::AuthorizationDispatchBuilder;
use splinter::auth::messages::{AuthComplete, AuthorizationMessage};
use splinter::auth::state_machine::{
    AuthorizationAcceptingState, AuthorizationInitiatingState, AuthorizationManagerStateMachine,
    Identity, ManagedAuthorizationState,
};
use splinter::dispatch::{ConnectionId, OutboundQueue};
use splinter::wire::NetworkMessageType;

/// Test that an AuthComplete is properly handled. Also verify state is set to
/// AuthorizedAndComplete
fn mod_auth_complete_scenario() {
    let connection_id = "test_connection".to_string();
    // need to setup expected authorization state
    let mut auth_mgr = AuthorizationManagerStateMachine::default();
    auth_mgr.shared.states.insert(
        connection_id.to_string(),
        ManagedAuthorizationState {
            initiating_state: AuthorizationInitiatingState::WaitForComplete,
            accepting_state: AuthorizationAcceptingState::Done(Identity::Trust {
                identity: "other_identity".to_string(),
            }),
            received_complete: false,
            local_authorization: None,
        },
    );
    let mut mock_sender: OutboundQueue<ConnectionId> = OutboundQueue::new();

    let dispatcher = AuthorizationDispatchBuilder::new()
        .with_identity("mock_identity")
        .build()
        .expect("Unable to build authorization dispatcher");

    let msg_bytes = AuthorizationMessage::AuthComplete(AuthComplete).to_bytes();

    assert!(dispatcher
        .dispatch(
            connection_id.clone().into(),
            &NetworkMessageType::Authorization,
            msg_bytes,
            &mut mock_sender,
            &mut auth_mgr,
        )
        .is_ok());

    assert_eq!(mock_sender.next_outbound(), None);

    let managed_state = auth_mgr
        .shared
        .states
        .get(&connection_id)
        .cloned()
        .expect("missing managed state for connection id");

    assert_eq!(
        managed_state.initiating_state,
        AuthorizationInitiatingState::AuthorizedAndComplete,
    );
    assert_eq!(
        managed_state.accepting_state,
        AuthorizationAcceptingState::Done(Identity::Trust {
            identity: "other_identity".to_string()
        })
    );
    assert_eq!(managed_state.received_complete, true);
}

#[test]
fn mod_auth_complete() {
    mod_auth_complete_scenario();
}

#[test]
fn v1_handlers_auth_complete() {
    mod_auth_complete_scenario();
}
