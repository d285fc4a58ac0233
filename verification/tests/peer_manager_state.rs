use splinter::connection_manager::error::ConnectionManagerError;
use splinter::peer_manager::{
    active_endpoint,
    AddPeer, PeerManagerNotification, PeerManagerState, PeerRefRemoveError, RemovePeer,
};

/// Adds a reference to `peer_id` at `endpoint`, records it pending and lets its connection
/// come up under the right identity.
fn connected_peer(state: &mut PeerManagerState, peer_id: &str, endpoint: &str) -> String {
    let (peer, connection_id, endpoints) = match state
        .add_peer(peer_id.to_string(), vec![endpoint.to_string()], 0)
        .expect("unable to add peer")
    {
        AddPeer::Connect { peer_id, connection_id, endpoints } => (peer_id, connection_id, endpoints),
        AddPeer::Ready(_) => panic!("expected a connection request"),
    };
    let peer_ref = state.add_peer_connecting(peer, connection_id.clone(), endpoints, endpoint.to_string(), 0);
    assert_eq!(peer_id, peer_ref.peer_id());
    let actions = state.on_connected(endpoint.to_string(), peer_id.to_string(), connection_id.clone(), 1);
    assert!(actions.remove_connections.is_empty());
    assert_eq!(
        Some(PeerManagerNotification::Connected { peer: peer_id.to_string() }),
        actions.notification
    );
    connection_id
}

/// A peer whose connection comes up is listed, and its connection id and peer id can be
/// looked up from each other.
#[test]
fn pm_added_peer_connects() {
    let mut state = PeerManagerState::new(None);
    let connection_id = connected_peer(&mut state, "test_peer", "tcp://peer:1");
    assert_eq!(vec!["test_peer".to_string()], state.peer_ids());
    assert_eq!(Some(connection_id.clone()), state.connection_id_of(&"test_peer".to_string()));
    assert_eq!(Some("test_peer".to_string()), state.peer_id_of(&connection_id));
    assert_eq!(None, state.peer_id_of(&"other".to_string()));
    assert_eq!(vec![("test_peer".to_string(), connection_id)], state.connection_ids());
}

/// Each reference counts: the peer stays until the last one is removed, and then its
/// connection is to be removed.
#[test]
fn pm_peer_references_counted() {
    let mut state = PeerManagerState::new(None);
    connected_peer(&mut state, "test_peer", "tcp://peer:1");
    assert!(matches!(
        state.add_peer("test_peer".to_string(), vec!["tcp://peer:1".to_string()], 2),
        Ok(AddPeer::Ready(_))
    ));
    assert_eq!(Some(2), state.reference_count(&"test_peer".to_string()));

    assert!(matches!(state.remove_peer("test_peer".to_string()), RemovePeer::Done(Ok(()))));
    assert_eq!(Some(1), state.reference_count(&"test_peer".to_string()));
    assert_eq!(vec!["test_peer".to_string()], state.peer_ids());

    match state.remove_peer("test_peer".to_string()) {
        RemovePeer::RemoveConnection(endpoint) => assert_eq!("tcp://peer:1", endpoint),
        _ => panic!("expected the connection to be removed"),
    }
    assert_eq!(None, state.reference_count(&"test_peer".to_string()));
    assert!(state.peer_ids().is_empty());
    assert_eq!(Ok(()), PeerManagerState::remove_connection_outcome(Ok(Some("tcp://peer:1".to_string()))));
    assert_eq!(
        Err(PeerRefRemoveError::RemoveError("No connection to remove, something has gone wrong".to_string())),
        PeerManagerState::remove_connection_outcome(Ok(None))
    );
    assert!(PeerManagerState::remove_connection_outcome(Err(ConnectionManagerError::StatePoisoned)).is_err());
}

/// A pending peer whose connection answers as someone else is told disconnected and the
/// connection is to be removed.
#[test]
fn pm_identity_mismatch_removes_connection() {
    let mut state = PeerManagerState::new(None);
    let connection_id = match state
        .add_peer("test_peer".to_string(), vec!["tcp://peer:1".to_string()], 0)
        .expect("unable to add peer")
    {
        AddPeer::Connect { connection_id, .. } => connection_id,
        AddPeer::Ready(_) => panic!("expected a connection request"),
    };
    state.add_peer_connecting(
        "test_peer".to_string(),
        connection_id.clone(),
        vec!["tcp://peer:1".to_string()],
        "tcp://peer:1".to_string(),
        0,
    );
    let actions = state.on_connected("tcp://peer:1".to_string(), "bad_identity".to_string(), connection_id, 1);
    assert_eq!(vec!["tcp://peer:1".to_string()], actions.remove_connections);
    assert_eq!(
        Some(PeerManagerNotification::Disconnected { peer: "test_peer".to_string() }),
        actions.notification
    );
}

/// A connection nobody asked for makes an unreferenced peer; asking for that peer later
/// takes it over, ready at once.
#[test]
fn pm_unreferenced_peer_taken_over() {
    let mut state = PeerManagerState::new(None);
    let actions = state.on_connected(
        "tcp://remote:1".to_string(),
        "remote_peer".to_string(),
        "conn-r".to_string(),
        0,
    );
    assert!(actions.remove_connections.is_empty());
    assert_eq!(None, actions.notification);
    assert_eq!(vec!["remote_peer".to_string()], state.unreferenced_peer_ids());
    assert_eq!(Some("conn-r".to_string()), state.connection_id_of(&"remote_peer".to_string()));

    assert!(matches!(
        state.add_peer("remote_peer".to_string(), vec!["tcp://remote:1".to_string()], 1),
        Ok(AddPeer::Ready(_))
    ));
    assert!(state.unreferenced_peer_ids().is_empty());
    assert_eq!(vec!["remote_peer".to_string()], state.peer_ids());
    // Removing a reference the peer never had changes nothing.
    assert!(matches!(state.remove_peer("nobody".to_string()), RemovePeer::Done(Ok(()))));
}

/// A lost connection marks its peer disconnected; enough failed reconnection attempts make
/// the other endpoints be tried.
#[test]
fn pm_disconnect_and_retry_other_endpoints() {
    let mut state = PeerManagerState::new(Some(2));
    let connection_id = match state
        .add_peer(
            "test_peer".to_string(),
            vec!["tcp://a:1".to_string(), "tcp://b:2".to_string()],
            0,
        )
        .expect("unable to add peer")
    {
        AddPeer::Connect { connection_id, .. } => connection_id,
        AddPeer::Ready(_) => panic!("expected a connection request"),
    };
    state.add_peer_connecting(
        "test_peer".to_string(),
        connection_id.clone(),
        vec!["tcp://a:1".to_string(), "tcp://b:2".to_string()],
        "tcp://a:1".to_string(),
        0,
    );
    state.on_connected("tcp://a:1".to_string(), "test_peer".to_string(), connection_id.clone(), 1);

    assert_eq!(
        Some(PeerManagerNotification::Disconnected { peer: "test_peer".to_string() }),
        state.on_disconnected(&"tcp://a:1".to_string())
    );
    assert_eq!(None, state.on_non_fatal_error(&"tcp://a:1".to_string(), 1));
    let (others, conn) = state
        .on_non_fatal_error(&"tcp://a:1".to_string(), 2)
        .expect("expected the other endpoints to be tried");
    assert_eq!(vec!["tcp://b:2".to_string()], others);
    assert_eq!(connection_id, conn);
    assert_eq!(None, state.on_disconnected(&"tcp://unknown:1".to_string()));
}

/// A new peer is recorded on the first endpoint whose request went through, or on its first
/// endpoint when none did.
#[test]
fn pm_active_endpoint_choice() {
    let endpoints = vec!["tcp://a:1".to_string(), "tcp://b:2".to_string(), "tcp://c:3".to_string()];
    assert_eq!("tcp://b:2", active_endpoint(&endpoints, &vec![false, true]));
    assert_eq!("tcp://a:1", active_endpoint(&endpoints, &vec![true]));
    assert_eq!("tcp://a:1", active_endpoint(&endpoints, &vec![false, false, false]));
    assert_eq!("tcp://a:1", active_endpoint(&endpoints, &vec![]));
}
