use splinter::connection_manager::error::ConnectionManagerError;
use splinter::connection_manager::notification::ConnectionManagerNotification;
use splinter::connection_manager::{
    ConnectionManagerState, ConnectionMetadataExt, OutboundRequest, SubscriberMap, INITIAL_RETRY_FREQUENCY,
};

fn connected_state(endpoint: &str) -> ConnectionManagerState {
    let mut state = ConnectionManagerState::new(300);
    let notice = state.on_outbound_authorized(
        endpoint.to_string(),
        "conn-1".to_string(),
        "remote".to_string(),
        Ok(()),
        100,
    );
    assert_eq!(
        ConnectionManagerNotification::Connected {
            endpoint: endpoint.to_string(),
            connection_id: "conn-1".to_string(),
            identity: "remote".to_string(),
        },
        notice
    );
    state
}

/// Removing an endpoint that was never connected removes nothing.
#[test]
fn test_remove_nonexistent_connection() {
    let mut state = ConnectionManagerState::new(300);
    let endpoint_removed = state.remove_connection("tcp://localhost:5000");
    assert!(endpoint_removed.is_none());
}

/// An authorized outbound connection is recorded, asked for again it is already connected,
/// and removing it hands back its record.
#[test]
fn cm_outbound_connection_recorded_and_removed() {
    let mut state = connected_state("tcp://a:1");
    let meta = state.connection_metadata("tcp://a:1").expect("no record");
    assert_eq!("conn-1", meta.connection_id());
    assert_eq!("remote", meta.identity());
    assert!(meta.is_outbound());
    assert_eq!(vec!["tcp://a:1".to_string()], state.list_connections());

    match state.request_outbound_connection("tcp://a:1", "conn-2".to_string()) {
        OutboundRequest::AlreadyConnected(Some(notice)) => assert_eq!(
            ConnectionManagerNotification::Connected {
                endpoint: "tcp://a:1".to_string(),
                connection_id: "conn-2".to_string(),
                identity: "remote".to_string(),
            },
            notice
        ),
        _ => panic!("expected the endpoint to be connected"),
    }
    assert!(matches!(
        state.request_outbound_connection("tcp://b:2", "conn-3".to_string()),
        OutboundRequest::Connect
    ));

    let removed = state.remove_connection("tcp://a:1").expect("nothing removed");
    assert_eq!("conn-1", removed.connection_id);
    assert!(state.connection_metadata("tcp://a:1").is_none());
    assert!(state.list_connections().is_empty());
}

/// A connection the matrix did not take is not recorded and fails for good.
#[test]
fn cm_outbound_connection_not_added_is_fatal() {
    let mut state = ConnectionManagerState::new(300);
    let notice = state.on_outbound_authorized(
        "tcp://a:1".to_string(),
        "conn-1".to_string(),
        "remote".to_string(),
        Err("matrix full".to_string()),
        0,
    );
    match notice {
        ConnectionManagerNotification::FatalConnectionError { endpoint, error } => {
            assert_eq!("tcp://a:1", endpoint);
            assert_eq!(ConnectionManagerError::connection_creation_error("matrix full"), error);
        }
        other => panic!("unexpected notification {:?}", other),
    }
    assert!(state.list_connections().is_empty());
}

/// A refused outbound connection fails for good.
#[test]
fn cm_outbound_unauthorized_is_fatal() {
    let mut state = connected_state("tcp://a:1");
    let notice = state.on_outbound_unauthorized("tcp://a:1".to_string(), "conn-1".to_string());
    assert_eq!(
        ConnectionManagerNotification::FatalConnectionError {
            endpoint: "tcp://a:1".to_string(),
            error: ConnectionManagerError::Unauthorized("conn-1".to_string()),
        },
        notice
    );
    assert!(state.connection_metadata("tcp://a:1").is_none());
}

/// A failed heartbeat to an outbound connection reports it disconnected and asks for a
/// reconnection; each failed reconnection doubles the delay, up to the maximum.
#[test]
fn cm_heartbeat_failure_and_reconnection_backoff() {
    let mut state = connected_state("tcp://a:1");
    let round = state.heartbeat_round(105);
    assert_eq!(vec![("tcp://a:1".to_string(), "conn-1".to_string())], round.heartbeats);
    assert!(round.reconnections.is_empty());

    let (notice, reconnect) = state.on_heartbeat_failed("tcp://a:1");
    assert!(reconnect);
    assert_eq!(
        Some(ConnectionManagerNotification::Disconnected {
            endpoint: "tcp://a:1".to_string(),
            identity: "remote".to_string(),
        }),
        notice
    );

    let target = state.reconnect_target("tcp://a:1").expect("no target");
    assert!(target.is_some());

    let notice = state.on_reconnect_failed("tcp://a:1", 110);
    assert_eq!(
        Some(ConnectionManagerNotification::NonFatalConnectionError {
            endpoint: "tcp://a:1".to_string(),
            attempts: 1,
            identity: "remote".to_string(),
        }),
        notice
    );
    match &state.connection_metadata("tcp://a:1").expect("no record").extended_metadata {
        ConnectionMetadataExt::Outbound { reconnecting, retry_frequency, last_connection_attempt, reconnection_attempts } => {
            assert!(*reconnecting);
            assert_eq!(2 * INITIAL_RETRY_FREQUENCY, *retry_frequency);
            assert_eq!(110, *last_connection_attempt);
            assert_eq!(1, *reconnection_attempts);
        }
        _ => panic!("expected an outbound connection"),
    }

    // A reconnecting connection gets no heartbeat, and is due again once its delay has run.
    let round = state.heartbeat_round(120);
    assert!(round.heartbeats.is_empty());
    assert!(round.reconnections.is_empty());
    let round = state.heartbeat_round(131);
    assert_eq!(vec!["tcp://a:1".to_string()], round.reconnections);

    for _ in 0..10 {
        state.on_reconnect_failed("tcp://a:1", 200);
    }
    match &state.connection_metadata("tcp://a:1").expect("no record").extended_metadata {
        ConnectionMetadataExt::Outbound { retry_frequency, reconnection_attempts, .. } => {
            assert_eq!(300, *retry_frequency);
            assert_eq!(11, *reconnection_attempts);
        }
        _ => panic!("expected an outbound connection"),
    }
}

/// Reconnecting needs a record; an inbound connection is not reopened.
#[test]
fn cm_reconnect_target_cases() {
    let mut state = ConnectionManagerState::new(300);
    assert_eq!(
        Err(ConnectionManagerError::ConnectionRemovalError(
            "Cannot reconnect to endpoint without metadata".to_string()
        )),
        state.reconnect_target("tcp://nowhere:1")
    );
    let notice = state.on_inbound_authorized(
        "tcp://in:1".to_string(),
        "conn-in".to_string(),
        "peer".to_string(),
        Ok(()),
    );
    assert_eq!(
        ConnectionManagerNotification::InboundConnection {
            endpoint: "tcp://in:1".to_string(),
            connection_id: "conn-in".to_string(),
            identity: "peer".to_string(),
        },
        notice
    );
    assert_eq!(Ok(None), state.reconnect_target("tcp://in:1"));
    assert_eq!(None, state.on_reconnect_failed("tcp://in:1", 5));
}

/// An inbound connection whose heartbeat fails is reported disconnected once, and counts as
/// connected again after a heartbeat goes through.
#[test]
fn cm_inbound_heartbeat_failure_reported_once() {
    let mut state = ConnectionManagerState::new(300);
    state.on_inbound_authorized("tcp://in:1".to_string(), "conn-in".to_string(), "peer".to_string(), Ok(()));
    let (first, reconnect) = state.on_heartbeat_failed("tcp://in:1");
    assert!(!reconnect);
    assert_eq!(
        Some(ConnectionManagerNotification::Disconnected {
            endpoint: "tcp://in:1".to_string(),
            identity: "peer".to_string(),
        }),
        first
    );
    let (second, _) = state.on_heartbeat_failed("tcp://in:1");
    assert_eq!(None, second);
    state.on_heartbeat_sent("tcp://in:1");
    let (third, _) = state.on_heartbeat_failed("tcp://in:1");
    assert!(third.is_some());
    assert_eq!((None, false), state.on_heartbeat_failed("tcp://unknown:1"));
}

/// An inbound connection id is a fresh UUID in its hyphenated form.
#[test]
fn cm_inbound_connection_id_is_uuid() {
    let state = ConnectionManagerState::new(300);
    let a = state.inbound_connection_id();
    let b = state.inbound_connection_id();
    assert_eq!(36, a.len());
    assert_ne!(a, b);
}

/// Subscriber ids count up from 0, one per subscription, and are not reused after removal.
#[test]
fn cm_subscriber_ids_count_up() {
    let mut subscribers: SubscriberMap<&str> = SubscriberMap::new();
    assert_eq!(0, subscribers.add_subscriber("a"));
    assert_eq!(1, subscribers.add_subscriber("b"));
    subscribers.remove_subscriber(0);
    assert_eq!(2, subscribers.add_subscriber("c"));
    assert_eq!(2, subscribers.len());
    assert_eq!(1, subscribers.subscriber_at(0).0);
    assert_eq!(2, subscribers.subscriber_at(1).0);
}
