use splinter::dispatch::{Dispatcher, FromMessageBytes, OutboundQueue, PeerId};
use splinter::handlers::{NetworkEcho, NetworkEchoHandler};
use splinter::wire::{decode_network_message, NetworkMessageType};

/// An echo addressed to this node goes back to its source with one hop less to live.
#[test]
fn handlers_dispatch_to_handler() {
    let mut network_sender: OutboundQueue<PeerId> = OutboundQueue::new();
    let mut dispatcher: Dispatcher<NetworkEchoHandler> = Dispatcher::new();

    let handler = NetworkEchoHandler::new("TestPeer".to_string());

    dispatcher.set_handler(handler);

    let msg = NetworkEcho {
        payload: b"HelloWorld".to_vec(),
        recipient: "TestPeer".to_string(),
        time_to_live: 3,
    };

    let outgoing_message_bytes = msg.to_bytes();

    assert!(dispatcher
        .dispatch(
            PeerId("OTHER_PEER".to_string()),
            &NetworkMessageType::NetworkEcho,
            outgoing_message_bytes.clone(),
            &mut network_sender,
            &mut (),
        )
        .is_ok());

    let (recipient, network_message) = network_sender
        .next_outbound()
        .expect("Unable to get expected message");
    assert_eq!(recipient, PeerId("OTHER_PEER".to_string()));

    let (message_type, payload) = decode_network_message(&network_message).unwrap();
    assert_eq!(message_type, NetworkMessageType::NetworkEcho);
    let echo = NetworkEcho::from_message_bytes(&payload).unwrap();

    assert_eq!(echo.recipient, "TestPeer");
    assert_eq!(echo.time_to_live, 2);
    assert_eq!(echo.payload.to_vec(), b"HelloWorld".to_vec());
}

/// An echo for another node goes on to that node.
#[test]
fn echo_for_other_node_is_forwarded() {
    let mut network_sender: OutboundQueue<PeerId> = OutboundQueue::new();
    let mut dispatcher: Dispatcher<NetworkEchoHandler> = Dispatcher::new();
    dispatcher.set_handler(NetworkEchoHandler::new("TestPeer".to_string()));

    let msg = NetworkEcho {
        payload: b"HelloWorld".to_vec(),
        recipient: "ThirdPeer".to_string(),
        time_to_live: 5,
    };
    assert!(dispatcher
        .dispatch(
            PeerId("OTHER_PEER".to_string()),
            &NetworkMessageType::NetworkEcho,
            msg.to_bytes(),
            &mut network_sender,
            &mut (),
        )
        .is_ok());
    let (recipient, network_message) = network_sender.next_outbound().expect("no message");
    assert_eq!(recipient, PeerId("ThirdPeer".to_string()));
    let (_, payload) = decode_network_message(&network_message).unwrap();
    let echo = NetworkEcho::from_message_bytes(&payload).unwrap();
    assert_eq!(echo.time_to_live, 4);
}

/// An echo with one hop left to live is dropped.
#[test]
fn echo_out_of_time_is_dropped() {
    let mut network_sender: OutboundQueue<PeerId> = OutboundQueue::new();
    let mut dispatcher: Dispatcher<NetworkEchoHandler> = Dispatcher::new();
    dispatcher.set_handler(NetworkEchoHandler::new("TestPeer".to_string()));

    let msg = NetworkEcho {
        payload: b"HelloWorld".to_vec(),
        recipient: "TestPeer".to_string(),
        time_to_live: 1,
    };
    assert!(dispatcher
        .dispatch(
            PeerId("OTHER_PEER".to_string()),
            &NetworkMessageType::NetworkEcho,
            msg.to_bytes(),
            &mut network_sender,
            &mut (),
        )
        .is_ok());
    assert_eq!(network_sender.len(), 0);
}

/// A message type with no handler set is refused.
#[test]
fn dispatch_without_handler_fails() {
    let mut network_sender: OutboundQueue<PeerId> = OutboundQueue::new();
    let dispatcher: Dispatcher<NetworkEchoHandler> = Dispatcher::new();
    let result = dispatcher.dispatch(
        PeerId("OTHER_PEER".to_string()),
        &NetworkMessageType::NetworkHeartbeat,
        vec![],
        &mut network_sender,
        &mut (),
    );
    assert_eq!(
        Err(splinter::dispatch::DispatchError::UnknownMessageType(
            "No handler for type NETWORK_HEARTBEAT".to_string()
        )),
        result
    );
}
