//! Handlers of the network-level messages between peers: echoes and heartbeats.
use vstd::prelude::*;
use vstd::utf8::encode_utf8;

use crate::dispatch::{sent_since, DispatchError, FromMessageBytes, Handler, MessageContext, MessageSender, PeerId};
use crate::wire::{
    decode_string, lemma_u32_be_roundtrip, lemma_u64_be_injective, network_message_bytes, push_bytes, push_u32_be,
    push_u64_be, read_u32_be, read_u64_be, string_bytes, tail_bytes, u32_be, u64_be, NetworkMessageType,
};

verus! {

/// An echo: `payload` travels to `recipient` and back, for as many hops as `time_to_live`
/// allows.
#[derive(Debug, PartialEq)]
pub struct NetworkEcho {
    pub payload: Vec<u8>,
    pub recipient: String,
    pub time_to_live: i32,
}

/// A heartbeat, which carries nothing.
#[derive(Debug, PartialEq)]
pub struct NetworkHeartbeat;

/// The bytes of an echo: the length and bytes of the recipient, the time to live, then the
/// payload.
pub open spec fn echo_bytes(recipient: Seq<char>, time_to_live: i32, payload: Seq<u8>) -> Seq<u8> {
    u64_be(encode_utf8(recipient).len() as u64) + encode_utf8(recipient) + u32_be(time_to_live as u32) + payload
}

impl NetworkEcho {
    /// The bytes of this echo.
    pub open spec fn spec_bytes(&self) -> Seq<u8> {
        echo_bytes(self.recipient@, self.time_to_live, self.payload@)
    }

    /// The bytes of this echo.
    pub fn to_bytes(&self) -> (r: Vec<u8>)
        ensures
            r@ == self.spec_bytes(),
    {
        let recipient = string_bytes(self.recipient.as_str());
        let mut out: Vec<u8> = Vec::new();
        push_u64_be(&mut out, recipient.len() as u64);
        push_bytes(&mut out, recipient.as_slice());
        push_u32_be(&mut out, self.time_to_live as u32);
        push_bytes(&mut out, self.payload.as_slice());
        assert(out@ =~= self.spec_bytes());
        out
    }
}

impl FromMessageBytes for NetworkEcho {
    open spec fn spec_message_bytes(message: Self) -> Seq<u8> {
        message.spec_bytes()
    }

    fn from_message_bytes(message_bytes: &[u8]) -> (r: Result<Self, DispatchError>) {
        let b = message_bytes;
        let n = b.len();
        if n < 8 {
            proof {
                assert forall|m: NetworkEcho| #[trigger] Self::spec_message_bytes(m) != b@ by {
                    assert(Self::spec_message_bytes(m).len() >= 12);
                }
            }
            return Err(DispatchError::DeserializationError("Malformed echo".to_owned()));
        }
        let len64 = read_u64_be(b, 0);
        if len64 > (n - 8) as u64 || (n - 8) as u64 - len64 < 4 {
            proof {
                assert forall|m: NetworkEcho| #[trigger] Self::spec_message_bytes(m) != b@ by {
                    if Self::spec_message_bytes(m) == b@ {
                        let rb = encode_utf8(m.recipient@);
                        assert(b@.subrange(0, 8) =~= u64_be(rb.len() as u64));
                        lemma_u64_be_injective(rb.len() as u64, len64);
                    }
                }
            }
            return Err(DispatchError::DeserializationError("Malformed echo".to_owned()));
        }
        let len = len64 as usize;
        let recipient_bytes = vstd::slice::slice_to_vec(vstd::slice::slice_subrange(b, 8, 8 + len));
        let ttl_raw = read_u32_be(b, 8 + len);
        let ttl = ttl_raw as i32;
        let payload = tail_bytes(b, 8 + len + 4);
        match decode_string(recipient_bytes) {
            Some(recipient) => {
                let m = NetworkEcho { payload, recipient, time_to_live: ttl };
                proof {
                    assert((ttl_raw as i32) as u32 == ttl_raw) by (bit_vector);
                    assert(b@ =~= b@.subrange(0, 8) + b@.subrange(8, 8 + len as int) + b@.subrange(
                        8 + len as int,
                        12 + len as int,
                    ) + b@.skip(12 + len as int));
                }
                assert(m.spec_bytes() =~= b@);
                Ok(m)
            },
            None => {
                proof {
                    assert forall|m: NetworkEcho| #[trigger] Self::spec_message_bytes(m) != b@ by {
                        if Self::spec_message_bytes(m) == b@ {
                            let rb = encode_utf8(m.recipient@);
                            assert(b@.subrange(0, 8) =~= u64_be(rb.len() as u64));
                            lemma_u64_be_injective(rb.len() as u64, len64);
                            assert(b@.subrange(8, 8 + len as int) =~= rb);
                        }
                    }
                }
                Err(DispatchError::DeserializationError("Malformed echo".to_owned()))
            },
        }
    }
}

impl FromMessageBytes for NetworkHeartbeat {
    open spec fn spec_message_bytes(message: Self) -> Seq<u8> {
        Seq::empty()
    }

    fn from_message_bytes(message_bytes: &[u8]) -> (r: Result<Self, DispatchError>) {
        if message_bytes.len() == 0 {
            Ok(NetworkHeartbeat)
        } else {
            Err(DispatchError::DeserializationError("Malformed heartbeat".to_owned()))
        }
    }
}

/// Handles echoes for node `node_id`: an echo addressed to this node goes back to where it
/// came from, any other goes on to its recipient; each hop costs one unit of its time to
/// live, and an echo whose time runs out is dropped.
pub struct NetworkEchoHandler {
    node_id: String,
}

impl NetworkEchoHandler {
    /// The id of this node.
    pub closed spec fn spec_node_id(&self) -> String {
        self.node_id
    }

    /// A handler for node `node_id`.
    pub fn new(node_id: String) -> (h: Self)
        ensures
            h.spec_node_id() == node_id,
    {
        NetworkEchoHandler { node_id }
    }
}

/// The network bytes of an echo.
pub open spec fn echo_network_bytes(recipient: Seq<char>, time_to_live: i32, payload: Seq<u8>) -> Seq<u8> {
    network_message_bytes(NetworkMessageType::NetworkEcho, echo_bytes(recipient, time_to_live, payload))
}

impl Handler for NetworkEchoHandler {
    type Source = PeerId;
    type MessageType = NetworkMessageType;
    type Message = NetworkEcho;
    type State = ();

    open spec fn spec_match_type(&self) -> NetworkMessageType {
        NetworkMessageType::NetworkEcho
    }

    open spec fn handles(
        &self,
        message: NetworkEcho,
        source: PeerId,
        before: (),
        after: (),
        sent: Seq<(PeerId, Seq<u8>)>,
        result: Result<(), DispatchError>,
    ) -> bool {
        let to = if message.recipient@ == self.spec_node_id()@ {
            source
        } else {
            PeerId(message.recipient)
        };
        if message.time_to_live <= 1 {
            sent.len() == 0 && result is Ok
        } else {
            let m = echo_network_bytes(message.recipient@, (message.time_to_live - 1) as i32, message.payload@);
            &&& sent == seq![(to, m)]
            &&& result is Ok || (result matches Err(DispatchError::NetworkSendError((id, bytes))) && id@ == to.0@
                && bytes@ == m)
        }
    }

    fn match_type(&self) -> (t: NetworkMessageType) {
        NetworkMessageType::NetworkEcho
    }

    fn handle<S: MessageSender<PeerId>>(
        &self,
        message: NetworkEcho,
        message_context: &MessageContext<PeerId, NetworkMessageType>,
        network_sender: &mut S,
        state: &mut (),
    ) -> (r: Result<(), DispatchError>) {
        let ghost sent0 = network_sender.sent();
        let recipient = if message.recipient == self.node_id {
            message_context.source_id().clone()
        } else {
            PeerId(message.recipient.clone())
        };
        if message.time_to_live <= 1 {
            assert(sent_since(sent0, network_sender.sent()) =~= Seq::empty());
            return Ok(());
        }
        let mut echo = message;
        echo.time_to_live = echo.time_to_live - 1;
        let mut bytes: Vec<u8> = Vec::new();
        bytes.push(1);
        let body = echo.to_bytes();
        push_bytes(&mut bytes, body.as_slice());
        assert(bytes@ =~= echo_network_bytes(echo.recipient@, echo.time_to_live, echo.payload@));
        let ghost m = bytes@;
        let ghost to = recipient;
        match network_sender.send(recipient, bytes) {
            Ok(()) => {
                assert(sent_since(sent0, network_sender.sent()) =~= seq![(to, m)]);
                Ok(())
            },
            Err((id, payload)) => {
                assert(sent_since(sent0, network_sender.sent()) =~= seq![(to, m)]);
                Err(DispatchError::NetworkSendError((id.0, payload)))
            },
        }
    }
}

/// Handles heartbeats: they only show that the peer is there.
pub struct NetworkHeartbeatHandler;

impl NetworkHeartbeatHandler {
    pub fn new() -> (h: Self) {
        NetworkHeartbeatHandler
    }
}

impl Handler for NetworkHeartbeatHandler {
    type Source = PeerId;
    type MessageType = NetworkMessageType;
    type Message = NetworkHeartbeat;
    type State = ();

    open spec fn spec_match_type(&self) -> NetworkMessageType {
        NetworkMessageType::NetworkHeartbeat
    }

    open spec fn handles(
        &self,
        message: NetworkHeartbeat,
        source: PeerId,
        before: (),
        after: (),
        sent: Seq<(PeerId, Seq<u8>)>,
        result: Result<(), DispatchError>,
    ) -> bool {
        sent.len() == 0 && result is Ok
    }

    fn match_type(&self) -> (t: NetworkMessageType) {
        NetworkMessageType::NetworkHeartbeat
    }

    fn handle<S: MessageSender<PeerId>>(
        &self,
        message: NetworkHeartbeat,
        message_context: &MessageContext<PeerId, NetworkMessageType>,
        network_sender: &mut S,
        state: &mut (),
    ) -> (r: Result<(), DispatchError>) {
        assert(sent_since(network_sender.sent(), network_sender.sent()) =~= Seq::empty());
        Ok(())
    }
}

} // verus!
