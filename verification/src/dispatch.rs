//! Dispatching messages to handlers.
//!
//! A dispatcher routes the bytes of a message to the handler set for its message type.  The
//! handler decodes the bytes, may change the state that the dispatcher is handed, and may send
//! replies through the message sender that the dispatcher is handed.  Handlers are run on the
//! caller's thread; the state and the sender are passed explicitly, so that what a handler does
//! is stated over them.
use vstd::prelude::*;

verus! {

/// The id of a peer: the source of peer-specific messages.
#[derive(Debug, PartialEq)]
pub struct PeerId(pub String);

/// The id of a connection: the source of connection-specific messages.
#[derive(Debug, PartialEq)]
pub struct ConnectionId(pub String);

impl Clone for PeerId {
    fn clone(&self) -> (r: Self)
        ensures
            r == *self,
    {
        PeerId(self.0.clone())
    }
}

impl Clone for ConnectionId {
    fn clone(&self) -> (r: Self)
        ensures
            r == *self,
    {
        ConnectionId(self.0.clone())
    }
}

impl PeerId {
    /// The id as a string slice.
    pub fn as_str(&self) -> (s: &str)
        ensures
            s@ == self.0@,
    {
        self.0.as_str()
    }
}

impl ConnectionId {
    /// The id as a string slice.
    pub fn as_str(&self) -> (s: &str)
        ensures
            s@ == self.0@,
    {
        self.0.as_str()
    }
}

impl From<String> for PeerId {
    fn from(s: String) -> (r: PeerId) {
        PeerId(s)
    }
}

impl vstd::std_specs::convert::FromSpecImpl<String> for PeerId {
    open spec fn obeys_from_spec() -> bool {
        true
    }

    open spec fn from_spec(v: String) -> PeerId {
        PeerId(v)
    }
}

impl From<String> for ConnectionId {
    fn from(s: String) -> (r: ConnectionId) {
        ConnectionId(s)
    }
}

impl vstd::std_specs::convert::FromSpecImpl<String> for ConnectionId {
    open spec fn obeys_from_spec() -> bool {
        true
    }

    open spec fn from_spec(v: String) -> ConnectionId {
        ConnectionId(v)
    }
}

impl From<PeerId> for String {
    fn from(id: PeerId) -> (r: String) {
        id.0
    }
}

impl vstd::std_specs::convert::FromSpecImpl<PeerId> for String {
    open spec fn obeys_from_spec() -> bool {
        true
    }

    open spec fn from_spec(v: PeerId) -> String {
        v.0
    }
}

impl From<ConnectionId> for String {
    fn from(id: ConnectionId) -> (r: String) {
        id.0
    }
}

impl vstd::std_specs::convert::FromSpecImpl<ConnectionId> for String {
    open spec fn obeys_from_spec() -> bool {
        true
    }

    open spec fn from_spec(v: ConnectionId) -> String {
        v.0
    }
}

/// What a handler was handed along with a message: where it came from, the type it was
/// dispatched as and its bytes.
pub struct MessageContext<Source, MT> {
    source_id: Source,
    message_type: MT,
    message_bytes: Vec<u8>,
}

impl<Source, MT> MessageContext<Source, MT> {
    /// The source of the message.
    pub closed spec fn spec_source_id(&self) -> Source {
        self.source_id
    }

    /// The type the message was dispatched as.
    pub closed spec fn spec_message_type(&self) -> MT {
        self.message_type
    }

    /// The bytes of the message.
    pub closed spec fn spec_message_bytes(&self) -> Seq<u8> {
        self.message_bytes@
    }

    /// A context for a message of type `message_type` from `source_id`.
    pub fn new(message_type: MT, message_bytes: Vec<u8>, source_id: Source) -> (c: Self)
        ensures
            c.spec_source_id() == source_id,
            c.spec_message_type() == message_type,
            c.spec_message_bytes() == message_bytes@,
    {
        MessageContext { source_id, message_type, message_bytes }
    }

    /// The message type that chose the handler.
    pub fn message_type(&self) -> (t: &MT)
        ensures
            *t == self.spec_message_type(),
    {
        &self.message_type
    }

    /// The raw bytes of the message.
    pub fn message_bytes(&self) -> (b: &[u8])
        ensures
            b@ == self.spec_message_bytes(),
    {
        self.message_bytes.as_slice()
    }

    /// The source of the message.
    pub fn source_id(&self) -> (s: &Source)
        ensures
            *s == self.spec_source_id(),
    {
        &self.source_id
    }
}

impl<MT> MessageContext<PeerId, MT> {
    /// The id of the peer that sent the message.
    pub fn source_peer_id(&self) -> (s: &str)
        ensures
            s@ == self.spec_source_id().0@,
    {
        self.source_id.as_str()
    }
}

impl<MT> MessageContext<ConnectionId, MT> {
    /// The id of the connection the message came over.
    pub fn source_connection_id(&self) -> (s: &str)
        ensures
            s@ == self.spec_source_id().0@,
    {
        self.source_id.as_str()
    }
}

/// Why dispatching or handling a message failed.
#[derive(Debug, PartialEq)]
pub enum DispatchError {
    /// The message bytes could not be decoded.
    DeserializationError(String),
    /// A message could not be encoded.
    SerializationError(String),
    /// No handler is set for the message type.
    UnknownMessageType(String),
    /// A reply could not be sent: its recipient and bytes.
    NetworkSendError((String, Vec<u8>)),
    /// The handler failed.
    HandleError(String),
    /// No network sender is set.
    MissingNetworkSender,
}

/// Sends messages on behalf of handlers.
pub trait MessageSender<R> {
    /// The messages handed to this sender, in order, with their recipients, whether it sent
    /// them or refused them.
    spec fn sent(&self) -> Seq<(R, Seq<u8>)>;

    /// How many of the messages handed to this sender it refused.
    spec fn refusals(&self) -> nat;

    /// Sends `message` to `recipient`; on failure the recipient and the message come back.
    fn send(&mut self, recipient: R, message: Vec<u8>) -> (r: Result<(), (R, Vec<u8>)>)
        ensures
            final(self).sent() == old(self).sent().push((recipient, message@)),
            r is Ok ==> final(self).refusals() == old(self).refusals(),
            r is Err ==> final(self).refusals() == old(self).refusals() + 1,
            r matches Err((to, m)) ==> to == recipient && m@ == message@,
    ;
}

/// Between two looks at sender `before` and `after`: refusals only grew, and a send error
/// `r` comes only after the sender refused a message.
pub open spec fn refusals_kept<R, S: MessageSender<R>>(before: S, after: S, r: Result<(), DispatchError>) -> bool {
    &&& before.refusals() <= after.refusals()
    &&& r matches Err(DispatchError::NetworkSendError(_)) ==> before.refusals() < after.refusals()
}

/// A sender that keeps what it is handed, in order, until it is taken out for delivery.
pub struct OutboundQueue<R> {
    messages: Vec<(R, Vec<u8>)>,
}

/// The messages of a queue, with their bytes as sequences.
pub open spec fn queued_messages<R>(messages: Seq<(R, Vec<u8>)>) -> Seq<(R, Seq<u8>)> {
    messages.map_values(|m: (R, Vec<u8>)| (m.0, m.1@))
}

impl<R> OutboundQueue<R> {
    /// The messages waiting in the queue, oldest first.
    pub closed spec fn pending(&self) -> Seq<(R, Seq<u8>)> {
        queued_messages(self.messages@)
    }

    /// An empty queue.
    pub fn new() -> (q: Self)
        ensures
            q.pending() == Seq::<(R, Seq<u8>)>::empty(),
    {
        let q = OutboundQueue { messages: Vec::new() };
        assert(q.pending() =~= Seq::<(R, Seq<u8>)>::empty());
        q
    }

    /// How many messages wait.
    pub fn len(&self) -> (n: usize)
        ensures
            n == self.pending().len(),
    {
        self.messages.len()
    }

    /// Takes the oldest message out of the queue.
    pub fn next_outbound(&mut self) -> (r: Option<(R, Vec<u8>)>)
        ensures
            old(self).pending().len() == 0 ==> r is None && final(self).pending() == old(self).pending(),
            old(self).pending().len() > 0 ==> (r matches Some((to, m)) && (to, m@) == old(self).pending()[0]
                && final(self).pending() == old(self).pending().drop_first()),
    {
        if self.messages.len() == 0 {
            None
        } else {
            let m = self.messages.remove(0);
            proof {
                assert(self.pending() =~= old(self).pending().drop_first());
            }
            Some(m)
        }
    }
}

impl<R> MessageSender<R> for OutboundQueue<R> {
    closed spec fn sent(&self) -> Seq<(R, Seq<u8>)> {
        self.pending()
    }

    /// A queue refuses nothing.
    open spec fn refusals(&self) -> nat {
        0
    }

    fn send(&mut self, recipient: R, message: Vec<u8>) -> (r: Result<(), (R, Vec<u8>)>)
        ensures
            r is Ok,
    {
        self.messages.push((recipient, message));
        proof {
            assert(self.pending() =~= old(self).pending().push((recipient, message@)));
        }
        Ok(())
    }
}

/// Decodes a message of a given type from bytes.
pub trait FromMessageBytes: Sized {
    /// The bytes of `message`.
    spec fn spec_message_bytes(message: Self) -> Seq<u8>;

    /// The message whose bytes are `message_bytes`; an error when no message has them.
    fn from_message_bytes(message_bytes: &[u8]) -> (r: Result<Self, DispatchError>)
        ensures
            r matches Ok(m) ==> Self::spec_message_bytes(m) == message_bytes@,
            r is Err ==> (forall|m: Self| #[trigger] Self::spec_message_bytes(m) != message_bytes@),
            r matches Err(e) ==> e is DeserializationError,
    ;
}

/// The raw bytes of a message, for handlers that do not decode it.
pub struct RawBytes {
    bytes: Vec<u8>,
}

impl RawBytes {
    /// The bytes.
    pub closed spec fn spec_bytes(&self) -> Seq<u8> {
        self.bytes@
    }

    /// Unwraps the bytes.
    pub fn into_inner(self) -> (v: Vec<u8>)
        ensures
            v@ == self.spec_bytes(),
    {
        self.bytes
    }

    /// The bytes, borrowed.
    pub fn bytes(&self) -> (b: &[u8])
        ensures
            b@ == self.spec_bytes(),
    {
        self.bytes.as_slice()
    }

    /// Copies `source` into a new value.
    pub fn from_slice(source: &[u8]) -> (r: Self)
        ensures
            r.spec_bytes() == source@,
    {
        RawBytes { bytes: vstd::slice::slice_to_vec(source) }
    }
}

impl FromMessageBytes for RawBytes {
    open spec fn spec_message_bytes(message: Self) -> Seq<u8> {
        message.spec_bytes()
    }

    fn from_message_bytes(message_bytes: &[u8]) -> (r: Result<Self, DispatchError>)
        ensures
            r is Ok,
    {
        Ok(RawBytes::from_slice(message_bytes))
    }
}

/// A message type that a dispatcher can route by.
pub trait DispatchType: Sized + Copy {
    /// The name of the message type, as error messages give it.
    spec fn spec_name_text(&self) -> Seq<char>;

    /// Whether two message types are the same.
    fn same_type(&self, other: &Self) -> (r: bool)
        ensures
            r == (*self == *other),
    ;

    /// The name of the message type, as error messages give it.
    fn name_text(&self) -> (s: String)
        ensures
            s@ == self.spec_name_text(),
    ;
}

/// The text of the error for a message of type `t` when no handler is set for it.
pub open spec fn no_handler_text<T: DispatchType>(t: T) -> Seq<char> {
    "No handler for type "@ + t.spec_name_text()
}

/// A handler of messages of one type.
///
/// `State` is what the handler works on (the authorization states of the connections, for the
/// authorization handlers).  `handles` states what handling a message does: `before` and
/// `after` are the state before and after, `sent` the messages the handler sent, in order, and
/// `result` what it returned.
pub trait Handler {
    type Source;
    type MessageType;
    type Message: FromMessageBytes;
    type State;

    /// The message type this handler is for.
    spec fn spec_match_type(&self) -> Self::MessageType;

    /// What handling `message` from `source` does.
    spec fn handles(
        &self,
        message: Self::Message,
        source: Self::Source,
        before: Self::State,
        after: Self::State,
        sent: Seq<(Self::Source, Seq<u8>)>,
        result: Result<(), DispatchError>,
    ) -> bool;

    /// The message type this handler is for.
    fn match_type(&self) -> (t: Self::MessageType)
        ensures
            t == self.spec_match_type(),
    ;

    /// Handles a message.
    fn handle<S: MessageSender<Self::Source>>(
        &self,
        message: Self::Message,
        message_context: &MessageContext<Self::Source, Self::MessageType>,
        network_sender: &mut S,
        state: &mut Self::State,
    ) -> (r: Result<(), DispatchError>)
        ensures
            old(network_sender).sent().is_prefix_of(final(network_sender).sent()),
            refusals_kept(*old(network_sender), *final(network_sender), r),
            self.handles(
                message,
                message_context.spec_source_id(),
                *old(state),
                *final(state),
                sent_since(old(network_sender).sent(), final(network_sender).sent()),
                r,
            ),
    ;
}

/// The handler set for message type `t`: the one set last.
pub open spec fn find_handler<H: Handler>(handlers: Seq<H>, t: H::MessageType) -> Option<H>
    decreases handlers.len(),
{
    if handlers.len() == 0 {
        None
    } else if handlers.last().spec_match_type() == t {
        Some(handlers.last())
    } else {
        find_handler(handlers.drop_last(), t)
    }
}

/// What decoding `bytes` and handing the message to `h` does: when no message of the
/// handler's kind has these bytes it is refused as undecodable, nothing changes and nothing is
/// sent; otherwise the handler handles the message that has them.
pub open spec fn decoded_and_handled<H: Handler>(
    h: H,
    source: H::Source,
    bytes: Seq<u8>,
    before: H::State,
    after: H::State,
    sent: Seq<(H::Source, Seq<u8>)>,
    result: Result<(), DispatchError>,
) -> bool {
    if exists|m: H::Message| #[trigger] H::Message::spec_message_bytes(m) == bytes {
        exists|m: H::Message|
            #[trigger] H::Message::spec_message_bytes(m) == bytes && h.handles(m, source, before, after, sent, result)
    } else {
        (result matches Err(DispatchError::DeserializationError(_))) && after == before && sent.len() == 0
    }
}

/// What dispatching `bytes` as message type `t` from `source` does, with `handlers` set.
///
/// With no handler for `t` the message is refused as of unknown type, nothing changes and
/// nothing is sent.  Otherwise the handler set for `t` decodes and handles it.
pub open spec fn dispatched<H: Handler>(
    handlers: Seq<H>,
    source: H::Source,
    t: H::MessageType,
    bytes: Seq<u8>,
    before: H::State,
    after: H::State,
    sent: Seq<(H::Source, Seq<u8>)>,
    result: Result<(), DispatchError>,
) -> bool {
    match find_handler(handlers, t) {
        None => (result matches Err(DispatchError::UnknownMessageType(_))) && after == before && sent.len()
            == 0,
        Some(h) => decoded_and_handled(h, source, bytes, before, after, sent, result),
    }
}

/// A message of the type of a handler that was set after every other handler for its type
/// reaches that handler, and setting it changes nothing for the other types.
pub proof fn lemma_dispatch_reaches_last_handler<H: Handler>(
    handlers: Seq<H>,
    h: H,
    t: H::MessageType,
    source: H::Source,
    bytes: Seq<u8>,
    before: H::State,
    after: H::State,
    sent: Seq<(H::Source, Seq<u8>)>,
    result: Result<(), DispatchError>,
)
    ensures
        t == h.spec_match_type() ==> (dispatched(handlers.push(h), source, t, bytes, before, after, sent, result)
            <==> decoded_and_handled(h, source, bytes, before, after, sent, result)),
        t != h.spec_match_type() ==> (dispatched(handlers.push(h), source, t, bytes, before, after, sent, result)
            <==> dispatched(handlers, source, t, bytes, before, after, sent, result)),
{
    assert(handlers.push(h).drop_last() =~= handlers);
}

/// Decodes `bytes` as the message of `h` and has `h` handle it: the step that a dispatcher of
/// raw bytes takes for each handler it holds.
pub fn decode_and_handle<H: Handler, S: MessageSender<H::Source>>(
    h: &H,
    bytes: &[u8],
    message_context: &MessageContext<H::Source, H::MessageType>,
    network_sender: &mut S,
    state: &mut H::State,
) -> (r: Result<(), DispatchError>)
    ensures
        old(network_sender).sent().is_prefix_of(final(network_sender).sent()),
        refusals_kept(*old(network_sender), *final(network_sender), r),
        decoded_and_handled(
            *h,
            message_context.spec_source_id(),
            bytes@,
            *old(state),
            *final(state),
            sent_since(old(network_sender).sent(), final(network_sender).sent()),
            r,
        ),
{
    match H::Message::from_message_bytes(bytes) {
        Ok(message) => h.handle(message, message_context, network_sender, state),
        Err(e) => {
            assert(sent_since(network_sender.sent(), network_sender.sent()) =~= Seq::empty());
            assert(network_sender.sent().is_prefix_of(network_sender.sent())) by {
                assert(network_sender.sent().subrange(0, network_sender.sent().len() as int) =~= network_sender.sent());
            }
            Err(e)
        },
    }
}

/// The messages sent between two looks at a sender's record.
pub open spec fn sent_since<R>(before: Seq<(R, Seq<u8>)>, after: Seq<(R, Seq<u8>)>) -> Seq<(R, Seq<u8>)> {
    after.skip(before.len() as int)
}

/// Routes messages to the handler set for their type.
pub struct Dispatcher<H> {
    handlers: Vec<H>,
}

impl<H: Handler> Dispatcher<H> where H::MessageType: DispatchType {
    /// The handlers, in the order they were set.
    pub closed spec fn handlers(&self) -> Seq<H> {
        self.handlers@
    }

    /// A dispatcher with no handler.
    pub fn new() -> (d: Self)
        ensures
            d.handlers() == Seq::<H>::empty(),
    {
        Dispatcher { handlers: Vec::new() }
    }

    /// Sets `handler` for its message type, in place of any handler set for it before.
    pub fn set_handler(&mut self, handler: H)
        ensures
            final(self).handlers() == old(self).handlers().push(handler),
            forall|t: H::MessageType|
                #[trigger] find_handler(final(self).handlers(), t) == if handler.spec_match_type() == t {
                    Some(handler)
                } else {
                    find_handler(old(self).handlers(), t)
                },
    {
        self.handlers.push(handler);
        proof {
            assert forall|t: H::MessageType|
                #[trigger] find_handler(self.handlers(), t) == if handler.spec_match_type() == t {
                    Some(handler)
                } else {
                    find_handler(old(self).handlers(), t)
                } by {
                assert(self.handlers().drop_last() =~= old(self).handlers());
            }
        }
    }

    /// The position of the handler for `t`, searching from the last one set.
    fn handler_index(&self, t: &H::MessageType) -> (r: Option<usize>)
        ensures
            match r {
                None => find_handler(self.handlers(), *t) is None,
                Some(i) => i < self.handlers().len() && find_handler(self.handlers(), *t) == Some(
                    self.handlers()[i as int],
                ),
            },
    {
        let mut n = self.handlers.len();
        assert(self.handlers().take(n as int) =~= self.handlers());
        while n > 0
            invariant
                n <= self.handlers@.len(),
                find_handler(self.handlers(), *t) == find_handler(self.handlers().take(n as int), *t),
            decreases n,
        {
            let ghost prefix = self.handlers().take(n as int);
            assert(prefix.drop_last() =~= self.handlers().take(n - 1));
            let mt = self.handlers[n - 1].match_type();
            if mt.same_type(t) {
                return Some(n - 1);
            }
            n = n - 1;
        }
        None
    }

    /// Dispatches `message_bytes` as a message of type `message_type` from `source_id`.
    ///
    /// The handler set for the type decodes the bytes and handles the message, with `state`
    /// and `network_sender` handed to it.
    pub fn dispatch<S: MessageSender<H::Source>>(
        &self,
        source_id: H::Source,
        message_type: &H::MessageType,
        message_bytes: Vec<u8>,
        network_sender: &mut S,
        state: &mut H::State,
    ) -> (r: Result<(), DispatchError>)
        ensures
            old(network_sender).sent().is_prefix_of(final(network_sender).sent()),
            refusals_kept(*old(network_sender), *final(network_sender), r),
            find_handler(self.handlers(), *message_type) is None ==> (r matches Err(
                DispatchError::UnknownMessageType(s),
            ) && s@ == no_handler_text(*message_type)),
            dispatched(
                self.handlers(),
                source_id,
                *message_type,
                message_bytes@,
                *old(state),
                *final(state),
                sent_since(old(network_sender).sent(), final(network_sender).sent()),
                r,
            ),
    {
        let ghost sent0 = network_sender.sent();
        let ghost bytes = message_bytes@;
        match self.handler_index(message_type) {
            None => {
                assert(network_sender.sent().skip(sent0.len() as int) =~= Seq::<
                    (H::Source, Seq<u8>),
                >::empty());
                assert(sent0.is_prefix_of(network_sender.sent()));
                let mut text = "No handler for type ".to_owned();
                let name = message_type.name_text();
                text.append(name.as_str());
                Err(DispatchError::UnknownMessageType(text))
            },
            Some(i) => {
                let handler = &self.handlers[i];
                let context = MessageContext::new(*message_type, message_bytes, source_id);
                match H::Message::from_message_bytes(context.message_bytes()) {
                    Ok(message) => {
                        let r = handler.handle(message, &context, network_sender, state);
                        assert(H::Message::spec_message_bytes(message) == bytes);
                        r
                    },
                    Err(e) => {
                        assert(network_sender.sent().skip(sent0.len() as int) =~= Seq::<
                            (H::Source, Seq<u8>),
                        >::empty());
                        assert(sent0.is_prefix_of(network_sender.sent()));
                        Err(e)
                    },
                }
            },
        }
    }
}

} // verus!
