//! The authorization messages and their bytes.
//!
//! An authorization message travels as a network message of type `Authorization` whose payload
//! is the authorization envelope: one byte for the authorization message type, then the
//! message's own payload.  Numbers are big-endian `u32`s, strings are UTF-8, and a list of
//! authorization types is one byte per type.
use vstd::prelude::*;
use vstd::utf8::encode_utf8;

use crate::dispatch::{DispatchError, DispatchType, FromMessageBytes};
use crate::wire::{
    decode_string, network_message_bytes, push_bytes, push_u32_be, push_u64_be, range_bytes, read_u32_be,
    read_u64_be, string_bytes, tail_bytes, u32_be, u64_be, lemma_u64_be_injective, NetworkMessageType,
};

verus! {

/// The kinds of authorization message.
#[derive(Debug, Clone, Copy, PartialEq, Eq, Structural)]
pub enum AuthorizationMessageType {
    ConnectRequest,
    ConnectResponse,
    Authorize,
    AuthorizationError,
    TrustRequest,
    AuthComplete,
    AuthProtocolRequest,
    AuthProtocolResponse,
    AuthTrustRequest,
    AuthTrustResponse,
    AuthChallengeNonceRequest,
    AuthChallengeNonceResponse,
    AuthChallengeSubmitRequest,
    AuthChallengeSubmitResponse,
}

impl DispatchType for AuthorizationMessageType {
    open spec fn spec_name_text(&self) -> Seq<char> {
        match self {
            AuthorizationMessageType::ConnectRequest => "CONNECT_REQUEST"@,
            AuthorizationMessageType::ConnectResponse => "CONNECT_RESPONSE"@,
            AuthorizationMessageType::Authorize => "AUTHORIZE"@,
            AuthorizationMessageType::AuthorizationError => "AUTHORIZATION_ERROR"@,
            AuthorizationMessageType::TrustRequest => "TRUST_REQUEST"@,
            AuthorizationMessageType::AuthComplete => "AUTH_COMPLETE"@,
            AuthorizationMessageType::AuthProtocolRequest => "AUTH_PROTOCOL_REQUEST"@,
            AuthorizationMessageType::AuthProtocolResponse => "AUTH_PROTOCOL_RESPONSE"@,
            AuthorizationMessageType::AuthTrustRequest => "AUTH_TRUST_REQUEST"@,
            AuthorizationMessageType::AuthTrustResponse => "AUTH_TRUST_RESPONSE"@,
            AuthorizationMessageType::AuthChallengeNonceRequest => "AUTH_CHALLENGE_NONCE_REQUEST"@,
            AuthorizationMessageType::AuthChallengeNonceResponse => "AUTH_CHALLENGE_NONCE_RESPONSE"@,
            AuthorizationMessageType::AuthChallengeSubmitRequest => "AUTH_CHALLENGE_SUBMIT_REQUEST"@,
            AuthorizationMessageType::AuthChallengeSubmitResponse => "AUTH_CHALLENGE_SUBMIT_RESPONSE"@,
        }
    }

    fn same_type(&self, other: &Self) -> (r: bool) {
        *self == *other
    }

    fn name_text(&self) -> (s: String) {
        match self {
            AuthorizationMessageType::ConnectRequest => "CONNECT_REQUEST".to_owned(),
            AuthorizationMessageType::ConnectResponse => "CONNECT_RESPONSE".to_owned(),
            AuthorizationMessageType::Authorize => "AUTHORIZE".to_owned(),
            AuthorizationMessageType::AuthorizationError => "AUTHORIZATION_ERROR".to_owned(),
            AuthorizationMessageType::TrustRequest => "TRUST_REQUEST".to_owned(),
            AuthorizationMessageType::AuthComplete => "AUTH_COMPLETE".to_owned(),
            AuthorizationMessageType::AuthProtocolRequest => "AUTH_PROTOCOL_REQUEST".to_owned(),
            AuthorizationMessageType::AuthProtocolResponse => "AUTH_PROTOCOL_RESPONSE".to_owned(),
            AuthorizationMessageType::AuthTrustRequest => "AUTH_TRUST_REQUEST".to_owned(),
            AuthorizationMessageType::AuthTrustResponse => "AUTH_TRUST_RESPONSE".to_owned(),
            AuthorizationMessageType::AuthChallengeNonceRequest => "AUTH_CHALLENGE_NONCE_REQUEST".to_owned(),
            AuthorizationMessageType::AuthChallengeNonceResponse => "AUTH_CHALLENGE_NONCE_RESPONSE".to_owned(),
            AuthorizationMessageType::AuthChallengeSubmitRequest => "AUTH_CHALLENGE_SUBMIT_REQUEST".to_owned(),
            AuthorizationMessageType::AuthChallengeSubmitResponse => "AUTH_CHALLENGE_SUBMIT_RESPONSE".to_owned(),
        }
    }
}

/// The byte that tags each kind of authorization message.
pub open spec fn auth_type_code(t: AuthorizationMessageType) -> u8 {
    match t {
        AuthorizationMessageType::ConnectRequest => 1,
        AuthorizationMessageType::ConnectResponse => 2,
        AuthorizationMessageType::Authorize => 3,
        AuthorizationMessageType::AuthorizationError => 4,
        AuthorizationMessageType::TrustRequest => 5,
        AuthorizationMessageType::AuthComplete => 6,
        AuthorizationMessageType::AuthProtocolRequest => 7,
        AuthorizationMessageType::AuthProtocolResponse => 8,
        AuthorizationMessageType::AuthTrustRequest => 9,
        AuthorizationMessageType::AuthTrustResponse => 10,
        AuthorizationMessageType::AuthChallengeNonceRequest => 11,
        AuthorizationMessageType::AuthChallengeNonceResponse => 12,
        AuthorizationMessageType::AuthChallengeSubmitRequest => 13,
        AuthorizationMessageType::AuthChallengeSubmitResponse => 14,
    }
}

impl AuthorizationMessageType {
    /// The tag byte of this kind.
    pub fn code(&self) -> (c: u8)
        ensures
            c == auth_type_code(*self),
    {
        match self {
            AuthorizationMessageType::ConnectRequest => 1,
            AuthorizationMessageType::ConnectResponse => 2,
            AuthorizationMessageType::Authorize => 3,
            AuthorizationMessageType::AuthorizationError => 4,
            AuthorizationMessageType::TrustRequest => 5,
            AuthorizationMessageType::AuthComplete => 6,
            AuthorizationMessageType::AuthProtocolRequest => 7,
            AuthorizationMessageType::AuthProtocolResponse => 8,
            AuthorizationMessageType::AuthTrustRequest => 9,
            AuthorizationMessageType::AuthTrustResponse => 10,
            AuthorizationMessageType::AuthChallengeNonceRequest => 11,
            AuthorizationMessageType::AuthChallengeNonceResponse => 12,
            AuthorizationMessageType::AuthChallengeSubmitRequest => 13,
            AuthorizationMessageType::AuthChallengeSubmitResponse => 14,
        }
    }

    /// The kind a tag byte stands for, if any.
    pub fn from_code(c: u8) -> (t: Option<Self>)
        ensures
            match t {
                Some(t) => auth_type_code(t) == c,
                None => forall|t: AuthorizationMessageType| auth_type_code(t) != c,
            },
    {
        let t = if c == 1 {
            AuthorizationMessageType::ConnectRequest
        } else if c == 2 {
            AuthorizationMessageType::ConnectResponse
        } else if c == 3 {
            AuthorizationMessageType::Authorize
        } else if c == 4 {
            AuthorizationMessageType::AuthorizationError
        } else if c == 5 {
            AuthorizationMessageType::TrustRequest
        } else if c == 6 {
            AuthorizationMessageType::AuthComplete
        } else if c == 7 {
            AuthorizationMessageType::AuthProtocolRequest
        } else if c == 8 {
            AuthorizationMessageType::AuthProtocolResponse
        } else if c == 9 {
            AuthorizationMessageType::AuthTrustRequest
        } else if c == 10 {
            AuthorizationMessageType::AuthTrustResponse
        } else if c == 11 {
            AuthorizationMessageType::AuthChallengeNonceRequest
        } else if c == 12 {
            AuthorizationMessageType::AuthChallengeNonceResponse
        } else if c == 13 {
            AuthorizationMessageType::AuthChallengeSubmitRequest
        } else if c == 14 {
            AuthorizationMessageType::AuthChallengeSubmitResponse
        } else {
            return None;
        };
        Some(t)
    }
}

/// Whether a v0 connect request asks the remote to connect back.
#[derive(Debug, Clone, Copy, PartialEq, Eq, Structural)]
pub enum ConnectRequest {
    Bidirectional,
    Unidirectional,
}

/// The authorization types of the v0 handshake.
#[derive(Debug, Clone, Copy, PartialEq, Eq, Structural)]
pub enum AuthorizationType {
    Trust,
}

/// The answer to a v0 connect request: the authorization types the remote accepts.
#[derive(Debug, Clone, PartialEq)]
pub struct ConnectResponse {
    pub accepted_authorization_types: Vec<AuthorizationType>,
}

/// A v0 trust request: the identity the sender claims.
#[derive(Debug, Clone, PartialEq)]
pub struct TrustRequest {
    pub identity: String,
}

/// The v0 message that accepts the remote.
#[derive(Debug, Clone, Copy, PartialEq, Eq, Structural)]
pub struct Authorized;

/// An authorization refusal, with the reason.
#[derive(Debug, Clone, PartialEq)]
pub enum AuthorizationError {
    AuthorizationRejected(String),
}

/// The range of authorization protocol versions the sender supports.
#[derive(Debug, Clone, Copy, PartialEq, Eq, Structural)]
pub struct AuthProtocolRequest {
    pub auth_protocol_min: u32,
    pub auth_protocol_max: u32,
}

/// The authorization types of the v1 handshake.
#[derive(Debug, Clone, Copy, PartialEq, Eq, Structural)]
pub enum PeerAuthorizationType {
    Trust,
    Challenge,
}

/// The agreed protocol version and the authorization types the sender accepts.
#[derive(Debug, Clone, PartialEq)]
pub struct AuthProtocolResponse {
    pub auth_protocol: u32,
    pub accepted_authorization_type: Vec<PeerAuthorizationType>,
}

/// A v1 trust request: the identity the sender claims.
#[derive(Debug, Clone, PartialEq)]
pub struct AuthTrustRequest {
    pub identity: String,
}

/// The acceptance of a v1 trust request.
#[derive(Debug, Clone, Copy, PartialEq, Eq, Structural)]
pub struct AuthTrustResponse;

/// The message that ends the sender's side of the handshake.
#[derive(Debug, Clone, Copy, PartialEq, Eq, Structural)]
pub struct AuthComplete;

/// A request for the nonce to sign.
#[derive(Debug, Clone, Copy, PartialEq, Eq, Structural)]
pub struct AuthChallengeNonceRequest;

/// The nonce to sign.
#[derive(Debug, Clone, PartialEq)]
pub struct AuthChallengeNonceResponse {
    pub nonce: Vec<u8>,
}

/// One signature of the nonce: a public key and the signature made with its private key.
#[derive(Debug, Clone, PartialEq)]
pub struct SubmitRequest {
    pub public_key: Vec<u8>,
    pub signature: Vec<u8>,
}

/// The signatures of the nonce, one for each key the sender offers.
#[derive(Debug, Clone, PartialEq)]
pub struct AuthChallengeSubmitRequest {
    pub submit_requests: Vec<SubmitRequest>,
}

/// The acceptance of a challenge, with the public key that was accepted.
#[derive(Debug, Clone, PartialEq)]
pub struct AuthChallengeSubmitResponse {
    pub public_key: Vec<u8>,
}

/// The byte of a v0 handshake mode.
pub open spec fn connect_request_code(r: ConnectRequest) -> u8 {
    match r {
        ConnectRequest::Bidirectional => 1,
        ConnectRequest::Unidirectional => 2,
    }
}

/// The byte of a v1 authorization type.
pub open spec fn peer_type_code(t: PeerAuthorizationType) -> u8 {
    match t {
        PeerAuthorizationType::Trust => 1,
        PeerAuthorizationType::Challenge => 2,
    }
}

/// The bytes of a list of v0 authorization types.
pub open spec fn auth_types_bytes(ts: Seq<AuthorizationType>) -> Seq<u8> {
    Seq::new(ts.len(), |i: int| 1u8)
}

/// The bytes of a list of v1 authorization types.
pub open spec fn peer_types_bytes(ts: Seq<PeerAuthorizationType>) -> Seq<u8> {
    Seq::new(ts.len(), |i: int| peer_type_code(ts[i]))
}

/// The bytes of one signature: the key's length as a big-endian `u64`, the key, the
/// signature's length the same way, the signature.
pub open spec fn submit_item_bytes(public_key: Seq<u8>, signature: Seq<u8>) -> Seq<u8> {
    u64_be(public_key.len() as u64) + public_key + u64_be(signature.len() as u64) + signature
}

/// The bytes of a list of signatures, each given as (public key, signature): the items one
/// after the other.
pub open spec fn submit_pairs_bytes(ps: Seq<(Seq<u8>, Seq<u8>)>) -> Seq<u8>
    decreases ps.len(),
{
    if ps.len() == 0 {
        Seq::empty()
    } else {
        submit_item_bytes(ps[0].0, ps[0].1) + submit_pairs_bytes(ps.drop_first())
    }
}

/// The (public key, signature) pairs of a list of submit requests.
pub open spec fn submit_pairs(rs: Seq<SubmitRequest>) -> Seq<(Seq<u8>, Seq<u8>)> {
    rs.map_values(|r: SubmitRequest| (r.public_key@, r.signature@))
}

/// Appending a signature appends its bytes.
proof fn lemma_submit_pairs_push(ps: Seq<(Seq<u8>, Seq<u8>)>, x: (Seq<u8>, Seq<u8>))
    ensures
        submit_pairs_bytes(ps.push(x)) == submit_pairs_bytes(ps) + submit_item_bytes(x.0, x.1),
    decreases ps.len(),
{
    if ps.len() == 0 {
        assert(ps.push(x).drop_first() =~= ps);
        assert(submit_pairs_bytes(ps.push(x)) =~= submit_pairs_bytes(ps) + submit_item_bytes(x.0, x.1));
    } else {
        lemma_submit_pairs_push(ps.drop_first(), x);
        assert(ps.push(x).drop_first() =~= ps.drop_first().push(x));
        assert(submit_pairs_bytes(ps.push(x)) =~= submit_pairs_bytes(ps) + submit_item_bytes(x.0, x.1));
    }
}

/// Every authorization message.
#[derive(Debug, Clone, PartialEq)]
pub enum AuthorizationMessage {
    ConnectRequest(ConnectRequest),
    ConnectResponse(ConnectResponse),
    Authorized(Authorized),
    AuthorizationError(AuthorizationError),
    TrustRequest(TrustRequest),
    AuthComplete(AuthComplete),
    AuthProtocolRequest(AuthProtocolRequest),
    AuthProtocolResponse(AuthProtocolResponse),
    AuthTrustRequest(AuthTrustRequest),
    AuthTrustResponse(AuthTrustResponse),
    AuthChallengeNonceRequest(AuthChallengeNonceRequest),
    AuthChallengeNonceResponse(AuthChallengeNonceResponse),
    AuthChallengeSubmitRequest(AuthChallengeSubmitRequest),
    AuthChallengeSubmitResponse(AuthChallengeSubmitResponse),
}

/// The kind of an authorization message.
pub open spec fn auth_message_type(m: AuthorizationMessage) -> AuthorizationMessageType {
    match m {
        AuthorizationMessage::ConnectRequest(_) => AuthorizationMessageType::ConnectRequest,
        AuthorizationMessage::ConnectResponse(_) => AuthorizationMessageType::ConnectResponse,
        AuthorizationMessage::Authorized(_) => AuthorizationMessageType::Authorize,
        AuthorizationMessage::AuthorizationError(_) => AuthorizationMessageType::AuthorizationError,
        AuthorizationMessage::TrustRequest(_) => AuthorizationMessageType::TrustRequest,
        AuthorizationMessage::AuthComplete(_) => AuthorizationMessageType::AuthComplete,
        AuthorizationMessage::AuthProtocolRequest(_) => AuthorizationMessageType::AuthProtocolRequest,
        AuthorizationMessage::AuthProtocolResponse(_) => AuthorizationMessageType::AuthProtocolResponse,
        AuthorizationMessage::AuthTrustRequest(_) => AuthorizationMessageType::AuthTrustRequest,
        AuthorizationMessage::AuthTrustResponse(_) => AuthorizationMessageType::AuthTrustResponse,
        AuthorizationMessage::AuthChallengeNonceRequest(_) => AuthorizationMessageType::AuthChallengeNonceRequest,
        AuthorizationMessage::AuthChallengeNonceResponse(_) => {
            AuthorizationMessageType::AuthChallengeNonceResponse
        },
        AuthorizationMessage::AuthChallengeSubmitRequest(_) => {
            AuthorizationMessageType::AuthChallengeSubmitRequest
        },
        AuthorizationMessage::AuthChallengeSubmitResponse(_) => {
            AuthorizationMessageType::AuthChallengeSubmitResponse
        },
    }
}

/// The payload bytes of an authorization message.
pub open spec fn auth_payload_bytes(m: AuthorizationMessage) -> Seq<u8> {
    match m {
        AuthorizationMessage::ConnectRequest(r) => seq![connect_request_code(r)],
        AuthorizationMessage::ConnectResponse(r) => auth_types_bytes(r.accepted_authorization_types@),
        AuthorizationMessage::Authorized(_) => Seq::empty(),
        AuthorizationMessage::AuthorizationError(AuthorizationError::AuthorizationRejected(s)) => encode_utf8(
            s@,
        ),
        AuthorizationMessage::TrustRequest(r) => encode_utf8(r.identity@),
        AuthorizationMessage::AuthComplete(_) => Seq::empty(),
        AuthorizationMessage::AuthProtocolRequest(r) => u32_be(r.auth_protocol_min) + u32_be(
            r.auth_protocol_max,
        ),
        AuthorizationMessage::AuthProtocolResponse(r) => u32_be(r.auth_protocol) + peer_types_bytes(
            r.accepted_authorization_type@,
        ),
        AuthorizationMessage::AuthTrustRequest(r) => encode_utf8(r.identity@),
        AuthorizationMessage::AuthTrustResponse(_) => Seq::empty(),
        AuthorizationMessage::AuthChallengeNonceRequest(_) => Seq::empty(),
        AuthorizationMessage::AuthChallengeNonceResponse(r) => r.nonce@,
        AuthorizationMessage::AuthChallengeSubmitRequest(r) => submit_pairs_bytes(submit_pairs(r.submit_requests@)),
        AuthorizationMessage::AuthChallengeSubmitResponse(r) => r.public_key@,
    }
}

/// The bytes of an authorization message: its kind's tag, then its payload.
pub open spec fn auth_message_bytes(m: AuthorizationMessage) -> Seq<u8> {
    seq![auth_type_code(auth_message_type(m))] + auth_payload_bytes(m)
}

/// The bytes of an authorization message sent over the network.
pub open spec fn auth_network_bytes(m: AuthorizationMessage) -> Seq<u8> {
    network_message_bytes(NetworkMessageType::Authorization, auth_message_bytes(m))
}

/// Appends the bytes of a list of signatures.
fn push_submit_requests(out: &mut Vec<u8>, rs: &Vec<SubmitRequest>)
    ensures
        final(out)@ == old(out)@ + submit_pairs_bytes(submit_pairs(rs@)),
{
    let n = rs.len();
    for i in 0..n
        invariant
            n == rs@.len(),
            out@ == old(out)@ + submit_pairs_bytes(submit_pairs(rs@.take(i as int))),
    {
        let r = &rs[i];
        let ghost before = out@;
        push_u64_be(out, r.public_key.len() as u64);
        push_bytes(out, r.public_key.as_slice());
        push_u64_be(out, r.signature.len() as u64);
        push_bytes(out, r.signature.as_slice());
        proof {
            let x = (r.public_key@, r.signature@);
            lemma_submit_pairs_push(submit_pairs(rs@.take(i as int)), x);
            assert(submit_pairs(rs@.take(i + 1)) =~= submit_pairs(rs@.take(i as int)).push(x));
            assert(out@ =~= before + submit_item_bytes(x.0, x.1));
        }
    }
    assert(rs@.take(n as int) =~= rs@);
}

impl AuthorizationMessage {
    /// The kind of this message.
    pub fn message_type(&self) -> (t: AuthorizationMessageType)
        ensures
            t == auth_message_type(*self),
    {
        match self {
            AuthorizationMessage::ConnectRequest(_) => AuthorizationMessageType::ConnectRequest,
            AuthorizationMessage::ConnectResponse(_) => AuthorizationMessageType::ConnectResponse,
            AuthorizationMessage::Authorized(_) => AuthorizationMessageType::Authorize,
            AuthorizationMessage::AuthorizationError(_) => AuthorizationMessageType::AuthorizationError,
            AuthorizationMessage::TrustRequest(_) => AuthorizationMessageType::TrustRequest,
            AuthorizationMessage::AuthComplete(_) => AuthorizationMessageType::AuthComplete,
            AuthorizationMessage::AuthProtocolRequest(_) => AuthorizationMessageType::AuthProtocolRequest,
            AuthorizationMessage::AuthProtocolResponse(_) => AuthorizationMessageType::AuthProtocolResponse,
            AuthorizationMessage::AuthTrustRequest(_) => AuthorizationMessageType::AuthTrustRequest,
            AuthorizationMessage::AuthTrustResponse(_) => AuthorizationMessageType::AuthTrustResponse,
            AuthorizationMessage::AuthChallengeNonceRequest(_) => {
                AuthorizationMessageType::AuthChallengeNonceRequest
            },
            AuthorizationMessage::AuthChallengeNonceResponse(_) => {
                AuthorizationMessageType::AuthChallengeNonceResponse
            },
            AuthorizationMessage::AuthChallengeSubmitRequest(_) => {
                AuthorizationMessageType::AuthChallengeSubmitRequest
            },
            AuthorizationMessage::AuthChallengeSubmitResponse(_) => {
                AuthorizationMessageType::AuthChallengeSubmitResponse
            },
        }
    }

    /// Appends the payload bytes of this message.
    fn push_payload(&self, out: &mut Vec<u8>)
        ensures
            final(out)@ == old(out)@ + auth_payload_bytes(*self),
    {
        match self {
            AuthorizationMessage::ConnectRequest(r) => {
                match r {
                    ConnectRequest::Bidirectional => out.push(1),
                    ConnectRequest::Unidirectional => out.push(2),
                }
            },
            AuthorizationMessage::ConnectResponse(r) => {
                let n = r.accepted_authorization_types.len();
                for i in 0..n
                    invariant
                        n == r.accepted_authorization_types@.len(),
                        out@ == old(out)@ + auth_types_bytes(
                            r.accepted_authorization_types@.take(i as int),
                        ),
                {
                    out.push(1);
                    assert(auth_types_bytes(r.accepted_authorization_types@.take(i + 1))
                        =~= auth_types_bytes(r.accepted_authorization_types@.take(i as int)).push(1));
                }
                assert(r.accepted_authorization_types@.take(n as int)
                    =~= r.accepted_authorization_types@);
            },
            AuthorizationMessage::Authorized(_) => {},
            AuthorizationMessage::AuthorizationError(AuthorizationError::AuthorizationRejected(s)) => {
                let b = string_bytes(s.as_str());
                push_bytes(out, b.as_slice());
            },
            AuthorizationMessage::TrustRequest(r) => {
                let b = string_bytes(r.identity.as_str());
                push_bytes(out, b.as_slice());
            },
            AuthorizationMessage::AuthComplete(_) => {},
            AuthorizationMessage::AuthProtocolRequest(r) => {
                push_u32_be(out, r.auth_protocol_min);
                push_u32_be(out, r.auth_protocol_max);
                assert(out@ =~= old(out)@ + auth_payload_bytes(*self));
            },
            AuthorizationMessage::AuthProtocolResponse(r) => {
                push_u32_be(out, r.auth_protocol);
                let ghost mid = out@;
                let n = r.accepted_authorization_type.len();
                for i in 0..n
                    invariant
                        n == r.accepted_authorization_type@.len(),
                        out@ == mid + peer_types_bytes(r.accepted_authorization_type@.take(i as int)),
                {
                    let c: u8 = match r.accepted_authorization_type[i] {
                        PeerAuthorizationType::Trust => 1,
                        PeerAuthorizationType::Challenge => 2,
                    };
                    out.push(c);
                    assert(peer_types_bytes(r.accepted_authorization_type@.take(i + 1))
                        =~= peer_types_bytes(r.accepted_authorization_type@.take(i as int)).push(c));
                }
                assert(r.accepted_authorization_type@.take(n as int) =~= r.accepted_authorization_type@);
                assert(out@ =~= old(out)@ + auth_payload_bytes(*self));
            },
            AuthorizationMessage::AuthTrustRequest(r) => {
                let b = string_bytes(r.identity.as_str());
                push_bytes(out, b.as_slice());
            },
            AuthorizationMessage::AuthTrustResponse(_) => {},
            AuthorizationMessage::AuthChallengeNonceRequest(_) => {},
            AuthorizationMessage::AuthChallengeNonceResponse(r) => {
                push_bytes(out, r.nonce.as_slice());
            },
            AuthorizationMessage::AuthChallengeSubmitRequest(r) => {
                push_submit_requests(out, &r.submit_requests);
            },
            AuthorizationMessage::AuthChallengeSubmitResponse(r) => {
                push_bytes(out, r.public_key.as_slice());
            },
        }
        assert(out@ =~= old(out)@ + auth_payload_bytes(*self));
    }

    /// The bytes of this message: its kind's tag, then its payload.
    pub fn to_bytes(&self) -> (r: Vec<u8>)
        ensures
            r@ == auth_message_bytes(*self),
    {
        let mut out: Vec<u8> = Vec::new();
        out.push(self.message_type().code());
        self.push_payload(&mut out);
        assert(out@ =~= auth_message_bytes(*self));
        out
    }

    /// The bytes of this message as a network message.
    pub fn to_network_bytes(&self) -> (r: Vec<u8>)
        ensures
            r@ == auth_network_bytes(*self),
    {
        let mut out: Vec<u8> = Vec::new();
        out.push(3);
        out.push(self.message_type().code());
        self.push_payload(&mut out);
        assert(out@ =~= auth_network_bytes(*self));
        out
    }
}

/// An authorization message not yet decoded: its kind and its payload.
pub struct AuthorizationEnvelope {
    pub message_type: AuthorizationMessageType,
    pub payload: Vec<u8>,
}

/// The bytes of an envelope.
pub open spec fn envelope_bytes(e: AuthorizationEnvelope) -> Seq<u8> {
    seq![auth_type_code(e.message_type)] + e.payload@
}

impl FromMessageBytes for AuthorizationEnvelope {
    open spec fn spec_message_bytes(message: Self) -> Seq<u8> {
        envelope_bytes(message)
    }

    fn from_message_bytes(message_bytes: &[u8]) -> (r: Result<Self, DispatchError>) {
        if message_bytes.len() == 0 {
            proof {
                assert forall|m: AuthorizationEnvelope| #[trigger] envelope_bytes(m) != message_bytes@ by {
                    assert(envelope_bytes(m).len() >= 1);
                }
            }
            return Err(DispatchError::DeserializationError("Empty authorization message".to_owned()));
        }
        match AuthorizationMessageType::from_code(message_bytes[0]) {
            Some(t) => {
                let payload = tail_bytes(message_bytes, 1);
                let e = AuthorizationEnvelope { message_type: t, payload };
                assert(envelope_bytes(e) =~= message_bytes@);
                Ok(e)
            },
            None => {
                proof {
                    assert forall|m: AuthorizationEnvelope| #[trigger] envelope_bytes(m) != message_bytes@ by {
                        if envelope_bytes(m) == message_bytes@ {
                            assert(envelope_bytes(m)[0] == auth_type_code(m.message_type));
                        }
                    }
                }
                Err(DispatchError::DeserializationError("Unknown authorization message type".to_owned()))
            },
        }
    }
}

/// The error for a payload that is not of the expected kind.
fn malformed(what: &str) -> (e: DispatchError)
    ensures
        e matches DispatchError::DeserializationError(s) && s@ == "Malformed "@ + what@,
{
    let mut s = "Malformed ".to_owned();
    vstd::string::StringExecFns::append(&mut s, what);
    DispatchError::DeserializationError(s)
}

/// The empty payload, for the messages that carry nothing.
fn expect_empty(message_bytes: &[u8]) -> (r: Result<(), DispatchError>)
    ensures
        r is Ok <==> message_bytes@.len() == 0,
        r matches Err(e) ==> e is DeserializationError,
{
    if message_bytes.len() == 0 {
        Ok(())
    } else {
        Err(malformed("empty message"))
    }
}

impl FromMessageBytes for Authorized {
    open spec fn spec_message_bytes(message: Self) -> Seq<u8> {
        Seq::empty()
    }

    fn from_message_bytes(message_bytes: &[u8]) -> (r: Result<Self, DispatchError>) {
        expect_empty(message_bytes)?;
        Ok(Authorized)
    }
}

impl FromMessageBytes for AuthComplete {
    open spec fn spec_message_bytes(message: Self) -> Seq<u8> {
        Seq::empty()
    }

    fn from_message_bytes(message_bytes: &[u8]) -> (r: Result<Self, DispatchError>) {
        expect_empty(message_bytes)?;
        Ok(AuthComplete)
    }
}

impl FromMessageBytes for AuthTrustResponse {
    open spec fn spec_message_bytes(message: Self) -> Seq<u8> {
        Seq::empty()
    }

    fn from_message_bytes(message_bytes: &[u8]) -> (r: Result<Self, DispatchError>) {
        expect_empty(message_bytes)?;
        Ok(AuthTrustResponse)
    }
}

impl FromMessageBytes for AuthChallengeNonceRequest {
    open spec fn spec_message_bytes(message: Self) -> Seq<u8> {
        Seq::empty()
    }

    fn from_message_bytes(message_bytes: &[u8]) -> (r: Result<Self, DispatchError>) {
        expect_empty(message_bytes)?;
        Ok(AuthChallengeNonceRequest)
    }
}

impl FromMessageBytes for ConnectRequest {
    open spec fn spec_message_bytes(message: Self) -> Seq<u8> {
        seq![connect_request_code(message)]
    }

    fn from_message_bytes(message_bytes: &[u8]) -> (r: Result<Self, DispatchError>) {
        if message_bytes.len() == 1 && message_bytes[0] == 1 {
            assert(message_bytes@ =~= seq![1u8]);
            Ok(ConnectRequest::Bidirectional)
        } else if message_bytes.len() == 1 && message_bytes[0] == 2 {
            assert(message_bytes@ =~= seq![2u8]);
            Ok(ConnectRequest::Unidirectional)
        } else {
            proof {
                assert forall|m: ConnectRequest| #[trigger] Self::spec_message_bytes(m) != message_bytes@ by {
                    if Self::spec_message_bytes(m) == message_bytes@ {
                        assert(message_bytes@[0] == connect_request_code(m));
                    }
                }
            }
            Err(malformed("connect request"))
        }
    }
}

/// The v0 authorization types whose bytes are `bytes`, if every byte names one.
fn decode_auth_types(bytes: &[u8]) -> (r: Option<Vec<AuthorizationType>>)
    ensures
        match r {
            Some(ts) => auth_types_bytes(ts@) == bytes@,
            None => forall|ts: Seq<AuthorizationType>| #[trigger] auth_types_bytes(ts) != bytes@,
        },
{
    let mut ts: Vec<AuthorizationType> = Vec::new();
    let n = bytes.len();
    for i in 0..n
        invariant
            n == bytes@.len(),
            auth_types_bytes(ts@) == bytes@.take(i as int),
    {
        if bytes[i] != 1 {
            proof {
                assert forall|us: Seq<AuthorizationType>| #[trigger] auth_types_bytes(us) != bytes@ by {
                    if auth_types_bytes(us) == bytes@ {
                        assert(auth_types_bytes(us)[i as int] == 1u8);
                    }
                }
            }
            return None;
        }
        ts.push(AuthorizationType::Trust);
        assert(bytes@.take(i + 1) =~= bytes@.take(i as int).push(1u8));
        assert(auth_types_bytes(ts@) =~= bytes@.take(i + 1));
    }
    assert(bytes@.take(n as int) =~= bytes@);
    Some(ts)
}

/// The v1 authorization types whose bytes are `bytes`, if every byte names one.
fn decode_peer_types(bytes: &[u8], from: usize) -> (r: Option<Vec<PeerAuthorizationType>>)
    requires
        from <= bytes@.len(),
    ensures
        match r {
            Some(ts) => peer_types_bytes(ts@) == bytes@.skip(from as int),
            None => forall|ts: Seq<PeerAuthorizationType>| #[trigger] peer_types_bytes(ts) != bytes@.skip(
                from as int,
            ),
        },
{
    let mut ts: Vec<PeerAuthorizationType> = Vec::new();
    let n = bytes.len();
    let ghost rest = bytes@.skip(from as int);
    let mut i = from;
    while i < n
        invariant
            n == bytes@.len(),
            from <= i <= n,
            rest == bytes@.skip(from as int),
            peer_types_bytes(ts@) == rest.take(i - from),
        decreases n - i,
    {
        let t = if bytes[i] == 1 {
            PeerAuthorizationType::Trust
        } else if bytes[i] == 2 {
            PeerAuthorizationType::Challenge
        } else {
            proof {
                assert forall|us: Seq<PeerAuthorizationType>| #[trigger] peer_types_bytes(us) != rest by {
                    if peer_types_bytes(us) == rest {
                        assert(rest[i - from] == bytes@[i as int]);
                        assert(peer_types_bytes(us)[i - from] == peer_type_code(us[i - from]));
                    }
                }
            }
            return None;
        };
        let ghost old_ts = ts@;
        ts.push(t);
        assert(rest.take(i + 1 - from) =~= rest.take(i - from).push(bytes@[i as int]));
        assert(peer_types_bytes(ts@) =~= peer_types_bytes(old_ts).push(peer_type_code(t)));
        assert(peer_types_bytes(ts@) =~= rest.take(i + 1 - from));
        i = i + 1;
    }
    assert(rest.take(n - from) =~= rest);
    Some(ts)
}

impl FromMessageBytes for ConnectResponse {
    open spec fn spec_message_bytes(message: Self) -> Seq<u8> {
        auth_types_bytes(message.accepted_authorization_types@)
    }

    fn from_message_bytes(message_bytes: &[u8]) -> (r: Result<Self, DispatchError>) {
        match decode_auth_types(message_bytes) {
            Some(ts) => Ok(ConnectResponse { accepted_authorization_types: ts }),
            None => {
                proof {
                    assert forall|m: ConnectResponse| #[trigger] Self::spec_message_bytes(m) != message_bytes@ by {
                        assert(auth_types_bytes(m.accepted_authorization_types@) != message_bytes@);
                    }
                }
                Err(malformed("connect response"))
            },
        }
    }
}

impl FromMessageBytes for TrustRequest {
    open spec fn spec_message_bytes(message: Self) -> Seq<u8> {
        encode_utf8(message.identity@)
    }

    fn from_message_bytes(message_bytes: &[u8]) -> (r: Result<Self, DispatchError>) {
        match decode_string(vstd::slice::slice_to_vec(message_bytes)) {
            Some(identity) => Ok(TrustRequest { identity }),
            None => {
                proof {
                    assert forall|m: TrustRequest| #[trigger] Self::spec_message_bytes(m) != message_bytes@ by {
                        assert(encode_utf8(m.identity@) != message_bytes@);
                    }
                }
                Err(malformed("trust request"))
            },
        }
    }
}

impl FromMessageBytes for AuthTrustRequest {
    open spec fn spec_message_bytes(message: Self) -> Seq<u8> {
        encode_utf8(message.identity@)
    }

    fn from_message_bytes(message_bytes: &[u8]) -> (r: Result<Self, DispatchError>) {
        match decode_string(vstd::slice::slice_to_vec(message_bytes)) {
            Some(identity) => Ok(AuthTrustRequest { identity }),
            None => {
                proof {
                    assert forall|m: AuthTrustRequest| #[trigger] Self::spec_message_bytes(m) != message_bytes@ by {
                        assert(encode_utf8(m.identity@) != message_bytes@);
                    }
                }
                Err(malformed("trust request"))
            },
        }
    }
}

impl FromMessageBytes for AuthorizationError {
    open spec fn spec_message_bytes(message: Self) -> Seq<u8> {
        match message {
            AuthorizationError::AuthorizationRejected(s) => encode_utf8(s@),
        }
    }

    fn from_message_bytes(message_bytes: &[u8]) -> (r: Result<Self, DispatchError>) {
        match decode_string(vstd::slice::slice_to_vec(message_bytes)) {
            Some(s) => Ok(AuthorizationError::AuthorizationRejected(s)),
            None => {
                proof {
                    assert forall|m: AuthorizationError| #[trigger] Self::spec_message_bytes(m) != message_bytes@ by {
                        let AuthorizationError::AuthorizationRejected(s) = m;
                        assert(encode_utf8(s@) != message_bytes@);
                    }
                }
                Err(malformed("authorization error"))
            },
        }
    }
}

impl FromMessageBytes for AuthProtocolRequest {
    open spec fn spec_message_bytes(message: Self) -> Seq<u8> {
        u32_be(message.auth_protocol_min) + u32_be(message.auth_protocol_max)
    }

    fn from_message_bytes(message_bytes: &[u8]) -> (r: Result<Self, DispatchError>) {
        if message_bytes.len() != 8 {
            proof {
                assert forall|m: AuthProtocolRequest| #[trigger] Self::spec_message_bytes(m) != message_bytes@ by {
                    assert(Self::spec_message_bytes(m).len() == 8);
                }
            }
            return Err(malformed("protocol request"));
        }
        let min = read_u32_be(message_bytes, 0);
        let max = read_u32_be(message_bytes, 4);
        let m = AuthProtocolRequest { auth_protocol_min: min, auth_protocol_max: max };
        assert(Self::spec_message_bytes(m) =~= message_bytes@);
        Ok(m)
    }
}

impl FromMessageBytes for AuthProtocolResponse {
    open spec fn spec_message_bytes(message: Self) -> Seq<u8> {
        u32_be(message.auth_protocol) + peer_types_bytes(message.accepted_authorization_type@)
    }

    fn from_message_bytes(message_bytes: &[u8]) -> (r: Result<Self, DispatchError>) {
        if message_bytes.len() < 4 {
            proof {
                assert forall|m: AuthProtocolResponse| #[trigger] Self::spec_message_bytes(m) != message_bytes@ by {
                    assert(Self::spec_message_bytes(m).len() >= 4);
                }
            }
            return Err(malformed("protocol response"));
        }
        let protocol = read_u32_be(message_bytes, 0);
        match decode_peer_types(message_bytes, 4) {
            Some(ts) => {
                let m = AuthProtocolResponse { auth_protocol: protocol, accepted_authorization_type: ts };
                assert(message_bytes@ =~= message_bytes@.subrange(0, 4) + message_bytes@.skip(4));
                assert(Self::spec_message_bytes(m) =~= message_bytes@);
                Ok(m)
            },
            None => {
                proof {
                    assert forall|m: AuthProtocolResponse| #[trigger] Self::spec_message_bytes(m) != message_bytes@ by {
                        if Self::spec_message_bytes(m) == message_bytes@ {
                            assert(Self::spec_message_bytes(m).skip(4) =~= peer_types_bytes(
                                m.accepted_authorization_type@,
                            ));
                        }
                    }
                }
                Err(malformed("protocol response"))
            },
        }
    }
}

impl FromMessageBytes for AuthChallengeNonceResponse {
    open spec fn spec_message_bytes(message: Self) -> Seq<u8> {
        message.nonce@
    }

    fn from_message_bytes(message_bytes: &[u8]) -> (r: Result<Self, DispatchError>) {
        Ok(AuthChallengeNonceResponse { nonce: vstd::slice::slice_to_vec(message_bytes) })
    }
}

/// Where the bytes from `p` on are those of the requests of `ms` from `k` on and some bytes are
/// left, the request at `k` is the next item of the bytes.
proof fn lemma_submit_item_at(b: Seq<u8>, p: int, ms: Seq<SubmitRequest>, k: int)
    requires
        0 <= p < b.len(),
        0 <= k <= ms.len(),
        submit_pairs_bytes(submit_pairs(ms).skip(k)) == b.skip(p),
    ensures
        k < ms.len(),
        ({
            let l1 = ms[k].public_key@.len();
            let l2 = ms[k].signature@.len();
            &&& l1 <= u64::MAX && l2 <= u64::MAX
            &&& p + 16 + l1 + l2 <= b.len()
            &&& b.subrange(p, p + 8) == u64_be(l1 as u64)
            &&& b.subrange(p + 8, p + 8 + l1) == ms[k].public_key@
            &&& b.subrange(p + 8 + l1, p + 16 + l1) == u64_be(l2 as u64)
            &&& b.subrange(p + 16 + l1, p + 16 + l1 + l2) == ms[k].signature@
            &&& submit_pairs_bytes(submit_pairs(ms).skip(k + 1)) == b.skip(p + 16 + l1 + l2)
        }),
{
    let ps = submit_pairs(ms).skip(k);
    if k == ms.len() {
        assert(ps.len() == 0);
        assert(b.skip(p).len() > 0);
    }
    let r = ms[k];
    assert(r.public_key.len() == r.public_key@.len());
    assert(r.signature.len() == r.signature@.len());
    assert(ps[0] == (r.public_key@, r.signature@));
    assert(ps.drop_first() =~= submit_pairs(ms).skip(k + 1));
    let l1 = r.public_key@.len() as int;
    let l2 = r.signature@.len() as int;
    let item = submit_item_bytes(r.public_key@, r.signature@);
    let rest = submit_pairs_bytes(ps.drop_first());
    assert(submit_pairs_bytes(ps) == item + rest);
    let bs = b.skip(p);
    assert(bs == item + rest);
    assert(b.len() == p + bs.len());
    assert(item.len() == 16 + l1 + l2);
    assert(b.subrange(p, p + 8) =~= item.subrange(0, 8));
    assert(u64_be(l1 as u64).len() == 8);
    assert(u64_be(l2 as u64).len() == 8);
    assert(item.subrange(8, 8 + l1) =~= r.public_key@);
    assert(item.subrange(8 + l1, 16 + l1) =~= u64_be(l2 as u64));
    assert(bs.subrange(8, 8 + l1) =~= item.subrange(8, 8 + l1));
    assert(bs.subrange(8 + l1, 16 + l1) =~= item.subrange(8 + l1, 16 + l1));
    assert(b.subrange(p + 8, p + 8 + l1) =~= bs.subrange(8, 8 + l1));
    assert(b.subrange(p + 8 + l1, p + 16 + l1) =~= bs.subrange(8 + l1, 16 + l1));
    assert(item.subrange(16 + l1, 16 + l1 + l2) =~= r.signature@);
    assert(bs.subrange(16 + l1, 16 + l1 + l2) =~= item.subrange(16 + l1, 16 + l1 + l2));
    assert(b.subrange(p + 16 + l1, p + 16 + l1 + l2) =~= bs.subrange(16 + l1, 16 + l1 + l2));
    assert(bs.skip(16 + l1 + l2) =~= rest);
    assert(b.skip(p + 16 + l1 + l2) =~= bs.skip(16 + l1 + l2));
}

impl FromMessageBytes for AuthChallengeSubmitRequest {
    open spec fn spec_message_bytes(message: Self) -> Seq<u8> {
        submit_pairs_bytes(submit_pairs(message.submit_requests@))
    }

    #[verifier::spinoff_prover]
    #[verifier::rlimit(40)]
    fn from_message_bytes(message_bytes: &[u8]) -> (r: Result<Self, DispatchError>) {
        let n = message_bytes.len();
        let ghost b = message_bytes@;
        let mut out: Vec<SubmitRequest> = Vec::new();
        let mut p: usize = 0;
        assert(b.skip(0) =~= b);
        assert(b.take(0) =~= submit_pairs_bytes(submit_pairs(out@)));
        assert forall|m: AuthChallengeSubmitRequest| #[trigger] Self::spec_message_bytes(m) == b implies submit_pairs(
            m.submit_requests@,
        ).skip(0) == submit_pairs(m.submit_requests@) by {
            assert(submit_pairs(m.submit_requests@).skip(0) =~= submit_pairs(m.submit_requests@));
        }
        while p < n
            invariant
                n == b.len(),
                b == message_bytes@,
                p <= n,
                submit_pairs_bytes(submit_pairs(out@)) == b.take(p as int),
                forall|m: AuthChallengeSubmitRequest| #[trigger] Self::spec_message_bytes(m) == b
                    ==> m.submit_requests@.len() >= out@.len() && submit_pairs_bytes(
                    submit_pairs(m.submit_requests@).skip(out@.len() as int),
                ) == b.skip(p as int),
            decreases n - p,
        {
            let ghost k0 = out@.len() as int;
            if n - p < 8 {
                proof {
                    assert forall|m: AuthChallengeSubmitRequest| #[trigger] Self::spec_message_bytes(m) != b by {
                        if Self::spec_message_bytes(m) == b {
                            lemma_submit_item_at(b, p as int, m.submit_requests@, k0);
                        }
                    }
                }
                return Err(malformed("challenge submit request"));
            }
            let key_len = read_u64_be(message_bytes, p);
            if key_len > (n - p - 8) as u64 {
                proof {
                    assert forall|m: AuthChallengeSubmitRequest| #[trigger] Self::spec_message_bytes(m) != b by {
                        if Self::spec_message_bytes(m) == b {
                            lemma_submit_item_at(b, p as int, m.submit_requests@, k0);
                            lemma_u64_be_injective(key_len, m.submit_requests@[k0].public_key@.len() as u64);
                        }
                    }
                }
                return Err(malformed("challenge submit request"));
            }
            let q = p + 8 + key_len as usize;
            if n - q < 8 {
                proof {
                    assert forall|m: AuthChallengeSubmitRequest| #[trigger] Self::spec_message_bytes(m) != b by {
                        if Self::spec_message_bytes(m) == b {
                            lemma_submit_item_at(b, p as int, m.submit_requests@, k0);
                            lemma_u64_be_injective(key_len, m.submit_requests@[k0].public_key@.len() as u64);
                        }
                    }
                }
                return Err(malformed("challenge submit request"));
            }
            let sig_len = read_u64_be(message_bytes, q);
            if sig_len > (n - q - 8) as u64 {
                proof {
                    assert forall|m: AuthChallengeSubmitRequest| #[trigger] Self::spec_message_bytes(m) != b by {
                        if Self::spec_message_bytes(m) == b {
                            lemma_submit_item_at(b, p as int, m.submit_requests@, k0);
                            lemma_u64_be_injective(key_len, m.submit_requests@[k0].public_key@.len() as u64);
                            lemma_u64_be_injective(sig_len, m.submit_requests@[k0].signature@.len() as u64);
                        }
                    }
                }
                return Err(malformed("challenge submit request"));
            }
            let end = q + 8 + sig_len as usize;
            let public_key = range_bytes(message_bytes, p + 8, q);
            let signature = range_bytes(message_bytes, q + 8, end);
            let ghost x = (public_key@, signature@);
            let ghost old_out = out@;
            let ghost old_p = p as int;
            out.push(SubmitRequest { public_key, signature });
            p = end;
            proof {
                lemma_submit_pairs_push(submit_pairs(old_out), x);
                assert(submit_pairs(out@) =~= submit_pairs(old_out).push(x));
                assert(b.take(p as int) =~= b.take(old_p) + submit_item_bytes(x.0, x.1));
                assert forall|m: AuthChallengeSubmitRequest| #[trigger] Self::spec_message_bytes(m) == b
                    implies m.submit_requests@.len() >= out@.len() && submit_pairs_bytes(
                    submit_pairs(m.submit_requests@).skip(out@.len() as int),
                ) == b.skip(p as int) by {
                    lemma_submit_item_at(b, old_p, m.submit_requests@, k0);
                    lemma_u64_be_injective(key_len, m.submit_requests@[k0].public_key@.len() as u64);
                    lemma_u64_be_injective(sig_len, m.submit_requests@[k0].signature@.len() as u64);
                }
            }
        }
        assert(b.take(n as int) =~= b);
        Ok(AuthChallengeSubmitRequest { submit_requests: out })
    }
}

impl FromMessageBytes for AuthChallengeSubmitResponse {
    open spec fn spec_message_bytes(message: Self) -> Seq<u8> {
        message.public_key@
    }

    fn from_message_bytes(message_bytes: &[u8]) -> (r: Result<Self, DispatchError>) {
        Ok(AuthChallengeSubmitResponse { public_key: vstd::slice::slice_to_vec(message_bytes) })
    }
}

} // verus!
