//! Byte-level building blocks of the network message format: big-endian `u32` fields, UTF-8
//! strings and the network envelope that tags a payload with its message type.
//!
//! The format is this library's own: a one-byte type code followed by the payload, with
//! length-prefixed fields inside.  It is not the protobuf encoding of the Splinter network
//! protocol, so nodes that speak that encoding cannot read it.
use vstd::prelude::*;
use vstd::utf8::{decode_utf8, encode_utf8, valid_utf8};

use crate::dispatch::DispatchType;

verus! {

broadcast use vstd::utf8::encode_utf8_valid_utf8, vstd::utf8::encode_utf8_decode_utf8;

/// The four big-endian bytes of `x`.
pub open spec fn u32_be(x: u32) -> Seq<u8> {
    seq![(x >> 24u32) as u8, (x >> 16u32) as u8, (x >> 8u32) as u8, x as u8]
}

/// The number whose big-endian bytes are `b0 b1 b2 b3`.
pub open spec fn u32_from_be(b0: u8, b1: u8, b2: u8, b3: u8) -> u32 {
    ((b0 as u32) << 24u32) | ((b1 as u32) << 16u32) | ((b2 as u32) << 8u32) | (b3 as u32)
}

/// Reading back the bytes of a number gives the number, and the bytes of a read number are the
/// bytes that were read.
pub proof fn lemma_u32_be_roundtrip(x: u32, b0: u8, b1: u8, b2: u8, b3: u8)
    ensures
        u32_from_be(u32_be(x)[0], u32_be(x)[1], u32_be(x)[2], u32_be(x)[3]) == x,
        u32_be(u32_from_be(b0, b1, b2, b3)) == seq![b0, b1, b2, b3],
{
    assert(((((x >> 24u32) as u8) as u32) << 24u32) | ((((x >> 16u32) as u8) as u32) << 16u32) | ((((x
        >> 8u32) as u8) as u32) << 8u32) | ((x as u8) as u32) == x) by (bit_vector);
    let y = u32_from_be(b0, b1, b2, b3);
    assert((y >> 24u32) as u8 == b0 && (y >> 16u32) as u8 == b1 && (y >> 8u32) as u8 == b2 && y as u8
        == b3) by (bit_vector)
        requires
            y == ((b0 as u32) << 24u32) | ((b1 as u32) << 16u32) | ((b2 as u32) << 8u32) | (b3 as u32),
    ;
    assert(u32_be(y) =~= seq![b0, b1, b2, b3]);
}

/// Appends the big-endian bytes of `x`.
pub fn push_u32_be(out: &mut Vec<u8>, x: u32)
    ensures
        final(out)@ == old(out)@ + u32_be(x),
{
    out.push((x >> 24u32) as u8);
    out.push((x >> 16u32) as u8);
    out.push((x >> 8u32) as u8);
    out.push(x as u8);
    assert(out@ =~= old(out)@ + u32_be(x));
}

/// Reads the big-endian number at `at`.
pub fn read_u32_be(bytes: &[u8], at: usize) -> (x: u32)
    requires
        at + 4 <= bytes@.len(),
    ensures
        u32_be(x) == bytes@.subrange(at as int, at + 4),
{
    let x = u32_from_be_exec(bytes[at], bytes[at + 1], bytes[at + 2], bytes[at + 3]);
    proof {
        lemma_u32_be_roundtrip(0, bytes@[at as int], bytes@[at + 1], bytes@[at + 2], bytes@[at + 3]);
        assert(bytes@.subrange(at as int, at + 4) =~= seq![
            bytes@[at as int],
            bytes@[at + 1],
            bytes@[at + 2],
            bytes@[at + 3],
        ]);
    }
    x
}

fn u32_from_be_exec(b0: u8, b1: u8, b2: u8, b3: u8) -> (x: u32)
    ensures
        x == u32_from_be(b0, b1, b2, b3),
{
    ((b0 as u32) << 24u32) | ((b1 as u32) << 16u32) | ((b2 as u32) << 8u32) | (b3 as u32)
}

/// The eight big-endian bytes of `x`.
pub open spec fn u64_be(x: u64) -> Seq<u8> {
    u32_be((x >> 32u64) as u32) + u32_be(x as u32)
}

/// Reading back the bytes of a number gives the number.
pub proof fn lemma_u64_be_injective(x: u64, y: u64)
    requires
        u64_be(x) == u64_be(y),
    ensures
        x == y,
{
    let hx = (x >> 32u64) as u32;
    let lx = x as u32;
    let hy = (y >> 32u64) as u32;
    let ly = y as u32;
    assert(u32_be(hx) == u64_be(x).subrange(0, 4));
    assert(u32_be(hy) == u64_be(y).subrange(0, 4));
    assert(u32_be(lx) == u64_be(x).subrange(4, 8));
    assert(u32_be(ly) == u64_be(y).subrange(4, 8));
    lemma_u32_be_roundtrip(hx, 0, 0, 0, 0);
    lemma_u32_be_roundtrip(hy, 0, 0, 0, 0);
    lemma_u32_be_roundtrip(lx, 0, 0, 0, 0);
    lemma_u32_be_roundtrip(ly, 0, 0, 0, 0);
    assert(hx == hy && lx == ly);
    assert(x == y) by (bit_vector)
        requires
            (x >> 32u64) as u32 == (y >> 32u64) as u32,
            x as u32 == y as u32,
    ;
}

/// Appends the big-endian bytes of `x`.
pub fn push_u64_be(out: &mut Vec<u8>, x: u64)
    ensures
        final(out)@ == old(out)@ + u64_be(x),
{
    push_u32_be(out, (x >> 32u64) as u32);
    push_u32_be(out, x as u32);
    assert(out@ =~= old(out)@ + u64_be(x));
}

/// Reads the big-endian number at `at`.
pub fn read_u64_be(bytes: &[u8], at: usize) -> (x: u64)
    requires
        at + 8 <= bytes@.len(),
    ensures
        u64_be(x) == bytes@.subrange(at as int, at + 8),
{
    let n = bytes.len();
    let hi = read_u32_be(bytes, at);
    let lo = read_u32_be(bytes, at + 4);
    let x = ((hi as u64) << 32u64) | (lo as u64);
    assert((x >> 32u64) as u32 == hi && x as u32 == lo) by (bit_vector)
        requires
            x == ((hi as u64) << 32u64) | (lo as u64),
    ;
    assert(bytes@.subrange(at as int, at + 8) =~= bytes@.subrange(at as int, at + 4) + bytes@.subrange(
        at + 4,
        at + 8,
    ));
    x
}

/// Appends the bytes of `bytes`.
pub fn push_bytes(out: &mut Vec<u8>, bytes: &[u8])
    ensures
        final(out)@ == old(out)@ + bytes@,
{
    let n = bytes.len();
    for i in 0..n
        invariant
            n == bytes@.len(),
            out@ == old(out)@ + bytes@.subrange(0, i as int),
    {
        out.push(bytes[i]);
        assert(bytes@.subrange(0, i + 1) =~= bytes@.subrange(0, i as int).push(bytes@[i as int]));
    }
    assert(bytes@.subrange(0, n as int) =~= bytes@);
}

/// The bytes from `from` up to `to`.
pub fn range_bytes(bytes: &[u8], from: usize, to: usize) -> (r: Vec<u8>)
    requires
        from <= to <= bytes@.len(),
    ensures
        r@ == bytes@.subrange(from as int, to as int),
{
    let mut r: Vec<u8> = Vec::new();
    let mut i = from;
    while i < to
        invariant
            to <= bytes@.len(),
            from <= i <= to,
            r@ == bytes@.subrange(from as int, i as int),
        decreases to - i,
    {
        r.push(bytes[i]);
        assert(bytes@.subrange(from as int, i + 1) =~= bytes@.subrange(from as int, i as int).push(
            bytes@[i as int],
        ));
        i = i + 1;
    }
    r
}

/// The bytes from `from` to the end.
pub fn tail_bytes(bytes: &[u8], from: usize) -> (r: Vec<u8>)
    requires
        from <= bytes@.len(),
    ensures
        r@ == bytes@.subrange(from as int, bytes@.len() as int),
{
    range_bytes(bytes, from, bytes.len())
}

/// The UTF-8 bytes of a string.
pub fn string_bytes(s: &str) -> (r: Vec<u8>)
    ensures
        r@ == encode_utf8(s@),
{
    let mut r: Vec<u8> = Vec::new();
    push_bytes(&mut r, s.as_bytes());
    assert(r@ =~= encode_utf8(s@));
    r
}

/// `String::from_utf8` from std: the string whose UTF-8 encoding is `bytes`, or `None` when
/// `bytes` is not valid UTF-8.
#[verifier::external_body]
fn string_from_utf8(bytes: Vec<u8>) -> (r: Option<String>)
    ensures
        match r {
            Some(s) => valid_utf8(bytes@) && s@ == decode_utf8(bytes@),
            None => !valid_utf8(bytes@),
        },
{
    String::from_utf8(bytes).ok()
}

/// The string whose UTF-8 encoding is `bytes`, if there is one.
pub fn decode_string(bytes: Vec<u8>) -> (r: Option<String>)
    ensures
        match r {
            Some(s) => encode_utf8(s@) == bytes@,
            None => forall|s: Seq<char>| encode_utf8(s) != bytes@,
        },
{
    let ghost b = bytes@;
    let r = string_from_utf8(bytes);
    proof {
        if r is Some {
                vstd::utf8::decode_utf8_encode_utf8(b);
        } else {
                assert forall|s: Seq<char>| encode_utf8(s) != b by {
                    if encode_utf8(s) == b {
                        vstd::utf8::encode_utf8_valid_utf8(s);
                    }
                }
        }
    }
    r
}

/// The kinds of message carried between nodes.
#[derive(Debug, Clone, Copy, PartialEq, Eq, Structural)]
pub enum NetworkMessageType {
    NetworkEcho,
    NetworkHeartbeat,
    Authorization,
    Circuit,
    Gossip,
}

/// The byte that tags each kind of network message.
pub open spec fn network_type_code(t: NetworkMessageType) -> u8 {
    match t {
        NetworkMessageType::NetworkEcho => 1,
        NetworkMessageType::NetworkHeartbeat => 2,
        NetworkMessageType::Authorization => 3,
        NetworkMessageType::Circuit => 4,
        NetworkMessageType::Gossip => 5,
    }
}

/// The kind of network message that a tag byte stands for.
pub open spec fn network_type_of_code(c: u8) -> Option<NetworkMessageType> {
    if c == 1 {
        Some(NetworkMessageType::NetworkEcho)
    } else if c == 2 {
        Some(NetworkMessageType::NetworkHeartbeat)
    } else if c == 3 {
        Some(NetworkMessageType::Authorization)
    } else if c == 4 {
        Some(NetworkMessageType::Circuit)
    } else if c == 5 {
        Some(NetworkMessageType::Gossip)
    } else {
        None
    }
}

impl DispatchType for NetworkMessageType {
    open spec fn spec_name_text(&self) -> Seq<char> {
        match self {
            NetworkMessageType::NetworkEcho => "NETWORK_ECHO"@,
            NetworkMessageType::NetworkHeartbeat => "NETWORK_HEARTBEAT"@,
            NetworkMessageType::Authorization => "AUTHORIZATION"@,
            NetworkMessageType::Circuit => "CIRCUIT"@,
            NetworkMessageType::Gossip => "GOSSIP"@,
        }
    }

    fn same_type(&self, other: &Self) -> (r: bool) {
        *self == *other
    }

    fn name_text(&self) -> (s: String) {
        match self {
            NetworkMessageType::NetworkEcho => "NETWORK_ECHO".to_owned(),
            NetworkMessageType::NetworkHeartbeat => "NETWORK_HEARTBEAT".to_owned(),
            NetworkMessageType::Authorization => "AUTHORIZATION".to_owned(),
            NetworkMessageType::Circuit => "CIRCUIT".to_owned(),
            NetworkMessageType::Gossip => "GOSSIP".to_owned(),
        }
    }
}

impl NetworkMessageType {
    /// The tag byte of this kind.
    pub fn code(&self) -> (c: u8)
        ensures
            c == network_type_code(*self),
    {
        match self {
            NetworkMessageType::NetworkEcho => 1,
            NetworkMessageType::NetworkHeartbeat => 2,
            NetworkMessageType::Authorization => 3,
            NetworkMessageType::Circuit => 4,
            NetworkMessageType::Gossip => 5,
        }
    }

    /// The kind a tag byte stands for, if any.
    pub fn from_code(c: u8) -> (t: Option<Self>)
        ensures
            t == network_type_of_code(c),
    {
        if c == 1 {
            Some(NetworkMessageType::NetworkEcho)
        } else if c == 2 {
            Some(NetworkMessageType::NetworkHeartbeat)
        } else if c == 3 {
            Some(NetworkMessageType::Authorization)
        } else if c == 4 {
            Some(NetworkMessageType::Circuit)
        } else if c == 5 {
            Some(NetworkMessageType::Gossip)
        } else {
            None
        }
    }
}

/// A network message: the payload, tagged with its kind.
pub open spec fn network_message_bytes(t: NetworkMessageType, payload: Seq<u8>) -> Seq<u8> {
    seq![network_type_code(t)] + payload
}

/// Different network messages have different bytes: decoding the bytes of a network message
/// gives back its kind and payload.
pub proof fn lemma_network_message_bytes_injective(t1: NetworkMessageType, p1: Seq<u8>, t2: NetworkMessageType, p2: Seq<u8>)
    requires
        network_message_bytes(t1, p1) == network_message_bytes(t2, p2),
    ensures
        t1 == t2,
        p1 == p2,
{
    assert(network_message_bytes(t1, p1)[0] == network_type_code(t1));
    assert(network_message_bytes(t2, p2)[0] == network_type_code(t2));
    assert(network_type_of_code(network_type_code(t1)) == Some(t1));
    assert(network_type_of_code(network_type_code(t2)) == Some(t2));
    assert(p1 =~= network_message_bytes(t1, p1).skip(1));
    assert(p2 =~= network_message_bytes(t2, p2).skip(1));
}

/// Encodes a network message.
pub fn encode_network_message(t: &NetworkMessageType, payload: &[u8]) -> (r: Vec<u8>)
    ensures
        r@ == network_message_bytes(*t, payload@),
{
    let mut r: Vec<u8> = Vec::new();
    r.push(t.code());
    push_bytes(&mut r, payload);
    assert(r@ =~= network_message_bytes(*t, payload@));
    r
}

/// Decodes a network message into its kind and payload; `None` when no network message has
/// these bytes.
pub fn decode_network_message(bytes: &[u8]) -> (r: Option<(NetworkMessageType, Vec<u8>)>)
    ensures
        match r {
            Some((t, payload)) => network_message_bytes(t, payload@) == bytes@,
            None => forall|t: NetworkMessageType, p: Seq<u8>| network_message_bytes(t, p) != bytes@,
        },
{
    if bytes.len() == 0 {
        proof {
            assert forall|t: NetworkMessageType, p: Seq<u8>| network_message_bytes(t, p) != bytes@ by {
                assert(network_message_bytes(t, p).len() >= 1);
            }
        }
        return None;
    }
    match NetworkMessageType::from_code(bytes[0]) {
        Some(t) => {
            let payload = tail_bytes(bytes, 1);
            assert(network_message_bytes(t, payload@) =~= bytes@);
            Some((t, payload))
        },
        None => {
            proof {
                assert forall|t: NetworkMessageType, p: Seq<u8>| network_message_bytes(t, p) != bytes@ by {
                    if network_message_bytes(t, p) == bytes@ {
                        assert(network_message_bytes(t, p)[0] == network_type_code(t));
                    }
                }
            }
            None
        },
    }
}

} // verus!
