# splinter network layer, verified

The connection, peer and authorization logic of a Splinter node's network layer, written in
Verus and proved against contracts.

- `src/` is the verified library:
  - `wire.rs` — the byte format of network messages (a type code and a length-prefixed
    payload) with exact encoders and decoders.
  - `dispatch.rs`, `handlers.rs` — message dispatch by type to handlers, each handler's
    effect stated as a relation between the state before and after and the messages sent.
  - `auth/` — the authorization handshakes (trust v0, trust v1, challenge v1): the message
    formats, the per-connection state machines, the handlers that drive them, and the laws
    of complete handshakes (`auth/state_machine/laws.rs`).
  - `auth2/` — the authorization pool's simpler trust handshake and its handlers.
  - `connection_manager/` — connection records, heartbeats, reconnection back-off and the
    authorizers that decide about new connections.
  - `peer_manager/` — peers by id, connection and endpoint, with reference counts and retry
    back-off.
  - `signing.rs` — secp256k1 signing and verification through `cylinder`.
  - `collections.rs` — the string-keyed map and reference-count map the state is kept in.
- `app/` holds what cannot be verified: the threads, channels, connections and timers that
  run the library's decisions.
- `tests/` runs the library on concrete handshakes and states.
