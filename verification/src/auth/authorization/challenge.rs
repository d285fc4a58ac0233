//! Challenge authorization: the accepting side hands out a nonce, the initiating side signs
//! it with the key it claims, and the accepting side confirms the key it accepted.
use vstd::prelude::*;

use crate::auth::authorization::trust::complete_bytes;
use crate::auth::handlers::{
    AuthorizationHandler, ConnectionAuthorizationType, accept_step, carried_out, initiate_step, lemma_one_send, one_send_plan, refusal_plan, send_authorization_error,
    send_message,
};
use crate::auth::messages::{
    submit_pairs, submit_pairs_bytes, AuthChallengeNonceResponse, AuthChallengeSubmitRequest,
    AuthChallengeSubmitResponse, AuthComplete, AuthorizationMessage, AuthorizationMessageType, SubmitRequest,
};
use crate::auth::state_machine::challenge_v1::{
    ChallengeAuthorizationAcceptingAction, ChallengeAuthorizationAcceptingState,
    ChallengeAuthorizationInitiatingAction,
};
use crate::auth::state_machine::names::action_error_text;
use crate::auth::state_machine::{
    state_for, AuthorizationAcceptingAction, AuthorizationAcceptingState, AuthorizationInitiatingAction, AuthorizationManagerStateMachine, Identity,
    ManagedAuthorizationState,
};
use crate::dispatch::{sent_since, ConnectionId, DispatchError, Handler, MessageContext, MessageSender, RawBytes};
use crate::public_key::{hex, to_hex};
use crate::signing::{
    secp256k1_public_key, secp256k1_public_key_of, secp256k1_sign, secp256k1_signature, secp256k1_verification,
    SignatureVerifier, SigningKey,
};
use crate::error::InvalidStateError;
use crate::wire::{network_message_bytes, NetworkMessageType};

use super::Authorization;

verus! {

/// The network bytes of a nonce response carrying `nonce`.
pub open spec fn nonce_response_bytes(nonce: Seq<u8>) -> Seq<u8> {
    network_message_bytes(NetworkMessageType::Authorization, seq![12u8] + nonce)
}

/// Handles nonce requests: answers with this node's nonce.
pub struct AuthChallengeNonceRequestHandler {
    nonce: Vec<u8>,
}

/// What the nonce request handler with `nonce` does with a request from `conn`.
pub open spec fn nonce_request_plan(
    nonce: Seq<u8>,
    conn: Seq<char>,
    states: Map<Seq<char>, ManagedAuthorizationState>,
) -> (Seq<Seq<u8>>, Seq<Map<Seq<char>, ManagedAuthorizationState>>) {
    let (s1, r1) = accept_step(
        states,
        conn,
        AuthorizationAcceptingAction::Challenge(ChallengeAuthorizationAcceptingAction::ReceiveAuthChallengeNonceRequest),
    );
    match r1 {
        Err(e) => refusal_plan(s1, conn, action_error_text(e)),
        Ok(_) => one_send_plan(
            nonce_response_bytes(nonce),
            s1,
            accept_step(
                s1,
                conn,
                AuthorizationAcceptingAction::Challenge(
                    ChallengeAuthorizationAcceptingAction::SendAuthChallengeNonceResponse,
                ),
            ).0,
        ),
    }
}

impl AuthChallengeNonceRequestHandler {
    /// The nonce handed out.
    pub closed spec fn spec_nonce(&self) -> Seq<u8> {
        self.nonce@
    }

    /// A handler that hands out `nonce`.
    pub fn new(nonce: Vec<u8>) -> (h: Self)
        ensures
            h.spec_nonce() == nonce@,
    {
        AuthChallengeNonceRequestHandler { nonce }
    }
}

impl Handler for AuthChallengeNonceRequestHandler {
    type Source = ConnectionId;
    type MessageType = AuthorizationMessageType;
    type Message = RawBytes;
    type State = AuthorizationManagerStateMachine;

    open spec fn spec_match_type(&self) -> AuthorizationMessageType {
        AuthorizationMessageType::AuthChallengeNonceRequest
    }

    open spec fn handles(
        &self,
        message: RawBytes,
        source: ConnectionId,
        before: AuthorizationManagerStateMachine,
        after: AuthorizationManagerStateMachine,
        sent: Seq<(ConnectionId, Seq<u8>)>,
        result: Result<(), DispatchError>,
    ) -> bool {
        carried_out(source, nonce_request_plan(self.spec_nonce(), source.0@, before.states()), after.states(), sent, result)
    }

    fn match_type(&self) -> (t: AuthorizationMessageType) {
        AuthorizationMessageType::AuthChallengeNonceRequest
    }

    fn handle<S: MessageSender<ConnectionId>>(
        &self,
        message: RawBytes,
        message_context: &MessageContext<ConnectionId, AuthorizationMessageType>,
        network_sender: &mut S,
        state: &mut AuthorizationManagerStateMachine,
    ) -> (r: Result<(), DispatchError>) {
        let ghost sent0 = network_sender.sent();
        let source = message_context.source_id();
        let conn = message_context.source_connection_id();
        match state.next_accepting_state(
            conn,
            AuthorizationAcceptingAction::Challenge(
                ChallengeAuthorizationAcceptingAction::ReceiveAuthChallengeNonceRequest,
            ),
        ) {
            Err(err) => {
                let text = err.message();
                send_authorization_error(state, source, network_sender, text.as_str())
            },
            Ok(_) => {
                let ghost s1 = state.states();
                let response = AuthorizationMessage::AuthChallengeNonceResponse(
                    AuthChallengeNonceResponse { nonce: vstd::slice::slice_to_vec(self.nonce.as_slice()) },
                );
                let msg_bytes = response.to_network_bytes();
                assert(msg_bytes@ =~= nonce_response_bytes(self.spec_nonce()));
                let r = send_message(network_sender, source, msg_bytes);
                if r.is_ok() {
                    let _ = state.next_accepting_state(
                        conn,
                        AuthorizationAcceptingAction::Challenge(
                            ChallengeAuthorizationAcceptingAction::SendAuthChallengeNonceResponse,
                        ),
                    );
                }
                proof {
                    assert(sent_since(sent0, network_sender.sent()) =~= seq![(*source, nonce_response_bytes(self.spec_nonce()))]);
                    lemma_one_send(
                        *source,
                        nonce_response_bytes(self.spec_nonce()),
                        s1,
                        accept_step(
                            s1,
                            source.0@,
                            AuthorizationAcceptingAction::Challenge(
                                ChallengeAuthorizationAcceptingAction::SendAuthChallengeNonceResponse,
                            ),
                        ).0,
                        state.states(),
                        sent_since(sent0, network_sender.sent()),
                        r,
                    );
                }
                r
            },
        }
    }
}

/// Handles submit responses: the remote accepted our key, so the local side is authorized
/// with it and the completion message is sent.
pub struct AuthChallengeSubmitResponseHandler;

/// What the submit response handler does with a response from `conn` that confirms the key
/// `public_key` (in hex).
pub open spec fn submit_response_plan(
    public_key: String,
    conn: Seq<char>,
    states: Map<Seq<char>, ManagedAuthorizationState>,
) -> (Seq<Seq<u8>>, Seq<Map<Seq<char>, ManagedAuthorizationState>>) {
    let (s1, r1) = initiate_step(
        states,
        conn,
        AuthorizationInitiatingAction::Challenge(
            ChallengeAuthorizationInitiatingAction::ReceiveAuthChallengeSubmitResponse(
                Identity::Challenge { public_key },
            ),
        ),
    );
    match r1 {
        Err(e) => refusal_plan(s1, conn, action_error_text(e)),
        Ok(_) => one_send_plan(
            complete_bytes(),
            s1,
            initiate_step(s1, conn, AuthorizationInitiatingAction::SendAuthComplete).0,
        ),
    }
}

impl AuthChallengeSubmitResponseHandler {
    pub fn new() -> (h: Self) {
        AuthChallengeSubmitResponseHandler
    }
}

impl Handler for AuthChallengeSubmitResponseHandler {
    type Source = ConnectionId;
    type MessageType = AuthorizationMessageType;
    type Message = AuthChallengeSubmitResponse;
    type State = AuthorizationManagerStateMachine;

    open spec fn spec_match_type(&self) -> AuthorizationMessageType {
        AuthorizationMessageType::AuthChallengeSubmitResponse
    }

    open spec fn handles(
        &self,
        message: AuthChallengeSubmitResponse,
        source: ConnectionId,
        before: AuthorizationManagerStateMachine,
        after: AuthorizationManagerStateMachine,
        sent: Seq<(ConnectionId, Seq<u8>)>,
        result: Result<(), DispatchError>,
    ) -> bool {
        exists|public_key: String|
            public_key@ == hex(message.public_key@) && #[trigger] carried_out(
                source,
                submit_response_plan(public_key, source.0@, before.states()),
                after.states(),
                sent,
                result,
            )
    }

    fn match_type(&self) -> (t: AuthorizationMessageType) {
        AuthorizationMessageType::AuthChallengeSubmitResponse
    }

    fn handle<S: MessageSender<ConnectionId>>(
        &self,
        message: AuthChallengeSubmitResponse,
        message_context: &MessageContext<ConnectionId, AuthorizationMessageType>,
        network_sender: &mut S,
        state: &mut AuthorizationManagerStateMachine,
    ) -> (r: Result<(), DispatchError>) {
        let ghost sent0 = network_sender.sent();
        let source = message_context.source_id();
        let conn = message_context.source_connection_id();
        let public_key = to_hex(message.public_key.as_slice());
        let ghost key = public_key;
        match state.next_initiating_state(
            conn,
            AuthorizationInitiatingAction::Challenge(
                ChallengeAuthorizationInitiatingAction::ReceiveAuthChallengeSubmitResponse(
                    Identity::Challenge { public_key },
                ),
            ),
        ) {
            Err(err) => {
                let text = err.message();
                let r = send_authorization_error(state, source, network_sender, text.as_str());
                assert(carried_out(
                    *source,
                    submit_response_plan(key, source.0@, old(state).states()),
                    state.states(),
                    sent_since(sent0, network_sender.sent()),
                    r,
                ));
                return r;
            },
            Ok(_) => {},
        }
        let ghost s1 = state.states();
        let msg_bytes = AuthorizationMessage::AuthComplete(AuthComplete).to_network_bytes();
        assert(msg_bytes@ =~= complete_bytes());
        let r = send_message(network_sender, source, msg_bytes);
        if r.is_ok() {
            match state.next_initiating_state(conn, AuthorizationInitiatingAction::SendAuthComplete) {
                Err(err) => {
                    assert(false);
                },
                Ok(_) => {},
            }
        }
        proof {
            assert(sent_since(sent0, network_sender.sent()) =~= seq![(*source, complete_bytes())]);
            lemma_one_send(
                *source,
                complete_bytes(),
                s1,
                initiate_step(s1, source.0@, AuthorizationInitiatingAction::SendAuthComplete).0,
                state.states(),
                sent_since(sent0, network_sender.sent()),
                r,
            );
            assert(carried_out(
                *source,
                submit_response_plan(key, source.0@, old(state).states()),
                state.states(),
                sent_since(sent0, network_sender.sent()),
                r,
            ));
        }
        r
    }
}

/// `prefix` followed by `reason`.
fn with_reason(prefix: &str, reason: String) -> (s: String)
    ensures
        s@ == prefix@ + reason@,
{
    let mut s = prefix.to_owned();
    vstd::string::StringExecFns::append(&mut s, reason.as_str());
    s
}

/// The network bytes of a submit request carrying the signatures `pairs`.
pub open spec fn submit_request_bytes(pairs: Seq<(Seq<u8>, Seq<u8>)>) -> Seq<u8> {
    network_message_bytes(NetworkMessageType::Authorization, seq![13u8] + submit_pairs_bytes(pairs))
}

/// Every key of `keys` is a secp256k1 private key.
pub open spec fn all_keys_valid(keys: Seq<Seq<u8>>) -> bool {
    forall|i: int| 0 <= i < keys.len() ==> (#[trigger] secp256k1_public_key(keys[i])) is Some
}

/// The signatures that the keys `keys` make of `nonce`, each with its public key.
pub open spec fn signed_pairs(keys: Seq<Seq<u8>>, nonce: Seq<u8>) -> Seq<(Seq<u8>, Seq<u8>)> {
    keys.map_values(|k: Seq<u8>| (secp256k1_public_key(k)->0, secp256k1_signature(k, nonce)))
}

/// The private keys of `signers`.
pub open spec fn signer_keys(signers: Seq<SigningKey>) -> Seq<Seq<u8>> {
    signers.map_values(|s: SigningKey| s.spec_private_key())
}

/// What the nonce response handler does with a response from `conn` once the nonce is signed
/// as `pairs`: the initiating side takes the nonce, moves on to wait for the verdict, and the
/// signatures are sent.
pub open spec fn nonce_response_plan(
    pairs: Seq<(Seq<u8>, Seq<u8>)>,
    conn: Seq<char>,
    states: Map<Seq<char>, ManagedAuthorizationState>,
) -> (Seq<Seq<u8>>, Seq<Map<Seq<char>, ManagedAuthorizationState>>) {
    let (s1, r1) = initiate_step(
        states,
        conn,
        AuthorizationInitiatingAction::Challenge(ChallengeAuthorizationInitiatingAction::ReceiveAuthChallengeNonceResponse),
    );
    match r1 {
        Err(e) => refusal_plan(s1, conn, action_error_text(e)),
        Ok(_) => {
            let s2 = initiate_step(
                s1,
                conn,
                AuthorizationInitiatingAction::Challenge(
                    ChallengeAuthorizationInitiatingAction::SendAuthChallengeSubmitRequest,
                ),
            ).0;
            one_send_plan(submit_request_bytes(pairs), s2, s2)
        },
    }
}

/// Handles nonce responses: signs the nonce with each of its keys and submits the
/// signatures.
pub struct AuthChallengeNonceResponseHandler {
    signers: Vec<SigningKey>,
}

impl AuthChallengeNonceResponseHandler {
    /// The keys the nonce is signed with.
    pub closed spec fn spec_signers(&self) -> Seq<SigningKey> {
        self.signers@
    }

    /// A handler that signs with `signers`.
    pub fn new(signers: Vec<SigningKey>) -> (h: Self)
        ensures
            h.spec_signers() == signers@,
    {
        AuthChallengeNonceResponseHandler { signers }
    }
}

impl Handler for AuthChallengeNonceResponseHandler {
    type Source = ConnectionId;
    type MessageType = AuthorizationMessageType;
    type Message = AuthChallengeNonceResponse;
    type State = AuthorizationManagerStateMachine;

    open spec fn spec_match_type(&self) -> AuthorizationMessageType {
        AuthorizationMessageType::AuthChallengeNonceResponse
    }

    /// A key that cannot sign stops the handler with an error, before anything is sent or
    /// changed; otherwise the signatures of the nonce are submitted.
    open spec fn handles(
        &self,
        message: AuthChallengeNonceResponse,
        source: ConnectionId,
        before: AuthorizationManagerStateMachine,
        after: AuthorizationManagerStateMachine,
        sent: Seq<(ConnectionId, Seq<u8>)>,
        result: Result<(), DispatchError>,
    ) -> bool {
        let keys = signer_keys(self.spec_signers());
        if all_keys_valid(keys) {
            carried_out(
                source,
                nonce_response_plan(signed_pairs(keys, message.nonce@), source.0@, before.states()),
                after.states(),
                sent,
                result,
            )
        } else {
            result matches Err(DispatchError::HandleError(_)) && sent.len() == 0 && after.states() == before.states()
        }
    }

    fn match_type(&self) -> (t: AuthorizationMessageType) {
        AuthorizationMessageType::AuthChallengeNonceResponse
    }

    fn handle<S: MessageSender<ConnectionId>>(
        &self,
        message: AuthChallengeNonceResponse,
        message_context: &MessageContext<ConnectionId, AuthorizationMessageType>,
        network_sender: &mut S,
        state: &mut AuthorizationManagerStateMachine,
    ) -> (r: Result<(), DispatchError>) {
        let ghost sent0 = network_sender.sent();
        let ghost keys = signer_keys(self.spec_signers());
        let ghost nonce = message.nonce@;
        let source = message_context.source_id();
        let conn = message_context.source_connection_id();
        let mut submit_requests: Vec<SubmitRequest> = Vec::new();
        let n = self.signers.len();
        for i in 0..n
            invariant
                n == self.signers@.len(),
                keys == signer_keys(self.spec_signers()),
                nonce == message.nonce@,
                forall|j: int| 0 <= j < i ==> (#[trigger] secp256k1_public_key(keys[j])) is Some,
                submit_pairs(submit_requests@) == signed_pairs(keys.take(i as int), nonce),
        {
            let key = self.signers[i].private_key();
            assert(key@ == keys[i as int]);
            let signature = match secp256k1_sign(key, message.nonce.as_slice()) {
                Ok(s) => s,
                Err(e) => {
                    assert(sent_since(network_sender.sent(), network_sender.sent()) =~= Seq::empty());
                    assert(!all_keys_valid(keys));
                    return Err(DispatchError::HandleError(with_reason("Unable to sign provided nonce: ", e)));
                },
            };
            let public_key = match secp256k1_public_key_of(key) {
                Ok(k) => k,
                Err(e) => {
                    assert(sent_since(network_sender.sent(), network_sender.sent()) =~= Seq::empty());
                    assert(!all_keys_valid(keys));
                    return Err(
                        DispatchError::HandleError(with_reason("Unable to get public key for signer: ", e)),
                    );
                },
            };
            let ghost pair = (public_key@, signature@);
            let ghost before = submit_requests@;
            submit_requests.push(SubmitRequest { public_key, signature });
            assert(submit_pairs(submit_requests@) =~= submit_pairs(before).push(pair));
            assert(keys.take(i + 1) =~= keys.take(i as int).push(keys[i as int]));
            assert(signed_pairs(keys.take(i + 1), nonce) =~= signed_pairs(keys.take(i as int), nonce).push(pair));
        }
        assert(keys.take(n as int) =~= keys);
        let ghost pairs = signed_pairs(keys, nonce);
        assert(all_keys_valid(keys));
        match state.next_initiating_state(
            conn,
            AuthorizationInitiatingAction::Challenge(
                ChallengeAuthorizationInitiatingAction::ReceiveAuthChallengeNonceResponse,
            ),
        ) {
            Err(err) => {
                let text = err.message();
                send_authorization_error(state, source, network_sender, text.as_str())
            },
            Ok(_) => {
                let msg_bytes = AuthorizationMessage::AuthChallengeSubmitRequest(
                    AuthChallengeSubmitRequest { submit_requests },
                ).to_network_bytes();
                assert(msg_bytes@ =~= submit_request_bytes(pairs));
                let _ = state.next_initiating_state(
                    conn,
                    AuthorizationInitiatingAction::Challenge(
                        ChallengeAuthorizationInitiatingAction::SendAuthChallengeSubmitRequest,
                    ),
                );
                let ghost s2 = state.states();
                let r = send_message(network_sender, source, msg_bytes);
                proof {
                    assert(sent_since(sent0, network_sender.sent()) =~= seq![(*source, submit_request_bytes(pairs))]);
                    lemma_one_send(
                        *source,
                        submit_request_bytes(pairs),
                        s2,
                        s2,
                        state.states(),
                        sent_since(sent0, network_sender.sent()),
                        r,
                    );
                }
                r
            },
        }
    }
}

/// Checking the signatures `pairs` of `nonce`, in order: `Err` at the first that cannot be
/// checked, `Ok(false)` at the first that is not valid, `Ok(true)` when every one is valid.
pub open spec fn signatures_check(nonce: Seq<u8>, pairs: Seq<(Seq<u8>, Seq<u8>)>) -> Result<bool, ()>
    decreases pairs.len(),
{
    if pairs.len() == 0 {
        Ok(true)
    } else {
        match secp256k1_verification(nonce, pairs[0].1, pairs[0].0) {
            None => Err(()),
            Some(false) => Ok(false),
            Some(true) => signatures_check(nonce, pairs.drop_first()),
        }
    }
}

/// The public keys of the signatures `pairs`.
pub open spec fn pair_keys(pairs: Seq<(Seq<u8>, Seq<u8>)>) -> Seq<Seq<u8>> {
    pairs.map_values(|p: (Seq<u8>, Seq<u8>)| p.0)
}

/// The first of `keys` whose hex is `expected`.
pub open spec fn first_with_hex(keys: Seq<Seq<u8>>, expected: Seq<char>) -> Option<Seq<u8>>
    decreases keys.len(),
{
    if keys.len() == 0 {
        None
    } else if hex(keys[0]) == expected {
        Some(keys[0])
    } else {
        first_with_hex(keys.drop_first(), expected)
    }
}

/// The key that a valid submission of `keys` is accepted with: the expected key when one is
/// expected (`None` when it was not submitted), else the first key submitted.
pub open spec fn accepted_key(expected: Option<Seq<char>>, keys: Seq<Seq<u8>>) -> Option<Seq<u8>> {
    match expected {
        Some(e) => first_with_hex(keys, e),
        None => if keys.len() > 0 {
            Some(keys[0])
        } else {
            None
        },
    }
}

/// Why a valid submission without an acceptable key is refused.
pub open spec fn missing_key_text(expected: Option<Seq<char>>) -> Seq<char> {
    if expected is Some {
        "Required public key not submitted"@
    } else {
        "No public keys submitted"@
    }
}

/// The network bytes of a submit response naming `key`.
pub open spec fn submit_response_bytes(key: Seq<u8>) -> Seq<u8> {
    network_message_bytes(NetworkMessageType::Authorization, seq![14u8] + key)
}

/// Accepting the remote on connection `conn` with the key `key`, named by `identity`: the
/// accepting side records the identity and the key is confirmed to the remote.
pub open spec fn challenge_accept_plan(
    identity: String,
    key: Seq<u8>,
    conn: Seq<char>,
    states: Map<Seq<char>, ManagedAuthorizationState>,
) -> (Seq<Seq<u8>>, Seq<Map<Seq<char>, ManagedAuthorizationState>>) {
    let (s1, r1) = accept_step(
        states,
        conn,
        AuthorizationAcceptingAction::Challenge(
            ChallengeAuthorizationAcceptingAction::ReceiveAuthChallengeSubmitRequest(
                Identity::Challenge { public_key: identity },
            ),
        ),
    );
    match r1 {
        Err(e) => refusal_plan(s1, conn, action_error_text(e)),
        Ok(_) => one_send_plan(
            submit_response_bytes(key),
            s1,
            accept_step(
                s1,
                conn,
                AuthorizationAcceptingAction::Challenge(
                    ChallengeAuthorizationAcceptingAction::SendAuthChallengeSubmitResponse,
                ),
            ).0,
        ),
    }
}

/// Carrying out the acceptance of the remote on `to` with the key `key`, under the name
/// of its hex, ended in `after`, having sent `sent` and returned `r`.
pub open spec fn challenge_accepted(
    to: ConnectionId,
    key: Seq<u8>,
    before: Map<Seq<char>, ManagedAuthorizationState>,
    after: Map<Seq<char>, ManagedAuthorizationState>,
    sent: Seq<(ConnectionId, Seq<u8>)>,
    r: Result<(), DispatchError>,
) -> bool {
    exists|identity: String|
        identity@ == hex(key) && #[trigger] carried_out(
            to,
            challenge_accept_plan(identity, key, to.0@, before),
            after,
            sent,
            r,
        )
}

/// Handles submit requests: checks each signature of this node's nonce and accepts the
/// remote with the expected key, or with the first key when none is expected.
pub struct AuthChallengeSubmitRequestHandler {
    verifier: SignatureVerifier,
    nonce: Vec<u8>,
    expected_public_key: Option<String>,
}

impl AuthChallengeSubmitRequestHandler {
    /// The nonce the signatures must be of.
    pub closed spec fn spec_nonce(&self) -> Seq<u8> {
        self.nonce@
    }

    /// The hex of the public key the remote must show, if any.
    pub closed spec fn spec_expected(&self) -> Option<Seq<char>> {
        match self.expected_public_key {
            Some(k) => Some(k@),
            None => None,
        }
    }

    /// A handler that checks signatures of `nonce` with `verifier` and expects the key whose
    /// hex is `expected_public_key`, if any.
    pub fn new(verifier: SignatureVerifier, nonce: Vec<u8>, expected_public_key: Option<String>) -> (h: Self)
        ensures
            h.spec_nonce() == nonce@,
            h.spec_expected() == (match expected_public_key {
                Some(k) => Some(k@),
                None => None::<Seq<char>>,
            }),
    {
        AuthChallengeSubmitRequestHandler { verifier, nonce, expected_public_key }
    }

    /// The first of `keys` whose hex is `expected`, by its index.
    fn find_expected(keys: &Vec<Vec<u8>>, expected: &String) -> (r: Option<usize>)
        ensures
            match r {
                Some(j) => j < keys@.len() && hex(keys@[j as int]@) == expected@ && first_with_hex(
                    keys@.map_values(|k: Vec<u8>| k@),
                    expected@,
                ) == Some(keys@[j as int]@),
                None => first_with_hex(keys@.map_values(|k: Vec<u8>| k@), expected@) is None,
            },
    {
        let ghost ks = keys@.map_values(|k: Vec<u8>| k@);
        let n = keys.len();
        let mut j: usize = 0;
        assert(ks.skip(0) =~= ks);
        while j < n
            invariant
                n == keys@.len(),
                ks == keys@.map_values(|k: Vec<u8>| k@),
                j <= n,
                first_with_hex(ks, expected@) == first_with_hex(ks.skip(j as int), expected@),
            decreases n - j,
        {
            assert(ks.skip(j as int)[0] == keys@[j as int]@);
            assert(ks.skip(j as int).drop_first() =~= ks.skip(j + 1));
            if to_hex(keys[j].as_slice()) == *expected {
                return Some(j);
            }
            j = j + 1;
        }
        assert(ks.skip(n as int).len() == 0);
        None
    }
}

impl Handler for AuthChallengeSubmitRequestHandler {
    type Source = ConnectionId;
    type MessageType = AuthorizationMessageType;
    type Message = AuthChallengeSubmitRequest;
    type State = AuthorizationManagerStateMachine;

    open spec fn spec_match_type(&self) -> AuthorizationMessageType {
        AuthorizationMessageType::AuthChallengeSubmitRequest
    }

    /// A signature that cannot be checked stops the handler with an error, before anything
    /// is sent or changed; an invalid signature, or no acceptable key, refuses the remote;
    /// otherwise the remote is accepted with the accepted key.
    open spec fn handles(
        &self,
        message: AuthChallengeSubmitRequest,
        source: ConnectionId,
        before: AuthorizationManagerStateMachine,
        after: AuthorizationManagerStateMachine,
        sent: Seq<(ConnectionId, Seq<u8>)>,
        result: Result<(), DispatchError>,
    ) -> bool {
        let pairs = submit_pairs(message.submit_requests@);
        let conn = source.0@;
        match signatures_check(self.spec_nonce(), pairs) {
            Err(_) => result matches Err(DispatchError::HandleError(_)) && sent.len() == 0 && after.states()
                == before.states(),
            Ok(false) => carried_out(
                source,
                refusal_plan(before.states(), conn, "Challenge signature was not valid"@),
                after.states(),
                sent,
                result,
            ),
            Ok(true) => match accepted_key(self.spec_expected(), pair_keys(pairs)) {
                None => carried_out(
                    source,
                    refusal_plan(before.states(), conn, missing_key_text(self.spec_expected())),
                    after.states(),
                    sent,
                    result,
                ),
                Some(k) => challenge_accepted(source, k, before.states(), after.states(), sent, result),
            },
        }
    }

    fn match_type(&self) -> (t: AuthorizationMessageType) {
        AuthorizationMessageType::AuthChallengeSubmitRequest
    }

    fn handle<S: MessageSender<ConnectionId>>(
        &self,
        message: AuthChallengeSubmitRequest,
        message_context: &MessageContext<ConnectionId, AuthorizationMessageType>,
        network_sender: &mut S,
        state: &mut AuthorizationManagerStateMachine,
    ) -> (r: Result<(), DispatchError>) {
        let ghost sent0 = network_sender.sent();
        let ghost pairs = submit_pairs(message.submit_requests@);
        let ghost nonce = self.spec_nonce();
        let source = message_context.source_id();
        let conn = message_context.source_connection_id();
        let rs = &message.submit_requests;
        let n = rs.len();
        let mut public_keys: Vec<Vec<u8>> = Vec::new();
        assert(pairs.skip(0) =~= pairs);
        assert(sent0.is_prefix_of(network_sender.sent())) by {
            assert(sent0.subrange(0, sent0.len() as int) =~= sent0);
        }
        for i in 0..n
            invariant
                n == rs@.len(),
                rs == message.submit_requests,
                pairs == submit_pairs(rs@),
                nonce == self.spec_nonce(),
                network_sender.sent() == sent0,
                sent0 == old(network_sender).sent(),
                network_sender.refusals() == old(network_sender).refusals(),
                *source == message_context.spec_source_id(),
                sent0.is_prefix_of(network_sender.sent()),
                state.states() == old(state).states(),
                signatures_check(nonce, pairs) == signatures_check(nonce, pairs.skip(i as int)),
                public_keys@.map_values(|k: Vec<u8>| k@) == pair_keys(pairs.take(i as int)),
        {
            let req = &rs[i];
            assert(pairs.skip(i as int)[0] == (req.public_key@, req.signature@));
            assert(pairs.skip(i as int).drop_first() =~= pairs.skip(i + 1));
            match self.verifier.verify(self.nonce.as_slice(), req.signature.as_slice(), req.public_key.as_slice()) {
                Err(e) => {
                    assert(sent_since(network_sender.sent(), network_sender.sent()) =~= Seq::empty());
                    return Err(DispatchError::HandleError(with_reason("Unable to verify submit request: ", e)));
                },
                Ok(false) => {
                    assert(signatures_check(nonce, pairs.skip(i as int)) == Ok::<bool, ()>(false));
                    return send_authorization_error(
                        state,
                        source,
                        network_sender,
                        "Challenge signature was not valid",
                    );
                },
                Ok(true) => {},
            }
            let ghost before = public_keys@;
            public_keys.push(vstd::slice::slice_to_vec(req.public_key.as_slice()));
            assert(public_keys@.map_values(|k: Vec<u8>| k@) =~= before.map_values(|k: Vec<u8>| k@).push(
                req.public_key@,
            ));
            assert(pairs.take(i + 1) =~= pairs.take(i as int).push(pairs[i as int]));
            assert(pair_keys(pairs.take(i + 1)) =~= pair_keys(pairs.take(i as int)).push(req.public_key@));
        }
        assert(pairs.take(n as int) =~= pairs);
        assert(pairs.skip(n as int).len() == 0);
        assert(signatures_check(nonce, pairs) == Ok::<bool, ()>(true));
        let ghost keys = pair_keys(pairs);
        assert(public_keys@.map_values(|k: Vec<u8>| k@) == keys);
        let chosen: Option<(String, usize)> = match &self.expected_public_key {
            Some(expected) => match Self::find_expected(&public_keys, expected) {
                Some(j) => Some((expected.clone(), j)),
                None => None,
            },
            None => if public_keys.len() > 0 {
                Some((to_hex(public_keys[0].as_slice()), 0))
            } else {
                None
            },
        };
        match chosen {
            None => {
                assert(accepted_key(self.spec_expected(), keys) is None);
                let text = match &self.expected_public_key {
                    Some(_) => "Required public key not submitted",
                    None => "No public keys submitted",
                };
                assert(text@ == missing_key_text(self.spec_expected()));
                let r = send_authorization_error(state, source, network_sender, text);
                assert(self.handles(message, message_context.spec_source_id(), *old(state), *state, sent_since(old(network_sender).sent(), network_sender.sent()), r));
                r
            },
            Some((identity, j)) => {
                let ghost id = identity;
                let ghost key = keys[j as int];
                assert(accepted_key(self.spec_expected(), keys) == Some(key));
                assert(id@ == hex(key));
                let key_bytes = vstd::slice::slice_to_vec(public_keys[j].as_slice());
                match state.next_accepting_state(
                    conn,
                    AuthorizationAcceptingAction::Challenge(
                        ChallengeAuthorizationAcceptingAction::ReceiveAuthChallengeSubmitRequest(
                            Identity::Challenge { public_key: identity },
                        ),
                    ),
                ) {
                    Err(err) => {
                        let text = err.message();
                        let r = send_authorization_error(state, source, network_sender, text.as_str());
                        assert(carried_out(
                            *source,
                            challenge_accept_plan(id, key, source.0@, old(state).states()),
                            state.states(),
                            sent_since(sent0, network_sender.sent()),
                            r,
                        ));
                        assert(challenge_accepted(*source, key, old(state).states(), state.states(), sent_since(sent0, network_sender.sent()), r));
                        r
                    },
                    Ok(_) => {
                        let ghost s1 = state.states();
                        let msg_bytes = AuthorizationMessage::AuthChallengeSubmitResponse(
                            AuthChallengeSubmitResponse { public_key: key_bytes },
                        ).to_network_bytes();
                        assert(msg_bytes@ =~= submit_response_bytes(key));
                        let r = send_message(network_sender, source, msg_bytes);
                        if r.is_ok() {
                            let _ = state.next_accepting_state(
                                conn,
                                AuthorizationAcceptingAction::Challenge(
                                    ChallengeAuthorizationAcceptingAction::SendAuthChallengeSubmitResponse,
                                ),
                            );
                        }
                        proof {
                            assert(sent_since(sent0, network_sender.sent()) =~= seq![(*source, submit_response_bytes(key))]);
                            lemma_one_send(
                                *source,
                                submit_response_bytes(key),
                                s1,
                                accept_step(
                                    s1,
                                    source.0@,
                                    AuthorizationAcceptingAction::Challenge(
                                        ChallengeAuthorizationAcceptingAction::SendAuthChallengeSubmitResponse,
                                    ),
                                ).0,
                                state.states(),
                                sent_since(sent0, network_sender.sent()),
                                r,
                            );
                            assert(carried_out(
                                *source,
                                challenge_accept_plan(id, key, source.0@, old(state).states()),
                                state.states(),
                                sent_since(sent0, network_sender.sent()),
                                r,
                            ));
                            assert(challenge_accepted(*source, key, old(state).states(), state.states(), sent_since(sent0, network_sender.sent()), r));
                        }
                        r
                    },
                }
            },
        }
    }
}

/// The first of the private keys `keys` whose public key has hex `public_key`, by index.
pub open spec fn signer_index(keys: Seq<Seq<u8>>, public_key: Seq<char>) -> Option<int>
    decreases keys.len(),
{
    if keys.len() == 0 {
        None
    } else if secp256k1_public_key(keys[0]) matches Some(pk) && hex(pk) == public_key {
        Some(0)
    } else {
        match signer_index(keys.drop_first(), public_key) {
            Some(i) => Some(i + 1),
            None => None,
        }
    }
}

/// The private keys the nonce is signed with: when the local node must authorize with a
/// challenge, the first key for its public key (`None` when no key is for it), else all.
pub open spec fn keys_to_use(local: Option<ConnectionAuthorizationType>, keys: Seq<Seq<u8>>) -> Option<Seq<Seq<u8>>> {
    match local {
        Some(ConnectionAuthorizationType::Challenge { public_key }) => match signer_index(keys, public_key@) {
            Some(i) => Some(seq![keys[i]]),
            None => None,
        },
        _ => Some(keys),
    }
}

/// The hex of the public key the remote must show, when it is expected to authorize with a
/// challenge.
pub open spec fn expected_key(expected: Option<ConnectionAuthorizationType>) -> Option<Seq<char>> {
    match expected {
        Some(ConnectionAuthorizationType::Challenge { public_key }) => Some(public_key@),
        _ => None,
    }
}

/// `hs` are the handlers of challenge authorization: the nonce request handler handing out
/// `nonce`, the nonce response handler signing with `keys`, the submit request handler
/// checking signatures of `nonce` and expecting `expected`, and the submit response handler.
pub open spec fn challenge_handlers(
    hs: Seq<AuthorizationHandler>,
    nonce: Seq<u8>,
    keys: Seq<Seq<u8>>,
    expected: Option<Seq<char>>,
) -> bool {
    &&& hs.len() == 4
    &&& hs[0] matches AuthorizationHandler::ChallengeNonceRequest(h) && h.spec_nonce() == nonce
    &&& hs[1] matches AuthorizationHandler::ChallengeNonceResponse(h) && signer_keys(h.spec_signers()) == keys
    &&& hs[2] matches AuthorizationHandler::ChallengeSubmitRequest(h) && h.spec_nonce() == nonce && h.spec_expected()
        == expected
    &&& hs[3] is ChallengeSubmitResponse
}

/// Challenge authorization: supplies the handlers that hand out this node's nonce, sign the
/// remote's nonce, check the remote's signatures and take the remote's verdict.
pub struct ChallengeAuthorization {
    signers: Vec<SigningKey>,
    nonce: Vec<u8>,
    verifier: Option<SignatureVerifier>,
    expected_authorization: Option<ConnectionAuthorizationType>,
    local_authorization: Option<ConnectionAuthorizationType>,
}

impl ChallengeAuthorization {
    /// The keys this node can sign with.
    pub closed spec fn spec_signers(&self) -> Seq<SigningKey> {
        self.signers@
    }

    /// The nonce this node hands out.
    pub closed spec fn spec_nonce(&self) -> Seq<u8> {
        self.nonce@
    }

    /// Whether the verifier is still here to be handed to a handler.
    pub closed spec fn spec_has_verifier(&self) -> bool {
        self.verifier is Some
    }

    /// The authorization the remote is expected to use.
    pub closed spec fn spec_expected(&self) -> Option<ConnectionAuthorizationType> {
        self.expected_authorization
    }

    /// The authorization the local node must use.
    pub closed spec fn spec_local(&self) -> Option<ConnectionAuthorizationType> {
        self.local_authorization
    }

    pub fn new(
        signers: Vec<SigningKey>,
        nonce: Vec<u8>,
        verifier: SignatureVerifier,
        expected_authorization: Option<ConnectionAuthorizationType>,
        local_authorization: Option<ConnectionAuthorizationType>,
    ) -> (a: Self)
        ensures
            a.spec_signers() == signers@,
            a.spec_nonce() == nonce@,
            a.spec_has_verifier(),
            a.spec_expected() == expected_authorization,
            a.spec_local() == local_authorization,
    {
        ChallengeAuthorization {
            signers,
            nonce,
            verifier: Some(verifier),
            expected_authorization,
            local_authorization,
        }
    }

    /// The first signer whose public key has hex `public_key`, by index.
    fn find_signer(&self, public_key: &String) -> (r: Option<usize>)
        ensures
            match r {
                Some(i) => i < self.spec_signers().len() && signer_index(signer_keys(self.spec_signers()), public_key@)
                    == Some(i as int),
                None => signer_index(signer_keys(self.spec_signers()), public_key@) is None,
            },
    {
        let ghost keys = signer_keys(self.spec_signers());
        let n = self.signers.len();
        let mut i: usize = 0;
        assert(keys.skip(0) =~= keys);
        while i < n
            invariant
                n == self.signers@.len(),
                keys == signer_keys(self.spec_signers()),
                i <= n,
                signer_index(keys, public_key@) == match signer_index(keys.skip(i as int), public_key@) {
                    Some(j) => Some(j + i),
                    None => None,
                },
            decreases n - i,
        {
            assert(keys.skip(i as int)[0] == keys[i as int]);
            assert(keys.skip(i as int).drop_first() =~= keys.skip(i + 1));
            let matches = match secp256k1_public_key_of(self.signers[i].private_key()) {
                Ok(pk) => to_hex(pk.as_slice()) == *public_key,
                Err(_) => false,
            };
            if matches {
                return Some(i);
            }
            i = i + 1;
        }
        assert(keys.skip(n as int).len() == 0);
        None
    }
}

impl Authorization for ChallengeAuthorization {
    open spec fn supplies_handlers(&self) -> bool {
        keys_to_use(self.spec_local(), signer_keys(self.spec_signers())) is Some && self.spec_has_verifier()
    }

    open spec fn handlers_are(&self, handlers: Seq<AuthorizationHandler>) -> bool {
        match keys_to_use(self.spec_local(), signer_keys(self.spec_signers())) {
            Some(keys) => challenge_handlers(handlers, self.spec_nonce(), keys, expected_key(self.spec_expected())),
            None => false,
        }
    }

    /// The nonce request handler, the nonce response handler (signing with `keys_to_use`),
    /// the submit request handler (with the verifier, which is taken, and the expected key)
    /// and the submit response handler.  An error when the local node must authorize with
    /// a key it has no signer for, or when the verifier was taken already.
    fn get_handlers(&mut self) -> (r: Result<Vec<AuthorizationHandler>, InvalidStateError>)
        ensures
            match keys_to_use(old(self).spec_local(), signer_keys(old(self).spec_signers())) {
                None => r matches Err(e) && e.spec_message() == "Required local authorization is not supported"@
                    && final(self).spec_has_verifier() == old(self).spec_has_verifier(),
                Some(keys) => if old(self).spec_has_verifier() {
                    &&& r matches Ok(hs) && challenge_handlers(
                        hs@,
                        old(self).spec_nonce(),
                        keys,
                        expected_key(old(self).spec_expected()),
                    )
                    &&& !final(self).spec_has_verifier()
                } else {
                    r matches Err(e) && e.spec_message() == "No verifier to add to handler"@
                },
            },
            final(self).spec_signers() == old(self).spec_signers(),
            final(self).spec_nonce() == old(self).spec_nonce(),
            final(self).spec_expected() == old(self).spec_expected(),
            final(self).spec_local() == old(self).spec_local(),
    {
        let ghost keys = signer_keys(self.spec_signers());
        let mut handlers: Vec<AuthorizationHandler> = Vec::new();
        handlers.push(
            AuthorizationHandler::ChallengeNonceRequest(
                AuthChallengeNonceRequestHandler::new(vstd::slice::slice_to_vec(self.nonce.as_slice())),
            ),
        );
        let signers_to_use: Vec<SigningKey> = match &self.local_authorization {
            Some(ConnectionAuthorizationType::Challenge { public_key }) => match self.find_signer(public_key) {
                Some(i) => {
                    let mut v: Vec<SigningKey> = Vec::new();
                    v.push(self.signers[i].clone());
                    assert(signer_keys(v@) =~= seq![keys[i as int]]);
                    v
                },
                None => {
                    return Err(
                        InvalidStateError::with_message("Required local authorization is not supported".to_owned()),
                    );
                },
            },
            _ => {
                let mut v: Vec<SigningKey> = Vec::new();
                let n = self.signers.len();
                for i in 0..n
                    invariant
                        n == self.signers@.len(),
                        keys == signer_keys(self.spec_signers()),
                        signer_keys(v@) == keys.take(i as int),
                {
                    let ghost before = v@;
                    v.push(self.signers[i].clone());
                    assert(signer_keys(v@) =~= signer_keys(before).push(keys[i as int]));
                    assert(keys.take(i + 1) =~= keys.take(i as int).push(keys[i as int]));
                }
                assert(keys.take(n as int) =~= keys);
                v
            },
        };
        handlers.push(AuthorizationHandler::ChallengeNonceResponse(AuthChallengeNonceResponseHandler::new(signers_to_use)));
        let expected_public_key: Option<String> = match &self.expected_authorization {
            Some(ConnectionAuthorizationType::Challenge { public_key }) => Some(public_key.clone()),
            _ => None,
        };
        let verifier = match self.verifier.take() {
            Some(v) => v,
            None => {
                return Err(InvalidStateError::with_message("No verifier to add to handler".to_owned()));
            },
        };
        handlers.push(
            AuthorizationHandler::ChallengeSubmitRequest(
                AuthChallengeSubmitRequestHandler::new(
                    verifier,
                    vstd::slice::slice_to_vec(self.nonce.as_slice()),
                    expected_public_key,
                ),
            ),
        );
        handlers.push(AuthorizationHandler::ChallengeSubmitResponse(AuthChallengeSubmitResponseHandler::new()));
        Ok(handlers)
    }
}

/// With no expected key, a submission whose signatures all check out is accepted with the
/// first key submitted: the identity is that key's hex and the submit response names it.
pub proof fn lemma_no_expected_key_accepts_first_key(
    h: AuthChallengeSubmitRequestHandler,
    message: AuthChallengeSubmitRequest,
    source: ConnectionId,
    before: AuthorizationManagerStateMachine,
    after: AuthorizationManagerStateMachine,
    sent: Seq<(ConnectionId, Seq<u8>)>,
    result: Result<(), DispatchError>,
)
    requires
        h.spec_expected() is None,
        message.submit_requests@.len() > 0,
        signatures_check(h.spec_nonce(), submit_pairs(message.submit_requests@)) == Ok::<bool, ()>(true),
        h.handles(message, source, before, after, sent, result),
    ensures
        challenge_accepted(
            source,
            message.submit_requests@[0].public_key@,
            before.states(),
            after.states(),
            sent,
            result,
        ),
{
    let pairs = submit_pairs(message.submit_requests@);
    assert(pair_keys(pairs)[0] == message.submit_requests@[0].public_key@);
}

/// What accepting with key `key` amounts to when the accepting side takes the submission and
/// the reply goes out: the remote is named by the hex of `key` and the one message sent is the
/// submit response naming `key`.
pub proof fn lemma_challenge_accepted_names_key(
    to: ConnectionId,
    key: Seq<u8>,
    before: Map<Seq<char>, ManagedAuthorizationState>,
    after: Map<Seq<char>, ManagedAuthorizationState>,
    sent: Seq<(ConnectionId, Seq<u8>)>,
    r: Result<(), DispatchError>,
)
    requires
        challenge_accepted(to, key, before, after, sent, r),
        state_for(before, to.0@).accepting_state == AuthorizationAcceptingState::Challenge(
            ChallengeAuthorizationAcceptingState::WaitingForAuthChallengeSubmitRequest,
        ),
        r is Ok,
    ensures
        sent == seq![(to, submit_response_bytes(key))],
        after.contains_key(to.0@),
        after[to.0@].accepting_state matches AuthorizationAcceptingState::Done(
            Identity::Challenge { public_key },
        ) && public_key@ == hex(key),
{
    let identity = choose|identity: String|
        identity@ == hex(key) && #[trigger] carried_out(to, challenge_accept_plan(identity, key, to.0@, before), after, sent, r);
    let plan = challenge_accept_plan(identity, key, to.0@, before);
    assert(plan.0.len() == 1);
    assert(sent =~= seq![(to, submit_response_bytes(key))]);
}

} // verus!
