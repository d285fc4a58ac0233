//! Builders of the authorization handlers and of the dispatcher of authorization messages.
use vstd::prelude::*;

use crate::auth::authorization::trust_v0::{
    AuthorizedHandler, ConnectRequestHandler, ConnectResponseHandler, TrustRequestHandler, TrustV0Authorization,
};
use crate::auth::authorization::Authorization;
use crate::auth::messages::PeerAuthorizationType;
use crate::auth::messages::AuthorizationMessageType;
use crate::dispatch::{find_handler, Dispatcher};
use crate::error::InvalidStateError;

use super::v1::{AuthCompleteHandler, AuthProtocolRequestHandler, AuthProtocolResponseHandler};
use super::{AuthorizationErrorHandler, AuthorizationHandler, AuthorizationMessageHandler, ConnectionAuthorizationType};

verus! {

/// The authorization types offered to a remote expected to authorize with `expected`: only
/// that one when it is set, so the remote cannot pick another; otherwise every type.
pub open spec fn offered_types(expected: Option<ConnectionAuthorizationType>) -> Seq<PeerAuthorizationType> {
    match expected {
        Some(ConnectionAuthorizationType::Trust { .. }) => seq![PeerAuthorizationType::Trust],
        Some(ConnectionAuthorizationType::Challenge { .. }) => seq![PeerAuthorizationType::Challenge],
        None => seq![PeerAuthorizationType::Trust, PeerAuthorizationType::Challenge],
    }
}

/// Builds a protocol request handler.
pub struct AuthProtocolRequestHandlerBuilder {
    expected_authorization: Option<ConnectionAuthorizationType>,
    local_authorization: Option<ConnectionAuthorizationType>,
}

impl AuthProtocolRequestHandlerBuilder {
    /// The authorization the remote is expected to use.
    pub closed spec fn spec_expected(&self) -> Option<ConnectionAuthorizationType> {
        self.expected_authorization
    }

    /// The authorization the local node uses.
    pub closed spec fn spec_local(&self) -> Option<ConnectionAuthorizationType> {
        self.local_authorization
    }

    /// A builder with nothing set.
    pub fn new() -> (b: Self)
        ensures
            b.spec_expected() is None,
            b.spec_local() is None,
    {
        AuthProtocolRequestHandlerBuilder { expected_authorization: None, local_authorization: None }
    }

    /// Sets the authorization the remote is expected to use.
    pub fn with_expected_authorization(self, expected_authorization: Option<ConnectionAuthorizationType>) -> (b: Self)
        ensures
            b.spec_expected() == expected_authorization,
            b.spec_local() == self.spec_local(),
    {
        let mut b = self;
        b.expected_authorization = expected_authorization;
        b
    }

    /// Sets the authorization the local node uses.
    pub fn with_local_authorization(self, local_authorization: Option<ConnectionAuthorizationType>) -> (b: Self)
        ensures
            b.spec_local() == local_authorization,
            b.spec_expected() == self.spec_expected(),
    {
        let mut b = self;
        b.local_authorization = local_authorization;
        b
    }

    /// The handler, offering the types `offered_types` gives for the expected authorization.
    pub fn build(self) -> (r: Result<AuthProtocolRequestHandler, InvalidStateError>)
        ensures
            r matches Ok(h) && h.spec_accepted() == offered_types(self.spec_expected()),
    {
        let mut accepted: Vec<PeerAuthorizationType> = Vec::new();
        match &self.expected_authorization {
            Some(ConnectionAuthorizationType::Trust { .. }) => {
                accepted.push(PeerAuthorizationType::Trust);
            },
            Some(ConnectionAuthorizationType::Challenge { .. }) => {
                accepted.push(PeerAuthorizationType::Challenge);
            },
            None => {
                accepted.push(PeerAuthorizationType::Trust);
                accepted.push(PeerAuthorizationType::Challenge);
            },
        }
        assert(accepted@ =~= offered_types(self.spec_expected()));
        Ok(AuthProtocolRequestHandler::new(accepted))
    }
}

/// Builds a protocol response handler.
pub struct AuthProtocolResponseHandlerBuilder {
    identity: Option<String>,
    required_local_auth: Option<ConnectionAuthorizationType>,
}

impl AuthProtocolResponseHandlerBuilder {
    /// The local node id, if set.
    pub closed spec fn spec_identity(&self) -> Option<String> {
        self.identity
    }

    /// The authorization the local node must use.
    pub closed spec fn spec_required_local_auth(&self) -> Option<ConnectionAuthorizationType> {
        self.required_local_auth
    }

    /// A builder with nothing set.
    pub fn new() -> (b: Self)
        ensures
            b.spec_identity() is None,
            b.spec_required_local_auth() is None,
    {
        AuthProtocolResponseHandlerBuilder { identity: None, required_local_auth: None }
    }

    /// Sets the local node id.
    pub fn with_identity(self, identity: &str) -> (b: Self)
        ensures
            b.spec_identity() matches Some(i) && i@ == identity@,
            b.spec_required_local_auth() == self.spec_required_local_auth(),
    {
        let mut b = self;
        b.identity = Some(identity.to_owned());
        b
    }

    /// Sets the authorization the local node must use.
    pub fn with_required_local_auth(self, required_local_auth: Option<ConnectionAuthorizationType>) -> (b: Self)
        ensures
            b.spec_required_local_auth() == required_local_auth,
            b.spec_identity() == self.spec_identity(),
    {
        let mut b = self;
        b.required_local_auth = required_local_auth;
        b
    }

    /// The handler; an error when the local node id is not set.
    pub fn build(self) -> (r: Result<AuthProtocolResponseHandler, InvalidStateError>)
        ensures
            r is Err <==> self.spec_identity() is None,
            r matches Ok(h) ==> Some(h.spec_identity()) == self.spec_identity() && h.spec_required_local_auth()
                == self.spec_required_local_auth(),
            r matches Err(e) ==> e.spec_message() == "Missing required `identity` field"@,
    {
        match self.identity {
            Some(identity) => Ok(AuthProtocolResponseHandler::new(identity, self.required_local_auth)),
            None => Err(InvalidStateError::with_message("Missing required `identity` field".to_owned())),
        }
    }
}

/// Builds the dispatcher of authorization network messages for the local node.
///
/// The authorization messages are handled by: the protocol request handler (offering the
/// types for the expected authorization), the protocol response handler (for the local node
/// id and local authorization), the completion handler, the handlers of each added kind of
/// authorization, in order, and the authorization error handler.
pub struct AuthorizationDispatchBuilder {
    identity: Option<String>,
    expected_authorization: Option<ConnectionAuthorizationType>,
    local_authorization: Option<ConnectionAuthorizationType>,
    authorization_handlers: Vec<AuthorizationHandler>,
    error: Option<InvalidStateError>,
}

/// What `build` checks and sets up, given what the builder holds.
impl AuthorizationDispatchBuilder {
    /// The local node id, if set.
    pub closed spec fn spec_identity(&self) -> Option<String> {
        self.identity
    }

    /// The authorization the remote is expected to use.
    pub closed spec fn spec_expected(&self) -> Option<ConnectionAuthorizationType> {
        self.expected_authorization
    }

    /// The authorization the local node uses.
    pub closed spec fn spec_local(&self) -> Option<ConnectionAuthorizationType> {
        self.local_authorization
    }

    /// The handlers of the added kinds of authorization, in order.
    pub closed spec fn spec_added_handlers(&self) -> Seq<AuthorizationHandler> {
        self.authorization_handlers@
    }

    /// Whether an added kind of authorization failed to supply its handlers.
    pub closed spec fn spec_failed(&self) -> bool {
        self.error is Some
    }

    /// A builder with nothing set.
    pub fn new() -> (b: Self)
        ensures
            b.spec_identity() is None,
            b.spec_expected() is None,
            b.spec_local() is None,
            b.spec_added_handlers() == Seq::<AuthorizationHandler>::empty(),
            !b.spec_failed(),
    {
        AuthorizationDispatchBuilder {
            identity: None,
            expected_authorization: None,
            local_authorization: None,
            authorization_handlers: Vec::new(),
            error: None,
        }
    }

    /// Sets the local node id.
    pub fn with_identity(self, identity: &str) -> (b: Self)
        ensures
            b.spec_identity() matches Some(i) && i@ == identity@,
            b.spec_expected() == self.spec_expected(),
            b.spec_local() == self.spec_local(),
            b.spec_added_handlers() == self.spec_added_handlers(),
            b.spec_failed() == self.spec_failed(),
    {
        let mut b = self;
        b.identity = Some(identity.to_owned());
        b
    }

    /// Sets the authorization the remote is expected to use.
    pub fn with_expected_authorization(self, expected_authorization: Option<ConnectionAuthorizationType>) -> (b: Self)
        ensures
            b.spec_expected() == expected_authorization,
            b.spec_identity() == self.spec_identity(),
            b.spec_local() == self.spec_local(),
            b.spec_added_handlers() == self.spec_added_handlers(),
            b.spec_failed() == self.spec_failed(),
    {
        let mut b = self;
        b.expected_authorization = expected_authorization;
        b
    }

    /// Sets the authorization the local node uses.
    pub fn with_local_authorization(self, local_authorization: Option<ConnectionAuthorizationType>) -> (b: Self)
        ensures
            b.spec_local() == local_authorization,
            b.spec_identity() == self.spec_identity(),
            b.spec_expected() == self.spec_expected(),
            b.spec_added_handlers() == self.spec_added_handlers(),
            b.spec_failed() == self.spec_failed(),
    {
        let mut b = self;
        b.local_authorization = local_authorization;
        b
    }

    /// Adds a kind of authorization: its handlers are set after those added before.  When it
    /// cannot supply them, nothing is added and the builder fails.
    pub fn add_authorization<A: Authorization>(self, authorization: A) -> (b: Self)
        ensures
            b.spec_identity() == self.spec_identity(),
            b.spec_expected() == self.spec_expected(),
            b.spec_local() == self.spec_local(),
            b.spec_added_handlers().len() >= self.spec_added_handlers().len(),
            b.spec_added_handlers().take(self.spec_added_handlers().len() as int) == self.spec_added_handlers(),
            authorization.supplies_handlers() ==> b.spec_failed() == self.spec_failed() && authorization.handlers_are(
                b.spec_added_handlers().skip(self.spec_added_handlers().len() as int),
            ),
            !authorization.supplies_handlers() ==> b.spec_failed() && b.spec_added_handlers()
                == self.spec_added_handlers(),
    {
        let mut b = self;
        let mut authorization = authorization;
        match authorization.get_handlers() {
            Ok(mut handlers) => {
                let ghost before = b.authorization_handlers@;
                let ghost added = handlers@;
                b.authorization_handlers.append(&mut handlers);
                assert(b.authorization_handlers@.take(before.len() as int) =~= before);
                assert(b.authorization_handlers@.skip(before.len() as int) =~= added);
            },
            Err(e) => {
                if b.error.is_none() {
                    b.error = Some(e);
                }
            },
        }
        b
    }

    /// The dispatcher of authorization network messages.
    ///
    /// An error when the local node id is not set, or an added kind of authorization failed
    /// to supply its handlers.
    pub fn build(self) -> (r: Result<Dispatcher<AuthorizationMessageHandler>, InvalidStateError>)
        ensures
            r is Ok <==> (self.spec_identity() is Some && !self.spec_failed()),
            self.spec_identity() is None ==> (r matches Err(e) && e.spec_message() == "Missing required `identity` field"@),
            r matches Ok(d) ==> {
                &&& d.handlers().len() == 1
                &&& dispatch_handlers_of(d.handlers()[0].spec_auth_dispatcher().handlers(), self)
            },
    {
        let identity = match self.identity {
            Some(identity) => identity,
            None => {
                return Err(InvalidStateError::with_message("Missing required `identity` field".to_owned()));
            },
        };
        if let Some(e) = self.error {
            return Err(e);
        }
        let mut auth_dispatcher: Dispatcher<AuthorizationHandler> = Dispatcher::new();
        let request_handler = match AuthProtocolRequestHandlerBuilder::new()
            .with_expected_authorization(self.expected_authorization)
            .with_local_authorization(self.local_authorization.clone())
            .build() {
            Ok(h) => h,
            Err(e) => {
                return Err(e);
            },
        };
        auth_dispatcher.set_handler(AuthorizationHandler::ProtocolRequest(request_handler));
        let response_handler = match AuthProtocolResponseHandlerBuilder::new()
            .with_identity(identity.as_str())
            .with_required_local_auth(self.local_authorization)
            .build() {
            Ok(h) => h,
            Err(e) => {
                return Err(e);
            },
        };
        auth_dispatcher.set_handler(AuthorizationHandler::ProtocolResponse(response_handler));
        auth_dispatcher.set_handler(AuthorizationHandler::Complete(AuthCompleteHandler::new()));
        let mut trust_v0 = TrustV0Authorization::new(identity);
        let v0_handlers = match trust_v0.get_handlers() {
            Ok(hs) => hs,
            Err(e) => {
                return Err(e);
            },
        };
        let ghost base = auth_dispatcher.handlers();
        let ghost v0 = v0_handlers@;
        let mut rest_v0 = v0_handlers;
        let ghost mut j: int = 0;
        assert(v0.take(0) =~= Seq::<AuthorizationHandler>::empty());
        assert(base + v0.take(0) =~= base);
        assert(v0.skip(0) =~= v0);
        while rest_v0.len() > 0
            invariant
                0 <= j <= v0.len(),
                auth_dispatcher.handlers() == base + v0.take(j),
                rest_v0@ == v0.skip(j),
            decreases rest_v0.len(),
        {
            let h = rest_v0.remove(0);
            auth_dispatcher.set_handler(h);
            proof {
                assert(v0.take(j + 1) =~= v0.take(j).push(h));
                assert(auth_dispatcher.handlers() =~= base + v0.take(j + 1));
                assert(rest_v0@ =~= v0.skip(j + 1));
                j = j + 1;
            }
        }
        assert(v0.take(j) =~= v0);
        let ghost fixed = auth_dispatcher.handlers();
        let ghost added = self.spec_added_handlers();
        let mut rest = self.authorization_handlers;
        let ghost mut k: int = 0;
        assert(added.take(0) =~= Seq::<AuthorizationHandler>::empty());
        assert(fixed + added.take(0) =~= fixed);
        assert(added.skip(0) =~= added);
        while rest.len() > 0
            invariant
                0 <= k <= added.len(),
                auth_dispatcher.handlers() == fixed + added.take(k),
                rest@ == added.skip(k),
            decreases rest.len(),
        {
            let h = rest.remove(0);
            auth_dispatcher.set_handler(h);
            proof {
                assert(added.take(k + 1) =~= added.take(k).push(h));
                assert(auth_dispatcher.handlers() =~= fixed + added.take(k + 1));
                assert(rest@ =~= added.skip(k + 1));
                k = k + 1;
            }
        }
        assert(added.take(k) =~= added);
        auth_dispatcher.set_handler(AuthorizationHandler::Error(AuthorizationErrorHandler::new()));
        let ghost hs = auth_dispatcher.handlers();
        assert(hs.len() == added.len() + 8);
        assert(hs[0] matches AuthorizationHandler::ProtocolRequest(h) && h.spec_accepted() == offered_types(self.spec_expected()));
        assert(hs[1] matches AuthorizationHandler::ProtocolResponse(h) && self.spec_identity() matches Some(i) && h.spec_identity()@ == i@);
        assert(hs[2] == AuthorizationHandler::Complete(AuthCompleteHandler));
        assert(hs.subrange(3, 7) =~= trust_v0_handlers(self.spec_identity()->0));
        assert(hs.subrange(7, 7 + added.len() as int) =~= added);
        assert(hs[7 + added.len() as int] == AuthorizationHandler::Error(AuthorizationErrorHandler));
        assert(dispatch_handlers_of(hs, self));
        let mut network_dispatcher: Dispatcher<AuthorizationMessageHandler> = Dispatcher::new();
        network_dispatcher.set_handler(AuthorizationMessageHandler::new(auth_dispatcher));
        Ok(network_dispatcher)
    }
}

/// The handlers of the version 0 trust handshake for the local node `identity`: connect
/// request, connect response, trust request and authorized.
pub open spec fn trust_v0_handlers(identity: String) -> Seq<AuthorizationHandler> {
    seq![
        AuthorizationHandler::ConnectRequest(ConnectRequestHandler),
        AuthorizationHandler::ConnectResponse(ConnectResponseHandler::new_spec(identity)),
        AuthorizationHandler::TrustV0Request(TrustRequestHandler),
        AuthorizationHandler::Authorized(AuthorizedHandler),
    ]
}

/// `handlers` are the authorization handlers `build` sets up for `builder`: the protocol
/// request, protocol response and completion handlers, the version 0 trust handlers for the
/// local node id, the handlers of the added kinds of authorization in order (a later handler
/// for a type takes over from an earlier one), and the authorization error handler.
pub open spec fn dispatch_handlers_of(handlers: Seq<AuthorizationHandler>, builder: AuthorizationDispatchBuilder) -> bool {
    let added = builder.spec_added_handlers();
    &&& handlers.len() == added.len() + 8
    &&& handlers[0] matches AuthorizationHandler::ProtocolRequest(h) && h.spec_accepted() == offered_types(
        builder.spec_expected(),
    )
    &&& handlers[1] matches AuthorizationHandler::ProtocolResponse(h) && builder.spec_identity() matches Some(i)
        && h.spec_identity()@ == i@ && h.spec_required_local_auth() == builder.spec_local()
    &&& handlers[2] == AuthorizationHandler::Complete(AuthCompleteHandler)
    &&& builder.spec_identity() matches Some(i) && handlers.subrange(3, 7) == trust_v0_handlers(i)
    &&& handlers.subrange(7, 7 + added.len() as int) == added
    &&& handlers[7 + added.len() as int] == AuthorizationHandler::Error(AuthorizationErrorHandler)
}

/// A dispatcher built with no kind of authorization added hands a connect request to the
/// version 0 connect request handler.
pub proof fn lemma_built_dispatcher_handles_connect_request(
    handlers: Seq<AuthorizationHandler>,
    builder: AuthorizationDispatchBuilder,
)
    requires
        dispatch_handlers_of(handlers, builder),
        builder.spec_added_handlers().len() == 0,
    ensures
        find_handler(handlers, AuthorizationMessageType::ConnectRequest) == Some(
            AuthorizationHandler::ConnectRequest(ConnectRequestHandler),
        ),
{
    let v0 = handlers.subrange(3, 7);
    assert(v0[0] == handlers[3]);
    assert(handlers.drop_last().drop_last().drop_last().drop_last() =~= handlers.take(4));
    assert(handlers.take(4).last() == handlers[3]);
    reveal_with_fuel(find_handler, 5);
}

} // verus!
