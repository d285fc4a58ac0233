use splinter::connection_manager::authorizers::{Authorizers, InprocAuthorizer};
use splinter::connection_manager::{AuthorizationResult, Authorizer, AuthorizerError};

struct MockConnection {
    remote_endpoint: String,
}

impl MockConnection {
    fn new(remote_endpoint: &str) -> Self {
        Self {
            remote_endpoint: remote_endpoint.to_string(),
        }
    }

    fn remote_endpoint(&self) -> String {
        self.remote_endpoint.clone()
    }
}

struct NoopAuthorizer {
    authorized_id: String,
}

impl NoopAuthorizer {
    fn new(id: &str) -> Self {
        Self {
            authorized_id: id.to_string(),
        }
    }
}

impl<C> Authorizer<C> for NoopAuthorizer {
    fn authorize_connection(
        &self,
        connection_id: String,
        _remote_endpoint: &str,
        connection: C,
    ) -> Result<AuthorizationResult<C>, AuthorizerError> {
        Ok(AuthorizationResult::Authorized {
            connection_id,
            connection,
            identity: self.authorized_id.clone(),
        })
    }
}

fn authorize<A: Authorizer<MockConnection>>(
    authorizer: &A,
    connection: MockConnection,
) -> AuthorizationResult<MockConnection> {
    let endpoint = connection.remote_endpoint();
    authorizer
        .authorize_connection("abcd-1234".into(), &endpoint, connection)
        .unwrap()
}

// Test that the inproc authorizer will return a valid identity for the configured value.
#[test]
fn inproc_configured_authorization() {
    let authorizer = InprocAuthorizer::new(vec![(
        "inproc://test-conn".to_string(),
        "test-ident1".to_string(),
    )]);

    let result = authorize(&authorizer, MockConnection::new("inproc://test-conn"));

    match result {
        AuthorizationResult::Authorized { identity, .. } => {
            assert_eq!("test-ident1", &identity)
        }
        AuthorizationResult::Unauthorized { .. } => panic!("should have been authorized"),
    }
}

// Test that the inproc authorizer will return a Unauthorized result for a unconfigured value.
#[test]
fn inproc_unconfigured_authorization() {
    let authorizer = InprocAuthorizer::new(vec![(
        "inproc://test-conn".to_string(),
        "test-ident1".to_string(),
    )]);

    let result = authorize(&authorizer, MockConnection::new("inproc://bad-inproc-conn"));

    match result {
        AuthorizationResult::Authorized { .. } => panic!("should not have been authorized"),
        AuthorizationResult::Unauthorized { .. } => (),
    }
}

// Test that the Authorizers struct will correctly route the connection to the appropriate
// authorizer, and that a connection matching no prefix but the default one falls through to it.
#[test]
fn authorizers_configured_authorizations() {
    let inproc_authorizer = InprocAuthorizer::new(vec![(
        "inproc://test-conn".to_string(),
        "test-ident1".to_string(),
    )]);

    let future_inproc_authorizer = NoopAuthorizer::new("test-ident2");

    let default_authorizer = InprocAuthorizer::new(vec![(
        "protocol://other-conn".to_string(),
        "test-ident3".to_string(),
    )]);

    let mut authorizers: Authorizers<Box<dyn Authorizer<MockConnection>>> = Authorizers::new();
    authorizers.add_authorizer("inproc2", Box::new(future_inproc_authorizer));
    authorizers.add_authorizer("inproc", Box::new(inproc_authorizer));
    authorizers.add_authorizer("", Box::new(default_authorizer));

    let result = authorize(&authorizers, MockConnection::new("inproc://test-conn"));
    match result {
        AuthorizationResult::Authorized { identity, .. } => {
            assert_eq!("test-ident1", &identity)
        }
        AuthorizationResult::Unauthorized { .. } => panic!("should have been authorized"),
    }

    let result = authorize(&authorizers, MockConnection::new("inproc2://test-conn"));
    match result {
        AuthorizationResult::Authorized { identity, .. } => {
            assert_eq!("test-ident2", &identity)
        }
        AuthorizationResult::Unauthorized { .. } => panic!("should have been authorized"),
    }

    let result = authorize(&authorizers, MockConnection::new("protocol://other-conn"));
    match result {
        AuthorizationResult::Authorized { identity, .. } => {
            assert_eq!("test-ident3", &identity)
        }
        AuthorizationResult::Unauthorized { .. } => panic!("should have been authorized"),
    }

    let result = authorize(&authorizers, MockConnection::new("tcp://some-tcp:4444"));
    match result {
        AuthorizationResult::Authorized { .. } => panic!("should not have been authorized"),
        AuthorizationResult::Unauthorized { .. } => (),
    }
}

// An endpoint that matches no prefix gets an error naming the connection and the endpoint.
#[test]
fn authorizers_without_match() {
    let mut authorizers: Authorizers<InprocAuthorizer> = Authorizers::new();
    authorizers.add_authorizer(
        "inproc",
        InprocAuthorizer::new(vec![("inproc://a".to_string(), "a".to_string())]),
    );
    let result = authorizers.authorize_connection("abcd-1234".into(), "tcp://x:1", ());
    match result {
        Err(AuthorizerError(msg)) => {
            assert_eq!("no authorizer found for abcd-1234 (tcp://x:1)", msg)
        }
        Ok(_) => panic!("should not have found an authorizer"),
    }
}

// A later identity for the same endpoint replaces an earlier one.
#[test]
fn inproc_later_identity_wins() {
    let authorizer = InprocAuthorizer::new(vec![
        ("inproc://a".to_string(), "first".to_string()),
        ("inproc://a".to_string(), "second".to_string()),
    ]);
    match authorizer.authorize_connection("id".into(), "inproc://a", ()).unwrap() {
        AuthorizationResult::Authorized { identity, connection_id, .. } => {
            assert_eq!("second", identity);
            assert_eq!("id", connection_id);
        }
        AuthorizationResult::Unauthorized { .. } => panic!("should have been authorized"),
    }
}
