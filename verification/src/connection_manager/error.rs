//! Errors of the connection manager and of authorizers.
use vstd::prelude::*;
use vstd::string::StringExecFns;

verus! {

/// The kind of an I/O error, from std.
#[verifier::external_type_specification]
#[verifier::external_body]
pub struct ExErrorKind(std::io::ErrorKind);

/// Why the connection manager could not do what was asked.
#[derive(Clone, Debug, PartialEq)]
pub enum ConnectionManagerError {
    StartUpError(String),
    HeartbeatError(String),
    SendMessageError(String),
    SendTimeoutError(String),
    ConnectionCreationError { context: String, error_kind: Option<std::io::ErrorKind> },
    ConnectionRemovalError(String),
    ConnectionReconnectError(String),
    Unauthorized(String),
    StatePoisoned,
}

/// How an error reads.
pub open spec fn connection_manager_error_text(e: ConnectionManagerError) -> Seq<char> {
    match e {
        ConnectionManagerError::StartUpError(s) => s@,
        ConnectionManagerError::HeartbeatError(s) => s@,
        ConnectionManagerError::SendMessageError(s) => s@,
        ConnectionManagerError::SendTimeoutError(s) => s@,
        ConnectionManagerError::ConnectionCreationError { context, .. } => context@,
        ConnectionManagerError::ConnectionRemovalError(s) => s@,
        ConnectionManagerError::ConnectionReconnectError(s) => s@,
        ConnectionManagerError::Unauthorized(id) => "Connection "@ + id@ + " failed authorization"@,
        ConnectionManagerError::StatePoisoned => "Connection state has been poisoned"@,
    }
}

impl ConnectionManagerError {
    /// A failure to create a connection, described by `context`.
    pub fn connection_creation_error(context: &str) -> (e: Self)
        ensures
            e matches ConnectionManagerError::ConnectionCreationError { context: c, error_kind: None } && c@
                == context@,
    {
        ConnectionManagerError::ConnectionCreationError { context: context.to_owned(), error_kind: None }
    }

    /// A failure to create a connection, described by `context`, caused by an I/O error of kind
    /// `err`.
    pub fn connection_creation_error_with_io(context: &str, err: std::io::ErrorKind) -> (e: Self)
        ensures
            e matches ConnectionManagerError::ConnectionCreationError { context: c, error_kind: Some(k) } && c@
                == context@ && k == err,
    {
        ConnectionManagerError::ConnectionCreationError { context: context.to_owned(), error_kind: Some(err) }
    }

    /// How this error reads.
    pub fn message(&self) -> (s: String)
        ensures
            s@ == connection_manager_error_text(*self),
    {
        match self {
            ConnectionManagerError::StartUpError(s) => s.clone(),
            ConnectionManagerError::HeartbeatError(s) => s.clone(),
            ConnectionManagerError::SendMessageError(s) => s.clone(),
            ConnectionManagerError::SendTimeoutError(s) => s.clone(),
            ConnectionManagerError::ConnectionCreationError { context, .. } => context.clone(),
            ConnectionManagerError::ConnectionRemovalError(s) => s.clone(),
            ConnectionManagerError::ConnectionReconnectError(s) => s.clone(),
            ConnectionManagerError::Unauthorized(id) => {
                let mut s = "Connection ".to_owned();
                s.append(id.as_str());
                s.append(" failed authorization");
                s
            },
            ConnectionManagerError::StatePoisoned => "Connection state has been poisoned".to_owned(),
        }
    }
}

/// Why an authorizer could not take a connection.
#[derive(Debug)]
pub struct AuthorizerError(pub String);

} // verus!
