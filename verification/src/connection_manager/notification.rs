//! What the connection manager tells its subscribers.
use vstd::prelude::*;

use super::error::ConnectionManagerError;

verus! {

/// A connection event, sent to every subscriber.
#[derive(Debug, PartialEq, Clone)]
pub enum ConnectionManagerNotification {
    Connected { endpoint: String, connection_id: String, identity: String },
    FatalConnectionError { endpoint: String, error: ConnectionManagerError },
    InboundConnection { endpoint: String, connection_id: String, identity: String },
    Disconnected { endpoint: String, identity: String },
    NonFatalConnectionError { endpoint: String, attempts: u64, identity: String },
}

} // verus!
