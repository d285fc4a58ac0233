//! The configuration of a connection manager.
use vstd::prelude::*;

use super::error::ConnectionManagerError;

verus! {

/// The heartbeat interval, in seconds, unless set otherwise.
pub const DEFAULT_HEARTBEAT_INTERVAL: u64 = 10;

/// The longest delay between reconnection attempts, in seconds, unless set otherwise.
pub const DEFAULT_MAXIMUM_RETRY_FREQUENCY: u64 = 300;

/// Collects what a connection manager needs: an authorizer (`A`), a connection matrix
/// life cycle (`L`) and sender (`S`), a transport (`T`), and the heartbeat interval and
/// maximum retry frequency.
pub struct ConnectionManagerBuilder<A, L, S, T> {
    authorizer: Option<A>,
    life_cycle: Option<L>,
    matrix_sender: Option<S>,
    transport: Option<T>,
    heartbeat_interval: u64,
    maximum_retry_frequency: u64,
}

/// What a connection manager is started with.
pub struct ConnectionManagerParts<A, L, S, T> {
    pub authorizer: A,
    pub life_cycle: L,
    pub matrix_sender: S,
    pub transport: T,
    pub heartbeat_interval: u64,
    pub maximum_retry_frequency: u64,
}

impl<A, L, S, T> ConnectionManagerBuilder<A, L, S, T> {
    /// Everything set so far: authorizer, life cycle, matrix sender, transport, heartbeat
    /// interval and maximum retry frequency.
    pub closed spec fn settings(&self) -> (Option<A>, Option<L>, Option<S>, Option<T>, u64, u64) {
        (
            self.authorizer,
            self.life_cycle,
            self.matrix_sender,
            self.transport,
            self.heartbeat_interval,
            self.maximum_retry_frequency,
        )
    }

    pub open spec fn spec_authorizer(&self) -> Option<A> {
        self.settings().0
    }

    pub open spec fn spec_life_cycle(&self) -> Option<L> {
        self.settings().1
    }

    pub open spec fn spec_matrix_sender(&self) -> Option<S> {
        self.settings().2
    }

    pub open spec fn spec_transport(&self) -> Option<T> {
        self.settings().3
    }

    pub open spec fn spec_heartbeat_interval(&self) -> u64 {
        self.settings().4
    }

    pub open spec fn spec_maximum_retry_frequency(&self) -> u64 {
        self.settings().5
    }

    /// A builder with nothing set and the default interval and retry frequency.
    pub fn new() -> (b: Self)
        ensures
            b.spec_authorizer() is None,
            b.spec_life_cycle() is None,
            b.spec_matrix_sender() is None,
            b.spec_transport() is None,
            b.spec_heartbeat_interval() == DEFAULT_HEARTBEAT_INTERVAL,
            b.spec_maximum_retry_frequency() == DEFAULT_MAXIMUM_RETRY_FREQUENCY,
    {
        ConnectionManagerBuilder {
            authorizer: None,
            life_cycle: None,
            matrix_sender: None,
            transport: None,
            heartbeat_interval: DEFAULT_HEARTBEAT_INTERVAL,
            maximum_retry_frequency: DEFAULT_MAXIMUM_RETRY_FREQUENCY,
        }
    }

    /// Sets the authorizer every connection goes through.
    pub fn with_authorizer(self, authorizer: A) -> (b: Self)
        ensures
            b.settings() == (Some(authorizer), self.settings().1, self.settings().2, self.settings().3, self.settings().4, self.settings().5),
    {
        let mut b = self;
        b.authorizer = Some(authorizer);
        b
    }

    /// Sets the connection matrix life cycle connections are added to and removed from.
    pub fn with_matrix_life_cycle(self, life_cycle: L) -> (b: Self)
        ensures
            b.settings() == (self.settings().0, Some(life_cycle), self.settings().2, self.settings().3, self.settings().4, self.settings().5),
    {
        let mut b = self;
        b.life_cycle = Some(life_cycle);
        b
    }

    /// Sets the connection matrix sender heartbeats are sent with.
    pub fn with_matrix_sender(self, matrix_sender: S) -> (b: Self)
        ensures
            b.settings() == (self.settings().0, self.settings().1, Some(matrix_sender), self.settings().3, self.settings().4, self.settings().5),
    {
        let mut b = self;
        b.matrix_sender = Some(matrix_sender);
        b
    }

    /// Sets the transport outbound connections are opened with.
    pub fn with_transport(self, transport: T) -> (b: Self)
        ensures
            b.settings() == (self.settings().0, self.settings().1, self.settings().2, Some(transport), self.settings().4, self.settings().5),
    {
        let mut b = self;
        b.transport = Some(transport);
        b
    }

    /// Sets the heartbeat interval, in seconds.
    pub fn with_heartbeat_interval(self, interval: u64) -> (b: Self)
        ensures
            b.settings() == (self.settings().0, self.settings().1, self.settings().2, self.settings().3, interval, self.settings().5),
    {
        let mut b = self;
        b.heartbeat_interval = interval;
        b
    }

    /// Sets the longest delay between reconnection attempts, in seconds.
    pub fn with_maximum_retry_frequency(self, frequency: u64) -> (b: Self)
        ensures
            b.settings() == (self.settings().0, self.settings().1, self.settings().2, self.settings().3, self.settings().4, frequency),
    {
        let mut b = self;
        b.maximum_retry_frequency = frequency;
        b
    }

    /// What the connection manager is started with; an error naming the first missing part,
    /// checked in the order authorizer, transport, matrix sender, matrix life cycle.
    pub fn into_parts(self) -> (r: Result<ConnectionManagerParts<A, L, S, T>, ConnectionManagerError>)
        ensures
            self.spec_authorizer() is None ==> (r matches Err(ConnectionManagerError::StartUpError(s)) && s@
                == "No authorizer provided"@),
            self.spec_authorizer() is Some && self.spec_transport() is None ==> (r matches Err(
                ConnectionManagerError::StartUpError(s),
            ) && s@ == "No transport provided"@),
            self.spec_authorizer() is Some && self.spec_transport() is Some && self.spec_matrix_sender() is None
                ==> (r matches Err(ConnectionManagerError::StartUpError(s)) && s@ == "No matrix sender provided"@),
            self.spec_authorizer() is Some && self.spec_transport() is Some && self.spec_matrix_sender() is Some
                && self.spec_life_cycle() is None ==> (r matches Err(ConnectionManagerError::StartUpError(s)) && s@
                == "No matrix life cycle provided"@),
            r matches Ok(p) ==> Some(p.authorizer) == self.spec_authorizer() && Some(p.life_cycle)
                == self.spec_life_cycle() && Some(p.matrix_sender) == self.spec_matrix_sender() && Some(p.transport)
                == self.spec_transport() && p.heartbeat_interval == self.spec_heartbeat_interval()
                && p.maximum_retry_frequency == self.spec_maximum_retry_frequency(),
            r is Ok <==> (self.spec_authorizer() is Some && self.spec_transport() is Some
                && self.spec_matrix_sender() is Some && self.spec_life_cycle() is Some),
    {
        let authorizer = match self.authorizer {
            Some(a) => a,
            None => {
                return Err(ConnectionManagerError::StartUpError("No authorizer provided".to_owned()));
            },
        };
        let transport = match self.transport {
            Some(t) => t,
            None => {
                return Err(ConnectionManagerError::StartUpError("No transport provided".to_owned()));
            },
        };
        let matrix_sender = match self.matrix_sender {
            Some(s) => s,
            None => {
                return Err(ConnectionManagerError::StartUpError("No matrix sender provided".to_owned()));
            },
        };
        let life_cycle = match self.life_cycle {
            Some(l) => l,
            None => {
                return Err(ConnectionManagerError::StartUpError("No matrix life cycle provided".to_owned()));
            },
        };
        Ok(
            ConnectionManagerParts {
                authorizer,
                life_cycle,
                matrix_sender,
                transport,
                heartbeat_interval: self.heartbeat_interval,
                maximum_retry_frequency: self.maximum_retry_frequency,
            },
        )
    }
}

} // verus!
