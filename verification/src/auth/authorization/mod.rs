//! The kinds of authorization a node can offer, each with the handlers of its messages.
use vstd::prelude::*;

use crate::auth::handlers::AuthorizationHandler;
use crate::error::InvalidStateError;

pub mod challenge;
pub mod trust;
pub mod trust_v0;

verus! {

/// A kind of authorization: it supplies the handlers of its messages.
pub trait Authorization {
    /// Whether this kind of authorization can supply its handlers now.
    spec fn supplies_handlers(&self) -> bool;

    /// Whether `handlers` are the handlers of this kind of authorization, in order.
    spec fn handlers_are(&self, handlers: Seq<AuthorizationHandler>) -> bool;

    /// The message handlers of this kind of authorization; an error when it cannot supply
    /// them.
    fn get_handlers(&mut self) -> (r: Result<Vec<AuthorizationHandler>, InvalidStateError>)
        ensures
            r is Ok <==> old(self).supplies_handlers(),
            r matches Ok(hs) ==> old(self).handlers_are(hs@),
    ;
}

} // verus!
