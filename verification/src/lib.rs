//! Splinter's peer-to-peer network layer: connection authorization, message dispatch,
//! connection management and peer management, with their contracts proved by Verus.
use vstd::prelude::*;

pub mod auth;
pub mod auth2;
pub mod collections;
pub mod connection_manager;
pub mod dispatch;
pub mod peer_manager;
pub mod error;
pub mod handlers;
pub mod public_key;
pub mod signing;
pub mod wire;

verus! {

} // verus!
