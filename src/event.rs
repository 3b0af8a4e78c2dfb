//! Events raised for whoever watches connections and messages.
use vstd::prelude::*;

verus! {

/// A change in the set of connections.
#[derive(Clone, Copy, Debug, PartialEq, Eq, Structural)]
pub enum ConnectionEvent {
    Connected(u16),
    Disconnected(u16),
}

/// A message received from a peer.
#[derive(Debug)]
pub enum MessageEvent {
    Custom(String),
    Ping,
    Pong,
}

} // verus!
