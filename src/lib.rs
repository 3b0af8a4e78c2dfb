//! Loopback connections between a coordinating process and the processes it
//! launches: token handshake, connection registry, method dispatch and
//! request envelopes.
pub mod client;
pub mod communication;
pub mod envelope;
pub mod event;
pub mod handshake;
pub mod json;
pub mod manager;
pub mod registry;
pub mod text;
