//! Registration, liveness and activity reporting for services that announce
//! themselves to a topology registry.
//!
//! The library decides; the embedding process performs the network calls and
//! reads the clock. Every operation that would touch the registry is split in
//! two: a function that says which request to send, and a function that takes
//! the reply and updates the session.

pub mod address;
pub mod broker;
pub mod calculator;
pub mod cli;
pub mod events;
pub mod kinds;
pub mod lifecycle;
pub mod liveness;
pub mod messages;
pub mod proxy_client;
pub mod reporter;
pub mod retry;
pub mod session_laws;
pub mod status;
pub mod workitem;
