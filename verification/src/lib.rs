//! Client-side protocol layer for a request/reply, telegram-based messaging
//! service running over a byte stream.
//!
//! The crate holds the verified protocol logic: the credential-negotiation
//! handshake, the outbound and inbound message-transfer protocols, and the
//! classification of request/reply exchanges.  The wire codec itself, network
//! and file I/O, and the async plumbing around them are outside collaborators;
//! they are reached only through the narrow trusted interface in [`wire`] or
//! driven by an unverified shell around this library.

pub mod auth;
pub mod conf;
pub mod conn;
pub mod err;
pub mod mgmt;
pub mod msg;
pub mod probe;
pub mod text;
pub mod types;
pub mod wire;

pub use conf::Config;
pub use err::Error;
