//! Establish a mutually authenticated, end-to-end encrypted channel over an
//! arbitrary byte-stream transport.
//!
//! The crate orchestrates two collaborators: an authenticator that drives a
//! challenge-response handshake to completion, and a framer that wraps the raw
//! transport in an encrypted duplex stream seeded with the key material the
//! handshake derived. The roles here decide, on the authenticator's
//! completion, whether to hand the framer its exact input — the transport
//! together with the outcome's four key values — or to hand the transport
//! back to the caller together with a typed error.

pub mod keys;
pub mod outcome;
pub mod framing;
pub mod client;
pub mod server;
pub mod gated;
pub mod laws;

pub use client::Client;
pub use client::OwningClient;
pub use framing::FramerInput;
pub use gated::GatedError;
pub use gated::OwningServerFilter;
pub use gated::PendingAuthorization;
pub use gated::ServerFilter;
pub use outcome::HandshakeOutcome;
pub use server::OwningServer;
pub use server::Server;
