//! Key material and related fixed-length byte values.
//!
//! Every value is a plain byte record of the length the protocol fixes. The
//! crate never inspects the bytes; it only threads them from the handshake
//! outcome into the encrypted framing layer, so the contracts speak of whole
//! values.

use vstd::prelude::*;

verus! {

/// Length in bytes of a network identifier.
pub const NETWORK_IDENTIFIER_BYTES: usize = 32;

/// A fixed-length byte tag shared out-of-band by all peers of one
/// application, so handshakes from unrelated applications cannot
/// cross-authenticate.
#[derive(Clone, Copy)]
pub struct NetworkIdentifier {
    /// The identifier bytes.
    pub bytes: [u8; NETWORK_IDENTIFIER_BYTES],
}

/// The public half of a longterm signing keypair identifying a peer durably
/// across sessions.
#[derive(Clone, Copy)]
pub struct PublicKey {
    /// The key bytes.
    pub bytes: [u8; 32],
}

/// The secret half of a longterm signing keypair.
#[derive(Clone, Copy)]
pub struct SecretKey {
    /// The key bytes.
    pub bytes: [u8; 64],
}

/// The public half of a single-use key-agreement keypair, generated fresh per
/// connection attempt.
#[derive(Clone, Copy)]
pub struct EphemeralPublicKey {
    /// The key bytes.
    pub bytes: [u8; 32],
}

/// The secret half of a single-use key-agreement keypair.
#[derive(Clone, Copy)]
pub struct EphemeralSecretKey {
    /// The key bytes.
    pub bytes: [u8; 32],
}

/// A symmetric session key derived by a successful handshake.
#[derive(Clone, Copy)]
pub struct SessionKey {
    /// The key bytes.
    pub bytes: [u8; 32],
}

/// An initial nonce derived by a successful handshake.
#[derive(Clone, Copy)]
pub struct SessionNonce {
    /// The nonce bytes.
    pub bytes: [u8; 24],
}

} // verus!
