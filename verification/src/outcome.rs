//! The data a successful handshake derives.

use vstd::prelude::*;
use crate::keys::{PublicKey, SessionKey, SessionNonce};

verus! {

/// The outcome of a successful handshake: keys and nonces for encrypted
/// two-way communication with the peer, and the peer's verified longterm
/// public key.
///
/// An outcome is produced only on full success of the authentication
/// exchange, and is consumed exactly once to seed the encrypted framing
/// layer.
pub struct HandshakeOutcome {
    /// Key for encrypting messages to the peer.
    pub encryption_key: SessionKey,
    /// Initial nonce for encrypting messages to the peer.
    pub encryption_nonce: SessionNonce,
    /// Key for decrypting messages from the peer.
    pub decryption_key: SessionKey,
    /// Initial nonce for decrypting messages from the peer.
    pub decryption_nonce: SessionNonce,
    /// The longterm public key of the peer, as verified by the protocol.
    pub peer_longterm_pk: PublicKey,
}

impl HandshakeOutcome {
    /// The negotiated key that should be used to encrypt messages to the peer.
    pub fn encryption_key(&self) -> (k: SessionKey)
        ensures
            k == self.encryption_key,
    {
        self.encryption_key
    }

    /// The negotiated initial nonce that should be used to encrypt messages
    /// to the peer.
    pub fn encryption_nonce(&self) -> (n: SessionNonce)
        ensures
            n == self.encryption_nonce,
    {
        self.encryption_nonce
    }

    /// The negotiated key that should be used to decrypt messages from the
    /// peer.
    pub fn decryption_key(&self) -> (k: SessionKey)
        ensures
            k == self.decryption_key,
    {
        self.decryption_key
    }

    /// The negotiated initial nonce that should be used to decrypt messages
    /// from the peer.
    pub fn decryption_nonce(&self) -> (n: SessionNonce)
        ensures
            n == self.decryption_nonce,
    {
        self.decryption_nonce
    }

    /// The longterm public key of the peer.
    pub fn peer_longterm_pk(&self) -> (k: PublicKey)
        ensures
            k == self.peer_longterm_pk,
    {
        self.peer_longterm_pk
    }
}

/// The four pieces of key material an outcome contributes to the encrypted
/// framing layer.
pub struct SessionSecrets {
    /// Key for encrypting writes.
    pub encryption_key: SessionKey,
    /// Key for decrypting reads.
    pub decryption_key: SessionKey,
    /// Initial nonce for encrypting writes.
    pub encryption_nonce: SessionNonce,
    /// Initial nonce for decrypting reads.
    pub decryption_nonce: SessionNonce,
}

/// The key material an outcome seeds the framing layer with.
pub open spec fn session_secrets(o: HandshakeOutcome) -> SessionSecrets {
    SessionSecrets {
        encryption_key: o.encryption_key,
        decryption_key: o.decryption_key,
        encryption_nonce: o.encryption_nonce,
        decryption_nonce: o.decryption_nonce,
    }
}

} // verus!
