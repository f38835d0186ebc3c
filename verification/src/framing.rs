//! What a successful handshake commits to the encrypted framing layer.
//!
//! Framing itself is the outside collaborator's job: a box-stream duplex
//! wraps the raw transport and encrypts all writes and decrypts all reads
//! with the key material the handshake derived. The roles here produce the
//! framer's exact input — the transport together with the four pieces of key
//! material, in the order the framer's constructor takes them — and the
//! embedding application makes the one constructor call.

use vstd::prelude::*;
use crate::keys::{SessionKey, SessionNonce};
use crate::outcome::SessionSecrets;

verus! {

/// The framer's input: the raw transport, ready to be wrapped, and the four
/// pieces of key material that seed the encryptor and the decryptor. The
/// encrypted stream built from it owns the transport for its remaining
/// lifetime.
pub struct FramerInput<S> {
    /// The transport the encrypted stream will own.
    pub transport: S,
    /// The key material the framing layer is seeded with.
    pub secrets: SessionSecrets,
}

impl<S> FramerInput<S> {
    /// Bundle the transport with the four pieces of key material, in the
    /// shape the framer's constructor takes them.
    pub fn new(
        transport: S,
        encryption_key: SessionKey,
        decryption_key: SessionKey,
        encryption_nonce: SessionNonce,
        decryption_nonce: SessionNonce,
    ) -> (d: FramerInput<S>)
        ensures
            d.transport == transport,
            d.secrets == (SessionSecrets {
                encryption_key,
                decryption_key,
                encryption_nonce,
                decryption_nonce,
            }),
    {
        FramerInput {
            transport,
            secrets: SessionSecrets {
                encryption_key,
                decryption_key,
                encryption_nonce,
                decryption_nonce,
            },
        }
    }

    /// Take the bundle apart, for the framer's constructor.
    pub fn into_parts(self) -> (p: (S, SessionSecrets))
        ensures
            p.0 == self.transport,
            p.1 == self.secrets,
    {
        (self.transport, self.secrets)
    }
}

} // verus!
