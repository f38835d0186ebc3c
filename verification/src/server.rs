//! The accepting role: drive the handshake without knowing the peer's
//! identity in advance, then commit the transport to the encrypted framing
//! layer and yield the peer's verified longterm public key.

use vstd::prelude::*;
use crate::keys::{
    EphemeralPublicKey, EphemeralSecretKey, NetworkIdentifier, PublicKey, SecretKey,
};
use crate::outcome::{session_secrets, HandshakeOutcome, SessionSecrets};
use crate::framing::FramerInput;

verus! {

/// Everything the authenticator needs from the accepting side besides the
/// transport itself. The peer's longterm identity is not known in advance:
/// it is discovered during the exchange.
#[derive(Clone, Copy)]
pub struct ServerParams {
    /// The shared application tag.
    pub network_identifier: NetworkIdentifier,
    /// Our longterm identity, public half.
    pub server_longterm_pk: PublicKey,
    /// Our longterm identity, secret half.
    pub server_longterm_sk: SecretKey,
    /// Our single-use key-agreement key, public half.
    pub server_ephemeral_pk: EphemeralPublicKey,
    /// Our single-use key-agreement key, secret half.
    pub server_ephemeral_sk: EphemeralSecretKey,
}

/// What the accepting role resolves to once the authenticator has completed:
/// on success the key material that seeds the framer and the peer's verified
/// longterm public key, still paired with the transport; on failure the
/// error paired with the original transport.
pub open spec fn server_step<S, E>(
    r: Result<(HandshakeOutcome, S), (E, S)>,
) -> Result<(SessionSecrets, PublicKey, S), (E, S)> {
    match r {
        Ok((o, s)) => Ok((session_secrets(o), o.peer_longterm_pk, s)),
        Err(f) => Err(f),
    }
}

/// Same resolution for the key-owning variant of the accepting role.
pub open spec fn owning_server_step<S, E>(
    r: Result<(HandshakeOutcome, S), (E, S)>,
) -> Result<(SessionSecrets, PublicKey, S), (E, S)> {
    match r {
        Ok((o, s)) => Ok((session_secrets(o), o.peer_longterm_pk, s)),
        Err(f) => Err(f),
    }
}

/// The accepting role. Borrows all key material at construction and copies
/// it, so the caller's keys need not outlive the attempt.
pub struct Server<S> {
    /// The raw duplex byte stream the handshake will run over.
    pub transport: S,
    /// The key material handed to the authenticator.
    pub params: ServerParams,
}

impl<S> Server<S> {
    /// Create an accepting role over `stream`, with our own longterm and
    /// ephemeral keypairs.
    pub fn new(
        stream: S,
        network_identifier: &NetworkIdentifier,
        server_longterm_pk: &PublicKey,
        server_longterm_sk: &SecretKey,
        server_ephemeral_pk: &EphemeralPublicKey,
        server_ephemeral_sk: &EphemeralSecretKey,
    ) -> (c: Server<S>)
        ensures
            c.transport == stream,
            c.params == (ServerParams {
                network_identifier: *network_identifier,
                server_longterm_pk: *server_longterm_pk,
                server_longterm_sk: *server_longterm_sk,
                server_ephemeral_pk: *server_ephemeral_pk,
                server_ephemeral_sk: *server_ephemeral_sk,
            }),
    {
        Server {
            transport: stream,
            params: ServerParams {
                network_identifier: *network_identifier,
                server_longterm_pk: *server_longterm_pk,
                server_longterm_sk: *server_longterm_sk,
                server_ephemeral_pk: *server_ephemeral_pk,
                server_ephemeral_sk: *server_ephemeral_sk,
            },
        }
    }

    /// Hand the transport and parameters to the authenticator; ownership of
    /// the transport leaves the role here and returns only through the
    /// authenticator's completion.
    pub fn begin(self) -> (p: (S, ServerParams))
        ensures
            p.0 == self.transport,
            p.1 == self.params,
    {
        (self.transport, self.params)
    }

    /// Resolve the authenticator's completion. On success, produce the
    /// framer's input and, beside it, the peer's verified longterm public
    /// key; on failure, hand the error and the transport back to the caller
    /// untouched.
    pub fn complete<E>(r: Result<(HandshakeOutcome, S), (E, S)>) -> (out: Result<
        (FramerInput<S>, PublicKey),
        (E, S),
    >)
        ensures
            server_step(r) matches Ok(p) ==> out matches Ok(d) && d.0.secrets == p.0 && d.1
                == p.1 && d.0.transport == p.2,
            server_step(r) matches Err(f) ==> out matches Err(g) && g == f,
    {
        match r {
            Ok((o, s)) => {
                let peer = o.peer_longterm_pk();
                Ok(
                    (
                        FramerInput::new(
                            s,
                            o.encryption_key(),
                            o.decryption_key(),
                            o.encryption_nonce(),
                            o.decryption_nonce(),
                        ),
                        peer,
                    ),
                )
            },
            Err(f) => Err(f),
        }
    }
}

/// The accepting role, key-owning variant: takes ownership of all key
/// material at construction, so it is free of lifetime coupling to the
/// caller's keys.
pub struct OwningServer<S> {
    /// The raw duplex byte stream the handshake will run over.
    pub transport: S,
    /// The key material handed to the authenticator.
    pub params: ServerParams,
}

impl<S> OwningServer<S> {
    /// Create an accepting role over `stream`, taking the key material by
    /// value.
    pub fn new(
        stream: S,
        network_identifier: NetworkIdentifier,
        server_longterm_pk: PublicKey,
        server_longterm_sk: SecretKey,
        server_ephemeral_pk: EphemeralPublicKey,
        server_ephemeral_sk: EphemeralSecretKey,
    ) -> (c: OwningServer<S>)
        ensures
            c.transport == stream,
            c.params == (ServerParams {
                network_identifier,
                server_longterm_pk,
                server_longterm_sk,
                server_ephemeral_pk,
                server_ephemeral_sk,
            }),
    {
        OwningServer {
            transport: stream,
            params: ServerParams {
                network_identifier,
                server_longterm_pk,
                server_longterm_sk,
                server_ephemeral_pk,
                server_ephemeral_sk,
            },
        }
    }

    /// Hand the transport and parameters to the authenticator; ownership of
    /// the transport leaves the role here and returns only through the
    /// authenticator's completion.
    pub fn begin(self) -> (p: (S, ServerParams))
        ensures
            p.0 == self.transport,
            p.1 == self.params,
    {
        (self.transport, self.params)
    }

    /// Resolve the authenticator's completion, exactly as the borrowing
    /// variant does.
    pub fn complete<E>(r: Result<(HandshakeOutcome, S), (E, S)>) -> (out: Result<
        (FramerInput<S>, PublicKey),
        (E, S),
    >)
        ensures
            owning_server_step(r) matches Ok(p) ==> out matches Ok(d) && d.0.secrets == p.0
                && d.1 == p.1 && d.0.transport == p.2,
            owning_server_step(r) matches Err(f) ==> out matches Err(g) && g == f,
    {
        match r {
            Ok((o, s)) => {
                let peer = o.peer_longterm_pk();
                Ok(
                    (
                        FramerInput::new(
                            s,
                            o.encryption_key(),
                            o.decryption_key(),
                            o.encryption_nonce(),
                            o.decryption_nonce(),
                        ),
                        peer,
                    ),
                )
            },
            Err(f) => Err(f),
        }
    }
}

} // verus!
