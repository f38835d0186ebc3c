//! The connecting role: drive the handshake against a server whose longterm
//! public key is known in advance, then commit the transport to the
//! encrypted framing layer.

use vstd::prelude::*;
use crate::keys::{
    EphemeralPublicKey, EphemeralSecretKey, NetworkIdentifier, PublicKey, SecretKey,
};
use crate::outcome::{session_secrets, HandshakeOutcome, SessionSecrets};
use crate::framing::FramerInput;

verus! {

/// Everything the authenticator needs from the connecting side besides the
/// transport itself.
#[derive(Clone, Copy)]
pub struct ClientParams {
    /// The shared application tag.
    pub network_identifier: NetworkIdentifier,
    /// Our longterm identity, public half.
    pub client_longterm_pk: PublicKey,
    /// Our longterm identity, secret half.
    pub client_longterm_sk: SecretKey,
    /// Our single-use key-agreement key, public half.
    pub client_ephemeral_pk: EphemeralPublicKey,
    /// Our single-use key-agreement key, secret half.
    pub client_ephemeral_sk: EphemeralSecretKey,
    /// The longterm public key the server is expected to hold.
    pub server_longterm_pk: PublicKey,
}

/// What the connecting role resolves to once the authenticator has
/// completed: on success the key material that seeds the framer, still
/// paired with the transport; on failure the error paired with the original
/// transport.
pub open spec fn client_step<S, E>(
    r: Result<(HandshakeOutcome, S), (E, S)>,
) -> Result<(SessionSecrets, S), (E, S)> {
    match r {
        Ok((o, s)) => Ok((session_secrets(o), s)),
        Err(f) => Err(f),
    }
}

/// Same resolution for the key-owning variant of the connecting role.
pub open spec fn owning_client_step<S, E>(
    r: Result<(HandshakeOutcome, S), (E, S)>,
) -> Result<(SessionSecrets, S), (E, S)> {
    match r {
        Ok((o, s)) => Ok((session_secrets(o), s)),
        Err(f) => Err(f),
    }
}

/// The connecting role. Borrows all key material at construction and copies
/// it, so the caller's keys need not outlive the attempt.
pub struct Client<S> {
    /// The raw duplex byte stream the handshake will run over.
    pub transport: S,
    /// The key material handed to the authenticator.
    pub params: ClientParams,
}

impl<S> Client<S> {
    /// Create a connecting role over `stream`, with our own longterm and
    /// ephemeral keypairs and the known longterm public key of the server.
    pub fn new(
        stream: S,
        network_identifier: &NetworkIdentifier,
        client_longterm_pk: &PublicKey,
        client_longterm_sk: &SecretKey,
        client_ephemeral_pk: &EphemeralPublicKey,
        client_ephemeral_sk: &EphemeralSecretKey,
        server_longterm_pk: &PublicKey,
    ) -> (c: Client<S>)
        ensures
            c.transport == stream,
            c.params == (ClientParams {
                network_identifier: *network_identifier,
                client_longterm_pk: *client_longterm_pk,
                client_longterm_sk: *client_longterm_sk,
                client_ephemeral_pk: *client_ephemeral_pk,
                client_ephemeral_sk: *client_ephemeral_sk,
                server_longterm_pk: *server_longterm_pk,
            }),
    {
        Client {
            transport: stream,
            params: ClientParams {
                network_identifier: *network_identifier,
                client_longterm_pk: *client_longterm_pk,
                client_longterm_sk: *client_longterm_sk,
                client_ephemeral_pk: *client_ephemeral_pk,
                client_ephemeral_sk: *client_ephemeral_sk,
                server_longterm_pk: *server_longterm_pk,
            },
        }
    }

    /// Hand the transport and parameters to the authenticator; ownership of
    /// the transport leaves the role here and returns only through the
    /// authenticator's completion.
    pub fn begin(self) -> (p: (S, ClientParams))
        ensures
            p.0 == self.transport,
            p.1 == self.params,
    {
        (self.transport, self.params)
    }

    /// Resolve the authenticator's completion. On success, produce the
    /// framer's input: the transport bundled with the outcome's four key
    /// values; on failure, hand the error and the transport back to the
    /// caller untouched.
    pub fn complete<E>(r: Result<(HandshakeOutcome, S), (E, S)>) -> (out: Result<
        FramerInput<S>,
        (E, S),
    >)
        ensures
            client_step(r) matches Ok(p) ==> out matches Ok(d) && d.secrets == p.0
                && d.transport == p.1,
            client_step(r) matches Err(f) ==> out matches Err(g) && g == f,
    {
        match r {
            Ok((o, s)) => Ok(
                FramerInput::new(
                    s,
                    o.encryption_key(),
                    o.decryption_key(),
                    o.encryption_nonce(),
                    o.decryption_nonce(),
                ),
            ),
            Err(f) => Err(f),
        }
    }
}

/// The connecting role, key-owning variant: takes ownership of all key
/// material at construction, so it is free of lifetime coupling to the
/// caller's keys.
pub struct OwningClient<S> {
    /// The raw duplex byte stream the handshake will run over.
    pub transport: S,
    /// The key material handed to the authenticator.
    pub params: ClientParams,
}

impl<S> OwningClient<S> {
    /// Create a connecting role over `stream`, taking the key material by
    /// value.
    pub fn new(
        stream: S,
        network_identifier: NetworkIdentifier,
        client_longterm_pk: PublicKey,
        client_longterm_sk: SecretKey,
        client_ephemeral_pk: EphemeralPublicKey,
        client_ephemeral_sk: EphemeralSecretKey,
        server_longterm_pk: PublicKey,
    ) -> (c: OwningClient<S>)
        ensures
            c.transport == stream,
            c.params == (ClientParams {
                network_identifier,
                client_longterm_pk,
                client_longterm_sk,
                client_ephemeral_pk,
                client_ephemeral_sk,
                server_longterm_pk,
            }),
    {
        OwningClient {
            transport: stream,
            params: ClientParams {
                network_identifier,
                client_longterm_pk,
                client_longterm_sk,
                client_ephemeral_pk,
                client_ephemeral_sk,
                server_longterm_pk,
            },
        }
    }

    /// Hand the transport and parameters to the authenticator; ownership of
    /// the transport leaves the role here and returns only through the
    /// authenticator's completion.
    pub fn begin(self) -> (p: (S, ClientParams))
        ensures
            p.0 == self.transport,
            p.1 == self.params,
    {
        (self.transport, self.params)
    }

    /// Resolve the authenticator's completion, exactly as the borrowing
    /// variant does.
    pub fn complete<E>(r: Result<(HandshakeOutcome, S), (E, S)>) -> (out: Result<
        FramerInput<S>,
        (E, S),
    >)
        ensures
            owning_client_step(r) matches Ok(p) ==> out matches Ok(d) && d.secrets == p.0
                && d.transport == p.1,
            owning_client_step(r) matches Err(f) ==> out matches Err(g) && g == f,
    {
        match r {
            Ok((o, s)) => Ok(
                FramerInput::new(
                    s,
                    o.encryption_key(),
                    o.decryption_key(),
                    o.encryption_nonce(),
                    o.decryption_nonce(),
                ),
            ),
            Err(f) => Err(f),
        }
    }
}

} // verus!
