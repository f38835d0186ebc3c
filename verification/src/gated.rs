//! The accepting role with an authorization gate: after the peer's identity
//! has been cryptographically verified, an asynchronous authorization
//! decision is consulted before the channel is committed.
//!
//! The authorization step is its own waiting point in the exchange. A
//! successful authentication yields a [`PendingAuthorization`], the only value from
//! which the peer's verified key can be handed to the predicate; resolving
//! the predicate's decision consumes it. A failed authentication never
//! produces one, so the predicate can never be consulted with an
//! unauthenticated claim, and a denial hands the transport back before any
//! encrypted framing is constructed.

use vstd::prelude::*;
use crate::keys::{
    EphemeralPublicKey, EphemeralSecretKey, NetworkIdentifier, PublicKey, SecretKey,
};
use crate::outcome::{session_secrets, HandshakeOutcome, SessionSecrets};
use crate::framing::FramerInput;
use crate::server::ServerParams;

verus! {

/// Why a gated accept failed.
///
/// A denial is a decision; a filter error is an inability to decide; a
/// handshake error is a failure of the authentication exchange itself. The
/// three are distinguishable so callers can log a known-but-unauthorized
/// peer differently from an unauthenticated one.
#[derive(Debug)]
pub enum GatedError<E, F> {
    /// The authentication exchange itself failed.
    Handshake(E),
    /// The authorization predicate's own evaluation failed.
    Filter(F),
    /// The peer authenticated successfully but the predicate rejected it.
    Rejected,
}

/// What the authentication phase of a gated accept resolves to: on success
/// the outcome and the transport move on to the authorization phase; on
/// failure the error is classified as a handshake failure and paired with
/// the original transport.
pub open spec fn gate_step<S, E, F>(
    r: Result<(HandshakeOutcome, S), (E, S)>,
) -> Result<(HandshakeOutcome, S), (GatedError<E, F>, S)> {
    match r {
        Ok(p) => Ok(p),
        Err((e, s)) => Err((GatedError::Handshake(e), s)),
    }
}

/// What the authorization phase resolves to, given the verified outcome,
/// the transport, and the predicate's decision: acceptance commits the key
/// material and the peer's verified key; rejection and a failed evaluation
/// each hand the transport back with their own error.
pub open spec fn decision_step<S, E, F>(
    o: HandshakeOutcome,
    s: S,
    verdict: Result<bool, F>,
) -> Result<(SessionSecrets, PublicKey, S), (GatedError<E, F>, S)> {
    match verdict {
        Ok(true) => Ok((session_secrets(o), o.peer_longterm_pk, s)),
        Ok(false) => Err((GatedError::Rejected, s)),
        Err(f) => Err((GatedError::Filter(f), s)),
    }
}

/// The two phases composed: what a whole gated accept resolves to. The
/// verdict is consulted only when the authentication phase succeeded.
pub open spec fn gated_step<S, E, F>(
    r: Result<(HandshakeOutcome, S), (E, S)>,
    verdict: Result<bool, F>,
) -> Result<(SessionSecrets, PublicKey, S), (GatedError<E, F>, S)> {
    match gate_step::<S, E, F>(r) {
        Ok((o, s)) => decision_step::<S, E, F>(o, s, verdict),
        Err(f) => Err(f),
    }
}

/// A successfully authenticated exchange suspended at the authorization
/// gate: the verified outcome and the transport, held until the predicate's
/// asynchronous decision resolves.
///
/// This is the only value from which the peer's verified key reaches the
/// authorization predicate, and it exists only for exchanges whose
/// cryptographic authentication succeeded.
pub struct PendingAuthorization<S> {
    /// The outcome of the successful authentication.
    pub outcome: HandshakeOutcome,
    /// The transport, still unused for encryption.
    pub transport: S,
}

/// Resolve the authentication phase of a gated accept. On success the
/// exchange suspends at the authorization gate; on failure the error is
/// classified as a handshake failure and handed back with the original
/// transport, and no gate is ever reached.
pub fn authenticate<S, E, F>(r: Result<(HandshakeOutcome, S), (E, S)>) -> (g: Result<
    PendingAuthorization<S>,
    (GatedError<E, F>, S),
>)
    ensures
        gate_step::<S, E, F>(r) matches Ok(p) ==> g matches Ok(pa) && pa.outcome == p.0
            && pa.transport == p.1,
        gate_step::<S, E, F>(r) matches Err(f) ==> g matches Err(h) && h == f,
{
    match r {
        Ok((o, s)) => Ok(PendingAuthorization { outcome: o, transport: s }),
        Err((e, s)) => Err((GatedError::Handshake(e), s)),
    }
}

impl<S> PendingAuthorization<S> {
    /// The peer's longterm public key as verified by the protocol: the value
    /// the authorization predicate is to be asked about.
    pub fn peer_longterm_pk(&self) -> (k: PublicKey)
        ensures
            k == self.outcome.peer_longterm_pk,
    {
        self.outcome.peer_longterm_pk()
    }

    /// Resolve the predicate's decision. Acceptance produces the framer's
    /// input exactly as the ungated accepting role does; rejection hands the
    /// transport back unused for encryption with a denial error; a failed
    /// evaluation hands it back with the evaluation's own error.
    pub fn decide<E, F>(self, verdict: Result<bool, F>) -> (out: Result<
        (FramerInput<S>, PublicKey),
        (GatedError<E, F>, S),
    >)
        ensures
            decision_step::<S, E, F>(self.outcome, self.transport, verdict) matches Ok(p)
                ==> out matches Ok(d) && d.0.secrets == p.0 && d.1 == p.1 && d.0.transport
                == p.2,
            decision_step::<S, E, F>(self.outcome, self.transport, verdict) matches Err(f)
                ==> out matches Err(h) && h == f,
    {
        let o = self.outcome;
        let s = self.transport;
        match verdict {
            Ok(true) => {
                let peer = o.peer_longterm_pk();
                Ok(
                    (
                        FramerInput::new(
                            s,
                            o.encryption_key(),
                            o.decryption_key(),
                            o.encryption_nonce(),
                            o.decryption_nonce(),
                        ),
                        peer,
                    ),
                )
            },
            Ok(false) => Err((GatedError::Rejected, s)),
            Err(f) => Err((GatedError::Filter(f), s)),
        }
    }
}

/// The gated accepting role. Borrows all key material at construction and
/// copies it; the authorization predicate is held for the driver to consult
/// once authentication succeeds.
pub struct ServerFilter<S, F> {
    /// The raw duplex byte stream the handshake will run over.
    pub transport: S,
    /// The one-shot authorization predicate, consulted with the peer's
    /// verified longterm public key.
    pub filter: F,
    /// The key material handed to the authenticator.
    pub params: ServerParams,
}

impl<S, F> ServerFilter<S, F> {
    /// Create a gated accepting role over `stream`, with our own longterm
    /// and ephemeral keypairs and the authorization predicate.
    pub fn new(
        stream: S,
        filter_fn: F,
        network_identifier: &NetworkIdentifier,
        server_longterm_pk: &PublicKey,
        server_longterm_sk: &SecretKey,
        server_ephemeral_pk: &EphemeralPublicKey,
        server_ephemeral_sk: &EphemeralSecretKey,
    ) -> (c: ServerFilter<S, F>)
        ensures
            c.transport == stream,
            c.filter == filter_fn,
            c.params == (ServerParams {
                network_identifier: *network_identifier,
                server_longterm_pk: *server_longterm_pk,
                server_longterm_sk: *server_longterm_sk,
                server_ephemeral_pk: *server_ephemeral_pk,
                server_ephemeral_sk: *server_ephemeral_sk,
            }),
    {
        ServerFilter {
            transport: stream,
            filter: filter_fn,
            params: ServerParams {
                network_identifier: *network_identifier,
                server_longterm_pk: *server_longterm_pk,
                server_longterm_sk: *server_longterm_sk,
                server_ephemeral_pk: *server_ephemeral_pk,
                server_ephemeral_sk: *server_ephemeral_sk,
            },
        }
    }

    /// Hand the transport, the predicate and the parameters to the driver;
    /// ownership of the transport leaves the role here and returns only
    /// through the authenticator's completion.
    pub fn begin(self) -> (p: (S, F, ServerParams))
        ensures
            p.0 == self.transport,
            p.1 == self.filter,
            p.2 == self.params,
    {
        (self.transport, self.filter, self.params)
    }
}

/// The gated accepting role, key-owning variant: takes ownership of all key
/// material at construction, so it is free of lifetime coupling to the
/// caller's keys.
pub struct OwningServerFilter<S, F> {
    /// The raw duplex byte stream the handshake will run over.
    pub transport: S,
    /// The one-shot authorization predicate, consulted with the peer's
    /// verified longterm public key.
    pub filter: F,
    /// The key material handed to the authenticator.
    pub params: ServerParams,
}

impl<S, F> OwningServerFilter<S, F> {
    /// Create a gated accepting role over `stream`, taking the key material
    /// by value.
    pub fn new(
        stream: S,
        filter_fn: F,
        network_identifier: NetworkIdentifier,
        server_longterm_pk: PublicKey,
        server_longterm_sk: SecretKey,
        server_ephemeral_pk: EphemeralPublicKey,
        server_ephemeral_sk: EphemeralSecretKey,
    ) -> (c: OwningServerFilter<S, F>)
        ensures
            c.transport == stream,
            c.filter == filter_fn,
            c.params == (ServerParams {
                network_identifier,
                server_longterm_pk,
                server_longterm_sk,
                server_ephemeral_pk,
                server_ephemeral_sk,
            }),
    {
        OwningServerFilter {
            transport: stream,
            filter: filter_fn,
            params: ServerParams {
                network_identifier,
                server_longterm_pk,
                server_longterm_sk,
                server_ephemeral_pk,
                server_ephemeral_sk,
            },
        }
    }

    /// Hand the transport, the predicate and the parameters to the driver;
    /// ownership of the transport leaves the role here and returns only
    /// through the authenticator's completion.
    pub fn begin(self) -> (p: (S, F, ServerParams))
        ensures
            p.0 == self.transport,
            p.1 == self.filter,
            p.2 == self.params,
    {
        (self.transport, self.filter, self.params)
    }
}

} // verus!
