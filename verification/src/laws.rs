//! Properties of the orchestration, stated across the roles and proved from
//! the same spec functions their contracts use.

use vstd::prelude::*;
use crate::keys::PublicKey;
use crate::outcome::{session_secrets, HandshakeOutcome, SessionSecrets};
use crate::client::{client_step, owning_client_step};
use crate::server::{owning_server_step, server_step};
use crate::gated::{decision_step, gate_step, gated_step, GatedError};

verus! {

/// Symmetry: when a connecting and an accepting side resolve with
/// complementary outcomes (each side's encryption key and nonce are the
/// other's decryption key and nonce), the roles seed their framing layers
/// with complementary key material, whatever the two transports are.
pub proof fn lemma_symmetric_sessions<S1, S2, E1, E2>(
    co: HandshakeOutcome,
    so: HandshakeOutcome,
    ct: S1,
    st: S2,
)
    requires
        co.encryption_key == so.decryption_key,
        co.encryption_nonce == so.decryption_nonce,
        co.decryption_key == so.encryption_key,
        co.decryption_nonce == so.encryption_nonce,
    ensures
        client_step::<S1, E1>(Ok((co, ct))) matches Ok(cp) && server_step::<S2, E2>(
            Ok((so, st)),
        ) matches Ok(sp) && cp.0.encryption_key == sp.0.decryption_key
            && cp.0.encryption_nonce == sp.0.decryption_nonce && cp.0.decryption_key
            == sp.0.encryption_key && cp.0.decryption_nonce == sp.0.encryption_nonce,
{
}

/// Identity binding: whenever the accepting role resolves successfully, the
/// peer key it yields is exactly the longterm public key the protocol
/// verified inside the outcome — the role never substitutes another.
pub proof fn lemma_identity_binding<S, E>(r: Result<(HandshakeOutcome, S), (E, S)>)
    ensures
        r matches Ok(p) ==> server_step::<S, E>(r) matches Ok(sp) && sp.1
            == p.0.peer_longterm_pk,
        r matches Ok(p) ==> gated_step::<S, E, E>(r, Ok(true)) matches Ok(gp) && gp.1
            == p.0.peer_longterm_pk,
{
}

/// Gate ordering, first half: a gated accept suspends at the authorization
/// gate exactly when the cryptographic authentication succeeded, so the
/// predicate is never reached for an unauthenticated peer.
pub proof fn lemma_gate_follows_authentication<S, E, F>(r: Result<(HandshakeOutcome, S), (E, S)>)
    ensures
        (gate_step::<S, E, F>(r) matches Ok(_)) <==> (r matches Ok(_)),
{
}

/// Gate ordering, second half: when authentication fails, the predicate's
/// decision is never consulted — the gated resolution is the same whatever
/// the decision would have been.
pub proof fn lemma_denied_gate_ignores_verdict<S, E, F>(
    r: Result<(HandshakeOutcome, S), (E, S)>,
    v1: Result<bool, F>,
    v2: Result<bool, F>,
)
    requires
        r matches Err(_),
    ensures
        gated_step::<S, E, F>(r, v1) == gated_step::<S, E, F>(r, v2),
{
}

/// Denial short-circuits framing: when the predicate rejects, the gated
/// resolution carries no key material at all — it is the denial error paired
/// with the very transport that was waiting on the authorization, unused for
/// encryption.
pub proof fn lemma_denial_short_circuits<S, E, F>(o: HandshakeOutcome, s: S)
    ensures
        decision_step::<S, E, F>(o, s, Ok(false)) == Err::<
            (SessionSecrets, PublicKey, S),
            (GatedError<E, F>, S),
        >((GatedError::Rejected, s)),
{
}

/// Transport conservation: on every failure path of every role, the
/// transport handed back is exactly the one the authenticator returned, and
/// the error is the one that caused the failure — never a different or
/// absent one.
pub proof fn lemma_transport_conservation<S, E, F>(
    r: Result<(HandshakeOutcome, S), (E, S)>,
    o: HandshakeOutcome,
    s: S,
    f: F,
)
    ensures
        r matches Err(p) ==> client_step::<S, E>(r) == Err::<(SessionSecrets, S), (E, S)>(p),
        r matches Err(p) ==> server_step::<S, E>(r) == Err::<
            (SessionSecrets, PublicKey, S),
            (E, S),
        >(p),
        r matches Err((e, t)) ==> gate_step::<S, E, F>(r) == Err::<
            (HandshakeOutcome, S),
            (GatedError<E, F>, S),
        >((GatedError::Handshake(e), t)),
        decision_step::<S, E, F>(o, s, Ok(false)) == Err::<
            (SessionSecrets, PublicKey, S),
            (GatedError<E, F>, S),
        >((GatedError::Rejected, s)),
        decision_step::<S, E, F>(o, s, Err(f)) == Err::<
            (SessionSecrets, PublicKey, S),
            (GatedError<E, F>, S),
        >((GatedError::Filter(f), s)),
{
}

/// Ownership-variant equivalence: for identical inputs, the borrowing and
/// the key-owning variant of each role resolve to the same value — they
/// differ only in how the caller's key material is held, never in protocol
/// behaviour.
pub proof fn lemma_variant_equivalence<S, E>(r: Result<(HandshakeOutcome, S), (E, S)>)
    ensures
        client_step::<S, E>(r) == owning_client_step::<S, E>(r),
        server_step::<S, E>(r) == owning_server_step::<S, E>(r),
{
}

/// On success, both connecting variants seed the framer with exactly the
/// outcome's four key values.
pub proof fn lemma_success_uses_outcome_material<S, E>(o: HandshakeOutcome, s: S)
    ensures
        client_step::<S, E>(Ok((o, s))) == Ok::<(SessionSecrets, S), (E, S)>(
            (session_secrets(o), s),
        ),
        server_step::<S, E>(Ok((o, s))) == Ok::<(SessionSecrets, PublicKey, S), (E, S)>(
            (session_secrets(o), o.peer_longterm_pk, s),
        ),
{
}

} // verus!
