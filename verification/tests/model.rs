//! Tests of the orchestration decisions on plain in-memory values.

use secret_stream::client::{Client, OwningClient};
use secret_stream::gated::{authenticate, GatedError, OwningServerFilter, ServerFilter};
use secret_stream::keys::{
    EphemeralPublicKey, EphemeralSecretKey, NetworkIdentifier, PublicKey, SecretKey, SessionKey,
    SessionNonce,
};
use secret_stream::outcome::HandshakeOutcome;
use secret_stream::server::{OwningServer, Server};

fn sample_outcome() -> HandshakeOutcome {
    HandshakeOutcome {
        encryption_key: SessionKey { bytes: [1; 32] },
        encryption_nonce: SessionNonce { bytes: [2; 24] },
        decryption_key: SessionKey { bytes: [3; 32] },
        decryption_nonce: SessionNonce { bytes: [4; 24] },
        peer_longterm_pk: PublicKey { bytes: [5; 32] },
    }
}

#[test]
fn outcome_accessors_return_the_fields() {
    let o = sample_outcome();
    assert_eq!(o.encryption_key().bytes, [1; 32]);
    assert_eq!(o.encryption_nonce().bytes, [2; 24]);
    assert_eq!(o.decryption_key().bytes, [3; 32]);
    assert_eq!(o.decryption_nonce().bytes, [4; 24]);
    assert_eq!(o.peer_longterm_pk().bytes, [5; 32]);
}

#[test]
fn client_constructor_stores_transport_and_keys() {
    let c = Client::new(
        String::from("the transport"),
        &NetworkIdentifier { bytes: [9; 32] },
        &PublicKey { bytes: [1; 32] },
        &SecretKey { bytes: [2; 64] },
        &EphemeralPublicKey { bytes: [3; 32] },
        &EphemeralSecretKey { bytes: [4; 32] },
        &PublicKey { bytes: [5; 32] },
    );
    assert_eq!(c.transport, "the transport");
    assert_eq!(c.params.network_identifier.bytes, [9; 32]);
    assert_eq!(c.params.client_longterm_pk.bytes, [1; 32]);
    assert_eq!(c.params.client_longterm_sk.bytes, [2; 64]);
    assert_eq!(c.params.client_ephemeral_pk.bytes, [3; 32]);
    assert_eq!(c.params.client_ephemeral_sk.bytes, [4; 32]);
    assert_eq!(c.params.server_longterm_pk.bytes, [5; 32]);
    let (t, p) = c.begin();
    assert_eq!(t, "the transport");
    assert_eq!(p.server_longterm_pk.bytes, [5; 32]);
}

#[test]
fn owning_client_constructor_matches_borrowing_one() {
    let borrowing = Client::<u32>::new(
        7,
        &NetworkIdentifier { bytes: [9; 32] },
        &PublicKey { bytes: [1; 32] },
        &SecretKey { bytes: [2; 64] },
        &EphemeralPublicKey { bytes: [3; 32] },
        &EphemeralSecretKey { bytes: [4; 32] },
        &PublicKey { bytes: [5; 32] },
    );
    let owning = OwningClient::<u32>::new(
        7,
        NetworkIdentifier { bytes: [9; 32] },
        PublicKey { bytes: [1; 32] },
        SecretKey { bytes: [2; 64] },
        EphemeralPublicKey { bytes: [3; 32] },
        EphemeralSecretKey { bytes: [4; 32] },
        PublicKey { bytes: [5; 32] },
    );
    assert_eq!(borrowing.transport, owning.transport);
    assert_eq!(
        borrowing.params.network_identifier.bytes,
        owning.params.network_identifier.bytes
    );
    assert_eq!(
        borrowing.params.client_longterm_sk.bytes,
        owning.params.client_longterm_sk.bytes
    );
}

#[test]
fn server_constructor_stores_transport_and_keys() {
    let s = Server::new(
        String::from("accepting transport"),
        &NetworkIdentifier { bytes: [8; 32] },
        &PublicKey { bytes: [1; 32] },
        &SecretKey { bytes: [2; 64] },
        &EphemeralPublicKey { bytes: [3; 32] },
        &EphemeralSecretKey { bytes: [4; 32] },
    );
    assert_eq!(s.transport, "accepting transport");
    assert_eq!(s.params.server_longterm_pk.bytes, [1; 32]);
    let (t, p) = s.begin();
    assert_eq!(t, "accepting transport");
    assert_eq!(p.network_identifier.bytes, [8; 32]);
}

#[test]
fn client_failure_returns_error_and_same_transport() {
    let r: Result<(HandshakeOutcome, String), (u8, String)> =
        Err((9, String::from("keep me")));
    let out = Client::complete(r);
    match out {
        Err((e, t)) => {
            assert_eq!(e, 9);
            assert_eq!(t, "keep me");
        }
        Ok(_) => panic!("a failed handshake must not produce the framer input"),
    }
}

#[test]
fn client_success_commits_outcome_material_to_framing() {
    let r: Result<(HandshakeOutcome, u32), (u8, u32)> = Ok((sample_outcome(), 11));
    match Client::complete(r) {
        Ok(d) => {
            assert_eq!(d.transport, 11);
            assert_eq!(d.secrets.encryption_key.bytes, [1; 32]);
            assert_eq!(d.secrets.encryption_nonce.bytes, [2; 24]);
            assert_eq!(d.secrets.decryption_key.bytes, [3; 32]);
            assert_eq!(d.secrets.decryption_nonce.bytes, [4; 24]);
        }
        Err(_) => panic!("a successful handshake must produce the framer input"),
    }
}

#[test]
fn complementary_outcomes_seed_complementary_framers() {
    let connecting = HandshakeOutcome {
        encryption_key: SessionKey { bytes: [1; 32] },
        encryption_nonce: SessionNonce { bytes: [2; 24] },
        decryption_key: SessionKey { bytes: [3; 32] },
        decryption_nonce: SessionNonce { bytes: [4; 24] },
        peer_longterm_pk: PublicKey { bytes: [9; 32] },
    };
    let accepting = HandshakeOutcome {
        encryption_key: SessionKey { bytes: [3; 32] },
        encryption_nonce: SessionNonce { bytes: [4; 24] },
        decryption_key: SessionKey { bytes: [1; 32] },
        decryption_nonce: SessionNonce { bytes: [2; 24] },
        peer_longterm_pk: PublicKey { bytes: [5; 32] },
    };
    let c = Client::complete::<u8>(Ok((connecting, 1u32))).ok().unwrap();
    let (s, _peer) = Server::complete::<u8>(Ok((accepting, 2u32))).ok().unwrap();
    assert_eq!(c.secrets.encryption_key.bytes, s.secrets.decryption_key.bytes);
    assert_eq!(c.secrets.encryption_nonce.bytes, s.secrets.decryption_nonce.bytes);
    assert_eq!(c.secrets.decryption_key.bytes, s.secrets.encryption_key.bytes);
    assert_eq!(c.secrets.decryption_nonce.bytes, s.secrets.encryption_nonce.bytes);
}

#[test]
fn owning_client_resolves_like_borrowing_variant() {
    let failure: Result<(HandshakeOutcome, u32), (u8, u32)> = Err((3, 17));
    let a = Client::complete(failure);
    let b = OwningClient::complete(Err((3u8, 17u32)));
    assert_eq!(a.is_ok(), b.is_ok());
    match (a, b) {
        (Err(fa), Err(fb)) => assert_eq!(fa, fb),
        _ => panic!("both variants must fail here"),
    }
    let sa = Client::complete::<u8>(Ok((sample_outcome(), 17u32))).ok().unwrap();
    let sb = OwningClient::complete::<u8>(Ok((sample_outcome(), 17u32))).ok().unwrap();
    assert_eq!(sa.transport, sb.transport);
    assert_eq!(sa.secrets.encryption_key.bytes, sb.secrets.encryption_key.bytes);
    assert_eq!(sa.secrets.decryption_key.bytes, sb.secrets.decryption_key.bytes);
    assert_eq!(sa.secrets.encryption_nonce.bytes, sb.secrets.encryption_nonce.bytes);
    assert_eq!(sa.secrets.decryption_nonce.bytes, sb.secrets.decryption_nonce.bytes);
}

#[test]
fn server_success_yields_verified_peer_key() {
    let r: Result<(HandshakeOutcome, u32), (u8, u32)> = Ok((sample_outcome(), 1));
    match Server::complete(r) {
        Ok((d, peer)) => {
            assert_eq!(peer.bytes, [5; 32]);
            assert_eq!(d.transport, 1);
            assert_eq!(d.secrets.encryption_key.bytes, [1; 32]);
        }
        Err(_) => panic!("a successful handshake must produce the framer input"),
    }
}

#[test]
fn server_failure_returns_error_and_same_transport() {
    let r: Result<(HandshakeOutcome, String), (u8, String)> =
        Err((2, String::from("still mine")));
    match Server::complete(r) {
        Err((e, t)) => {
            assert_eq!(e, 2);
            assert_eq!(t, "still mine");
        }
        Ok(_) => panic!("a failed handshake must not produce the framer input"),
    }
}

#[test]
fn owning_server_resolves_like_borrowing_variant() {
    let a = Server::<u32>::complete::<u8>(Err((2, 5)));
    let b = OwningServer::<u32>::complete::<u8>(Err((2, 5)));
    match (a, b) {
        (Err(fa), Err(fb)) => assert_eq!(fa, fb),
        _ => panic!("both variants must fail here"),
    }
}

#[test]
fn gate_is_reached_only_after_authentication() {
    let ok: Result<(HandshakeOutcome, u32), (u8, u32)> = Ok((sample_outcome(), 6));
    let pending = authenticate::<u32, u8, i32>(ok).expect("authentication succeeded");
    assert_eq!(pending.peer_longterm_pk().bytes, [5; 32]);

    let failed: Result<(HandshakeOutcome, u32), (u8, u32)> = Err((7, 6));
    match authenticate::<u32, u8, i32>(failed) {
        Err((GatedError::Handshake(e), t)) => {
            assert_eq!(e, 7);
            assert_eq!(t, 6);
        }
        _ => panic!("a failed authentication must classify as a handshake error"),
    }
}

#[test]
fn acceptance_commits_and_yields_peer_key() {
    let ok: Result<(HandshakeOutcome, u32), (u8, u32)> = Ok((sample_outcome(), 6));
    let pending = authenticate::<u32, u8, i32>(ok).expect("authentication succeeded");
    match pending.decide::<u8, i32>(Ok(true)) {
        Ok((d, peer)) => {
            assert_eq!(peer.bytes, [5; 32]);
            assert_eq!(d.transport, 6);
            assert_eq!(d.secrets.encryption_key.bytes, [1; 32]);
            assert_eq!(d.secrets.decryption_key.bytes, [3; 32]);
        }
        Err(_) => panic!("an accepted peer must get the framer input"),
    }
}

#[test]
fn denial_short_circuits_framing_and_conserves_transport() {
    let ok: Result<(HandshakeOutcome, String), (u8, String)> =
        Ok((sample_outcome(), String::from("unused for encryption")));
    let pending = authenticate::<String, u8, i32>(ok).expect("authentication succeeded");
    match pending.decide::<u8, i32>(Ok(false)) {
        Err((GatedError::Rejected, t)) => assert_eq!(t, "unused for encryption"),
        _ => panic!("a rejected peer must see a denial, no framer input"),
    }
}

#[test]
fn filter_error_is_distinct_from_denial_and_handshake_error() {
    let ok: Result<(HandshakeOutcome, u32), (u8, u32)> = Ok((sample_outcome(), 9));
    let pending = authenticate::<u32, u8, i32>(ok).expect("authentication succeeded");
    match pending.decide::<u8, i32>(Err(-4)) {
        Err((GatedError::Filter(f), t)) => {
            assert_eq!(f, -4);
            assert_eq!(t, 9);
        }
        _ => panic!("a failed evaluation must classify as a filter error"),
    }
}

#[test]
fn gated_constructors_store_filter_and_keys() {
    let f = ServerFilter::new(
        4u32,
        "the predicate",
        &NetworkIdentifier { bytes: [8; 32] },
        &PublicKey { bytes: [1; 32] },
        &SecretKey { bytes: [2; 64] },
        &EphemeralPublicKey { bytes: [3; 32] },
        &EphemeralSecretKey { bytes: [4; 32] },
    );
    assert_eq!(f.transport, 4);
    assert_eq!(f.filter, "the predicate");
    assert_eq!(f.params.server_longterm_pk.bytes, [1; 32]);
    let (t, filter, p) = f.begin();
    assert_eq!(t, 4);
    assert_eq!(filter, "the predicate");
    assert_eq!(p.network_identifier.bytes, [8; 32]);

    let o = OwningServerFilter::new(
        4u32,
        "the predicate",
        NetworkIdentifier { bytes: [8; 32] },
        PublicKey { bytes: [1; 32] },
        SecretKey { bytes: [2; 64] },
        EphemeralPublicKey { bytes: [3; 32] },
        EphemeralSecretKey { bytes: [4; 32] },
    );
    assert_eq!(o.transport, 4);
    assert_eq!(o.filter, "the predicate");
    assert_eq!(o.params.server_longterm_sk.bytes, [2; 64]);
}
