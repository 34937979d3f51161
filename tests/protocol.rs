#![allow(non_snake_case)]

use base64::Engine;
use curve25519_dalek::edwards::{CompressedEdwardsY, EdwardsPoint};
use curve25519_dalek::scalar::Scalar;
use frost::curve::{CurvePoint, ScalarValue};
use frost::dkg::client::{ClientDkg, DkgClientRound1, DkgClientRound2};
use frost::dkg::server::{DkgServerRound1, DkgServerRound2, ServerDkg};
use frost::dkg::DkgError;
use frost::sign::client::{ClientSign, SignClientRound1, SignClientRound2};
use frost::sign::server::{ServerSign, SignServerRound1, SignServerRound2};
use frost::sign::SignError;
use sha2::{Digest, Sha512};

fn dalek(s: &ScalarValue) -> Scalar {
    Scalar::from_bytes_mod_order(s.to_bytes())
}

fn point(p: &CurvePoint) -> EdwardsPoint {
    CompressedEdwardsY(p.compress()).decompress().unwrap()
}

struct Keys {
    p_client: ScalarValue,
    p_server: ScalarValue,
    P_client: [u8; 32],
    P_server: [u8; 32],
    P_joint: [u8; 32],
}

fn run_dkg() -> Keys {
    let (c0, c1, C0, C1, client_dkg_message_1) = ClientDkg::start_first_round();
    let (s0, s1, S0, S1, server_dkg_message_1) = ServerDkg::start_first_round();
    ServerDkg::finalize_first_round(&client_dkg_message_1).unwrap();
    ClientDkg::finalize_first_round(&server_dkg_message_1).unwrap();
    let (c_client, client_dkg_message_2) = ClientDkg::start_second_round(&c0, &c1);
    let (s_server, server_dkg_message_2) = ServerDkg::start_second_round(&s0, &s1);
    let (p_client, P_client, P_server, P_joint) = ClientDkg::finalize_second_round(
        &c_client,
        &C0,
        &C1,
        &server_dkg_message_1,
        &server_dkg_message_2,
    )
    .unwrap();
    let (p_server, _, _, _) = ServerDkg::finalize_second_round(
        &s_server,
        &S0,
        &S1,
        &client_dkg_message_1,
        &client_dkg_message_2,
    )
    .unwrap();
    Keys {
        p_client,
        p_server,
        P_client: P_client.compress(),
        P_server: P_server.compress(),
        P_joint: P_joint.compress(),
    }
}

struct Session {
    client_1: SignClientRound1,
    client_2: SignClientRound2,
    server_1: SignServerRound1,
    server_2: SignServerRound2,
    R: [u8; 32],
}

fn run_signing(keys: &Keys, message: &[u8]) -> Session {
    let (d_client, e_client, client_1) = ClientSign::first_round();
    let (d_server, e_server, server_1) = ServerSign::first_round();
    let (R_1, client_2) = ClientSign::second_round(
        &keys.p_client,
        &keys.P_joint,
        message,
        &d_client,
        &e_client,
        &client_1,
        &server_1,
    )
    .unwrap();
    let (R_2, server_2) = ServerSign::second_round(
        &keys.p_server,
        &keys.P_joint,
        message,
        &d_server,
        &e_server,
        &client_1,
        &server_1,
    )
    .unwrap();
    assert_eq!(R_1.compress(), R_2.compress());
    Session { client_1, client_2, server_1, server_2, R: R_1.compress() }
}

fn combine_both(keys: &Keys, message: &[u8], s: &Session) -> ([u8; 32], [u8; 32]) {
    let (R_1, z_1) = ClientSign::combine_sigs(
        &keys.P_joint,
        &keys.P_server,
        message,
        &s.client_1,
        &s.client_2,
        &s.server_1,
        &s.server_2,
    )
    .unwrap();
    let (R_2, z_2) = ServerSign::combine_sigs(
        &keys.P_joint,
        &keys.P_client,
        message,
        &s.client_1,
        &s.client_2,
        &s.server_1,
        &s.server_2,
    )
    .unwrap();
    assert_eq!(R_1, R_2);
    assert_eq!(z_1.to_bytes(), z_2.to_bytes());
    (R_1, z_1.to_bytes())
}

fn challenge(R: &[u8; 32], message: &[u8], P_joint: &[u8; 32]) -> Scalar {
    let mut h = Sha512::new();
    h.update(R);
    h.update(message);
    h.update(P_joint);
    Scalar::from_hash(h)
}

/// `z·B == R + c·(P_client − P_server)`: the relation the combined signature
/// meets, given the sign of the server's key term.
fn meets_combined_relation(keys: &Keys, message: &[u8], R: &[u8; 32], z: &[u8; 32]) -> bool {
    let c = challenge(R, message, &keys.P_joint);
    let R_point = CompressedEdwardsY(*R).decompress().unwrap();
    let Pc = CompressedEdwardsY(keys.P_client).decompress().unwrap();
    let Ps = CompressedEdwardsY(keys.P_server).decompress().unwrap();
    let z = Scalar::from_canonical_bytes(*z).unwrap();
    EdwardsPoint::mul_base(&z) == R_point + (Pc - Ps) * c
}

/// The standard Ed25519 equation `z·B == R + c·P_joint`.
fn meets_ed25519(keys: &Keys, message: &[u8], R: &[u8; 32], z: &[u8; 32]) -> bool {
    let c = challenge(R, message, &keys.P_joint);
    let R_point = CompressedEdwardsY(*R).decompress().unwrap();
    let Pj = CompressedEdwardsY(keys.P_joint).decompress().unwrap();
    let z = Scalar::from_canonical_bytes(*z).unwrap();
    EdwardsPoint::mul_base(&z) == R_point + Pj * c
}

fn undecodable() -> [u8; 32] {
    let mut b = [0u8; 32];
    for y in 2u8..=255 {
        b[0] = y;
        if CompressedEdwardsY(b).decompress().is_none() {
            return b;
        }
    }
    panic!("no undecodable encoding found");
}

#[test]
pub fn test_correctness() {
    let (c0, c1, C0, C1, client_dkg_message_1) = ClientDkg::start_first_round();
    let (s0, s1, S0, S1, server_dkg_message_1) = ServerDkg::start_first_round();

    ServerDkg::finalize_first_round(&client_dkg_message_1).unwrap();
    ClientDkg::finalize_first_round(&server_dkg_message_1).unwrap();

    let (c_client, client_dkg_message_2) = ClientDkg::start_second_round(&c0, &c1);
    let (s_server, server_dkg_message_2) = ServerDkg::start_second_round(&s0, &s1);

    let (p_client, P_client_1, P_server_1, P_joint_1) = ClientDkg::finalize_second_round(
        &c_client,
        &C0,
        &C1,
        &server_dkg_message_1,
        &server_dkg_message_2,
    )
    .unwrap();

    let (p_server, P_server_2, P_client_2, P_joint_2) = ServerDkg::finalize_second_round(
        &s_server,
        &S0,
        &S1,
        &client_dkg_message_1,
        &client_dkg_message_2,
    )
    .unwrap();

    assert_eq!(P_client_1.compress(), P_client_2.compress());
    assert_eq!(P_server_1.compress(), P_server_2.compress());
    assert_eq!(P_joint_1.compress(), P_joint_2.compress());

    assert_eq!(
        EdwardsPoint::mul_base(&dalek(&p_client)).compress().to_bytes(),
        P_client_1.compress()
    );
    assert_eq!(
        EdwardsPoint::mul_base(&dalek(&p_server)).compress().to_bytes(),
        P_server_1.compress()
    );
    let p_joint = dalek(&p_client) + dalek(&p_server);
    assert_eq!(
        EdwardsPoint::mul_base(&p_joint).compress().to_bytes(),
        P_joint_1.compress()
    );

    let P_joint = P_joint_1.compress();
    let P_client = P_client_1.compress();
    let P_server = P_server_1.compress();
    let message = b"sample message";

    let (d_client, e_client, client_sign_message_1) = ClientSign::first_round();
    let (d_server, e_server, server_sign_message_1) = ServerSign::first_round();

    let (R_1, client_sign_message_2) = ClientSign::second_round(
        &p_client,
        &P_joint,
        message,
        &d_client,
        &e_client,
        &client_sign_message_1,
        &server_sign_message_1,
    )
    .unwrap();

    let (R_2, server_sign_message_2) = ServerSign::second_round(
        &p_server,
        &P_joint,
        message,
        &d_server,
        &e_server,
        &client_sign_message_1,
        &server_sign_message_1,
    )
    .unwrap();

    assert_eq!(R_1.compress(), R_2.compress());

    let (R_1_post, z_1) = ClientSign::combine_sigs(
        &P_joint,
        &P_server,
        message,
        &client_sign_message_1,
        &client_sign_message_2,
        &server_sign_message_1,
        &server_sign_message_2,
    )
    .unwrap();

    let (R_2_post, z_2) = ServerSign::combine_sigs(
        &P_joint,
        &P_client,
        message,
        &client_sign_message_1,
        &client_sign_message_2,
        &server_sign_message_1,
        &server_sign_message_2,
    )
    .unwrap();

    assert_eq!(R_1.compress(), R_1_post);
    assert_eq!(R_1_post, R_2_post);
    assert_eq!(z_1.to_bytes(), z_2.to_bytes());
}

#[test]
fn honest_signature_meets_the_combined_relation_not_ed25519() {
    let keys = run_dkg();
    let message = b"sample message";
    let session = run_signing(&keys, message);
    let (R, z) = combine_both(&keys, message, &session);
    assert_eq!(R, session.R);
    assert!(meets_combined_relation(&keys, message, &R, &z));
    // The server's key term enters with a minus sign, so the standard
    // equation against `P_joint = P_client + P_server` does not hold.
    assert!(!meets_ed25519(&keys, message, &R, &z));
}

#[test]
fn tampered_proof_of_knowledge() {
    let (_, _, _, _, client_1) = ClientDkg::start_first_round();
    let (_, _, _, _, server_1) = ServerDkg::start_first_round();
    let mut mu = server_1.mu.to_bytes();
    mu[31] = !mu[31];
    let tampered = DkgServerRound1 { mu: ScalarValue::from_bytes_mod_order(mu), ..server_1 };
    assert_eq!(ClientDkg::finalize_first_round(&tampered), Err(DkgError::ProofOfKnowledge));
    let mut mu = client_1.mu.to_bytes();
    mu[0] ^= 1;
    let tampered = DkgClientRound1 { mu: ScalarValue::from_bytes_mod_order(mu), ..client_1 };
    assert_eq!(ServerDkg::finalize_first_round(&tampered), Err(DkgError::ProofOfKnowledge));
}

#[test]
fn tampered_share() {
    let (c0, c1, C0, C1, client_1) = ClientDkg::start_first_round();
    let (s0, s1, S0, S1, server_1) = ServerDkg::start_first_round();
    let (c_client, client_2) = ClientDkg::start_second_round(&c0, &c1);
    let (s_server, _) = ServerDkg::start_second_round(&s0, &s1);
    let random = ScalarValue::from_bytes_mod_order(rand::random::<[u8; 32]>());
    let tampered = DkgServerRound2 { s_client: random };
    let r = ClientDkg::finalize_second_round(&c_client, &C0, &C1, &server_1, &tampered);
    assert!(matches!(r, Err(DkgError::ShareVerification)));
    let tampered = DkgClientRound2 { c_server: ScalarValue::from_bytes_mod_order((dalek(&client_2.c_server) + Scalar::ONE).to_bytes()) };
    let r = ServerDkg::finalize_second_round(&s_server, &S0, &S1, &client_1, &tampered);
    assert!(matches!(r, Err(DkgError::ShareVerification)));
}

#[test]
fn tampered_partial_signature() {
    let keys = run_dkg();
    let message = b"sample message";
    let session = run_signing(&keys, message);
    let mut z = session.server_2.z_server.to_bytes();
    z[0] ^= 1;
    let tampered = SignServerRound2 { z_server: ScalarValue::from_bytes_mod_order(z) };
    let r = ClientSign::combine_sigs(
        &keys.P_joint,
        &keys.P_server,
        message,
        &session.client_1,
        &session.client_2,
        &session.server_1,
        &tampered,
    );
    assert!(matches!(r, Err(SignError::PartialSignatureVerification)));
    let mut z = session.client_2.z_client.to_bytes();
    z[5] ^= 0x10;
    let tampered = SignClientRound2 { z_client: ScalarValue::from_bytes_mod_order(z) };
    let r = ServerSign::combine_sigs(
        &keys.P_joint,
        &keys.P_client,
        message,
        &session.client_1,
        &tampered,
        &session.server_1,
        &session.server_2,
    );
    assert!(matches!(r, Err(SignError::PartialSignatureVerification)));
}

#[test]
fn malformed_point() {
    let (c0, c1, C0, C1, _) = ClientDkg::start_first_round();
    let (s0, s1, _, _, server_1) = ServerDkg::start_first_round();
    let (c_client, _) = ClientDkg::start_second_round(&c0, &c1);
    let (_, server_2) = ServerDkg::start_second_round(&s0, &s1);
    let bad = undecodable();
    let tampered = DkgServerRound1 { S0: bad, ..server_1 };
    assert_eq!(ClientDkg::finalize_first_round(&tampered), Err(DkgError::Decompression));
    let r = ClientDkg::finalize_second_round(&c_client, &C0, &C1, &tampered, &server_2);
    assert!(matches!(r, Err(DkgError::Decompression)));
}

#[test]
fn non_canonical_all_ones_point() {
    let (_, _, _, _, server_1) = ServerDkg::start_first_round();
    let tampered = DkgServerRound1 { S0: [0xFF; 32], ..server_1 };
    let r = ClientDkg::finalize_first_round(&tampered);
    if CompressedEdwardsY([0xFF; 32]).decompress().is_none() {
        assert_eq!(r, Err(DkgError::Decompression));
    } else {
        assert_eq!(r, Err(DkgError::ProofOfKnowledge));
    }
}

#[test]
fn decompression_errors_in_signing() {
    let keys = run_dkg();
    let message = b"sample message";
    let session = run_signing(&keys, message);
    let bad = undecodable();
    let (d, e, _) = ServerSign::first_round();
    let tampered = SignServerRound1 { E_server: bad, ..session.server_1 };
    let r = ServerSign::second_round(&keys.p_server, &keys.P_joint, message, &d, &e, &session.client_1, &tampered);
    assert!(matches!(r, Err(SignError::Decompression)));
    let r = ClientSign::combine_sigs(
        &keys.P_joint,
        &bad,
        message,
        &session.client_1,
        &session.client_2,
        &session.server_1,
        &session.server_2,
    );
    assert!(matches!(r, Err(SignError::Decompression)));
}

#[test]
fn all_zero_commitment_decodes_and_fails_downstream() {
    assert!(CompressedEdwardsY([0u8; 32]).decompress().is_some());
    let (_, _, _, _, server_1) = ServerDkg::start_first_round();
    let tampered = DkgServerRound1 { S0: [0u8; 32], ..server_1 };
    assert_eq!(ClientDkg::finalize_first_round(&tampered), Err(DkgError::ProofOfKnowledge));

    let keys = run_dkg();
    let message = b"sample message";
    let (d_client, e_client, client_1) = ClientSign::first_round();
    let (_, _, server_1) = ServerSign::first_round();
    let zero_d = SignServerRound1 { D_server: [0u8; 32], ..server_1 };
    let r = ClientSign::second_round(&keys.p_client, &keys.P_joint, message, &d_client, &e_client, &client_1, &zero_d);
    assert!(r.is_ok());
}

#[test]
fn empty_message_signs() {
    let keys = run_dkg();
    let message: &[u8] = b"";
    let session = run_signing(&keys, message);
    let (R, z) = combine_both(&keys, message, &session);
    assert!(meets_combined_relation(&keys, message, &R, &z));
}

#[test]
fn two_signatures_same_key() {
    let keys = run_dkg();
    let first = run_signing(&keys, b"first message");
    let second = run_signing(&keys, b"second message");
    let (R_1, z_1) = combine_both(&keys, b"first message", &first);
    let (R_2, z_2) = combine_both(&keys, b"second message", &second);
    assert!(meets_combined_relation(&keys, b"first message", &R_1, &z_1));
    assert!(meets_combined_relation(&keys, b"second message", &R_2, &z_2));
    assert_ne!(R_1, R_2);
}

#[test]
fn fresh_nonces_give_a_different_signature_over_the_same_message() {
    let keys = run_dkg();
    let message = b"sample message";
    let first = run_signing(&keys, message);
    let second = run_signing(&keys, message);
    let (R_1, z_1) = combine_both(&keys, message, &first);
    let (R_2, z_2) = combine_both(&keys, message, &second);
    assert_ne!(R_1, R_2);
    assert_ne!(z_1, z_2);
    assert!(meets_combined_relation(&keys, message, &R_2, &z_2));
}

#[test]
fn combine_is_deterministic() {
    let keys = run_dkg();
    let message = b"sample message";
    let session = run_signing(&keys, message);
    let first = combine_both(&keys, message, &session);
    let second = combine_both(&keys, message, &session);
    assert_eq!(first, second);
}

#[test]
fn display_forms_decode_to_the_byte_layout() {
    let (c0, c1, _, _, client_1) = ClientDkg::start_first_round();
    let (s0, s1, _, _, server_1) = ServerDkg::start_first_round();
    let (_, client_2) = ClientDkg::start_second_round(&c0, &c1);
    let (_, server_2) = ServerDkg::start_second_round(&s0, &s1);
    let blocks = |text: String| -> Vec<u8> {
        assert_eq!(text.len() % 44, 0);
        let mut out = Vec::new();
        for i in 0..text.len() / 44 {
            let block = base64::engine::general_purpose::STANDARD.decode(&text[i * 44..(i + 1) * 44]).unwrap();
            assert_eq!(block.len(), 32);
            out.extend_from_slice(&block);
        }
        out
    };
    let mut expected = Vec::new();
    expected.extend_from_slice(&client_1.C0);
    expected.extend_from_slice(&client_1.C1);
    expected.extend_from_slice(&client_1.R);
    expected.extend_from_slice(&client_1.mu.to_bytes());
    assert_eq!(blocks(client_1.to_string()), expected);
    let mut expected = Vec::new();
    expected.extend_from_slice(&server_1.S0);
    expected.extend_from_slice(&server_1.S1);
    expected.extend_from_slice(&server_1.R);
    expected.extend_from_slice(&server_1.mu.to_bytes());
    assert_eq!(blocks(server_1.to_string()), expected);
    assert_eq!(blocks(client_2.to_string()), client_2.c_server.to_bytes().to_vec());
    assert_eq!(blocks(server_2.to_string()), server_2.s_client.to_bytes().to_vec());

    let keys = run_dkg();
    let session = run_signing(&keys, b"m");
    let mut expected = Vec::new();
    expected.extend_from_slice(&session.client_1.D_client);
    expected.extend_from_slice(&session.client_1.E_client);
    assert_eq!(blocks(session.client_1.to_string()), expected);
    let mut expected = Vec::new();
    expected.extend_from_slice(&session.server_1.D_server);
    expected.extend_from_slice(&session.server_1.E_server);
    assert_eq!(blocks(session.server_1.to_string()), expected);
    assert_eq!(blocks(session.client_2.to_string()), session.client_2.z_client.to_bytes().to_vec());
    assert_eq!(blocks(session.server_2.to_string()), session.server_2.z_server.to_bytes().to_vec());
}

#[test]
fn scalars_reduce_modulo_the_group_order() {
    let mut order = [0u8; 32];
    order.copy_from_slice(&[
        0xed, 0xd3, 0xf5, 0x5c, 0x1a, 0x63, 0x12, 0x58, 0xd6, 0x9c, 0xf7, 0xa2, 0xde, 0xf9, 0xde,
        0x14, 0x00, 0x00, 0x00, 0x00, 0x00, 0x00, 0x00, 0x00, 0x00, 0x00, 0x00, 0x00, 0x00, 0x00,
        0x00, 0x10,
    ]);
    assert_eq!(ScalarValue::from_bytes_mod_order(order).to_bytes(), [0u8; 32]);
    order[0] += 5;
    let mut five = [0u8; 32];
    five[0] = 5;
    assert_eq!(ScalarValue::from_bytes_mod_order(order).to_bytes(), five);
}

#[test]
fn second_round_keys_and_shares_have_exact_values() {
    let (c0, c1, C0, C1, _) = ClientDkg::start_first_round();
    assert_eq!(point(&C0), EdwardsPoint::mul_base(&dalek(&c0)));
    assert_eq!(point(&C1), EdwardsPoint::mul_base(&dalek(&c1)));
    let (c_client, client_2) = ClientDkg::start_second_round(&c0, &c1);
    assert_eq!(dalek(&c_client), dalek(&c0) + dalek(&c1));
    assert_eq!(dalek(&client_2.c_server), dalek(&c0) - dalek(&c1));
    let (s0, s1, _, _, _) = ServerDkg::start_first_round();
    let (s_server, server_2) = ServerDkg::start_second_round(&s0, &s1);
    assert_eq!(dalek(&s_server), dalek(&s0) - dalek(&s1));
    assert_eq!(dalek(&server_2.s_client), dalek(&s0) + dalek(&s1));
}
