//! Two-round signing over the shares that key generation produced.
//!
//! Round one: each side draws nonces `d, e` and publishes `D = d·B`,
//! `E = e·B`. Round two: each side binds its nonces to the message with
//! `ρ = H(tag ‖ m ‖ D ‖ E)`, forms `R = D_client + ρ_client·E_client +
//! D_server + ρ_server·E_server` and the challenge `c = H(R ‖ m ‖ P_joint)`,
//! and sends its partial signature. Combining checks the peer's partial
//! signature and adds the two.
use vstd::prelude::*;
use crate::curve::{
    decoding_of, encode, hash_scalar, pt_add, pt_mul, commits_to, decompress_point,
    hash_to_scalar, mul_base, point_add, point_mul, random_scalar, CurvePoint, ScalarValue,
};
use crate::transcript::{append_bytes, client_tag, role_tag, server_tag, tag_bytes};

pub mod client;
pub mod server;

verus! {

/// Why a signing round rejected the peer's message.
#[derive(Clone, Copy, Debug, PartialEq, Eq, Structural)]
pub enum SignError {
    /// A compressed point did not decode.
    Decompression,
    /// The peer's partial signature did not verify.
    PartialSignatureVerification,
}

/// The binding factor `ρ = H(tag ‖ m ‖ D ‖ E)` of one side.
pub open spec fn binding_factor(tag: Seq<u8>, m: Seq<u8>, d: Seq<u8>, e: Seq<u8>) -> int {
    hash_scalar(tag + m + d + e)
}

/// The joint challenge `c = H(R ‖ m ‖ P_joint)`.
pub open spec fn joint_challenge(r: Seq<u8>, m: Seq<u8>, joint_key: Seq<u8>) -> int {
    hash_scalar(r + m + joint_key)
}

/// One side's nonce point `D + ρ·E`, where both commitments decode.
pub open spec fn party_nonce(tag: Seq<u8>, m: Seq<u8>, d: Seq<u8>, e: Seq<u8>) -> Option<(int, int)> {
    if decoding_of(d).is_some() && decoding_of(e).is_some() {
        Some(
            pt_add(
                decoding_of(d).unwrap(),
                pt_mul(decoding_of(e).unwrap(), binding_factor(tag, m, d, e)),
            ),
        )
    } else {
        None
    }
}

/// The client's nonce point `R_client` for `m`.
pub open spec fn client_nonce(m: Seq<u8>, d: Seq<u8>, e: Seq<u8>) -> Option<(int, int)> {
    party_nonce(client_tag(), m, d, e)
}

/// The server's nonce point `R_server` for `m`.
pub open spec fn server_nonce(m: Seq<u8>, d: Seq<u8>, e: Seq<u8>) -> Option<(int, int)> {
    party_nonce(server_tag(), m, d, e)
}

/// The model of a combined signature: `R_joint`'s bytes and `z_joint`'s value.
pub open spec fn signature_view(r: Result<([u8; 32], ScalarValue), SignError>) -> Result<(Seq<u8>, int), SignError> {
    match r {
        Ok(s) => Ok((s.0@, s.1.value())),
        Err(e) => Err(e),
    }
}

/// Draws a pair of nonces `(d, e)` with their commitments.
pub(crate) fn draw_nonces() -> (r: (ScalarValue, ScalarValue, [u8; 32], [u8; 32]))
    ensures
        commits_to(r.2@, r.0.value()),
        commits_to(r.3@, r.1.value()),
{
    let d = random_scalar();
    let e = random_scalar();
    let big_d = mul_base(&d);
    let big_e = mul_base(&e);
    (d, e, big_d.compress(), big_e.compress())
}

/// The binding factor of one side.
pub(crate) fn binding_factor_of(client: bool, m: &[u8], d: &[u8; 32], e: &[u8; 32]) -> (r: ScalarValue)
    ensures
        r.value() == binding_factor(role_tag(client), m@, d@, e@),
{
    let mut input = tag_bytes(client);
    append_bytes(&mut input, m);
    append_bytes(&mut input, d);
    append_bytes(&mut input, e);
    proof {
        assert(input@ == role_tag(client) + m@ + d@ + e@);
    }
    hash_to_scalar(&input)
}

/// The nonce point `D + ρ·E` of one side, where both commitments decode.
pub(crate) fn nonce_point(client: bool, m: &[u8], rho: &ScalarValue, d: &[u8; 32], e: &[u8; 32]) -> (r: Option<CurvePoint>)
    requires
        rho.value() == binding_factor(role_tag(client), m@, d@, e@),
    ensures
        match r {
            Some(p) => party_nonce(role_tag(client), m@, d@, e@) == Some(p.model()),
            None => party_nonce(role_tag(client), m@, d@, e@).is_none(),
        },
{
    let big_d = match decompress_point(d) {
        Some(p) => p,
        None => return None,
    };
    let big_e = match decompress_point(e) {
        Some(p) => p,
        None => return None,
    };
    let scaled = point_mul(&big_e, rho);
    Some(point_add(&big_d, &scaled))
}

/// The joint challenge for the nonce point `R`.
pub(crate) fn challenge_of(r: &CurvePoint, m: &[u8], joint_key: &[u8; 32]) -> (c: ScalarValue)
    ensures
        c.value() == joint_challenge(encode(r.model()), m@, joint_key@),
{
    let r_bytes = r.compress();
    let mut input: Vec<u8> = Vec::new();
    append_bytes(&mut input, &r_bytes);
    append_bytes(&mut input, m);
    append_bytes(&mut input, joint_key);
    proof {
        assert(input@ =~= encode(r.model()) + m@ + joint_key@);
    }
    hash_to_scalar(&input)
}

} // verus!
