//! Distributed key generation between the client and the server.
//!
//! Round one: each side commits to two random scalars `x0, x1` and proves
//! knowledge of `x0`. Round two: the client hands over `c0 − c1`, the server
//! `s0 + s1`; each checks the share against the peer's commitments and derives
//! its private key share and the three public keys.
use vstd::prelude::*;
use crate::curve::{
    base_mul, commits_to, decoding_of, encode, group_order, hash_scalar, pt_add, pt_mul, sc_add,
    sc_mul, sc_sub, decompress_point, hash_to_scalar, mul_base, point_add, point_mul,
    random_scalar, scalar_add, scalar_mul, scalar_neg, CurvePoint, ScalarValue,
};
use crate::transcript::{append_bytes, bytes_eq, role_tag, tag_bytes};

pub mod client;
pub mod server;

verus! {

/// Why a key generation round rejected the peer's message.
#[derive(Clone, Copy, Debug, PartialEq, Eq, Structural)]
pub enum DkgError {
    /// A compressed point did not decode.
    Decompression,
    /// The proof of knowledge did not verify.
    ProofOfKnowledge,
    /// The share does not match its commitments.
    ShareVerification,
}

/// The challenge of a proof of knowledge: `H(tag ‖ C ‖ R)` as a scalar.
pub open spec fn pok_challenge(tag: Seq<u8>, commitment: Seq<u8>, nonce: Seq<u8>) -> int {
    hash_scalar(tag + commitment + nonce)
}

/// The outcome of checking a proof of knowledge `(R, μ)` for the commitment
/// `C`: `μ·B + (−e)·C` must encode to `R`.
pub open spec fn pok_outcome(tag: Seq<u8>, commitment: Seq<u8>, nonce: Seq<u8>, mu: int) -> Result<(), DkgError> {
    match decoding_of(commitment) {
        None => Err(DkgError::Decompression),
        Some(c) => {
            let e = pok_challenge(tag, commitment, nonce);
            if nonce == encode(pt_add(base_mul(mu), pt_mul(c, sc_sub(0, e)))) {
                Ok(())
            } else {
                Err(DkgError::ProofOfKnowledge)
            }
        },
    }
}

/// The model of a second round's result: the private share's value and the
/// three public keys' coordinates.
pub open spec fn keys_view(r: Result<(ScalarValue, CurvePoint, CurvePoint, CurvePoint), DkgError>) -> Result<
    (int, (int, int), (int, int), (int, int)),
    DkgError,
> {
    match r {
        Ok(k) => Ok((k.0.value(), k.1.model(), k.2.model(), k.3.model())),
        Err(e) => Err(e),
    }
}

/// A first-round message `(X0, X1, R, μ)` made honestly from `x0, x1` by the
/// role with the given tag.
pub open spec fn honest_round1(
    tag: Seq<u8>,
    x0: int,
    x1: int,
    c0: Seq<u8>,
    c1: Seq<u8>,
    nonce: Seq<u8>,
    mu: int,
) -> bool {
    &&& commits_to(c0, x0)
    &&& commits_to(c1, x1)
    &&& exists|k: int|
        0 <= k < group_order() && #[trigger] commits_to(nonce, k) && mu == sc_add(
            k,
            sc_mul(x0, pok_challenge(tag, c0, nonce)),
        )
}

/// What a first round hands back: the two secrets, their commitments as
/// points, and the message `(X0, X1, R, μ)`.
pub(crate) struct Round1Parts {
    pub x0: ScalarValue,
    pub x1: ScalarValue,
    pub big_x0: CurvePoint,
    pub big_x1: CurvePoint,
    pub c0: [u8; 32],
    pub c1: [u8; 32],
    pub nonce: [u8; 32],
    pub mu: ScalarValue,
}

/// The first round of either role: draw `x0, x1, k`, commit, and prove
/// knowledge of `x0`.
pub(crate) fn start_round1(client: bool) -> (r: Round1Parts)
    ensures
        r.big_x0.model() == base_mul(r.x0.value()),
        r.big_x1.model() == base_mul(r.x1.value()),
        honest_round1(role_tag(client), r.x0.value(), r.x1.value(), r.c0@, r.c1@, r.nonce@, r.mu.value()),
{
    let x0 = random_scalar();
    let x1 = random_scalar();
    let big_x0 = mul_base(&x0);
    let big_x1 = mul_base(&x1);
    let k = random_scalar();
    let big_r = mul_base(&k);
    let c0 = big_x0.compress();
    let c1 = big_x1.compress();
    let nonce = big_r.compress();
    let mut input = tag_bytes(client);
    append_bytes(&mut input, &c0);
    append_bytes(&mut input, &nonce);
    let e = hash_to_scalar(&input);
    let x0e = scalar_mul(&x0, &e);
    let mu = scalar_add(&k, &x0e);
    proof {
        assert(input@ == role_tag(client) + c0@ + nonce@);
        assert(commits_to(nonce@, k.value()));
        k.lemma_range();
        assert(mu.value() == sc_add(k.value(), sc_mul(x0.value(), pok_challenge(role_tag(client), c0@, nonce@))));
    }
    Round1Parts { x0, x1, big_x0, big_x1, c0, c1, nonce, mu }
}

/// Checks the peer's proof of knowledge of the secret behind `commitment`.
pub(crate) fn check_pok(peer_is_client: bool, commitment: &[u8; 32], nonce: &[u8; 32], mu: &ScalarValue) -> (r: Result<(), DkgError>)
    ensures
        r == pok_outcome(role_tag(peer_is_client), commitment@, nonce@, mu.value()),
{
    let mut input = tag_bytes(peer_is_client);
    append_bytes(&mut input, commitment);
    append_bytes(&mut input, nonce);
    let e = hash_to_scalar(&input);
    proof {
        assert(input@ == role_tag(peer_is_client) + commitment@ + nonce@);
    }
    let c = match decompress_point(commitment) {
        Some(c) => c,
        None => return Err(DkgError::Decompression),
    };
    let neg_e = scalar_neg(&e);
    let lhs = mul_base(mu);
    let rhs = point_mul(&c, &neg_e);
    let expected = point_add(&lhs, &rhs);
    let expected_bytes = expected.compress();
    if !bytes_eq(nonce, &expected_bytes) {
        return Err(DkgError::ProofOfKnowledge);
    }
    Ok(())
}

} // verus!
