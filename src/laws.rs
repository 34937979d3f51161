//! What holds of honest runs of the two protocols.
use vstd::prelude::*;
use vstd::arithmetic::div_mod::{
    lemma_add_mod_noop, lemma_mod_twice, lemma_mul_mod_noop_right, lemma_sub_mod_noop,
    lemma_small_mod,
};
use vstd::arithmetic::mul::lemma_mul_unary_negation;
use crate::curve::{base_mul, commits_to, group_order, pt_add, pt_mul, pt_sub, sc_add, sc_mul, sc_sub};
use crate::dkg::client::client_round2_outcome;
use crate::dkg::server::server_round2_outcome;
use crate::sign::client::{client_combine_outcome, client_partial_outcome};
use crate::sign::server::{server_combine_outcome, server_partial_outcome};
use crate::sign::signature_view;
use crate::dkg::{honest_round1, pok_challenge, pok_outcome};
use crate::transcript::{client_tag, server_tag};

verus! {

proof fn lemma_order_positive()
    ensures
        group_order() > 8,
{
}

/// Reducing an operand before adding or subtracting does not change the
/// reduced result.
proof fn lemma_reduce(a: int, b: int)
    ensures
        (a % group_order() + b) % group_order() == (a + b) % group_order(),
        (a + b % group_order()) % group_order() == (a + b) % group_order(),
        (a % group_order() - b) % group_order() == (a - b) % group_order(),
        (a - b % group_order()) % group_order() == (a - b) % group_order(),
{
    let m = group_order();
    lemma_order_positive();
    lemma_add_mod_noop(a, b, m);
    lemma_add_mod_noop(a % m, b, m);
    lemma_add_mod_noop(a, b % m, m);
    lemma_sub_mod_noop(a, b, m);
    lemma_sub_mod_noop(a % m, b, m);
    lemma_sub_mod_noop(a, b % m, m);
    lemma_mod_twice(a, m);
    lemma_mod_twice(b, m);
}

/// A value in `[0, ℓ)` is its own reduction.
proof fn lemma_reduced(a: int)
    requires
        0 <= a < group_order(),
    ensures
        a % group_order() == a,
{
    lemma_small_mod(a as nat, group_order() as nat);
}

/// Completeness of the proof of knowledge: an honestly made first-round
/// message passes the peer's check.
pub proof fn lemma_honest_pok_verifies(tag: Seq<u8>, x0: int, x1: int, c0: Seq<u8>, c1: Seq<u8>, nonce: Seq<u8>, mu: int)
    requires
        0 <= x0 < group_order(),
        honest_round1(tag, x0, x1, c0, c1, nonce, mu),
    ensures
        pok_outcome(tag, c0, nonce, mu) == Ok::<(), crate::dkg::DkgError>(()),
{
    let m = group_order();
    lemma_order_positive();
    let k = choose|k: int| 0 <= k < m && #[trigger] commits_to(nonce, k) && mu == sc_add(k, sc_mul(x0, pok_challenge(tag, c0, nonce)));
    let e = pok_challenge(tag, c0, nonce);
    let neg_e = sc_sub(0, e);
    lemma_reduced(x0);
    lemma_reduced(k);
    // x0·(−e) ≡ −(x0·e)
    lemma_mul_mod_noop_right(x0, 0 - e, m);
    lemma_mul_unary_negation(x0, e);
    assert(x0 * (0 - e) == -(x0 * e)) by (nonlinear_arith);
    let t = (x0 * neg_e) % m;
    assert(t == (-(x0 * e)) % m);
    lemma_reduce(k + (x0 * e) % m, t);
    lemma_reduce(k, x0 * e);
    lemma_reduce(k + x0 * e, -(x0 * e));
    assert((mu % m + t) % m == k % m) by {
        lemma_mod_twice(k + (x0 * e) % m, m);
        assert(mu % m == mu);
        assert((mu + t) % m == ((k + x0 * e) % m + t) % m);
        lemma_reduce(k + x0 * e, t);
        assert(((k + x0 * e) % m + t) % m == (k + x0 * e + t) % m);
        lemma_reduce(k + x0 * e, -(x0 * e));
        assert((k + x0 * e + (-(x0 * e)) % m) % m == (k + x0 * e - x0 * e) % m);
    }
    assert(pt_add(base_mul(mu), pt_mul(base_mul(x0), neg_e)) == base_mul(k));
}

/// Honest key generation: both second rounds succeed; the client and the
/// server derive the same `P_client`, `P_server` and `P_joint`; each private
/// share times `B` is that side's public key; and the sum of the two shares
/// times `B` is the joint key.
pub proof fn lemma_honest_key_generation(
    c0: int,
    c1: int,
    s0: int,
    s1: int,
    client_c0: Seq<u8>,
    client_c1: Seq<u8>,
    client_r: Seq<u8>,
    client_mu: int,
    server_s0: Seq<u8>,
    server_s1: Seq<u8>,
    server_r: Seq<u8>,
    server_mu: int,
)
    requires
        0 <= c0 < group_order(),
        0 <= c1 < group_order(),
        0 <= s0 < group_order(),
        0 <= s1 < group_order(),
        honest_round1(client_tag(), c0, c1, client_c0, client_c1, client_r, client_mu),
        honest_round1(server_tag(), s0, s1, server_s0, server_s1, server_r, server_mu),
    ensures
        ({
            let client = client_round2_outcome(
                sc_add(c0, c1),
                base_mul(c0),
                base_mul(c1),
                server_s0,
                server_s1,
                sc_add(s0, s1),
            );
            let server = server_round2_outcome(
                sc_sub(s0, s1),
                base_mul(s0),
                base_mul(s1),
                client_c0,
                client_c1,
                sc_sub(c0, c1),
            );
            &&& client.is_ok()
            &&& server.is_ok()
            &&& client.unwrap().1 == server.unwrap().2
            &&& client.unwrap().2 == server.unwrap().1
            &&& client.unwrap().3 == server.unwrap().3
            &&& client.unwrap().1 == base_mul(client.unwrap().0)
            &&& server.unwrap().1 == base_mul(server.unwrap().0)
            &&& client.unwrap().3 == base_mul(sc_add(client.unwrap().0, server.unwrap().0))
        }),
{
    let m = group_order();
    lemma_order_positive();
    lemma_reduced(c0);
    lemma_reduced(c1);
    lemma_reduced(s0);
    lemma_reduced(s1);
    let cc = sc_add(c0, c1);
    let cs = sc_sub(c0, c1);
    let sc = sc_add(s0, s1);
    let ss = sc_sub(s0, s1);
    lemma_mod_twice(s0 + s1, m);
    lemma_mod_twice(c0 - c1, m);
    assert(pt_add(base_mul(s0), base_mul(s1)) == base_mul(sc));
    assert(pt_sub(base_mul(c0), base_mul(c1)) == base_mul(cs));
    // the client's view
    let p_client = sc_add(cc, sc);
    let pk_server_c = pt_sub(pt_add(pt_sub(base_mul(c0), base_mul(c1)), base_mul(s0)), base_mul(s1));
    // the server's view
    let p_server = sc_add(cs, ss);
    let pk_client_s = pt_add(pt_add(pt_add(base_mul(c0), base_mul(c1)), base_mul(s0)), base_mul(s1));
    // P_client: both are c0 + c1 + s0 + s1
    lemma_reduce(c0 + c1, s0 + s1);
    lemma_reduce(c0 + c1 + s0, s1);
    lemma_reduce(c0 + c1, s0);
    lemma_mod_twice(cc + sc, m);
    assert(((c0 + c1) % m + (s0 + s1) % m) % m == (c0 + c1 + s0 + s1) % m) by {
        lemma_add_mod_noop(c0 + c1, s0 + s1, m);
    }
    assert(pk_client_s.1 == (c0 + c1 + s0 + s1) % m);
    assert(base_mul(p_client) == pk_client_s);
    // P_server: both are c0 − c1 + s0 − s1
    lemma_reduce(c0 - c1, s0);
    lemma_reduce(c0 - c1 + s0, s1);
    lemma_mod_twice(cs + ss, m);
    assert(((c0 - c1) % m + (s0 - s1) % m) % m == (c0 - c1 + (s0 - s1)) % m) by {
        lemma_add_mod_noop(c0 - c1, s0 - s1, m);
    }
    assert(pk_server_c.1 == (c0 - c1 + s0 - s1) % m);
    assert(base_mul(p_server) == pk_server_c);
    // P_joint
    lemma_reduce(p_client, p_server);
    lemma_mod_twice(p_client + p_server, m);
    assert(pt_add(base_mul(p_client), pk_server_c) == base_mul(sc_add(p_client, p_server)));
    assert(pt_add(pk_client_s, base_mul(p_server)) == base_mul(sc_add(p_client, p_server)));
}

/// An honest signing session: both second rounds succeed with the same
/// nonce point `R`, and both sides' combining accepts the peer's partial
/// signature and returns the same `(R_joint, z_joint)`, namely `R` encoded
/// and `z_client + z_server`.
pub proof fn lemma_honest_signing(
    p_client: int,
    p_server: int,
    client_key: Seq<u8>,
    server_key: Seq<u8>,
    joint_key: Seq<u8>,
    m: Seq<u8>,
    d_client: int,
    e_client: int,
    d_server: int,
    e_server: int,
    client_d: Seq<u8>,
    client_e: Seq<u8>,
    server_d: Seq<u8>,
    server_e: Seq<u8>,
)
    requires
        0 <= p_client < group_order(),
        0 <= p_server < group_order(),
        0 <= d_client < group_order(),
        0 <= e_client < group_order(),
        0 <= d_server < group_order(),
        0 <= e_server < group_order(),
        commits_to(client_key, p_client),
        commits_to(server_key, p_server),
        commits_to(client_d, d_client),
        commits_to(client_e, e_client),
        commits_to(server_d, d_server),
        commits_to(server_e, e_server),
    ensures
        ({
            let client = client_partial_outcome(p_client, joint_key, m, d_client, e_client, client_d, client_e, server_d, server_e);
            let server = server_partial_outcome(p_server, joint_key, m, d_server, e_server, client_d, client_e, server_d, server_e);
            let z_client = client.unwrap().1;
            let z_server = server.unwrap().1;
            &&& client.is_ok()
            &&& server.is_ok()
            &&& client.unwrap().0 == server.unwrap().0
            &&& client_combine_outcome(joint_key, server_key, m, client_d, client_e, z_client, server_d, server_e, z_server)
                == Ok::<(Seq<u8>, int), crate::sign::SignError>((crate::curve::encode(client.unwrap().0), sc_add(z_client, z_server)))
            &&& server_combine_outcome(joint_key, client_key, m, client_d, client_e, z_client, server_d, server_e, z_server)
                == Ok::<(Seq<u8>, int), crate::sign::SignError>((crate::curve::encode(client.unwrap().0), sc_add(z_client, z_server)))
        }),
{
    let md = group_order();
    lemma_order_positive();
    lemma_reduced(p_client);
    lemma_reduced(p_server);
    lemma_reduced(d_client);
    lemma_reduced(e_client);
    lemma_reduced(d_server);
    lemma_reduced(e_server);
    let rho_c = crate::sign::binding_factor(client_tag(), m, client_d, client_e);
    let rho_s = crate::sign::binding_factor(server_tag(), m, server_d, server_e);
    let r_client = crate::sign::client_nonce(m, client_d, client_e).unwrap();
    let r_server = crate::sign::server_nonce(m, server_d, server_e).unwrap();
    let a_client = sc_add(d_client, sc_mul(e_client, rho_c));
    let a_server = sc_add(d_server, sc_mul(e_server, rho_s));
    assert(r_client == base_mul(a_client)) by {
        lemma_mod_twice(d_client + sc_mul(e_client, rho_c), md);
    }
    assert(r_server == base_mul(a_server)) by {
        lemma_mod_twice(d_server + sc_mul(e_server, rho_s), md);
    }
    let r = pt_add(r_client, r_server);
    let c = crate::sign::joint_challenge(crate::curve::encode(r), m, joint_key);
    let z_client = sc_add(a_client, sc_mul(p_client, c));
    let z_server = sc_sub(a_server, sc_mul(p_server, c));
    assert(base_mul(z_client) == pt_add(r_client, pt_mul(base_mul(p_client), c))) by {
        lemma_mod_twice(a_client + sc_mul(p_client, c), md);
        lemma_mod_twice(d_client + sc_mul(e_client, rho_c), md);
    }
    assert(base_mul(z_server) == pt_sub(r_server, pt_mul(base_mul(p_server), c))) by {
        lemma_mod_twice(a_server - sc_mul(p_server, c), md);
        lemma_mod_twice(d_server + sc_mul(e_server, rho_s), md);
    }
}

/// Combining is deterministic: two runs on the same inputs, on either side,
/// return the same result.
pub proof fn lemma_combine_deterministic(
    first: Result<([u8; 32], crate::curve::ScalarValue), crate::sign::SignError>,
    second: Result<([u8; 32], crate::curve::ScalarValue), crate::sign::SignError>,
    client_side: bool,
    joint_key: Seq<u8>,
    peer_key: Seq<u8>,
    m: Seq<u8>,
    client_d: Seq<u8>,
    client_e: Seq<u8>,
    z_client: int,
    server_d: Seq<u8>,
    server_e: Seq<u8>,
    z_server: int,
)
    requires
        client_side ==> signature_view(first) == client_combine_outcome(joint_key, peer_key, m, client_d, client_e, z_client, server_d, server_e, z_server),
        client_side ==> signature_view(second) == client_combine_outcome(joint_key, peer_key, m, client_d, client_e, z_client, server_d, server_e, z_server),
        !client_side ==> signature_view(first) == server_combine_outcome(joint_key, peer_key, m, client_d, client_e, z_client, server_d, server_e, z_server),
        !client_side ==> signature_view(second) == server_combine_outcome(joint_key, peer_key, m, client_d, client_e, z_client, server_d, server_e, z_server),
    ensures
        signature_view(first) == signature_view(second),
{
}

} // verus!
