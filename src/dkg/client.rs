//! The client's side of key generation.
use vstd::prelude::*;
use crate::curve::{
    append_base64, append_scalar_base64, base64_of, base_mul, decoding_of, encode, pt_add,
    pt_sub, sc_add, sc_sub, scalar_bytes, decompress_point, mul_base, point_add, point_sub,
    scalar_add, scalar_sub, CurvePoint, ScalarValue,
};
use crate::dkg::server::{DkgServerRound1, DkgServerRound2};
use crate::dkg::{check_pok, honest_round1, keys_view, pok_outcome, start_round1, DkgError};
use crate::transcript::{bytes_eq, client_tag, server_tag};

verus! {

/// The client's first-round message: commitments `C0 = c0·B`, `C1 = c1·B`
/// and a proof of knowledge `(R, μ)` of `c0`.
#[allow(non_snake_case)]
#[derive(Clone, Copy)]
pub struct DkgClientRound1 {
    pub C0: [u8; 32],
    pub C1: [u8; 32],
    pub R: [u8; 32],
    pub mu: ScalarValue,
}

impl DkgClientRound1 {
    /// The fields in order, each in standard base64.
    pub fn to_string(&self) -> (r: String)
        ensures
            r@ == base64_of(self.C0@) + base64_of(self.C1@) + base64_of(self.R@) + base64_of(
                scalar_bytes(self.mu.value()),
            ),
    {
        let mut s = String::new();
        append_base64(&mut s, &self.C0);
        append_base64(&mut s, &self.C1);
        append_base64(&mut s, &self.R);
        append_scalar_base64(&mut s, &self.mu);
        s
    }
}

/// The client's second-round message: the share `c_server = c0 − c1`.
#[derive(Clone, Copy)]
pub struct DkgClientRound2 {
    pub c_server: ScalarValue,
}

impl DkgClientRound2 {
    /// The share in standard base64.
    pub fn to_string(&self) -> (r: String)
        ensures
            r@ == base64_of(scalar_bytes(self.c_server.value())),
    {
        self.c_server.to_base64()
    }
}

/// What the client's second key generation round yields, given its own sum
/// `c_client`, its commitments and the server's messages: the private share
/// `p_client` and the public keys `P_client`, `P_server`, `P_joint`.
pub open spec fn client_round2_outcome(
    c_client: int,
    big_c0: (int, int),
    big_c1: (int, int),
    s0: Seq<u8>,
    s1: Seq<u8>,
    s_client: int,
) -> Result<(int, (int, int), (int, int), (int, int)), DkgError> {
    if decoding_of(s0).is_none() || decoding_of(s1).is_none() {
        Err(DkgError::Decompression)
    } else {
        let big_s0 = decoding_of(s0).unwrap();
        let big_s1 = decoding_of(s1).unwrap();
        if encode(pt_add(big_s0, big_s1)) != encode(base_mul(s_client)) {
            Err(DkgError::ShareVerification)
        } else {
            let p_client = sc_add(c_client, s_client);
            let pk_client = base_mul(p_client);
            let pk_server = pt_sub(pt_add(pt_sub(big_c0, big_c1), big_s0), big_s1);
            Ok((p_client, pk_client, pk_server, pt_add(pk_client, pk_server)))
        }
    }
}

/// The client's role in key generation.
pub struct ClientDkg;

#[allow(non_snake_case)]
impl ClientDkg {
    /// Draws `c0, c1`, commits to them and proves knowledge of `c0`. Returns
    /// `(c0, c1, C0, C1, message)`.
    pub fn start_first_round() -> (r: (ScalarValue, ScalarValue, CurvePoint, CurvePoint, DkgClientRound1))
        ensures
            r.2.model() == base_mul(r.0.value()),
            r.3.model() == base_mul(r.1.value()),
            honest_round1(client_tag(), r.0.value(), r.1.value(), r.4.C0@, r.4.C1@, r.4.R@, r.4.mu.value()),
    {
        let parts = start_round1(true);
        let message = DkgClientRound1 { C0: parts.c0, C1: parts.c1, R: parts.nonce, mu: parts.mu };
        (parts.x0, parts.x1, parts.big_x0, parts.big_x1, message)
    }

    /// Verifies the server's proof of knowledge of `s0`.
    pub fn finalize_first_round(server_message: &DkgServerRound1) -> (r: Result<(), DkgError>)
        ensures
            r == pok_outcome(server_tag(), server_message.S0@, server_message.R@, server_message.mu.value()),
    {
        check_pok(false, &server_message.S0, &server_message.R, &server_message.mu)
    }

    /// Keeps `c_client = c0 + c1` and sends `c_server = c0 − c1`.
    pub fn start_second_round(c0: &ScalarValue, c1: &ScalarValue) -> (r: (ScalarValue, DkgClientRound2))
        ensures
            r.0.value() == sc_add(c0.value(), c1.value()),
            r.1.c_server.value() == sc_sub(c0.value(), c1.value()),
    {
        let c_client = scalar_add(c0, c1);
        let c_server = scalar_sub(c0, c1);
        (c_client, DkgClientRound2 { c_server })
    }

    /// Checks `S0 + S1 == s_client·B` and derives
    /// `(p_client, P_client, P_server, P_joint)`.
    pub fn finalize_second_round(
        c_client: &ScalarValue,
        C0: &CurvePoint,
        C1: &CurvePoint,
        server_message_1: &DkgServerRound1,
        server_message_2: &DkgServerRound2,
    ) -> (r: Result<(ScalarValue, CurvePoint, CurvePoint, CurvePoint), DkgError>)
        ensures
            keys_view(r) == client_round2_outcome(
                c_client.value(),
                C0.model(),
                C1.model(),
                server_message_1.S0@,
                server_message_1.S1@,
                server_message_2.s_client.value(),
            ),
    {
        let S0 = match decompress_point(&server_message_1.S0) {
            Some(p) => p,
            None => return Err(DkgError::Decompression),
        };
        let S1 = match decompress_point(&server_message_1.S1) {
            Some(p) => p,
            None => return Err(DkgError::Decompression),
        };
        let S_client = point_add(&S0, &S1);
        let expected_S_client = mul_base(&server_message_2.s_client);
        if !bytes_eq(&S_client.compress(), &expected_S_client.compress()) {
            return Err(DkgError::ShareVerification);
        }
        let p_client = scalar_add(c_client, &server_message_2.s_client);
        let P_client = mul_base(&p_client);
        let C_diff = point_sub(C0, C1);
        let with_s0 = point_add(&C_diff, &S0);
        let P_server = point_sub(&with_s0, &S1);
        let P_joint = point_add(&P_client, &P_server);
        Ok((p_client, P_client, P_server, P_joint))
    }
}

} // verus!
