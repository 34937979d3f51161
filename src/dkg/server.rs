//! The server's side of key generation.
use vstd::prelude::*;
use crate::curve::{
    append_base64, append_scalar_base64, base64_of, base_mul, decoding_of, encode, pt_add,
    pt_sub, sc_add, sc_sub, scalar_bytes, decompress_point, mul_base, point_add, point_sub,
    scalar_add, scalar_sub, CurvePoint, ScalarValue,
};
use crate::dkg::client::{DkgClientRound1, DkgClientRound2};
use crate::dkg::{check_pok, honest_round1, keys_view, pok_outcome, start_round1, DkgError};
use crate::transcript::{bytes_eq, client_tag, server_tag};

verus! {

/// The server's first-round message: commitments `S0 = s0·B`, `S1 = s1·B`
/// and a proof of knowledge `(R, μ)` of `s0`.
#[allow(non_snake_case)]
#[derive(Clone, Copy)]
pub struct DkgServerRound1 {
    pub S0: [u8; 32],
    pub S1: [u8; 32],
    pub R: [u8; 32],
    pub mu: ScalarValue,
}

impl DkgServerRound1 {
    /// The fields in order, each in standard base64.
    pub fn to_string(&self) -> (r: String)
        ensures
            r@ == base64_of(self.S0@) + base64_of(self.S1@) + base64_of(self.R@) + base64_of(
                scalar_bytes(self.mu.value()),
            ),
    {
        let mut s = String::new();
        append_base64(&mut s, &self.S0);
        append_base64(&mut s, &self.S1);
        append_base64(&mut s, &self.R);
        append_scalar_base64(&mut s, &self.mu);
        s
    }
}

/// The server's second-round message: the share `s_client = s0 + s1`.
#[derive(Clone, Copy)]
pub struct DkgServerRound2 {
    pub s_client: ScalarValue,
}

impl DkgServerRound2 {
    /// The share in standard base64.
    pub fn to_string(&self) -> (r: String)
        ensures
            r@ == base64_of(scalar_bytes(self.s_client.value())),
    {
        self.s_client.to_base64()
    }
}

/// What the server's second key generation round yields, given its own
/// difference `s_server`, its commitments and the client's messages: the
/// private share `p_server` and the public keys `P_server`, `P_client`,
/// `P_joint`.
pub open spec fn server_round2_outcome(
    s_server: int,
    big_s0: (int, int),
    big_s1: (int, int),
    c0: Seq<u8>,
    c1: Seq<u8>,
    c_server: int,
) -> Result<(int, (int, int), (int, int), (int, int)), DkgError> {
    if decoding_of(c0).is_none() || decoding_of(c1).is_none() {
        Err(DkgError::Decompression)
    } else {
        let big_c0 = decoding_of(c0).unwrap();
        let big_c1 = decoding_of(c1).unwrap();
        if encode(pt_sub(big_c0, big_c1)) != encode(base_mul(c_server)) {
            Err(DkgError::ShareVerification)
        } else {
            let p_server = sc_add(c_server, s_server);
            let pk_server = base_mul(p_server);
            let pk_client = pt_add(pt_add(pt_add(big_c0, big_c1), big_s0), big_s1);
            Ok((p_server, pk_server, pk_client, pt_add(pk_client, pk_server)))
        }
    }
}

/// The server's role in key generation.
pub struct ServerDkg;

#[allow(non_snake_case)]
impl ServerDkg {
    /// Draws `s0, s1`, commits to them and proves knowledge of `s0`. Returns
    /// `(s0, s1, S0, S1, message)`.
    pub fn start_first_round() -> (r: (ScalarValue, ScalarValue, CurvePoint, CurvePoint, DkgServerRound1))
        ensures
            r.2.model() == base_mul(r.0.value()),
            r.3.model() == base_mul(r.1.value()),
            honest_round1(server_tag(), r.0.value(), r.1.value(), r.4.S0@, r.4.S1@, r.4.R@, r.4.mu.value()),
    {
        let parts = start_round1(false);
        let message = DkgServerRound1 { S0: parts.c0, S1: parts.c1, R: parts.nonce, mu: parts.mu };
        (parts.x0, parts.x1, parts.big_x0, parts.big_x1, message)
    }

    /// Verifies the client's proof of knowledge of `c0`.
    pub fn finalize_first_round(client_message: &DkgClientRound1) -> (r: Result<(), DkgError>)
        ensures
            r == pok_outcome(client_tag(), client_message.C0@, client_message.R@, client_message.mu.value()),
    {
        check_pok(true, &client_message.C0, &client_message.R, &client_message.mu)
    }

    /// Keeps `s_server = s0 − s1` and sends `s_client = s0 + s1`.
    pub fn start_second_round(s0: &ScalarValue, s1: &ScalarValue) -> (r: (ScalarValue, DkgServerRound2))
        ensures
            r.0.value() == sc_sub(s0.value(), s1.value()),
            r.1.s_client.value() == sc_add(s0.value(), s1.value()),
    {
        let s_client = scalar_add(s0, s1);
        let s_server = scalar_sub(s0, s1);
        (s_server, DkgServerRound2 { s_client })
    }

    /// Checks `C0 − C1 == c_server·B` and derives
    /// `(p_server, P_server, P_client, P_joint)`.
    pub fn finalize_second_round(
        s_server: &ScalarValue,
        S0: &CurvePoint,
        S1: &CurvePoint,
        client_message_1: &DkgClientRound1,
        client_message_2: &DkgClientRound2,
    ) -> (r: Result<(ScalarValue, CurvePoint, CurvePoint, CurvePoint), DkgError>)
        ensures
            keys_view(r) == server_round2_outcome(
                s_server.value(),
                S0.model(),
                S1.model(),
                client_message_1.C0@,
                client_message_1.C1@,
                client_message_2.c_server.value(),
            ),
    {
        let C0 = match decompress_point(&client_message_1.C0) {
            Some(p) => p,
            None => return Err(DkgError::Decompression),
        };
        let C1 = match decompress_point(&client_message_1.C1) {
            Some(p) => p,
            None => return Err(DkgError::Decompression),
        };
        let C_server = point_sub(&C0, &C1);
        let expected_C_server = mul_base(&client_message_2.c_server);
        if !bytes_eq(&C_server.compress(), &expected_C_server.compress()) {
            return Err(DkgError::ShareVerification);
        }
        let p_server = scalar_add(&client_message_2.c_server, s_server);
        let P_server = mul_base(&p_server);
        let C_sum = point_add(&C0, &C1);
        let with_s0 = point_add(&C_sum, S0);
        let P_client = point_add(&with_s0, S1);
        let P_joint = point_add(&P_client, &P_server);
        Ok((p_server, P_server, P_client, P_joint))
    }
}

} // verus!
