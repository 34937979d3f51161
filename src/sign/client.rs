//! The client's side of signing.
use vstd::prelude::*;
use crate::curve::{
    append_base64, base64_of, base_mul, commits_to, decoding_of, encode,
    pt_add, pt_mul, pt_sub, sc_add, sc_mul, scalar_bytes, decompress_point, mul_base,
    point_add, point_mul, point_sub, points_equal, scalar_add, scalar_mul, CurvePoint,
    ScalarValue,
};
use crate::sign::server::{SignServerRound1, SignServerRound2};
use crate::sign::{
    binding_factor, binding_factor_of, challenge_of, client_nonce, draw_nonces, joint_challenge,
    nonce_point, server_nonce, signature_view, SignError,
};

verus! {

/// The client's first-round message: nonce commitments `D = d·B`, `E = e·B`.
#[allow(non_snake_case)]
#[derive(Clone, Copy)]
pub struct SignClientRound1 {
    pub D_client: [u8; 32],
    pub E_client: [u8; 32],
}

impl SignClientRound1 {
    /// The fields in order, each in standard base64.
    pub fn to_string(&self) -> (r: String)
        ensures
            r@ == base64_of(self.D_client@) + base64_of(self.E_client@),
    {
        let mut s = String::new();
        append_base64(&mut s, &self.D_client);
        append_base64(&mut s, &self.E_client);
        s
    }
}

/// The client's second-round message: its partial signature.
#[derive(Clone, Copy)]
pub struct SignClientRound2 {
    pub z_client: ScalarValue,
}

impl SignClientRound2 {
    /// The partial signature in standard base64.
    pub fn to_string(&self) -> (r: String)
        ensures
            r@ == base64_of(scalar_bytes(self.z_client.value())),
    {
        self.z_client.to_base64()
    }
}

/// The client's second signing round: with both sides' nonce points decoded,
/// `R = R_client + R_server` and `z_client = d + e·ρ_client + p_client·c`.
pub open spec fn client_partial_outcome(
    p_client: int,
    joint_key: Seq<u8>,
    m: Seq<u8>,
    d: int,
    e: int,
    client_d: Seq<u8>,
    client_e: Seq<u8>,
    server_d: Seq<u8>,
    server_e: Seq<u8>,
) -> Result<((int, int), int), SignError> {
    if client_nonce(m, client_d, client_e).is_none() || server_nonce(m, server_d, server_e).is_none() {
        Err(SignError::Decompression)
    } else {
        let r = pt_add(client_nonce(m, client_d, client_e).unwrap(), server_nonce(m, server_d, server_e).unwrap());
        let rho = binding_factor(crate::transcript::client_tag(), m, client_d, client_e);
        let c = joint_challenge(encode(r), m, joint_key);
        Ok((r, sc_add(sc_add(d, sc_mul(e, rho)), sc_mul(p_client, c))))
    }
}

/// The model of the client's second-round result.
pub open spec fn client_partial_view(r: Result<(CurvePoint, SignClientRound2), SignError>) -> Result<((int, int), int), SignError> {
    match r {
        Ok(p) => Ok((p.0.model(), p.1.z_client.value())),
        Err(e) => Err(e),
    }
}

/// Combining on the client's side: the server's partial signature must meet
/// `z_server·B == R_server − c·P_server`; the signature is then
/// `(R, z_client + z_server)`.
pub open spec fn client_combine_outcome(
    joint_key: Seq<u8>,
    server_key: Seq<u8>,
    m: Seq<u8>,
    client_d: Seq<u8>,
    client_e: Seq<u8>,
    z_client: int,
    server_d: Seq<u8>,
    server_e: Seq<u8>,
    z_server: int,
) -> Result<(Seq<u8>, int), SignError> {
    if client_nonce(m, client_d, client_e).is_none() || server_nonce(m, server_d, server_e).is_none()
        || decoding_of(server_key).is_none() {
        Err(SignError::Decompression)
    } else {
        let r_client = client_nonce(m, client_d, client_e).unwrap();
        let r_server = server_nonce(m, server_d, server_e).unwrap();
        let r = pt_add(r_client, r_server);
        let c = joint_challenge(encode(r), m, joint_key);
        let y = decoding_of(server_key).unwrap();
        if base_mul(z_server) != pt_sub(r_server, pt_mul(y, c)) {
            Err(SignError::PartialSignatureVerification)
        } else {
            Ok((encode(r), sc_add(z_client, z_server)))
        }
    }
}

/// The client's role in signing.
pub struct ClientSign;

#[allow(non_snake_case)]
impl ClientSign {
    /// Draws the nonces `(d, e)` and commits to them. Returns
    /// `(d, e, message)`.
    pub fn first_round() -> (r: (ScalarValue, ScalarValue, SignClientRound1))
        ensures
            commits_to(r.2.D_client@, r.0.value()),
            commits_to(r.2.E_client@, r.1.value()),
    {
        let (d, e, big_d, big_e) = draw_nonces();
        (d, e, SignClientRound1 { D_client: big_d, E_client: big_e })
    }

    /// Computes `R` and the client's partial signature over `message`.
    pub fn second_round(
        p_client: &ScalarValue,
        P_joint: &[u8; 32],
        message: &[u8],
        d_client: &ScalarValue,
        e_client: &ScalarValue,
        client_message: &SignClientRound1,
        server_message: &SignServerRound1,
    ) -> (r: Result<(CurvePoint, SignClientRound2), SignError>)
        ensures
            client_partial_view(r) == client_partial_outcome(
                p_client.value(),
                P_joint@,
                message@,
                d_client.value(),
                e_client.value(),
                client_message.D_client@,
                client_message.E_client@,
                server_message.D_server@,
                server_message.E_server@,
            ),
    {
        let rho_client = binding_factor_of(true, message, &client_message.D_client, &client_message.E_client);
        let rho_server = binding_factor_of(false, message, &server_message.D_server, &server_message.E_server);
        let R_client = match nonce_point(true, message, &rho_client, &client_message.D_client, &client_message.E_client) {
            Some(p) => p,
            None => return Err(SignError::Decompression),
        };
        let R_server = match nonce_point(false, message, &rho_server, &server_message.D_server, &server_message.E_server) {
            Some(p) => p,
            None => return Err(SignError::Decompression),
        };
        let R = point_add(&R_client, &R_server);
        let c = challenge_of(&R, message, P_joint);
        let e_rho = scalar_mul(e_client, &rho_client);
        let nonce_part = scalar_add(d_client, &e_rho);
        let key_part = scalar_mul(p_client, &c);
        let z_client = scalar_add(&nonce_part, &key_part);
        Ok((R, SignClientRound2 { z_client }))
    }

    /// Verifies the server's partial signature against its public key share
    /// and combines both into `(R_joint, z_joint)`.
    pub fn combine_sigs(
        P_joint: &[u8; 32],
        P_server: &[u8; 32],
        message: &[u8],
        client_message_1: &SignClientRound1,
        client_message_2: &SignClientRound2,
        server_message_1: &SignServerRound1,
        server_message_2: &SignServerRound2,
    ) -> (r: Result<([u8; 32], ScalarValue), SignError>)
        ensures
            signature_view(r) == client_combine_outcome(
                P_joint@,
                P_server@,
                message@,
                client_message_1.D_client@,
                client_message_1.E_client@,
                client_message_2.z_client.value(),
                server_message_1.D_server@,
                server_message_1.E_server@,
                server_message_2.z_server.value(),
            ),
    {
        let rho_client = binding_factor_of(true, message, &client_message_1.D_client, &client_message_1.E_client);
        let R_client = match nonce_point(true, message, &rho_client, &client_message_1.D_client, &client_message_1.E_client) {
            Some(p) => p,
            None => return Err(SignError::Decompression),
        };
        let rho_server = binding_factor_of(false, message, &server_message_1.D_server, &server_message_1.E_server);
        let R_server = match nonce_point(false, message, &rho_server, &server_message_1.D_server, &server_message_1.E_server) {
            Some(p) => p,
            None => return Err(SignError::Decompression),
        };
        let R = point_add(&R_client, &R_server);
        let c = challenge_of(&R, message, P_joint);
        let partial_signature_1 = mul_base(&server_message_2.z_server);
        let Y_server = match decompress_point(P_server) {
            Some(p) => p,
            None => return Err(SignError::Decompression),
        };
        let key_part = point_mul(&Y_server, &c);
        let partial_signature_2 = point_sub(&R_server, &key_part);
        if !points_equal(&partial_signature_1, &partial_signature_2) {
            return Err(SignError::PartialSignatureVerification);
        }
        let R_joint = R.compress();
        let z_joint = scalar_add(&client_message_2.z_client, &server_message_2.z_server);
        Ok((R_joint, z_joint))
    }
}

} // verus!
