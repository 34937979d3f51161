//! The server's side of signing.
use vstd::prelude::*;
use crate::curve::{
    append_base64, base64_of, base_mul, commits_to, decoding_of, encode,
    pt_add, pt_mul, sc_add, sc_mul, sc_sub, scalar_bytes, decompress_point, mul_base,
    point_add, point_mul, points_equal, scalar_add, scalar_mul, scalar_sub, CurvePoint,
    ScalarValue,
};
use crate::sign::client::{SignClientRound1, SignClientRound2};
use crate::sign::{
    binding_factor, binding_factor_of, challenge_of, client_nonce, draw_nonces, joint_challenge,
    nonce_point, server_nonce, signature_view, SignError,
};

verus! {

/// The server's first-round message: nonce commitments `D = d·B`, `E = e·B`.
#[allow(non_snake_case)]
#[derive(Clone, Copy)]
pub struct SignServerRound1 {
    pub D_server: [u8; 32],
    pub E_server: [u8; 32],
}

impl SignServerRound1 {
    /// The fields in order, each in standard base64.
    pub fn to_string(&self) -> (r: String)
        ensures
            r@ == base64_of(self.D_server@) + base64_of(self.E_server@),
    {
        let mut s = String::new();
        append_base64(&mut s, &self.D_server);
        append_base64(&mut s, &self.E_server);
        s
    }
}

/// The server's second-round message: its partial signature.
#[derive(Clone, Copy)]
pub struct SignServerRound2 {
    pub z_server: ScalarValue,
}

impl SignServerRound2 {
    /// The partial signature in standard base64.
    pub fn to_string(&self) -> (r: String)
        ensures
            r@ == base64_of(scalar_bytes(self.z_server.value())),
    {
        self.z_server.to_base64()
    }
}

/// The server's second signing round: with both sides' nonce points decoded,
/// `R = R_client + R_server` and `z_server = d + e·ρ_server − p_server·c`.
pub open spec fn server_partial_outcome(
    p_server: int,
    joint_key: Seq<u8>,
    m: Seq<u8>,
    d: int,
    e: int,
    client_d: Seq<u8>,
    client_e: Seq<u8>,
    server_d: Seq<u8>,
    server_e: Seq<u8>,
) -> Result<((int, int), int), SignError> {
    if client_nonce(m, client_d, client_e).is_none() || server_nonce(m, server_d, server_e).is_none() {
        Err(SignError::Decompression)
    } else {
        let r = pt_add(client_nonce(m, client_d, client_e).unwrap(), server_nonce(m, server_d, server_e).unwrap());
        let rho = binding_factor(crate::transcript::server_tag(), m, server_d, server_e);
        let c = joint_challenge(encode(r), m, joint_key);
        Ok((r, sc_sub(sc_add(d, sc_mul(e, rho)), sc_mul(p_server, c))))
    }
}

/// The model of the server's second-round result.
pub open spec fn server_partial_view(r: Result<(CurvePoint, SignServerRound2), SignError>) -> Result<((int, int), int), SignError> {
    match r {
        Ok(p) => Ok((p.0.model(), p.1.z_server.value())),
        Err(e) => Err(e),
    }
}

/// Combining on the server's side: the client's partial signature must meet
/// `z_client·B == R_client + c·P_client`; the signature is then
/// `(R, z_client + z_server)`.
pub open spec fn server_combine_outcome(
    joint_key: Seq<u8>,
    client_key: Seq<u8>,
    m: Seq<u8>,
    client_d: Seq<u8>,
    client_e: Seq<u8>,
    z_client: int,
    server_d: Seq<u8>,
    server_e: Seq<u8>,
    z_server: int,
) -> Result<(Seq<u8>, int), SignError> {
    if client_nonce(m, client_d, client_e).is_none() || server_nonce(m, server_d, server_e).is_none()
        || decoding_of(client_key).is_none() {
        Err(SignError::Decompression)
    } else {
        let r_client = client_nonce(m, client_d, client_e).unwrap();
        let r_server = server_nonce(m, server_d, server_e).unwrap();
        let r = pt_add(r_client, r_server);
        let c = joint_challenge(encode(r), m, joint_key);
        let y = decoding_of(client_key).unwrap();
        if base_mul(z_client) != pt_add(r_client, pt_mul(y, c)) {
            Err(SignError::PartialSignatureVerification)
        } else {
            Ok((encode(r), sc_add(z_client, z_server)))
        }
    }
}

/// The server's role in signing.
pub struct ServerSign;

#[allow(non_snake_case)]
impl ServerSign {
    /// Draws the nonces `(d, e)` and commits to them. Returns
    /// `(d, e, message)`.
    pub fn first_round() -> (r: (ScalarValue, ScalarValue, SignServerRound1))
        ensures
            commits_to(r.2.D_server@, r.0.value()),
            commits_to(r.2.E_server@, r.1.value()),
    {
        let (d, e, big_d, big_e) = draw_nonces();
        (d, e, SignServerRound1 { D_server: big_d, E_server: big_e })
    }

    /// Computes `R` and the server's partial signature over `message`.
    pub fn second_round(
        p_server: &ScalarValue,
        P_joint: &[u8; 32],
        message: &[u8],
        d_server: &ScalarValue,
        e_server: &ScalarValue,
        client_message: &SignClientRound1,
        server_message: &SignServerRound1,
    ) -> (r: Result<(CurvePoint, SignServerRound2), SignError>)
        ensures
            server_partial_view(r) == server_partial_outcome(
                p_server.value(),
                P_joint@,
                message@,
                d_server.value(),
                e_server.value(),
                client_message.D_client@,
                client_message.E_client@,
                server_message.D_server@,
                server_message.E_server@,
            ),
    {
        let rho_client = binding_factor_of(true, message, &client_message.D_client, &client_message.E_client);
        let rho_server = binding_factor_of(false, message, &server_message.D_server, &server_message.E_server);
        let R_client = match nonce_point(true, message, &rho_client, &client_message.D_client, &client_message.E_client) {
            Some(p) => p,
            None => return Err(SignError::Decompression),
        };
        let R_server = match nonce_point(false, message, &rho_server, &server_message.D_server, &server_message.E_server) {
            Some(p) => p,
            None => return Err(SignError::Decompression),
        };
        let R = point_add(&R_client, &R_server);
        let c = challenge_of(&R, message, P_joint);
        let e_rho = scalar_mul(e_server, &rho_server);
        let nonce_part = scalar_add(d_server, &e_rho);
        let key_part = scalar_mul(p_server, &c);
        let z_server = scalar_sub(&nonce_part, &key_part);
        Ok((R, SignServerRound2 { z_server }))
    }

    /// Verifies the client's partial signature against its public key share
    /// and combines both into `(R_joint, z_joint)`.
    pub fn combine_sigs(
        P_joint: &[u8; 32],
        P_client: &[u8; 32],
        message: &[u8],
        client_message_1: &SignClientRound1,
        client_message_2: &SignClientRound2,
        server_message_1: &SignServerRound1,
        server_message_2: &SignServerRound2,
    ) -> (r: Result<([u8; 32], ScalarValue), SignError>)
        ensures
            signature_view(r) == server_combine_outcome(
                P_joint@,
                P_client@,
                message@,
                client_message_1.D_client@,
                client_message_1.E_client@,
                client_message_2.z_client.value(),
                server_message_1.D_server@,
                server_message_1.E_server@,
                server_message_2.z_server.value(),
            ),
    {
        let rho_client = binding_factor_of(true, message, &client_message_1.D_client, &client_message_1.E_client);
        let R_client = match nonce_point(true, message, &rho_client, &client_message_1.D_client, &client_message_1.E_client) {
            Some(p) => p,
            None => return Err(SignError::Decompression),
        };
        let rho_server = binding_factor_of(false, message, &server_message_1.D_server, &server_message_1.E_server);
        let R_server = match nonce_point(false, message, &rho_server, &server_message_1.D_server, &server_message_1.E_server) {
            Some(p) => p,
            None => return Err(SignError::Decompression),
        };
        let R = point_add(&R_client, &R_server);
        let c = challenge_of(&R, message, P_joint);
        let expected_1 = mul_base(&client_message_2.z_client);
        let Y_client = match decompress_point(P_client) {
            Some(p) => p,
            None => return Err(SignError::Decompression),
        };
        let key_part = point_mul(&Y_client, &c);
        let expected_2 = point_add(&R_client, &key_part);
        if !points_equal(&expected_1, &expected_2) {
            return Err(SignError::PartialSignatureVerification);
        }
        let R_joint = R.compress();
        let z_joint = scalar_add(&client_message_2.z_client, &server_message_2.z_server);
        Ok((R_joint, z_joint))
    }
}

} // verus!
