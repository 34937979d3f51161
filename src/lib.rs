//! Two-party threshold Ed25519-style signing: a distributed key generation
//! between a client and a server, then a two-round signing protocol over the
//! shares that it produced.

pub mod curve;
pub mod dkg;
pub mod laws;
pub mod sign;
pub mod transcript;
