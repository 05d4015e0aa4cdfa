//! Opaque cryptographic payloads carried by shielded data.
//!
//! The verifier never interprets these values itself: proofs and signatures
//! are checked by external oracles, so the types only fix sizes and carry
//! bytes through.

use vstd::prelude::*;

verus! {

/// A Groth16 zero-knowledge proof, as its 192-byte encoding.
#[derive(Clone, Copy, Debug, PartialEq, Eq)]
pub struct Groth16Proof(pub [u8; 192]);

/// A proof for the Orchard proof system, as its variable-length encoding.
#[derive(Clone, Debug, PartialEq, Eq)]
pub struct Halo2Proof(pub Vec<u8>);

/// The verification key of the aggregate signature over all join-splits.
#[derive(Clone, Copy, Debug, PartialEq, Eq)]
pub struct Ed25519VerificationKeyBytes(pub [u8; 32]);

/// The aggregate signature over all join-splits of a transaction.
#[derive(Clone, Copy, Debug, PartialEq, Eq)]
pub struct Ed25519Signature(pub [u8; 64]);

/// A spend-authorization or binding signature for the Sapling pool.
#[derive(Clone, Copy, Debug, PartialEq, Eq)]
pub struct RedJubjubSignature(pub [u8; 64]);

/// A spend-authorization or binding signature for the Orchard pool.
#[derive(Clone, Copy, Debug, PartialEq, Eq)]
pub struct RedPallasSignature(pub [u8; 64]);

} // verus!
