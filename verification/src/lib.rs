//! A BLS signature scheme over the BLS12-381 pairing-friendly curve, with a
//! blind-signature extension: a requester can obtain a valid signature on a
//! message without showing the message to the signer.
//!
//! The curve arithmetic, the pairing and the hash-to-curve map come from the
//! `bls12_381` crate and are trusted; the protocol logic built on them — key
//! generation, signing, blinding, unblinding and pairing-based verification —
//! is verified, and the two correctness laws (a direct signature verifies;
//! a blinded, signed and unblinded message yields exactly the direct
//! signature) are proved from the stated group laws.

pub mod blind;
pub mod group;
pub mod hash;
pub mod keys;
pub mod laws;
pub mod sig;

pub use blind::{BlindingError, BlsBlind};
pub use group::{
    compressed_g1, display_g1, g2_constant, g2_generator_point, hash_to_g1, mul_g1, mul_g2,
    pairing_of, scalar_is_zero,
};
pub use hash::protocol_hash;
pub use keys::{accepts, scaled_from, Keypair, PublicKey, SecretKey};
pub use laws::{lemma_blind_correctness, lemma_direct_correctness};
pub use sig::Signature;
