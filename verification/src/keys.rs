//! Secret keys, public keys and keypairs.
//!
//! A secret key holds one scalar `x`.  The matching public key is
//! `p_pub = x * g2`, where `g2` is the canonical generator of the public-key
//! group, so signer and verifier agree on the base point by construction.
//! Verification checks the pairing equation `e(s, g2) == e(H(m), p_pub)`,
//! which holds of a signature `s = x * H(m)` by bilinearity.

use vstd::prelude::*;

use bls12_381::{G1Projective, G2Projective, Scalar};
use rand::Rng;
use rand_core::RngCore;

use crate::group::{
    g1_scalar_mul, g2_generator, g2_generator_point, g2_scalar_mul, gt_eq, mul_g1, mul_g2,
    pairing_of, pairing_points, scalar_random,
};
use crate::hash::{hash_message, protocol_hash};
use crate::sig::Signature;

verus! {

/// `s` is the point `k * p`, and multiplying it by any further scalar lands
/// on the same point as multiplying `p` by that scalar first and by `k`
/// after: the shape in which a signing operation reports its result.
pub open spec fn scaled_from(s: G1Projective, p: G1Projective, k: Scalar) -> bool {
    &&& s == mul_g1(p, k)
    &&& forall|c: Scalar| #[trigger] mul_g1(s, c) == mul_g1(mul_g1(p, c), k)
}

/// What verification checks: the pairing of the signature with the canonical
/// G2 generator equals the pairing of the message's hash point with the
/// public key.
pub open spec fn accepts(pk: PublicKey, m: Seq<u8>, sig: Signature) -> bool {
    pairing_of(sig.point(), g2_generator_point()) == pairing_of(
        protocol_hash(m),
        pk.key_point(),
    )
}

/// A signing key: one secret scalar.
pub struct SecretKey {
    x: Scalar,
}

impl SecretKey {
    /// The secret scalar.
    pub closed spec fn scalar(self) -> Scalar {
        self.x
    }

    /// Samples a fresh secret scalar from the given randomness source.  The
    /// zero scalar, under which every signature would be the identity point,
    /// is drawn with negligible probability and is not rejected here.
    pub fn generate<R: RngCore>(csprng: R) -> SecretKey {
        SecretKey { x: scalar_random(csprng) }
    }

    /// Signs a message: `s = x * H(m)`.
    pub fn sign(&self, message: &[u8]) -> (sig: Signature)
        ensures
            scaled_from(sig.point(), protocol_hash(message@), self.scalar()),
    {
        let h = hash_message(message);
        Signature::from_point(g1_scalar_mul(&h, &self.x))
    }

    /// Signs an already-blinded point: `s = x * blinded_message`.  The signer
    /// neither computes nor sees the hash of the underlying message.
    pub fn blind_sign(&self, blinded_message: &G1Projective) -> (sig: Signature)
        ensures
            scaled_from(sig.point(), *blinded_message, self.scalar()),
    {
        Signature::from_point(g1_scalar_mul(blinded_message, &self.x))
    }
}

/// A verification key: the public point `p_pub = x * g2`, where `g2` is the
/// canonical generator of the public-key group.
pub struct PublicKey {
    p_pub: G2Projective,
}

impl PublicKey {
    /// The public point `x * g2`.
    pub closed spec fn key_point(self) -> G2Projective {
        self.p_pub
    }

    /// The key is the image of `sk`: its public point is the secret scalar
    /// times the canonical G2 generator, and — by bilinearity of the
    /// pairing — pairing any G1 point against the public point equals
    /// pairing that point, multiplied by the secret scalar, against the
    /// generator.
    pub open spec fn derived_from(self, sk: SecretKey) -> bool {
        &&& self.key_point() == mul_g2(g2_generator_point(), sk.scalar())
        &&& forall|p: G1Projective| #[trigger] pairing_of(p, self.key_point()) == pairing_of(
            mul_g1(p, sk.scalar()),
            g2_generator_point(),
        )
    }

    /// Derives the public key of a secret key: `p_pub = x * generator`.
    pub fn from_secret(secret: &SecretKey) -> (pk: PublicKey)
        ensures
            pk.derived_from(*secret),
    {
        let base = g2_generator();
        let p_pub = g2_scalar_mul(&base, &secret.x);
        PublicKey { p_pub }
    }

    /// Checks a signature: recomputes the message's hash point and compares
    /// the pairings `e(s, g2)` and `e(H(m), p_pub)`.  Returning false is a
    /// routine outcome for an invalid or tampered signature, not an error.
    pub fn verify(&self, message: &[u8], signature: &Signature) -> (valid: bool)
        ensures
            valid == accepts(*self, message@, *signature),
    {
        let h = hash_message(message);
        let base = g2_generator();
        let lhs = pairing_points(signature.as_point(), &base);
        let rhs = pairing_points(&h, &self.p_pub);
        gt_eq(&lhs, &rhs)
    }
}

/// A secret key bound to the public key derived from it.
pub struct Keypair {
    pub secret: SecretKey,
    pub public: PublicKey,
}

impl Keypair {
    /// The two halves match: the public key is derived from the secret key.
    pub open spec fn wf(self) -> bool {
        self.public.derived_from(self.secret)
    }

    /// Generates a secret key and derives the matching public key; the only
    /// construction path, so the halves cannot drift apart.
    pub fn generate<R: Rng>(csprng: &mut R) -> (kp: Keypair)
        ensures
            kp.wf(),
    {
        let secret = SecretKey::generate(&mut *csprng);
        let public = PublicKey::from_secret(&secret);
        Keypair { secret, public }
    }

    /// Signs with the secret half.  The signature it returns verifies under
    /// the public half.
    pub fn sign(&self, message: &[u8]) -> (sig: Signature)
        ensures
            scaled_from(sig.point(), protocol_hash(message@), self.secret.scalar()),
            self.wf() ==> accepts(self.public, message@, sig),
    {
        let sig = self.secret.sign(message);
        proof {
            if self.wf() {
                crate::laws::lemma_direct_correctness(self.secret, self.public, message@, sig);
            }
        }
        sig
    }

    /// Verifies with the public half.
    pub fn verify(&self, message: &[u8], signature: &Signature) -> (valid: bool)
        ensures
            valid == accepts(self.public, message@, *signature),
    {
        self.public.verify(message, signature)
    }
}

} // verus!
