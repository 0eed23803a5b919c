//! The requester's side of blind signing.
//!
//! A `BlsBlind` is one blinding session: it holds a fresh random blinding
//! factor `r` and the blinded message point `r^-1 * H(m)`.  The blinded point
//! goes to the signer, who multiplies it by the secret scalar without seeing
//! the message; multiplying the returned signature by `r` then removes the
//! blinding, leaving exactly the direct signature `x * H(m)`.
//!
//! `unblind` takes the context by value, so a blinding factor cannot be spent
//! twice: reuse is a compile-time impossibility, not a runtime check.

use vstd::prelude::*;

use bls12_381::{G1Projective, Scalar};
use rand_core::RngCore;

use crate::group::{
    display_g1, g1_scalar_mul, g1_to_display, mul_g1, scalar_invert, scalar_is_zero, scalar_random,
};
use crate::hash::{hash_message, protocol_hash};
use crate::keys::PublicKey;
use crate::sig::Signature;

verus! {

/// A failure of blinding-context construction.
#[derive(Clone, Copy, Debug, PartialEq, Eq, Structural)]
pub enum BlindingError {
    /// The blinding scalar was the additive identity, the one scalar with no
    /// multiplicative inverse.
    InversionFailure,
}

/// One blinding session: the blinding factor and the blinded message point.
pub struct BlsBlind {
    r: Scalar,
    blinded_message: G1Projective,
}

impl BlsBlind {
    /// The blinding factor.
    pub closed spec fn factor(self) -> Scalar {
        self.r
    }

    /// The blinded message point.
    pub closed spec fn blinded_point(self) -> G1Projective {
        self.blinded_message
    }

    /// The context blinds `m`: multiplying the blinded point back by the
    /// blinding factor recovers the hash point of the message.
    pub open spec fn blinds(self, m: Seq<u8>) -> bool {
        mul_g1(self.blinded_point(), self.factor()) == protocol_hash(m)
    }

    /// Builds a context over an explicitly given blinding scalar: computes
    /// `H(m)` and the blinded point `r^-1 * H(m)`.  Fails, rather than
    /// proceeding, exactly when `r` has no inverse — that is, when it is
    /// zero.  The signer's public key is accepted for future extension
    /// (key-specific domain separation) and is not yet used.
    pub fn new_with_scalar(r: Scalar, message: &[u8], _public: &PublicKey) -> (res: Result<
        BlsBlind,
        BlindingError,
    >)
        ensures
            res is Ok <==> !scalar_is_zero(r),
            res matches Ok(ctx) ==> ctx.blinds(message@) && ctx.factor() == r,
            res matches Err(e) ==> e == BlindingError::InversionFailure,
    {
        let h = hash_message(message);
        match scalar_invert(&r) {
            Some(r_inv) => {
                let blinded = g1_scalar_mul(&h, &r_inv);
                Ok(BlsBlind { r, blinded_message: blinded })
            },
            None => Err(BlindingError::InversionFailure),
        }
    }

    /// Starts a blinding session for a message: samples a fresh blinding
    /// scalar and blinds the message's hash point with its inverse.  The
    /// error is only reachable on the negligible draw of the zero scalar,
    /// and is reported rather than crashed on.
    pub fn new<R: RngCore>(csrng: R, message: &[u8], public: &PublicKey) -> (res: Result<
        BlsBlind,
        BlindingError,
    >)
        ensures
            res matches Ok(ctx) ==> ctx.blinds(message@),
            res matches Err(e) ==> e == BlindingError::InversionFailure,
    {
        let r = scalar_random(csrng);
        Self::new_with_scalar(r, message, public)
    }

    /// The blinded message point, for transport to the signer.
    pub fn blinded_message(&self) -> (p: G1Projective)
        ensures
            p == self.blinded_point(),
    {
        self.blinded_message
    }

    /// Consumes the session and removes the blinding factor from the
    /// signer's response: `s = r * blind_signature`.  Taking `self` by value
    /// makes a second unblinding with the same factor impossible.
    pub fn unblind(self, signature: Signature) -> (unblinded: Signature)
        ensures
            unblinded.point() == mul_g1(signature.point(), self.factor()),
    {
        Signature::from_point(g1_scalar_mul(signature.as_point(), &self.r))
    }

    /// A textual rendering of the blinded message point.
    pub fn to_string(&self) -> (text: String)
        ensures
            text@ == display_g1(self.blinded_point()),
    {
        g1_to_display(&self.blinded_message)
    }
}

} // verus!
