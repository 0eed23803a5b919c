//! The signature value type.
//!
//! A `Signature` wraps one element of the signature group and exposes no way
//! to build one from an arbitrary point: signatures come only from signing or
//! unblinding, and leave only through verification or their canonical byte
//! encoding.

use vstd::prelude::*;

use bls12_381::G1Projective;

use crate::group::{compressed_g1, g1_to_compressed};

verus! {

/// A BLS signature: one element of the signature group.
pub struct Signature {
    s: G1Projective,
}

impl Signature {
    /// The wrapped signature-group element.
    pub closed spec fn point(self) -> G1Projective {
        self.s
    }

    /// Wraps a point produced by one of the sanctioned construction paths.
    pub(crate) fn from_point(p: G1Projective) -> (sig: Signature)
        ensures
            sig.point() == p,
    {
        Signature { s: p }
    }

    /// The wrapped point, for the operations of this crate.
    pub(crate) fn as_point(&self) -> (p: &G1Projective)
        ensures
            *p == self.point(),
    {
        &self.s
    }

    /// The canonical, fixed-length compressed encoding of the signature,
    /// suitable for transport.
    pub fn to_bytes(&self) -> (bytes: Vec<u8>)
        ensures
            bytes@ == compressed_g1(self.point()),
            bytes@.len() == 48,
    {
        g1_to_compressed(&self.s)
    }
}

} // verus!
