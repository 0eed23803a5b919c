//! The message-hashing construction shared by signing, verification and
//! blinding.
//!
//! Every path that turns a message into a curve point goes through
//! [`hash_message`], so signer, verifier and requester agree on the map by
//! construction.  The domain-separation tag is fixed here; changing it is a
//! breaking protocol change, since signatures made under one tag never verify
//! under another.

use vstd::prelude::*;

use bls12_381::G1Projective;

use crate::group::{hash_message_to_g1, hash_to_g1};
use vstd::string::StringSliceAdditionalSpecFns;

verus! {

/// The byte sequence of the protocol's domain-separation tag.
pub open spec fn domain_tag_spec() -> Seq<u8> {
    "BLS-BLIND-SIG-V1-BLS12381G1-XMD-SHA512".spec_bytes()
}

/// The protocol's domain-separation tag, mixed into every hash-to-curve call.
pub fn domain_tag() -> (tag: &'static [u8])
    ensures
        tag@ == domain_tag_spec(),
{
    "BLS-BLIND-SIG-V1-BLS12381G1-XMD-SHA512".as_bytes()
}

/// The curve point the protocol assigns to a message: the hash-to-curve image
/// of the message under the protocol's domain-separation tag.
pub open spec fn protocol_hash(m: Seq<u8>) -> G1Projective {
    hash_to_g1(domain_tag_spec(), m)
}

/// Maps a message to its point in the signature group.
pub fn hash_message(message: &[u8]) -> (h: G1Projective)
    ensures
        h == protocol_hash(message@),
{
    let tag = domain_tag();
    hash_message_to_g1(tag, message)
}

} // verus!
