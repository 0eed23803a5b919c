//! The correctness laws of the scheme, proved from the group laws stated at
//! the trusted boundary.

use vstd::prelude::*;

use crate::blind::BlsBlind;
use crate::group::{g2_generator_point, mul_g1, pairing_of};
use crate::hash::protocol_hash;
use crate::keys::{accepts, scaled_from, PublicKey, SecretKey};
use crate::sig::Signature;

verus! {

/// Direct correctness: for every keypair and every message, the signature
/// `x * H(m)` produced with the secret scalar `x` passes verification under
/// the public key derived from `x`.
pub proof fn lemma_direct_correctness(sk: SecretKey, pk: PublicKey, m: Seq<u8>, sig: Signature)
    requires
        pk.derived_from(sk),
        sig.point() == mul_g1(protocol_hash(m), sk.scalar()),
    ensures
        accepts(pk, m, sig),
{
    assert(pairing_of(protocol_hash(m), pk.key_point()) == pairing_of(
        mul_g1(protocol_hash(m), sk.scalar()),
        g2_generator_point(),
    ));
}

/// Blind-signing correctness: for every keypair, every message and every
/// blinding context over an invertible factor, signing the blinded point and
/// unblinding the result yields exactly the direct signature `x * H(m)`,
/// which therefore verifies under the matching public key just as a plain
/// signature would.
pub proof fn lemma_blind_correctness(
    sk: SecretKey,
    pk: PublicKey,
    m: Seq<u8>,
    ctx: BlsBlind,
    blind_sig: Signature,
    unblinded: Signature,
)
    requires
        pk.derived_from(sk),
        ctx.blinds(m),
        scaled_from(blind_sig.point(), ctx.blinded_point(), sk.scalar()),
        unblinded.point() == mul_g1(blind_sig.point(), ctx.factor()),
    ensures
        unblinded.point() == mul_g1(protocol_hash(m), sk.scalar()),
        accepts(pk, m, unblinded),
{
    assert(mul_g1(blind_sig.point(), ctx.factor()) == mul_g1(
        mul_g1(ctx.blinded_point(), ctx.factor()),
        sk.scalar(),
    ));
    lemma_direct_correctness(sk, pk, m, unblinded);
}

} // verus!
