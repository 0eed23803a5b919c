//! Trusted boundary around the pairing-curve library.
//!
//! The scalar field, the two curve groups, the pairing and the hash-to-curve
//! map are provided by `bls12_381`.  Verus sees their values as opaque; the
//! uninterpreted spec functions below give names to what the library computes,
//! and each wrapper states, as its contract, what the library's source and
//! documentation promise of the call it makes.

use vstd::prelude::*;

use bls12_381::hash_to_curve::{ExpandMsgXmd, HashToCurve};
use bls12_381::{G1Affine, G1Projective, G2Affine, G2Projective, Gt, Scalar};
use rand_core::RngCore;
use sha2::Sha512;

verus! {

#[verifier::external_type_specification]
#[verifier::external_body]
pub struct ExScalar(Scalar);

#[verifier::external_type_specification]
#[verifier::external_body]
pub struct ExG1Projective(G1Projective);

#[verifier::external_type_specification]
#[verifier::external_body]
pub struct ExG2Projective(G2Projective);

#[verifier::external_type_specification]
#[verifier::external_body]
pub struct ExGt(Gt);

/// The G1 point `k * p`: scalar multiplication in the signature group.
pub uninterp spec fn mul_g1(p: G1Projective, k: Scalar) -> G1Projective;

/// The G2 point `k * q`: scalar multiplication in the public-key group.
pub uninterp spec fn mul_g2(q: G2Projective, k: Scalar) -> G2Projective;

/// The distinguished constant points of the public-key group; index 0 is its
/// canonical generator.
pub uninterp spec fn g2_constant(index: int) -> G2Projective;

/// The canonical generator of the public-key group.
pub open spec fn g2_generator_point() -> G2Projective {
    g2_constant(0)
}

/// The value of the bilinear pairing `e(p, q)` in the target group.
pub uninterp spec fn pairing_of(p: G1Projective, q: G2Projective) -> Gt;

/// The G1 point that the hash-to-curve map assigns to a domain-separation
/// tag and a message.
pub uninterp spec fn hash_to_g1(dst: Seq<u8>, msg: Seq<u8>) -> G1Projective;

/// Whether a scalar is the additive identity of the field (the one scalar
/// without a multiplicative inverse).
pub uninterp spec fn scalar_is_zero(k: Scalar) -> bool;

/// The canonical 48-byte compressed encoding of a G1 point.
pub uninterp spec fn compressed_g1(p: G1Projective) -> Seq<u8>;

/// The textual rendering of a G1 point in its canonical affine form.
pub uninterp spec fn display_g1(p: G1Projective) -> Seq<char>;

/// Relies on `ff::Field::random` for `bls12_381::Scalar`: a scalar drawn
/// uniformly from the field using the given randomness source.  Nothing can
/// be promised of the value.
#[verifier::external_body]
pub(crate) fn scalar_random<R: RngCore>(rng: R) -> Scalar {
    <Scalar as ff::Field>::random(rng)
}

/// Relies on `Mul<&Scalar> for &G1Projective` (bls12_381): scalar
/// multiplication in the prime-order group G1.  Successive scalar
/// multiplications commute, since `(a * p) * b = (ab) * p = (ba) * p
/// = (b * p) * a` in a group of prime order with a commutative scalar field.
#[verifier::external_body]
pub(crate) fn g1_scalar_mul(p: &G1Projective, k: &Scalar) -> (r: G1Projective)
    ensures
        r == mul_g1(*p, *k),
        forall|c: Scalar| #[trigger] mul_g1(r, c) == mul_g1(mul_g1(*p, c), *k),
{
    p * k
}

/// Relies on `Mul<&Scalar> for &G2Projective` (bls12_381): scalar
/// multiplication in the prime-order group G2.  The pairing is bilinear
/// (the crate's README: "a non-degenerate bilinear pairing function e"),
/// so `e(p, k * q) = e(k * p, q)` for every G1 point `p`.
#[verifier::external_body]
pub(crate) fn g2_scalar_mul(q: &G2Projective, k: &Scalar) -> (r: G2Projective)
    ensures
        r == mul_g2(*q, *k),
        forall|p: G1Projective| #[trigger] pairing_of(p, r) == pairing_of(mul_g1(p, *k), *q),
{
    q * k
}

/// Relies on `G2Projective::generator` (bls12_381): the canonical base point
/// of the public-key group, a fixed constant of the curve.
#[verifier::external_body]
pub(crate) fn g2_generator() -> (r: G2Projective)
    ensures
        r == g2_constant(0),
{
    G2Projective::generator()
}

/// Relies on `bls12_381::pairing`, after converting both points to affine
/// form: the bilinear pairing of a G1 point and a G2 point.
#[verifier::external_body]
pub(crate) fn pairing_points(p: &G1Projective, q: &G2Projective) -> (r: Gt)
    ensures
        r == pairing_of(*p, *q),
{
    bls12_381::pairing(&G1Affine::from(p), &G2Affine::from(q))
}

/// Relies on `PartialEq for Gt` (bls12_381, derived): two target-group values
/// are equal exactly when their underlying field representations are, and the
/// representation is canonical.
#[verifier::external_body]
pub(crate) fn gt_eq(a: &Gt, b: &Gt) -> (r: bool)
    ensures
        r == (*a == *b),
{
    a == b
}

/// Relies on `Scalar::invert` (bls12_381): "Computes the multiplicative
/// inverse of this element, failing if the element is zero."  On success,
/// multiplying any G1 point first by the inverse and then by `k` restores
/// the point, since `(k^-1 k) * p = 1 * p = p`.  The `CtOption` result is
/// converted to a plain `Option`.
#[verifier::external_body]
pub(crate) fn scalar_invert(k: &Scalar) -> (r: Option<Scalar>)
    ensures
        r is Some <==> !scalar_is_zero(*k),
        (r matches Some(inv) ==> forall|p: G1Projective|
            #[trigger] mul_g1(mul_g1(p, inv), *k) == p),
{
    k.invert().into()
}

/// Relies on `HashToCurve::hash_to_curve` for `G1Projective` with
/// `ExpandMsgXmd<Sha512>` (bls12_381): the uniform hash-to-curve map of the
/// draft-irtf-cfrg-hash-to-curve construction.  The result depends on the
/// domain-separation tag and the message bytes alone, and the call returns
/// for every tag and message (its one panic needs an output length over
/// 255 digest blocks; this instantiation asks for two).
#[verifier::external_body]
pub(crate) fn hash_message_to_g1(dst: &[u8], message: &[u8]) -> (r: G1Projective)
    ensures
        r == hash_to_g1(dst@, message@),
{
    <G1Projective as HashToCurve<ExpandMsgXmd<Sha512>>>::hash_to_curve(message, dst)
}

/// Relies on `G1Affine::to_compressed` (bls12_381): the canonical 48-byte
/// compressed encoding of a G1 point, after conversion to affine form.
#[verifier::external_body]
pub(crate) fn g1_to_compressed(p: &G1Projective) -> (r: Vec<u8>)
    ensures
        r@ == compressed_g1(*p),
        r@.len() == 48,
{
    G1Affine::from(p).to_compressed().to_vec()
}

/// Relies on `Display for G1Affine` (bls12_381), after conversion to affine
/// form: a textual rendering of the point.  The affine form is canonical, so
/// the string is a function of the point alone — which would not hold of
/// rendering the projective representation directly.
#[verifier::external_body]
pub(crate) fn g1_to_display(p: &G1Projective) -> (r: String)
    ensures
        r@ == display_g1(*p),
{
    G1Affine::from(p).to_string()
}

} // verus!
