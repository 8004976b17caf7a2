//! Boundary to the outside pairing engine (the `ark` crates, instantiated on
//! the BLS12-381 curve).
//!
//! The verified logic never looks inside a curve point or a scalar: each
//! element type of this module carries, beside the engine's own
//! representation, its canonical compressed encoding as plain bytes, and that
//! encoding is the element's view. The engine's serialization is canonical —
//! group-equal elements have equal encodings, distinct elements distinct ones
//! — so a function of a group element is also a function of its encoding,
//! which is what the uninterpreted names below stand for. Every constructor
//! of these element types computes the encoding from the carried value, so
//! the two fields of an element always describe the same group element.

use vstd::prelude::*;
use ark_serialize::CanonicalSerialize;

verus! {

/// A scalar of the engine's scalar field, opaque to the verifier. The field
/// is public so that unverified callers can hand a scalar in.
#[verifier::external_body]
pub struct FrValue(pub ark_bls12_381::Fr);

/// A first-group (G1) point of the engine in projective form, opaque to the
/// verifier.
#[verifier::external_body]
pub struct G1Value(pub ark_bls12_381::G1Projective);

/// A second-group (G2) point of the engine in projective form, opaque to the
/// verifier.
#[verifier::external_body]
pub struct G2Value(pub ark_bls12_381::G2Projective);

/// A first-group point in the engine's Miller-loop-ready form, opaque to the
/// verifier. The field is public so that unverified callers can feed it to
/// the engine's multi-Miller-loop.
#[verifier::external_body]
pub struct PreparedG1(pub ark_ec::bls12::G1Prepared<ark_bls12_381::Config>);

/// A second-group point in the engine's Miller-loop-ready form, opaque to
/// the verifier.
#[verifier::external_body]
pub struct PreparedG2(pub ark_ec::bls12::G2Prepared<ark_bls12_381::Config>);

/// The canonical encoding of the product of the two scalars with the given
/// canonical encodings.
pub uninterp spec fn fr_mul_enc(a: Seq<u8>, b: Seq<u8>) -> Seq<u8>;

/// The canonical encoding of the sum, in the first source group, of the two
/// points with the given canonical encodings.
pub uninterp spec fn g1_add_enc(a: Seq<u8>, b: Seq<u8>) -> Seq<u8>;

/// The canonical encoding of the first-group point with encoding `g`
/// multiplied by the scalar with encoding `s`.
pub uninterp spec fn g1_scale_enc(g: Seq<u8>, s: Seq<u8>) -> Seq<u8>;

/// The Miller-loop-ready form of the first-group point with encoding `g`.
pub uninterp spec fn g1_prep_of(g: Seq<u8>) -> PreparedG1;

/// The Miller-loop-ready form of the second-group point with encoding `g`.
pub uninterp spec fn g2_prep_of(g: Seq<u8>) -> PreparedG2;

/// The canonical encoding of the scalar field's multiplicative identity: the
/// 32-byte little-endian form of the integer 1.
pub open spec fn fr_one_enc() -> Seq<u8> {
    Seq::new(32, |i: int| if i == 0 { 1u8 } else { 0u8 })
}

/// An element of the scalar field, as the engine holds it, together with its
/// canonical compressed encoding. The view is the encoding.
pub struct Scalar {
    fr: FrValue,
    enc: Vec<u8>,
}

/// An element of the first source group (G1), together with its canonical
/// compressed encoding. The view is the encoding.
pub struct G1Elem {
    point: G1Value,
    enc: Vec<u8>,
}

/// An element of the second source group (G2), together with its canonical
/// compressed encoding. The view is the encoding.
pub struct G2Elem {
    point: G2Value,
    enc: Vec<u8>,
}

impl View for Scalar {
    type V = Seq<u8>;

    closed spec fn view(&self) -> Seq<u8> {
        self.enc@
    }
}

impl View for G1Elem {
    type V = Seq<u8>;

    closed spec fn view(&self) -> Seq<u8> {
        self.enc@
    }
}

impl View for G2Elem {
    type V = Seq<u8>;

    closed spec fn view(&self) -> Seq<u8> {
        self.enc@
    }
}

impl Scalar {
    /// Wraps a scalar of the engine. Relies on
    /// ark_serialize::CanonicalSerialize::serialize_compressed for Fr, which
    /// writes the canonical little-endian encoding and cannot fail on a byte
    /// vector.
    #[verifier::external_body]
    pub fn from_value(x: FrValue) -> (r: Scalar) {
        let mut enc = Vec::new();
        x.0.serialize_compressed(&mut enc).unwrap();
        Scalar { fr: x, enc }
    }

    /// The canonical encoding of this scalar.
    pub fn encoding(&self) -> (r: &Vec<u8>)
        ensures
            r@ == self@,
    {
        &self.enc
    }
}

impl G1Elem {
    /// Wraps a first-group point of the engine. Relies on
    /// ark_serialize::CanonicalSerialize::serialize_compressed, which encodes
    /// a projective point through its unique affine form: two group-equal
    /// points receive the same encoding, two distinct points distinct ones.
    #[verifier::external_body]
    pub fn from_value(p: G1Value) -> (r: G1Elem) {
        let mut enc = Vec::new();
        p.0.serialize_compressed(&mut enc).unwrap();
        G1Elem { point: p, enc }
    }

    /// The canonical encoding of this point.
    pub fn encoding(&self) -> (r: &Vec<u8>)
        ensures
            r@ == self@,
    {
        &self.enc
    }
}

impl G2Elem {
    /// Wraps a second-group point of the engine. Relies on
    /// ark_serialize::CanonicalSerialize::serialize_compressed, which encodes
    /// a projective point through its unique affine form: two group-equal
    /// points receive the same encoding, two distinct points distinct ones.
    #[verifier::external_body]
    pub fn from_value(p: G2Value) -> (r: G2Elem) {
        let mut enc = Vec::new();
        p.0.serialize_compressed(&mut enc).unwrap();
        G2Elem { point: p, enc }
    }

    /// The canonical encoding of this point.
    pub fn encoding(&self) -> (r: &Vec<u8>)
        ensures
            r@ == self@,
    {
        &self.enc
    }
}

/// The scalar field's multiplicative identity. Relies on ark_ff::One::one
/// for Fr, whose canonical encoding is the 32-byte little-endian form of 1.
#[verifier::external_body]
pub(crate) fn scalar_one() -> (r: Scalar)
    ensures
        r@ == fr_one_enc(),
{
    let fr: ark_bls12_381::Fr = ark_ff::One::one();
    let mut enc = Vec::new();
    fr.serialize_compressed(&mut enc).unwrap();
    Scalar { fr: FrValue(fr), enc }
}

/// Field multiplication. Relies on the engine's Fr multiplication: the
/// product, hence its canonical encoding, depends only on the operands.
#[verifier::external_body]
pub(crate) fn scalar_mul(a: &Scalar, b: &Scalar) -> (r: Scalar)
    ensures
        r@ == fr_mul_enc(a@, b@),
{
    let fr = a.fr.0 * b.fr.0;
    let mut enc = Vec::new();
    fr.serialize_compressed(&mut enc).unwrap();
    Scalar { fr: FrValue(fr), enc }
}

/// Group addition in G1. Relies on the engine's projective point addition:
/// the sum, hence its canonical encoding, depends only on the operands.
#[verifier::external_body]
pub(crate) fn g1_add_elem(a: &G1Elem, b: &G1Elem) -> (r: G1Elem)
    ensures
        r@ == g1_add_enc(a@, b@),
{
    let point = a.point.0 + b.point.0;
    let mut enc = Vec::new();
    point.serialize_compressed(&mut enc).unwrap();
    G1Elem { point: G1Value(point), enc }
}

/// Scalar multiplication in G1. Relies on the engine's multiplication of a
/// projective point by a scalar: the result depends only on the operands.
#[verifier::external_body]
pub(crate) fn g1_scale_elem(g: &G1Elem, s: &Scalar) -> (r: G1Elem)
    ensures
        r@ == g1_scale_enc(g@, s@),
{
    let point = g.point.0 * s.fr.0;
    let mut enc = Vec::new();
    point.serialize_compressed(&mut enc).unwrap();
    G1Elem { point: G1Value(point), enc }
}

/// An exact copy. Relies on the engine's Clone for projective points.
#[verifier::external_body]
pub(crate) fn g1_clone_elem(g: &G1Elem) -> (r: G1Elem)
    ensures
        r@ == g@,
{
    G1Elem { point: G1Value(g.point.0.clone()), enc: g.enc.clone() }
}

/// An exact copy. Relies on the engine's Clone for projective points.
#[verifier::external_body]
pub(crate) fn g2_clone_elem(g: &G2Elem) -> (r: G2Elem)
    ensures
        r@ == g@,
{
    G2Elem { point: G2Value(g.point.0.clone()), enc: g.enc.clone() }
}

/// Conversion of a G1 point into the engine's Miller-loop-ready form.
/// Relies on From<G1Projective> for ark_ec::bls12::G1Prepared, which
/// normalizes to the unique affine form: the result depends only on the
/// group element, hence only on its canonical encoding.
#[verifier::external_body]
pub(crate) fn g1_prepare(g: &G1Elem) -> (r: PreparedG1)
    ensures
        r == g1_prep_of(g@),
{
    PreparedG1(g.point.0.into())
}

/// Conversion of a G2 point into the engine's Miller-loop-ready form.
/// Relies on From<G2Projective> for ark_ec::bls12::G2Prepared, which
/// precomputes the Miller-loop coefficients from the group element alone:
/// the result depends only on its canonical encoding.
#[verifier::external_body]
pub(crate) fn g2_prepare(g: &G2Elem) -> (r: PreparedG2)
    ensures
        r == g2_prep_of(g@),
{
    PreparedG2(g.point.0.into())
}

} // verus!
