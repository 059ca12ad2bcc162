//! What a curve offers to the readers and writers of circom's files: the
//! decimal wire format of its groups, and the binary format of its proving
//! keys.
//!
//! Both traits are implemented once for each supported curve, by
//! [`crate::bn254::Bn254`] and [`crate::bls12_381::Bls12_381`].

use vstd::prelude::*;

use crate::curve::{CheckElement, Curve, G1Affine, G2Affine};
use crate::error::CodecError;
use crate::field::{
    element_in, element_view, montgomery_element, montgomery_element_reduced, FieldElement,
    Fp12Element,
};
use crate::json::{
    g1_from_tokens, g1_in, g1_result, g1_seq_decoded, g1_seq_in, g1_seq_result, g1_tokens,
    g2_from_tokens, g2_in, g2_result, g2_tokens, gt_from_tokens, gt_result, gt_tokens,
};
use crate::montgomery::{
    g1_batch_decoded, g1_from_montgomery, g2_batch_decoded, g2_from_montgomery, g2_seq_in,
    g2_seq_result,
};

verus! {

/// The decimal wire format of the groups of a pairing: points and elements
/// of the target group as nested sequences of decimal tokens.
pub trait CanonicalJsonSerialize {
    /// The curve that the implementation stands for.
    spec fn curve() -> Curve;

    /// Serializes a G1 point as its three tokens.
    fn serialize_g1(p: &G1Affine) -> (r: Vec<String>)
        requires
            p.wf(),
        ensures
            r.deep_view() == g1_tokens(p@),
    ;

    /// Serializes a G2 point as its three pairs of tokens.
    fn serialize_g2(p: &G2Affine) -> (r: Vec<Vec<String>>)
        requires
            p.wf(),
        ensures
            r.deep_view() == g2_tokens(p@),
    ;

    /// Serializes an element of the target group as its `2 x 3 x 2` nesting
    /// of tokens.
    fn serialize_gt(p: &Fp12Element) -> (r: Vec<Vec<Vec<String>>>)
        requires
            p.wf(),
        ensures
            r.deep_view() == gt_tokens(p@),
    ;

    /// Serializes a sequence of G1 points, each as its three tokens.
    fn serialize_g1_seq(p: &Vec<G1Affine>) -> (r: Vec<Vec<String>>)
        requires
            forall|i: int| 0 <= i < p@.len() ==> (#[trigger] p@[i]).wf(),
        ensures
            r.deep_view() == Seq::new(p@.len(), |i: int| g1_tokens(p@[i]@)),
    ;

    /// Deserializes a G1 point from its tokens and checks it.
    fn deserialize_g1(tokens: &Vec<String>) -> (r: Result<G1Affine, CodecError>)
        ensures
            g1_result(r) == g1_from_tokens(Self::curve(), CheckElement::Yes, tokens.deep_view()),
            g1_in(r, Self::curve()),
    ;

    /// Deserializes a G1 point from its tokens without checking it.
    fn deserialize_g1_unchecked(tokens: &Vec<String>) -> (r: Result<G1Affine, CodecError>)
        ensures
            g1_result(r) == g1_from_tokens(Self::curve(), CheckElement::No, tokens.deep_view()),
            g1_in(r, Self::curve()),
    ;

    /// Deserializes a G2 point from its tokens and checks it.
    fn deserialize_g2(tokens: &Vec<Vec<String>>) -> (r: Result<G2Affine, CodecError>)
        ensures
            g2_result(r) == g2_from_tokens(Self::curve(), CheckElement::Yes, tokens.deep_view()),
            g2_in(r, Self::curve()),
    ;

    /// Deserializes a G2 point from its tokens without checking it.
    fn deserialize_g2_unchecked(tokens: &Vec<Vec<String>>) -> (r: Result<G2Affine, CodecError>)
        ensures
            g2_result(r) == g2_from_tokens(Self::curve(), CheckElement::No, tokens.deep_view()),
            g2_in(r, Self::curve()),
    ;

    /// Deserializes an element of the target group from its tokens.
    fn deserialize_gt(tokens: &Vec<Vec<Vec<String>>>) -> (r: Result<Fp12Element, CodecError>)
        ensures
            gt_result(r) == gt_from_tokens(Self::curve().base_field(), tokens.deep_view()),
            r is Ok ==> r.unwrap().wf() && r.unwrap().kind() == Self::curve().base_field(),
    ;

    /// Deserializes a sequence of G1 points from their tokens and checks
    /// each of them.
    fn deserialize_g1_seq(tokens: &Vec<Vec<String>>) -> (r: Result<Vec<G1Affine>, CodecError>)
        ensures
            g1_seq_decoded(
                Self::curve(),
                CheckElement::Yes,
                tokens.deep_view(),
                None,
                g1_seq_result(r),
            ),
            g1_seq_in(r, Self::curve()),
    ;

    /// Deserializes a sequence of G1 points from their tokens without
    /// checking any of them.
    fn deserialize_g1_seq_unchecked(tokens: &Vec<Vec<String>>) -> (r: Result<
        Vec<G1Affine>,
        CodecError,
    >)
        ensures
            g1_seq_decoded(
                Self::curve(),
                CheckElement::No,
                tokens.deep_view(),
                None,
                g1_seq_result(r),
            ),
            g1_seq_in(r, Self::curve()),
    ;
}

/// The binary format in which circom's files hold the field elements and
/// points of a curve.
pub trait CircomArkworksPairingBridge: CanonicalJsonSerialize {
    /// Size of a compressed element of G1 in bytes.
    const G1_SERIALIZED_BYTE_SIZE_COMPRESSED: usize;

    /// Size of an uncompressed element of G1 in bytes.
    const G1_SERIALIZED_BYTE_SIZE_UNCOMPRESSED: usize;

    /// Size of a compressed element of G2 in bytes.
    const G2_SERIALIZED_BYTE_SIZE_COMPRESSED: usize;

    /// Size of an uncompressed element of G2 in bytes.
    const G2_SERIALIZED_BYTE_SIZE_UNCOMPRESSED: usize;

    /// Size of a compressed element of the target group in bytes: the files
    /// hold none.
    const GT_SERIALIZED_BYTE_SIZE_COMPRESSED: usize;

    /// Size of an uncompressed element of the target group in bytes: the
    /// files hold none.
    const GT_SERIALIZED_BYTE_SIZE_UNCOMPRESSED: usize;

    /// Size of an element of the scalar field in bytes.
    const SCALAR_FIELD_BYTE_SIZE: usize;

    /// Size of an element of the base field in bytes.
    const BASE_FIELD_BYTE_SIZE: usize;

    /// The name of the curve as circom has it.
    fn get_circom_name() -> (r: String)
        ensures
            Self::curve() == Curve::Bn254 ==> r@ == "bn128"@,
            Self::curve() == Curve::Bls12_381 ==> r@ == "bls12381"@,
    ;

    /// Decodes a G1 point from the Montgomery representations of its
    /// coordinates at the start of `bytes`.
    fn g1_from_bytes(bytes: &[u8], check: CheckElement) -> (r: Result<G1Affine, CodecError>)
        ensures
            g1_result(r) == g1_from_montgomery(Self::curve(), check, bytes@),
            g1_in(r, Self::curve()),
    ;

    /// Decodes a G2 point from the Montgomery representations of its
    /// coordinates at the start of `bytes`.
    fn g2_from_bytes(bytes: &[u8], check: CheckElement) -> (r: Result<G2Affine, CodecError>)
        ensures
            g2_result(r) == g2_from_montgomery(Self::curve(), check, bytes@),
            g2_in(r, Self::curve()),
    ;

    /// Decodes `num` G1 points that stand one after the other at the start
    /// of `bytes`, in the order of their bytes.
    fn g1_vec_from_bytes(bytes: &[u8], num: usize, check: CheckElement) -> (r: Result<
        Vec<G1Affine>,
        CodecError,
    >)
        ensures
            g1_batch_decoded(Self::curve(), check, bytes@, num as nat, g1_seq_result(r)),
            g1_seq_in(r, Self::curve()),
    ;

    /// Decodes `num` G2 points that stand one after the other at the start
    /// of `bytes`, in the order of their bytes.
    fn g2_vec_from_bytes(bytes: &[u8], num: usize, check: CheckElement) -> (r: Result<
        Vec<G2Affine>,
        CodecError,
    >)
        ensures
            g2_batch_decoded(Self::curve(), check, bytes@, num as nat, g2_seq_result(r)),
            g2_seq_in(r, Self::curve()),
    ;

    /// Reads an element of the scalar field from its Montgomery
    /// representation, without a reduction step.
    fn fr_from_montgomery_bytes(bytes: &[u8]) -> (r: Result<FieldElement, CodecError>)
        ensures
            element_view(r) == montgomery_element(Self::curve().scalar_field(), bytes@),
            element_in(r, Self::curve().scalar_field()),
    ;

    /// Reads an element of the scalar field as a proving key stores it: its
    /// Montgomery representation needs the reduction step once more.
    fn fr_from_bytes_for_groth16_zkey(bytes: &[u8]) -> (r: Result<FieldElement, CodecError>)
        ensures
            element_view(r) == montgomery_element_reduced(Self::curve().scalar_field(), bytes@),
            element_in(r, Self::curve().scalar_field()),
    ;

    /// Reads an element of the base field from its Montgomery
    /// representation, without a reduction step.
    fn fq_from_montgomery_bytes(bytes: &[u8]) -> (r: Result<FieldElement, CodecError>)
        ensures
            element_view(r) == montgomery_element(Self::curve().base_field(), bytes@),
            element_in(r, Self::curve().base_field()),
    ;
}

} // verus!
