//! BN254: its marker type, what it offers to the readers and writers of
//! circom's files, and the functions of the decimal wire format with the
//! curve fixed.

use vstd::prelude::*;

use crate::bridge::{CanonicalJsonSerialize, CircomArkworksPairingBridge};
use crate::curve::{CheckElement, Curve, G1Affine, G2Affine};
use crate::error::CodecError;
use crate::field::{
    element_in, element_view, montgomery_element, montgomery_element_reduced, FieldElement,
    Fp12Element,
};
use crate::json::{
    g1_from_tokens, g1_in, g1_result, g1_seq_decoded, g1_seq_in, g1_seq_result, g1_tokens,
    g2_from_tokens, g2_in, g2_result, g2_tokens, gt_from_tokens, gt_result, gt_tokens,
};
use crate::montgomery::{
    g1_batch_decoded, g1_from_montgomery, g2_batch_decoded, g2_from_montgomery, g2_seq_in,
    g2_seq_result,
};

verus! {

/// The pairing BN254.
#[derive(Clone, Copy, Debug, PartialEq, Eq, Structural)]
pub struct Bn254;

/// Serializes a G1 point of BN254 as its three tokens: `[x, y, "1"]`, or
/// `["0", "1", "0"]` for the point at infinity.
pub fn serialize_g1(p: &G1Affine) -> (r: Vec<String>)
    requires
        p.wf(),
    ensures
        r.deep_view() == g1_tokens(p@),
{
    crate::json::serialize_g1(p)
}

/// Serializes a G2 point of BN254 as its three pairs of tokens.
pub fn serialize_g2(p: &G2Affine) -> (r: Vec<Vec<String>>)
    requires
        p.wf(),
    ensures
        r.deep_view() == g2_tokens(p@),
{
    crate::json::serialize_g2(p)
}

/// Serializes an element of the target group of BN254 as its `2 x 3 x 2`
/// nesting of tokens.
pub fn serialize_gt(p: &Fp12Element) -> (r: Vec<Vec<Vec<String>>>)
    requires
        p.wf(),
    ensures
        r.deep_view() == gt_tokens(p@),
{
    crate::json::serialize_gt(p)
}

/// Serializes a sequence of G1 points of BN254, each as its three tokens.
pub fn serialize_g1_seq(ps: &Vec<G1Affine>) -> (r: Vec<Vec<String>>)
    requires
        forall|i: int| 0 <= i < ps@.len() ==> (#[trigger] ps@[i]).wf(),
    ensures
        r.deep_view() == Seq::new(ps@.len(), |i: int| g1_tokens(ps@[i]@)),
{
    crate::json::serialize_g1_seq(ps)
}

/// Deserializes a G1 point of BN254 from its three tokens and checks that
/// it is a point of the curve and a member of the subgroup.
pub fn deserialize_g1(tokens: &Vec<String>) -> (r: Result<G1Affine, CodecError>)
    ensures
        g1_result(r) == g1_from_tokens(Curve::Bn254, CheckElement::Yes, tokens.deep_view()),
        g1_in(r, Curve::Bn254),
{
    crate::json::deserialize_g1(Curve::Bn254, tokens)
}

/// Deserializes a G1 point of BN254 from its three tokens without checking
/// it. Use it on trusted input only.
pub fn deserialize_g1_unchecked(tokens: &Vec<String>) -> (r: Result<G1Affine, CodecError>)
    ensures
        g1_result(r) == g1_from_tokens(Curve::Bn254, CheckElement::No, tokens.deep_view()),
        g1_in(r, Curve::Bn254),
{
    crate::json::deserialize_g1_unchecked(Curve::Bn254, tokens)
}

/// A second spelling of [`deserialize_g1_unchecked`].
pub fn deserialize_g1_unchcked(tokens: &Vec<String>) -> (r: Result<G1Affine, CodecError>)
    ensures
        g1_result(r) == g1_from_tokens(Curve::Bn254, CheckElement::No, tokens.deep_view()),
        g1_in(r, Curve::Bn254),
{
    crate::json::deserialize_g1_unchecked(Curve::Bn254, tokens)
}

/// Deserializes a G2 point of BN254 from its three pairs of tokens and
/// checks that it is a point of the curve and a member of the subgroup.
pub fn deserialize_g2(tokens: &Vec<Vec<String>>) -> (r: Result<G2Affine, CodecError>)
    ensures
        g2_result(r) == g2_from_tokens(Curve::Bn254, CheckElement::Yes, tokens.deep_view()),
        g2_in(r, Curve::Bn254),
{
    crate::json::deserialize_g2(Curve::Bn254, tokens)
}

/// Deserializes a G2 point of BN254 from its three pairs of tokens without
/// checking it. Use it on trusted input only.
pub fn deserialize_g2_unchecked(tokens: &Vec<Vec<String>>) -> (r: Result<G2Affine, CodecError>)
    ensures
        g2_result(r) == g2_from_tokens(Curve::Bn254, CheckElement::No, tokens.deep_view()),
        g2_in(r, Curve::Bn254),
{
    crate::json::deserialize_g2_unchecked(Curve::Bn254, tokens)
}

/// Deserializes an element of the target group of BN254 from its
/// `2 x 3 x 2` nesting of tokens.
pub fn deserialize_gt(tokens: &Vec<Vec<Vec<String>>>) -> (r: Result<Fp12Element, CodecError>)
    ensures
        gt_result(r) == gt_from_tokens(Curve::Bn254.base_field(), tokens.deep_view()),
        r is Ok ==> r.unwrap().wf() && r.unwrap().kind() == Curve::Bn254.base_field(),
{
    crate::json::deserialize_gt(Curve::Bn254, tokens)
}

/// Deserializes a sequence of G1 points of BN254, each from its three
/// tokens, and checks each of them.
pub fn deserialize_g1_seq(tokens: &Vec<Vec<String>>) -> (r: Result<Vec<G1Affine>, CodecError>)
    ensures
        g1_seq_decoded(
            Curve::Bn254,
            CheckElement::Yes,
            tokens.deep_view(),
            None,
            g1_seq_result(r),
        ),
        g1_seq_in(r, Curve::Bn254),
{
    crate::json::deserialize_g1_seq(Curve::Bn254, tokens)
}

/// Deserializes a sequence of G1 points of BN254, each from its three
/// tokens, without checking any of them. Use it on trusted input only.
pub fn deserialize_g1_seq_unchecked(tokens: &Vec<Vec<String>>) -> (r: Result<
    Vec<G1Affine>,
    CodecError,
>)
    ensures
        g1_seq_decoded(
            Curve::Bn254,
            CheckElement::No,
            tokens.deep_view(),
            None,
            g1_seq_result(r),
        ),
        g1_seq_in(r, Curve::Bn254),
{
    crate::json::deserialize_g1_seq_unchecked(Curve::Bn254, tokens)
}

impl CanonicalJsonSerialize for Bn254 {
    open spec fn curve() -> Curve {
        Curve::Bn254
    }

    fn serialize_g1(p: &G1Affine) -> (r: Vec<String>) {
        crate::json::serialize_g1(p)
    }

    fn serialize_g2(p: &G2Affine) -> (r: Vec<Vec<String>>) {
        crate::json::serialize_g2(p)
    }

    fn serialize_gt(p: &Fp12Element) -> (r: Vec<Vec<Vec<String>>>) {
        crate::json::serialize_gt(p)
    }

    fn serialize_g1_seq(p: &Vec<G1Affine>) -> (r: Vec<Vec<String>>) {
        crate::json::serialize_g1_seq(p)
    }

    fn deserialize_g1(tokens: &Vec<String>) -> (r: Result<G1Affine, CodecError>) {
        crate::json::deserialize_g1(Curve::Bn254, tokens)
    }

    fn deserialize_g1_unchecked(tokens: &Vec<String>) -> (r: Result<G1Affine, CodecError>) {
        crate::json::deserialize_g1_unchecked(Curve::Bn254, tokens)
    }

    fn deserialize_g2(tokens: &Vec<Vec<String>>) -> (r: Result<G2Affine, CodecError>) {
        crate::json::deserialize_g2(Curve::Bn254, tokens)
    }

    fn deserialize_g2_unchecked(tokens: &Vec<Vec<String>>) -> (r: Result<G2Affine, CodecError>) {
        crate::json::deserialize_g2_unchecked(Curve::Bn254, tokens)
    }

    fn deserialize_gt(tokens: &Vec<Vec<Vec<String>>>) -> (r: Result<Fp12Element, CodecError>) {
        crate::json::deserialize_gt(Curve::Bn254, tokens)
    }

    fn deserialize_g1_seq(tokens: &Vec<Vec<String>>) -> (r: Result<Vec<G1Affine>, CodecError>) {
        crate::json::deserialize_g1_seq(Curve::Bn254, tokens)
    }

    fn deserialize_g1_seq_unchecked(tokens: &Vec<Vec<String>>) -> (r: Result<
        Vec<G1Affine>,
        CodecError,
    >) {
        crate::json::deserialize_g1_seq_unchecked(Curve::Bn254, tokens)
    }
}

impl CircomArkworksPairingBridge for Bn254 {
    const G1_SERIALIZED_BYTE_SIZE_COMPRESSED: usize = 32;

    const G1_SERIALIZED_BYTE_SIZE_UNCOMPRESSED: usize = 64;

    const G2_SERIALIZED_BYTE_SIZE_COMPRESSED: usize = 64;

    const G2_SERIALIZED_BYTE_SIZE_UNCOMPRESSED: usize = 128;

    const GT_SERIALIZED_BYTE_SIZE_COMPRESSED: usize = 0;

    const GT_SERIALIZED_BYTE_SIZE_UNCOMPRESSED: usize = 0;

    const SCALAR_FIELD_BYTE_SIZE: usize = 32;

    const BASE_FIELD_BYTE_SIZE: usize = 32;

    fn get_circom_name() -> (r: String) {
        Curve::Bn254.get_circom_name()
    }

    fn g1_from_bytes(bytes: &[u8], check: CheckElement) -> (r: Result<G1Affine, CodecError>) {
        Curve::Bn254.g1_from_bytes(bytes, check)
    }

    fn g2_from_bytes(bytes: &[u8], check: CheckElement) -> (r: Result<G2Affine, CodecError>) {
        Curve::Bn254.g2_from_bytes(bytes, check)
    }

    fn g1_vec_from_bytes(bytes: &[u8], num: usize, check: CheckElement) -> (r: Result<
        Vec<G1Affine>,
        CodecError,
    >) {
        Curve::Bn254.g1_vec_from_bytes(bytes, num, check)
    }

    fn g2_vec_from_bytes(bytes: &[u8], num: usize, check: CheckElement) -> (r: Result<
        Vec<G2Affine>,
        CodecError,
    >) {
        Curve::Bn254.g2_vec_from_bytes(bytes, num, check)
    }

    fn fr_from_montgomery_bytes(bytes: &[u8]) -> (r: Result<FieldElement, CodecError>) {
        Curve::Bn254.fr_from_montgomery_bytes(bytes)
    }

    fn fr_from_bytes_for_groth16_zkey(bytes: &[u8]) -> (r: Result<FieldElement, CodecError>) {
        Curve::Bn254.fr_from_bytes_for_groth16_zkey(bytes)
    }

    fn fq_from_montgomery_bytes(bytes: &[u8]) -> (r: Result<FieldElement, CodecError>) {
        Curve::Bn254.fq_from_montgomery_bytes(bytes)
    }
}

} // verus!
