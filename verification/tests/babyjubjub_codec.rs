use pairing_codec::babyjubjub::{
    affine_from_strings, deserialize_affine, deserialize_affine_seq,
    deserialize_affine_seq_unchecked, deserialize_affine_seq_with, deserialize_affine_unchecked,
    deserialize_fq, deserialize_fq_seq, deserialize_fr, serialize_affine, serialize_affine_seq,
    serialize_fq, serialize_fq_seq, serialize_fr, EdwardsAffine,
};
use pairing_codec::curve::CheckElement;
use pairing_codec::error::{CodecError, LengthSubject};
use pairing_codec::field::{FieldElement, FieldKind};

const GEN_X: &str = "5299619240641551281634865583518297030282874472190772894086521144482721001553";
const GEN_Y: &str = "16950150798460657717958625567821834550301663161624707787222815936182638968203";
const BASE_MINUS_ONE: &str =
    "21888242871839275222246405745257275088548364400416034343698204186575808495616";
const SCALAR_ORDER: &str =
    "2736030358979909402780800718157159386076813972158567259200215660948447373041";

fn pair(items: &[&str]) -> Vec<String> {
    items.iter().map(|s| s.to_string()).collect()
}

fn pairs(items: &[&[&str]]) -> Vec<Vec<String>> {
    items.iter().map(|t| pair(t)).collect()
}

#[test]
fn jubjub_generator_round_trips_through_tokens() {
    let input = pair(&[GEN_X, GEN_Y]);
    let point = deserialize_affine(&input).unwrap();
    assert_eq!(point.x, deserialize_fq(GEN_X).unwrap());
    assert_eq!(point.y, deserialize_fq(GEN_Y).unwrap());
    assert_eq!(serialize_affine(&point), input);
    assert_eq!(deserialize_affine_unchecked(&input), Ok(point));
}

#[test]
fn jubjub_neutral_element_passes_unjudged() {
    let input = pair(&["0", "1"]);
    let neutral = EdwardsAffine {
        x: FieldElement::zero(FieldKind::Bn254Fr),
        y: FieldElement::one(FieldKind::Bn254Fr),
    };
    assert!(neutral.is_zero());
    assert_eq!(deserialize_affine(&input), Ok(neutral.clone()));
    assert_eq!(deserialize_affine_unchecked(&input), Ok(neutral.clone()));
    assert_eq!(serialize_affine(&neutral), input);
}

#[test]
fn jubjub_points_are_checked_on_request() {
    let off_curve = pair(&["1", "2"]);
    assert_eq!(deserialize_affine(&off_curve), Err(CodecError::NotOnCurve));
    assert!(deserialize_affine_unchecked(&off_curve).is_ok());
    // (0, -1) is on the curve and has order two.
    let order_two = pair(&["0", BASE_MINUS_ONE]);
    assert_eq!(deserialize_affine(&order_two), Err(CodecError::NotInSubgroup));
    assert!(!deserialize_affine_unchecked(&order_two).unwrap().is_zero());
    assert_eq!(
        affine_from_strings(CheckElement::Yes, "one", "2"),
        Err(CodecError::InvalidFieldEncoding)
    );
    assert_eq!(
        affine_from_strings(CheckElement::No, "1", ""),
        Err(CodecError::InvalidFieldEncoding)
    );
}

#[test]
fn jubjub_arity_is_enforced() {
    assert_eq!(deserialize_affine(&pair(&["1"])), Err(CodecError::TruncatedInput));
    assert_eq!(
        deserialize_affine(&pair(&[GEN_X, GEN_Y, "1"])),
        Err(CodecError::UnexpectedTrailingElement)
    );
}

#[test]
fn jubjub_sequences_keep_their_order() {
    let input = pairs(&[&[GEN_X, GEN_Y], &["0", "1"]]);
    let points = deserialize_affine_seq(&input).unwrap();
    assert_eq!(points.len(), 2);
    assert_eq!(points[0], deserialize_affine(&input[0]).unwrap());
    assert!(points[1].is_zero());
    assert_eq!(serialize_affine_seq(&points), input);
    assert_eq!(deserialize_affine_seq_unchecked(&input), Ok(points));
    assert_eq!(deserialize_affine_seq(&pairs(&[])), Ok(vec![]));
}

#[test]
fn jubjub_sequences_fail_on_their_first_bad_entry() {
    let input = pairs(&[&[GEN_X, GEN_Y], &["1", "2", "3"], &["1", "2"]]);
    let length = CodecError::LengthMismatch {
        subject: LengthSubject::PointTokens,
        expected: 2,
        found: 3,
    };
    assert_eq!(deserialize_affine_seq(&input), Err(length));
    let input = pairs(&[&["1", "2"], &["1", "2", "3"]]);
    assert_eq!(deserialize_affine_seq(&input), Err(CodecError::NotOnCurve));
    assert_eq!(deserialize_affine_seq_unchecked(&input), Err(length));
}

#[test]
fn jubjub_sequences_check_the_expected_length_last() {
    let input = pairs(&[&[GEN_X, GEN_Y], &["0", "1"]]);
    assert!(deserialize_affine_seq_with(CheckElement::Yes, &input, Some(2)).is_ok());
    assert_eq!(
        deserialize_affine_seq_with(CheckElement::Yes, &input, Some(1)),
        Err(CodecError::LengthMismatch { subject: LengthSubject::Batch, expected: 1, found: 2 })
    );
    let bad = pairs(&[&["1", "2"]]);
    assert_eq!(
        deserialize_affine_seq_with(CheckElement::Yes, &bad, Some(5)),
        Err(CodecError::NotOnCurve)
    );
}

#[test]
fn jubjub_scalars_are_reduced_by_their_own_order() {
    assert_eq!(serialize_fr(&deserialize_fr(SCALAR_ORDER).unwrap()), "0");
    assert_eq!(serialize_fq(&deserialize_fq(SCALAR_ORDER).unwrap()), SCALAR_ORDER);
    assert_eq!(serialize_fr(&deserialize_fr("12345").unwrap()), "12345");
    assert_eq!(deserialize_fr("12_345"), Err(CodecError::InvalidFieldEncoding));
    let values = deserialize_fq_seq(&pair(&["2", BASE_MINUS_ONE])).unwrap();
    assert_eq!(serialize_fq_seq(&values), pair(&["2", BASE_MINUS_ONE]));
}
