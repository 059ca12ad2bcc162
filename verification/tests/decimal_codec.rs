use pairing_codec::curve::{Curve, G1Affine, G2Affine};
use pairing_codec::error::{CodecError, LengthSubject};
use pairing_codec::field::{
    CubicExtElement, FieldElement, FieldKind, Fp12Element, QuadExtElement,
};
use pairing_codec::json::{
    cubic_extension_field_from_vec, deserialize_f, deserialize_f_seq, deserialize_g1,
    deserialize_g1_seq, deserialize_g1_seq_unchecked, deserialize_g1_seq_with,
    deserialize_g1_unchecked, deserialize_g2, deserialize_g2_unchecked, deserialize_gt,
    g1_from_strings_projective, g1_to_strings_projective, g2_from_strings_projective,
    quadratic_extension_field_from_vec, serialize_f, serialize_f_seq, serialize_g1,
    serialize_g1_seq, serialize_g2, serialize_gt,
};
use pairing_codec::curve::CheckElement;

const BN254_P: &str =
    "21888242871839275222246405745257275088696311157297823662689037894645226208583";
const BN254_G2_X0: &str =
    "10857046999023057135944570762232829481370756359578518086990519993285655852781";
const BN254_G2_X1: &str =
    "11559732032986387107991004021392285783925812861821192530917403151452391805634";
const BN254_G2_Y0: &str =
    "8495653923123431417604973247489272438418190587263600148770280649306958101930";
const BN254_G2_Y1: &str =
    "4082367875863433681332203403145435568316851327593401208105741076214120093531";
const BLS_G1_X: &str = "3685416753713387016781088315183077757961620795782546409894578378688607592378376318836054947676345821548104185464507";
const BLS_G1_Y: &str = "1339506544944476473020471379941921221584933875938349620426543736416511423956333506472724655353366534992391756441569";

fn tokens(items: &[&str]) -> Vec<String> {
    items.iter().map(|s| s.to_string()).collect()
}

fn nested(items: &[&[&str]]) -> Vec<Vec<String>> {
    items.iter().map(|t| tokens(t)).collect()
}

fn fq(s: &str) -> FieldElement {
    FieldElement::from_decimal(FieldKind::Bn254Fq, s).unwrap()
}

fn bn254_g2_generator() -> G2Affine {
    G2Affine::Point {
        x: QuadExtElement { c0: fq(BN254_G2_X0), c1: fq(BN254_G2_X1) },
        y: QuadExtElement { c0: fq(BN254_G2_Y0), c1: fq(BN254_G2_Y1) },
    }
}

fn bn254_g2_generator_tokens() -> Vec<Vec<String>> {
    nested(&[&[BN254_G2_X0, BN254_G2_X1], &[BN254_G2_Y0, BN254_G2_Y1], &["1", "0"]])
}

#[test]
fn g1_generator_round_trips_through_tokens() {
    let input = tokens(&["1", "2", "1"]);
    let point = deserialize_g1(Curve::Bn254, &input).unwrap();
    let expected = G1Affine::Point {
        x: FieldElement::from_u8(FieldKind::Bn254Fq, 1),
        y: FieldElement::from_u8(FieldKind::Bn254Fq, 2),
    };
    assert_eq!(point, expected);
    assert_eq!(serialize_g1(&point), input);
    assert_eq!(g1_to_strings_projective(&point), input);
}

#[test]
fn g1_generator_of_bls12_381_round_trips_through_tokens() {
    let input = tokens(&[BLS_G1_X, BLS_G1_Y, "1"]);
    let point = deserialize_g1(Curve::Bls12_381, &input).unwrap();
    assert_eq!(serialize_g1(&point), input);
    assert_eq!(deserialize_g1_unchecked(Curve::Bls12_381, &input), Ok(point));
}

#[test]
fn g1_infinity_triple_is_infinity_when_checked() {
    for curve in [Curve::Bn254, Curve::Bls12_381] {
        let input = tokens(&["0", "1", "0"]);
        assert_eq!(deserialize_g1(curve, &input), Ok(G1Affine::Infinity));
        assert_eq!(deserialize_g1_unchecked(curve, &input), Ok(G1Affine::Infinity));
        assert_eq!(serialize_g1(&G1Affine::Infinity), input);
    }
}

#[test]
fn g1_origin_is_infinity_whatever_z_is() {
    for z in ["0", "1", "7"] {
        let input = tokens(&["0", "0", z]);
        assert_eq!(deserialize_g1(Curve::Bn254, &input), Ok(G1Affine::Infinity));
        assert_eq!(deserialize_g1_unchecked(Curve::Bn254, &input), Ok(G1Affine::Infinity));
    }
}

#[test]
fn g1_z_plays_no_part_in_a_finite_point() {
    let with_one = deserialize_g1(Curve::Bn254, &tokens(&["1", "2", "1"])).unwrap();
    let with_five = deserialize_g1(Curve::Bn254, &tokens(&["1", "2", "5"])).unwrap();
    let with_zero = deserialize_g1(Curve::Bn254, &tokens(&["1", "2", "0"])).unwrap();
    assert_eq!(with_one, with_five);
    assert_eq!(with_one, with_zero);
}

#[test]
fn g1_arity_is_enforced() {
    assert_eq!(
        deserialize_g1(Curve::Bn254, &tokens(&["1", "2"])),
        Err(CodecError::TruncatedInput)
    );
    assert_eq!(deserialize_g1(Curve::Bn254, &tokens(&[])), Err(CodecError::TruncatedInput));
    assert_eq!(
        deserialize_g1(Curve::Bn254, &tokens(&["1", "2", "1", "3"])),
        Err(CodecError::UnexpectedTrailingElement)
    );
    assert_eq!(
        deserialize_g1_unchecked(Curve::Bn254, &tokens(&["1", "2", "1", "3"])),
        Err(CodecError::UnexpectedTrailingElement)
    );
}

#[test]
fn g1_off_curve_point_is_rejected_only_when_checked() {
    let input = tokens(&["1", "3", "1"]);
    assert_eq!(deserialize_g1(Curve::Bn254, &input), Err(CodecError::NotOnCurve));
    let unchecked = deserialize_g1_unchecked(Curve::Bn254, &input).unwrap();
    assert_eq!(
        unchecked,
        G1Affine::Point {
            x: FieldElement::from_u8(FieldKind::Bn254Fq, 1),
            y: FieldElement::from_u8(FieldKind::Bn254Fq, 3),
        }
    );
}

#[test]
fn g1_point_outside_the_subgroup_is_rejected_only_when_checked() {
    // (0, 2) is on y^2 = x^3 + 4, the first curve of BLS12-381, but has order 3.
    let input = tokens(&["0", "2", "1"]);
    assert_eq!(deserialize_g1(Curve::Bls12_381, &input), Err(CodecError::NotInSubgroup));
    assert!(deserialize_g1_unchecked(Curve::Bls12_381, &input).is_ok());
}

#[test]
fn g1_accepted_when_checked_is_the_same_when_unchecked() {
    for input in [tokens(&["1", "2", "1"]), tokens(&["0", "1", "0"]), tokens(&["0", "0", "1"])] {
        let checked = deserialize_g1(Curve::Bn254, &input).unwrap();
        assert_eq!(deserialize_g1_unchecked(Curve::Bn254, &input), Ok(checked));
    }
}

#[test]
fn g1_tokens_that_are_no_numbers_are_rejected() {
    for bad in ["", "-1", "+1", "1_0", "0x10", "12a", " 1", "1.0", "१"] {
        assert_eq!(
            g1_from_strings_projective(Curve::Bn254, CheckElement::No, bad, "2", "1"),
            Err(CodecError::InvalidFieldEncoding),
            "token {:?}",
            bad
        );
        assert_eq!(
            g1_from_strings_projective(Curve::Bn254, CheckElement::No, "1", bad, "1"),
            Err(CodecError::InvalidFieldEncoding)
        );
        assert_eq!(
            g1_from_strings_projective(Curve::Bn254, CheckElement::No, "1", "2", bad),
            Err(CodecError::InvalidFieldEncoding)
        );
    }
}

#[test]
fn field_tokens_at_or_above_the_order_are_reduced() {
    assert_eq!(deserialize_f(FieldKind::Bn254Fq, BN254_P).unwrap(), fq("0"));
    let p_plus_five =
        "21888242871839275222246405745257275088696311157297823662689037894645226208588";
    assert_eq!(deserialize_f(FieldKind::Bn254Fq, p_plus_five).unwrap(), fq("5"));
    assert_eq!(serialize_f(&deserialize_f(FieldKind::Bn254Fq, p_plus_five).unwrap()), "5");
    // The same digits are below the order of the larger field.
    assert_eq!(
        serialize_f(&deserialize_f(FieldKind::Bls12_381Fq, p_plus_five).unwrap()),
        p_plus_five
    );
}

#[test]
fn field_tokens_with_leading_zeros_are_read_as_numbers() {
    assert_eq!(deserialize_f(FieldKind::Bn254Fr, "007").unwrap(), deserialize_f(FieldKind::Bn254Fr, "7").unwrap());
    assert_eq!(serialize_f(&deserialize_f(FieldKind::Bn254Fr, "000").unwrap()), "0");
}

#[test]
fn field_elements_print_without_leading_zeros() {
    for kind in [
        FieldKind::Bn254Fq,
        FieldKind::Bn254Fr,
        FieldKind::Bls12_381Fq,
        FieldKind::Bls12_381Fr,
        FieldKind::BabyJubJubFr,
    ] {
        assert_eq!(serialize_f(&FieldElement::zero(kind)), "0");
        assert_eq!(serialize_f(&FieldElement::one(kind)), "1");
        assert_eq!(serialize_f(&FieldElement::from_u8(kind, 255)), "255");
        let big = "1234567890123456789012345678901234567890123456789012345678901234567890";
        let e = deserialize_f(kind, big).unwrap();
        assert_eq!(e.field_kind(), kind);
        assert_eq!(serialize_f(&e), big);
    }
}

#[test]
fn field_element_bytes_spell_the_residue() {
    let e = deserialize_f(FieldKind::Bn254Fq, "258").unwrap();
    let mut le = vec![0u8; 32];
    le[0] = 2;
    le[1] = 1;
    assert_eq!(e.to_le_bytes(), le);
    le.reverse();
    assert_eq!(e.to_be_bytes(), le);
    let wide = deserialize_f(FieldKind::Bls12_381Fq, "258").unwrap();
    assert_eq!(wide.to_le_bytes().len(), 48);
}

#[test]
fn field_sequences_keep_their_order() {
    let input = tokens(&["3", "1", "2"]);
    let values = deserialize_f_seq(FieldKind::Bn254Fr, &input).unwrap();
    assert_eq!(values.len(), 3);
    assert_eq!(values[0], FieldElement::from_u8(FieldKind::Bn254Fr, 3));
    assert_eq!(values[2], FieldElement::from_u8(FieldKind::Bn254Fr, 2));
    assert_eq!(serialize_f_seq(&values), input);
    assert_eq!(deserialize_f_seq(FieldKind::Bn254Fr, &tokens(&[])), Ok(vec![]));
    assert_eq!(
        deserialize_f_seq(FieldKind::Bn254Fr, &tokens(&["3", "x", "2"])),
        Err(CodecError::InvalidFieldEncoding)
    );
}

#[test]
fn g2_generator_round_trips_through_tokens() {
    let input = bn254_g2_generator_tokens();
    let point = deserialize_g2(Curve::Bn254, &input).unwrap();
    assert_eq!(point, bn254_g2_generator());
    assert_eq!(serialize_g2(&point), input);
    assert_eq!(deserialize_g2_unchecked(Curve::Bn254, &input), Ok(point));
}

#[test]
fn g2_infinity_triple_is_infinity_when_checked() {
    let input = nested(&[&["0", "0"], &["1", "0"], &["0", "0"]]);
    for curve in [Curve::Bn254, Curve::Bls12_381] {
        assert_eq!(deserialize_g2(curve, &input), Ok(G2Affine::Infinity));
        assert_eq!(deserialize_g2_unchecked(curve, &input), Ok(G2Affine::Infinity));
    }
    assert_eq!(serialize_g2(&G2Affine::Infinity), input);
    let origin = nested(&[&["0", "0"], &["0", "0"], &["1", "0"]]);
    assert_eq!(deserialize_g2(Curve::Bn254, &origin), Ok(G2Affine::Infinity));
}

#[test]
fn g2_arity_is_enforced_at_both_levels() {
    let two = nested(&[&["1", "2"], &["3", "4"]]);
    assert_eq!(deserialize_g2(Curve::Bn254, &two), Err(CodecError::TruncatedInput));
    let four = nested(&[&["1", "2"], &["3", "4"], &["1", "0"], &["1", "0"]]);
    assert_eq!(deserialize_g2(Curve::Bn254, &four), Err(CodecError::UnexpectedTrailingElement));
    let short_x = nested(&[&["1"], &["3", "4"], &["1", "0"]]);
    assert_eq!(
        deserialize_g2(Curve::Bn254, &short_x),
        Err(CodecError::LengthMismatch {
            subject: LengthSubject::CoordinateX,
            expected: 2,
            found: 1
        })
    );
    let long_y = nested(&[&["1", "2"], &["3", "4", "5"], &["1", "0"]]);
    assert_eq!(
        deserialize_g2(Curve::Bn254, &long_y),
        Err(CodecError::LengthMismatch {
            subject: LengthSubject::CoordinateY,
            expected: 2,
            found: 3
        })
    );
    let empty_z = nested(&[&["1", "2"], &["3", "4"], &[]]);
    assert_eq!(
        deserialize_g2_unchecked(Curve::Bn254, &empty_z),
        Err(CodecError::LengthMismatch {
            subject: LengthSubject::CoordinateZ,
            expected: 2,
            found: 0
        })
    );
}

#[test]
fn g2_off_curve_point_is_rejected_only_when_checked() {
    let input = nested(&[&["1", "2"], &["3", "4"], &["1", "0"]]);
    assert_eq!(deserialize_g2(Curve::Bn254, &input), Err(CodecError::NotOnCurve));
    assert_eq!(deserialize_g2(Curve::Bls12_381, &input), Err(CodecError::NotOnCurve));
    assert!(deserialize_g2_unchecked(Curve::Bn254, &input).is_ok());
    assert_eq!(
        g2_from_strings_projective(Curve::Bn254, CheckElement::Yes, "1", "2", "3", "x", "1", "0"),
        Err(CodecError::InvalidFieldEncoding)
    );
}

fn gt_sample() -> Vec<Vec<Vec<String>>> {
    vec![
        nested(&[&["1", "2"], &["3", "4"], &["5", "6"]]),
        nested(&[&["7", "8"], &["9", "10"], &["11", BN254_G2_X0]]),
    ]
}

#[test]
fn gt_round_trips_through_tokens() {
    let input = gt_sample();
    let e = deserialize_gt(Curve::Bn254, &input).unwrap();
    let k = FieldKind::Bn254Fq;
    let quad = |a: u8, b: u8| QuadExtElement {
        c0: FieldElement::from_u8(k, a),
        c1: FieldElement::from_u8(k, b),
    };
    let expected = Fp12Element {
        c0: CubicExtElement { c0: quad(1, 2), c1: quad(3, 4), c2: quad(5, 6) },
        c1: CubicExtElement {
            c0: quad(7, 8),
            c1: quad(9, 10),
            c2: QuadExtElement { c0: FieldElement::from_u8(k, 11), c1: fq(BN254_G2_X0) },
        },
    };
    assert_eq!(e, expected);
    assert_eq!(serialize_gt(&e), input);
}

#[test]
fn gt_arity_is_enforced_at_every_level() {
    let mut one = gt_sample();
    one.pop();
    assert_eq!(deserialize_gt(Curve::Bn254, &one), Err(CodecError::TruncatedInput));
    let mut three = gt_sample();
    three.push(nested(&[&["1", "2"], &["3", "4"], &["5", "6"]]));
    assert_eq!(deserialize_gt(Curve::Bn254, &three), Err(CodecError::UnexpectedTrailingElement));
    let mut short_half = gt_sample();
    short_half[1].pop();
    assert_eq!(
        deserialize_gt(Curve::Bn254, &short_half),
        Err(CodecError::LengthMismatch {
            subject: LengthSubject::CubicComponents,
            expected: 3,
            found: 2
        })
    );
    let mut long_pair = gt_sample();
    long_pair[0][2].push("1".to_string());
    assert_eq!(
        deserialize_gt(Curve::Bn254, &long_pair),
        Err(CodecError::LengthMismatch {
            subject: LengthSubject::QuadraticComponents,
            expected: 2,
            found: 3
        })
    );
    let mut bad_token = gt_sample();
    bad_token[1][0][1] = "eight".to_string();
    assert_eq!(deserialize_gt(Curve::Bn254, &bad_token), Err(CodecError::InvalidFieldEncoding));
}

#[test]
fn extension_elements_are_built_from_their_tokens() {
    let pair = quadratic_extension_field_from_vec(FieldKind::Bn254Fq, &tokens(&["5", "6"])).unwrap();
    assert_eq!(pair.c0, FieldElement::from_u8(FieldKind::Bn254Fq, 5));
    assert_eq!(pair.c1, FieldElement::from_u8(FieldKind::Bn254Fq, 6));
    assert_eq!(
        quadratic_extension_field_from_vec(FieldKind::Bn254Fq, &tokens(&["5"])),
        Err(CodecError::LengthMismatch {
            subject: LengthSubject::QuadraticComponents,
            expected: 2,
            found: 1
        })
    );
    let triple = cubic_extension_field_from_vec(
        FieldKind::Bn254Fq,
        &nested(&[&["1", "2"], &["3", "4"], &["5", "6"]]),
    )
    .unwrap();
    assert_eq!(triple.c2, pair);
    assert_eq!(
        cubic_extension_field_from_vec(FieldKind::Bn254Fq, &nested(&[&["1", "2"]])),
        Err(CodecError::LengthMismatch {
            subject: LengthSubject::CubicComponents,
            expected: 3,
            found: 1
        })
    );
}

#[test]
fn g1_sequences_keep_their_order() {
    let input = nested(&[&["1", "2", "1"], &["0", "1", "0"], &["1", BN254_MINUS_TWO, "1"]]);
    let points = deserialize_g1_seq(Curve::Bn254, &input).unwrap();
    assert_eq!(points.len(), 3);
    for (i, entry) in input.iter().enumerate() {
        assert_eq!(points[i], deserialize_g1(Curve::Bn254, entry).unwrap());
    }
    assert_eq!(points[1], G1Affine::Infinity);
    assert_eq!(serialize_g1_seq(&points), input);
    assert_eq!(deserialize_g1_seq_unchecked(Curve::Bn254, &input), Ok(points));
    assert_eq!(deserialize_g1_seq(Curve::Bn254, &nested(&[])), Ok(vec![]));
}

const BN254_MINUS_TWO: &str =
    "21888242871839275222246405745257275088696311157297823662689037894645226208581";

#[test]
fn g1_sequences_fail_on_their_first_bad_entry() {
    let short_then_off_curve = nested(&[&["1", "2", "1"], &["1", "2"], &["1", "3", "1"]]);
    assert_eq!(
        deserialize_g1_seq(Curve::Bn254, &short_then_off_curve),
        Err(CodecError::LengthMismatch {
            subject: LengthSubject::PointTokens,
            expected: 3,
            found: 2
        })
    );
    let off_curve_then_short = nested(&[&["1", "3", "1"], &["1", "2"]]);
    assert_eq!(
        deserialize_g1_seq(Curve::Bn254, &off_curve_then_short),
        Err(CodecError::NotOnCurve)
    );
    assert_eq!(
        deserialize_g1_seq_unchecked(Curve::Bn254, &off_curve_then_short),
        Err(CodecError::LengthMismatch {
            subject: LengthSubject::PointTokens,
            expected: 3,
            found: 2
        })
    );
}

#[test]
fn g1_sequences_check_the_expected_length_last() {
    let input = nested(&[&["1", "2", "1"], &["0", "1", "0"]]);
    assert!(deserialize_g1_seq_with(Curve::Bn254, CheckElement::Yes, &input, Some(2)).is_ok());
    assert_eq!(
        deserialize_g1_seq_with(Curve::Bn254, CheckElement::Yes, &input, Some(3)),
        Err(CodecError::LengthMismatch { subject: LengthSubject::Batch, expected: 3, found: 2 })
    );
    let bad = nested(&[&["1", "2", "1"], &["1", "3", "1"]]);
    assert_eq!(
        deserialize_g1_seq_with(Curve::Bn254, CheckElement::Yes, &bad, Some(3)),
        Err(CodecError::NotOnCurve)
    );
}
