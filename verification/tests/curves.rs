use pairing_codec::bls12_381::Bls12_381;
use pairing_codec::bn254::Bn254;
use pairing_codec::bridge::{CanonicalJsonSerialize, CircomArkworksPairingBridge};
use pairing_codec::curve::{CheckElement, G1Affine, G2Affine};
use pairing_codec::error::CodecError;
use pairing_codec::field::{FieldElement, FieldKind};

fn triple(items: &[&str]) -> Vec<String> {
    items.iter().map(|s| s.to_string()).collect()
}

fn triples(items: &[&[&str]]) -> Vec<Vec<String>> {
    items.iter().map(|t| triple(t)).collect()
}

fn widths<C: CircomArkworksPairingBridge>() -> [usize; 8] {
    [
        C::G1_SERIALIZED_BYTE_SIZE_COMPRESSED,
        C::G1_SERIALIZED_BYTE_SIZE_UNCOMPRESSED,
        C::G2_SERIALIZED_BYTE_SIZE_COMPRESSED,
        C::G2_SERIALIZED_BYTE_SIZE_UNCOMPRESSED,
        C::GT_SERIALIZED_BYTE_SIZE_COMPRESSED,
        C::GT_SERIALIZED_BYTE_SIZE_UNCOMPRESSED,
        C::SCALAR_FIELD_BYTE_SIZE,
        C::BASE_FIELD_BYTE_SIZE,
    ]
}

fn round_trip<C: CanonicalJsonSerialize>(tokens: &Vec<String>) -> Vec<String> {
    C::serialize_g1(&C::deserialize_g1(tokens).unwrap())
}

#[test]
fn curves_have_their_widths_and_names() {
    assert_eq!(widths::<Bn254>(), [32, 64, 64, 128, 0, 0, 32, 32]);
    assert_eq!(widths::<Bls12_381>(), [48, 96, 96, 192, 0, 0, 32, 48]);
    assert_eq!(Bn254::get_circom_name(), "bn128");
    assert_eq!(Bls12_381::get_circom_name(), "bls12381");
}

#[test]
fn curves_decode_in_their_own_field() {
    // 2^254 is above the order of BN254's base field and below that of BLS12-381's.
    let big = "28948022309329048855892746252171976963317496166410141009864396001978282409984";
    let tokens = triple(&[big, "2", "1"]);
    let bn = Bn254::deserialize_g1_unchecked(&tokens).unwrap();
    let bls = Bls12_381::deserialize_g1_unchecked(&tokens).unwrap();
    assert_ne!(Bn254::serialize_g1(&bn), tokens);
    assert_eq!(Bls12_381::serialize_g1(&bls), tokens);
    assert_eq!(Bn254::deserialize_g1(&triple(&["1", "2", "1"])).is_ok(), true);
    assert_eq!(Bls12_381::deserialize_g1(&triple(&["1", "2", "1"])), Err(CodecError::NotOnCurve));
    assert_eq!(round_trip::<Bn254>(&triple(&["1", "2", "1"])), triple(&["1", "2", "1"]));
    assert_eq!(round_trip::<Bls12_381>(&triple(&["0", "1", "0"])), triple(&["0", "1", "0"]));
}

#[test]
fn curve_modules_forward_to_the_codec() {
    let tokens = triple(&["1", "2", "1"]);
    let point = pairing_codec::bn254::deserialize_g1(&tokens).unwrap();
    assert_eq!(pairing_codec::bn254::serialize_g1(&point), tokens);
    assert_eq!(pairing_codec::bn254::deserialize_g1_unchecked(&tokens), Ok(point.clone()));
    assert_eq!(pairing_codec::bn254::deserialize_g1_unchcked(&tokens), Ok(point.clone()));
    assert_eq!(
        pairing_codec::bls12_381::deserialize_g1(&tokens),
        Err(CodecError::NotOnCurve)
    );
    assert!(pairing_codec::bls12_381::deserialize_g1_unchcked(&tokens).is_ok());
    let seq = triples(&[&["1", "2", "1"], &["0", "1", "0"]]);
    let points = pairing_codec::bn254::deserialize_g1_seq(&seq).unwrap();
    assert_eq!(points, vec![point, G1Affine::Infinity]);
    assert_eq!(pairing_codec::bn254::serialize_g1_seq(&points), seq);
    assert_eq!(Bn254::deserialize_g1_seq_unchecked(&seq), Ok(points.clone()));
    assert_eq!(Bn254::serialize_g1_seq(&points), seq);
    let infinity = triples(&[&["0", "0"], &["1", "0"], &["0", "0"]]);
    assert_eq!(pairing_codec::bls12_381::deserialize_g2(&infinity), Ok(G2Affine::Infinity));
    assert_eq!(Bls12_381::deserialize_g2_unchecked(&infinity), Ok(G2Affine::Infinity));
    assert_eq!(pairing_codec::bn254::serialize_g2(&G2Affine::Infinity), infinity);
    let gt = vec![
        triples(&[&["1", "2"], &["3", "4"], &["5", "6"]]),
        triples(&[&["7", "8"], &["9", "10"], &["11", "12"]]),
    ];
    let e = pairing_codec::bls12_381::deserialize_gt(&gt).unwrap();
    assert_eq!(e.c1.c2.c1, FieldElement::from_u8(FieldKind::Bls12_381Fq, 12));
    assert_eq!(pairing_codec::bls12_381::serialize_gt(&e), gt);
    assert_eq!(Bn254::serialize_gt(&Bn254::deserialize_gt(&gt).unwrap()), gt);
}

#[test]
fn curves_read_the_binary_format() {
    for check in [CheckElement::Yes, CheckElement::No] {
        assert_eq!(Bn254::g1_from_bytes(&[0u8; 64], check), Ok(G1Affine::Infinity));
        assert_eq!(Bls12_381::g1_from_bytes(&[0u8; 64], check), Err(CodecError::TruncatedInput));
        assert_eq!(Bls12_381::g2_from_bytes(&[0u8; 192], check), Ok(G2Affine::Infinity));
        assert_eq!(
            Bn254::g1_vec_from_bytes(&[0u8; 128], 2, check),
            Ok(vec![G1Affine::Infinity, G1Affine::Infinity])
        );
        assert_eq!(Bn254::g2_vec_from_bytes(&[0u8; 128], 1, check), Ok(vec![G2Affine::Infinity]));
    }
    assert_eq!(
        Bn254::fq_from_montgomery_bytes(&[0u8; 32]),
        Ok(FieldElement::zero(FieldKind::Bn254Fq))
    );
    assert_eq!(
        Bls12_381::fq_from_montgomery_bytes(&[0u8; 32]),
        Err(CodecError::TruncatedInput)
    );
    assert_eq!(
        Bls12_381::fr_from_montgomery_bytes(&[0u8; 32]),
        Ok(FieldElement::zero(FieldKind::Bls12_381Fr))
    );
    assert_eq!(
        Bn254::fr_from_bytes_for_groth16_zkey(&[0u8; 32]),
        Ok(FieldElement::zero(FieldKind::Bn254Fr))
    );
}

#[test]
fn points_know_the_field_of_their_coordinates() {
    let bn = pairing_codec::bn254::deserialize_g1(&triple(&["1", "2", "1"])).unwrap();
    assert!(bn.is_over(pairing_codec::curve::Curve::Bn254));
    assert!(!bn.is_over(pairing_codec::curve::Curve::Bls12_381));
    assert!(G1Affine::Infinity.is_over(pairing_codec::curve::Curve::Bls12_381));
    assert!(G1Affine::Infinity.is_zero() && !bn.is_zero());
    let mixed = G1Affine::Point {
        x: FieldElement::one(FieldKind::Bn254Fq),
        y: FieldElement::one(FieldKind::Bls12_381Fq),
    };
    assert!(!mixed.is_over(pairing_codec::curve::Curve::Bn254));
    assert!(!mixed.is_over(pairing_codec::curve::Curve::Bls12_381));
    let origin = triples(&[&["1", "2"], &["3", "4"], &["1", "0"]]);
    let g2 = pairing_codec::bls12_381::deserialize_g2_unchecked(&origin).unwrap();
    assert!(g2.is_over(pairing_codec::curve::Curve::Bls12_381));
    assert!(!g2.is_over(pairing_codec::curve::Curve::Bn254));
    assert!(G2Affine::Infinity.is_over(pairing_codec::curve::Curve::Bn254));
    assert!(G2Affine::Infinity.is_zero() && !g2.is_zero());
}
