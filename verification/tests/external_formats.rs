use ark_ec::AffineRepr;
use ark_ff::{BigInteger, PrimeField};
use pairing_codec::compress::Groth16Proof;
use pairing_codec::curve::{CheckElement, Curve, G1Affine, G2Affine};
use pairing_codec::error::{CodecError, LengthSubject};
use pairing_codec::external::{
    be_bytes_g1, be_bytes_g2, decode_point_mode, push_all, read_bellman_g1, read_bellman_g2,
    read_bellman_proof, read_bellman_vk, read_count, read_gnark_g1, read_gnark_g2,
    read_gnark_proof, read_gnark_vk, window_of, PointMode, WireFormat, decode_g1, decode_g2,
};
use pairing_codec::field::{FieldElement, FieldKind, QuadExtElement};

const ORDER_BE: &str = "30644e72e131a029b85045b68181585d97816a916871ca8d3c208c16d87cfd47";
const MINUS_TWO: &str =
    "21888242871839275222246405745257275088696311157297823662689037894645226208581";

fn be32(v: u64) -> Vec<u8> {
    let mut bytes = vec![0u8; 32];
    bytes[24..].copy_from_slice(&v.to_be_bytes());
    bytes
}

fn be32_of(f: ark_bn254::Fq) -> Vec<u8> {
    f.into_bigint().to_bytes_be()
}

fn elem(f: ark_bn254::Fq) -> FieldElement {
    FieldElement::from_le_bytes(FieldKind::Bn254Fq, &f.into_bigint().to_bytes_le()).unwrap()
}

fn small_g1(x: u8, y: u8) -> G1Affine {
    G1Affine::Point {
        x: FieldElement::from_u8(FieldKind::Bn254Fq, x),
        y: FieldElement::from_u8(FieldKind::Bn254Fq, y),
    }
}

fn second_g1() -> G1Affine {
    G1Affine::Point {
        x: FieldElement::from_u8(FieldKind::Bn254Fq, 1),
        y: FieldElement::from_decimal(FieldKind::Bn254Fq, MINUS_TWO).unwrap(),
    }
}

fn g1_bytes(x: u64, y: u64) -> Vec<u8> {
    let mut bytes = be32(x);
    bytes.extend(be32(y));
    bytes
}

fn lib_g2(p: ark_bn254::G2Affine) -> G2Affine {
    G2Affine::Point {
        x: QuadExtElement { c0: elem(p.x.c0), c1: elem(p.x.c1) },
        y: QuadExtElement { c0: elem(p.y.c0), c1: elem(p.y.c1) },
    }
}

fn g2_bytes(p: ark_bn254::G2Affine) -> Vec<u8> {
    let mut bytes = be32_of(p.x.c1);
    bytes.extend(be32_of(p.x.c0));
    bytes.extend(be32_of(p.y.c1));
    bytes.extend(be32_of(p.y.c0));
    bytes
}

fn generator2() -> ark_bn254::G2Affine {
    ark_bn254::G2Affine::generator()
}

fn fixed_key_stream(count: u32, points: &[Vec<u8>]) -> Vec<u8> {
    let mut stream = g1_bytes(1, 2);
    stream.extend(g1_bytes(1, 2));
    stream.extend(g2_bytes(generator2()));
    stream.extend(g2_bytes(-generator2()));
    stream.extend(g1_bytes(1, 2));
    stream.extend(g2_bytes(generator2()));
    stream.extend(count.to_be_bytes());
    for p in points {
        stream.extend(p.iter());
    }
    stream
}

#[test]
fn fixed_format_g1_is_x_then_y() {
    let bytes = g1_bytes(1, 2);
    for check in [CheckElement::Yes, CheckElement::No] {
        assert_eq!(read_bellman_g1(&bytes, check), Ok(small_g1(1, 2)));
    }
    assert_eq!(be_bytes_g1(&small_g1(1, 2)), bytes);
    assert_eq!(read_bellman_g1(&bytes[..63], CheckElement::No), Err(CodecError::TruncatedInput));
    let swapped = g1_bytes(2, 1);
    assert_eq!(read_bellman_g1(&swapped, CheckElement::Yes), Err(CodecError::NotOnCurve));
    assert_eq!(read_bellman_g1(&swapped, CheckElement::No), Ok(small_g1(2, 1)));
}

#[test]
fn fixed_format_rejects_the_origin() {
    for check in [CheckElement::Yes, CheckElement::No] {
        assert_eq!(read_bellman_g1(&[0u8; 64], check), Err(CodecError::UnsupportedEncodingMode));
        assert_eq!(read_bellman_g2(&[0u8; 128], check), Err(CodecError::UnsupportedEncodingMode));
    }
    assert_eq!(be_bytes_g1(&G1Affine::Infinity), vec![0u8; 64]);
    assert_eq!(be_bytes_g2(&G2Affine::Infinity), vec![0u8; 128]);
}

#[test]
fn fixed_format_rejects_coordinates_at_or_above_the_order() {
    let mut bytes = hex::decode(ORDER_BE).unwrap();
    bytes.extend(be32(2));
    assert_eq!(read_bellman_g1(&bytes, CheckElement::No), Err(CodecError::InvalidFieldEncoding));
    let mut bytes = be32(1);
    bytes.extend([0xffu8; 32]);
    assert_eq!(read_bellman_g1(&bytes, CheckElement::No), Err(CodecError::InvalidFieldEncoding));
}

#[test]
fn fixed_format_g2_has_the_second_components_first() {
    let g = generator2();
    let bytes = g2_bytes(g);
    assert_eq!(read_bellman_g2(&bytes, CheckElement::Yes), Ok(lib_g2(g)));
    assert_eq!(read_bellman_g2(&bytes, CheckElement::No), Ok(lib_g2(g)));
    assert_eq!(be_bytes_g2(&lib_g2(g)), bytes);
    assert_eq!(read_bellman_g2(&bytes[..127], CheckElement::Yes), Err(CodecError::TruncatedInput));
    // With the components in the other order the point is off the curve.
    let mut other = be32_of(g.x.c0);
    other.extend(be32_of(g.x.c1));
    other.extend(be32_of(g.y.c0));
    other.extend(be32_of(g.y.c1));
    assert_eq!(read_bellman_g2(&other, CheckElement::Yes), Err(CodecError::NotOnCurve));
}

#[test]
fn fixed_format_key_holds_its_points_in_order() {
    let stream = fixed_key_stream(2, &[g1_bytes(1, 2), be_bytes_g1(&second_g1())]);
    for check in [CheckElement::Yes, CheckElement::No] {
        let vk = read_bellman_vk(&stream, check).unwrap();
        assert_eq!(vk.alpha_g1, small_g1(1, 2));
        assert_eq!(vk.beta_g2, lib_g2(generator2()));
        assert_eq!(vk.gamma_g2, lib_g2(-generator2()));
        assert_eq!(vk.delta_g2, lib_g2(generator2()));
        assert_eq!(vk.gamma_abc_g1, vec![small_g1(1, 2), second_g1()]);
    }
    let mut longer = stream.clone();
    longer.extend([7u8; 5]);
    assert!(read_bellman_vk(&longer, CheckElement::Yes).is_ok());
}

#[test]
fn fixed_format_key_fails_on_an_identity_point() {
    let first = fixed_key_stream(2, &[vec![0u8; 64], g1_bytes(1, 2)]);
    let second = fixed_key_stream(2, &[g1_bytes(1, 2), vec![0u8; 64]]);
    for check in [CheckElement::Yes, CheckElement::No] {
        assert_eq!(read_bellman_vk(&first, check), Err(CodecError::UnsupportedEncodingMode));
        assert_eq!(read_bellman_vk(&second, check), Err(CodecError::UnsupportedEncodingMode));
    }
    let mut header = fixed_key_stream(0, &[]);
    for b in header[64..128].iter_mut() {
        *b = 0;
    }
    assert_eq!(
        read_bellman_vk(&header, CheckElement::No),
        Err(CodecError::UnsupportedEncodingMode)
    );
}

#[test]
fn fixed_format_key_without_points_is_empty() {
    let stream = fixed_key_stream(0, &[]);
    let vk = read_bellman_vk(&stream, CheckElement::Yes).unwrap();
    assert!(vk.gamma_abc_g1.is_empty());
}

#[test]
fn fixed_format_key_that_ends_early_is_truncated() {
    let stream = fixed_key_stream(2, &[g1_bytes(1, 2), g1_bytes(1, 2)]);
    for cut in [0, 63, 64, 200, 575, 578, 580, 643, 707] {
        assert_eq!(
            read_bellman_vk(&stream[..cut], CheckElement::Yes),
            Err(CodecError::TruncatedInput),
            "cut at {}",
            cut
        );
    }
    let huge = fixed_key_stream(u32::MAX, &[g1_bytes(1, 2)]);
    assert_eq!(read_bellman_vk(&huge, CheckElement::No), Err(CodecError::TruncatedInput));
}

#[test]
fn fixed_format_key_fails_on_its_first_bad_point() {
    let stream = fixed_key_stream(3, &[g1_bytes(1, 2), g1_bytes(1, 3), vec![0u8; 64]]);
    assert_eq!(read_bellman_vk(&stream, CheckElement::Yes), Err(CodecError::NotOnCurve));
    assert_eq!(
        read_bellman_vk(&stream, CheckElement::No),
        Err(CodecError::UnsupportedEncodingMode)
    );
}

#[test]
fn counts_are_four_bytes_with_the_highest_first() {
    assert_eq!(read_count(&[0, 0, 0, 2]), Ok(2));
    assert_eq!(read_count(&[1, 2, 3, 4, 99]), Ok(0x01020304));
    assert_eq!(read_count(&[0xff, 0xff, 0xff, 0xff]), Ok(u32::MAX));
    assert_eq!(read_count(&[0, 0, 2]), Err(CodecError::TruncatedInput));
}

#[test]
fn windows_end_where_the_bytes_end() {
    let bytes = [1u8, 2, 3, 4, 5];
    assert_eq!(window_of(&bytes, 1, 3), vec![2, 3, 4]);
    assert_eq!(window_of(&bytes, 3, 10), vec![4, 5]);
    assert_eq!(window_of(&bytes, 5, 1), Vec::<u8>::new());
    assert_eq!(window_of(&bytes, 9, usize::MAX), Vec::<u8>::new());
    let mut out = vec![9u8];
    push_all(&mut out, &bytes[..2]);
    assert_eq!(out, vec![9, 1, 2]);
}

#[test]
fn mode_is_in_the_two_highest_bits() {
    assert_eq!(decode_point_mode(0x00), PointMode::Uncompressed);
    assert_eq!(decode_point_mode(0x3f), PointMode::Uncompressed);
    assert_eq!(decode_point_mode(0x40), PointMode::Infinity);
    assert_eq!(decode_point_mode(0x7f), PointMode::Infinity);
    assert_eq!(decode_point_mode(0x80), PointMode::CompressedSmallest);
    assert_eq!(decode_point_mode(0xbf), PointMode::CompressedSmallest);
    assert_eq!(decode_point_mode(0xc0), PointMode::CompressedLargest);
    assert_eq!(decode_point_mode(0xff), PointMode::CompressedLargest);
}

#[test]
fn infinity_mode_is_infinity_whatever_follows() {
    for fill in [0u8, 0x55, 0xff] {
        for first in [0x40u8, 0x41, 0x7f] {
            let mut bytes = vec![fill; 200];
            bytes[0] = first;
            for check in [CheckElement::Yes, CheckElement::No] {
                assert_eq!(read_gnark_g1(&bytes, check), Ok((G1Affine::Infinity, 32)));
                assert_eq!(read_gnark_g2(&bytes, check), Ok((G2Affine::Infinity, 64)));
            }
        }
    }
    let mut short = vec![0u8; 31];
    short[0] = 0x40;
    assert_eq!(read_gnark_g1(&short, CheckElement::No), Err(CodecError::TruncatedInput));
    short.resize(63, 0);
    assert_eq!(read_gnark_g2(&short, CheckElement::No), Err(CodecError::TruncatedInput));
}

#[test]
fn flagged_format_reads_uncompressed_points() {
    let bytes = g1_bytes(1, 2);
    assert_eq!(read_gnark_g1(&bytes, CheckElement::Yes), Ok((small_g1(1, 2), 64)));
    assert_eq!(read_gnark_g1(&bytes[..40], CheckElement::Yes), Err(CodecError::TruncatedInput));
    assert_eq!(read_gnark_g1(&g1_bytes(1, 3), CheckElement::Yes), Err(CodecError::NotOnCurve));
    assert_eq!(read_gnark_g1(&g1_bytes(1, 3), CheckElement::No), Ok((small_g1(1, 3), 64)));
    assert_eq!(read_gnark_g1(&[0u8; 64], CheckElement::Yes), Ok((G1Affine::Infinity, 64)));
    let g = generator2();
    assert_eq!(read_gnark_g2(&g2_bytes(g), CheckElement::Yes), Ok((lib_g2(g), 128)));
    assert_eq!(
        read_gnark_g2(&g2_bytes(g)[..100], CheckElement::Yes),
        Err(CodecError::TruncatedInput)
    );
    assert_eq!(read_gnark_g2(&[0u8; 128], CheckElement::Yes), Ok((G2Affine::Infinity, 128)));
}

#[test]
fn flagged_format_recovers_y_from_x() {
    // The roots of 1^3 + 3 are 2 and the order less 2.
    let mut smallest = be32(1);
    smallest[0] |= 0x80;
    let mut largest = be32(1);
    largest[0] |= 0xc0;
    for check in [CheckElement::Yes, CheckElement::No] {
        assert_eq!(read_gnark_g1(&smallest, check), Ok((small_g1(1, 2), 32)));
        assert_eq!(read_gnark_g1(&largest, check), Ok((second_g1(), 32)));
    }
    // 4^3 + 3 has no root.
    let mut none = be32(4);
    none[0] |= 0x80;
    assert_eq!(read_gnark_g1(&none, CheckElement::No), Err(CodecError::NotOnCurve));
    // The order with the mode bits set is still the order.
    let mut order = hex::decode(ORDER_BE).unwrap();
    order[0] |= 0x80;
    assert_eq!(read_gnark_g1(&order, CheckElement::No), Err(CodecError::InvalidFieldEncoding));
}

#[test]
fn flagged_format_recovers_y_in_the_extension() {
    let g = generator2();
    for p in [g, -g, (g + g).into()] {
        let largest = p.y > -p.y;
        let mut bytes = be32_of(p.x.c1);
        bytes.extend(be32_of(p.x.c0));
        bytes[0] |= if largest { 0xc0 } else { 0x80 };
        for check in [CheckElement::Yes, CheckElement::No] {
            assert_eq!(read_gnark_g2(&bytes, check), Ok((lib_g2(p), 64)));
        }
        bytes[0] ^= 0x40;
        assert_eq!(read_gnark_g2(&bytes, CheckElement::Yes), Ok((lib_g2(-p), 64)));
    }
}

#[test]
fn flagged_format_checks_the_subgroup_of_compressed_points() {
    let mut k = 1u64;
    let p = loop {
        let x = ark_bn254::Fq2::new(ark_bn254::Fq::from(k), ark_bn254::Fq::from(1u64));
        if let Some(p) = ark_bn254::G2Affine::get_point_from_x_unchecked(x, true) {
            if !p.is_in_correct_subgroup_assuming_on_curve() {
                break p;
            }
        }
        k += 1;
    };
    let mut bytes = be32_of(p.x.c1);
    bytes.extend(be32_of(p.x.c0));
    bytes[0] |= 0xc0;
    assert_eq!(read_gnark_g2(&bytes, CheckElement::Yes), Err(CodecError::NotInSubgroup));
    assert_eq!(read_gnark_g2(&bytes, CheckElement::No), Ok((lib_g2(p), 64)));
    // An x of the extension without a point.
    let mut k = 1u64;
    let mut found = false;
    while k < 50 && !found {
        let x = ark_bn254::Fq2::new(ark_bn254::Fq::from(k), ark_bn254::Fq::from(1u64));
        if ark_bn254::G2Affine::get_point_from_x_unchecked(x, true).is_none() {
            let mut bytes = be32(1);
            bytes.extend(be32(k));
            bytes[0] |= 0x80;
            assert_eq!(read_gnark_g2(&bytes, CheckElement::No), Err(CodecError::NotOnCurve));
            found = true;
        }
        k += 1;
    }
    assert!(found);
}

fn flagged_key_stream(count: u32, points: &[Vec<u8>]) -> Vec<u8> {
    let mut compressed_g1 = be32(1);
    compressed_g1[0] |= 0x80;
    let mut infinity_g1 = vec![0x11u8; 32];
    infinity_g1[0] = 0x40;
    let mut stream = compressed_g1.clone();
    stream.extend(infinity_g1);
    stream.extend(g2_bytes(generator2()));
    let g = generator2();
    let mut compressed_g2 = be32_of(g.x.c1);
    compressed_g2.extend(be32_of(g.x.c0));
    compressed_g2[0] |= if g.y > -g.y { 0xc0 } else { 0x80 };
    stream.extend(compressed_g2);
    stream.extend(g1_bytes(1, 2));
    stream.extend(g2_bytes(-generator2()));
    stream.extend(count.to_be_bytes());
    for p in points {
        stream.extend(p.iter());
    }
    stream
}

#[test]
fn flagged_format_key_drops_its_last_point() {
    let mut largest = be32(1);
    largest[0] |= 0xc0;
    let mut infinity = vec![0u8; 32];
    infinity[0] = 0x40;
    let stream = flagged_key_stream(4, &[g1_bytes(1, 2), largest, infinity, g1_bytes(1, 2)]);
    for check in [CheckElement::Yes, CheckElement::No] {
        let vk = read_gnark_vk(&stream, check).unwrap();
        assert_eq!(vk.alpha_g1, small_g1(1, 2));
        assert_eq!(vk.beta_g2, lib_g2(generator2()));
        assert_eq!(vk.gamma_g2, lib_g2(generator2()));
        assert_eq!(vk.delta_g2, lib_g2(-generator2()));
        assert_eq!(vk.gamma_abc_g1, vec![small_g1(1, 2), second_g1(), G1Affine::Infinity]);
    }
    let one = flagged_key_stream(1, &[g1_bytes(1, 2)]);
    assert!(read_gnark_vk(&one, CheckElement::Yes).unwrap().gamma_abc_g1.is_empty());
}

#[test]
fn flagged_format_key_needs_room_for_the_reserved_point() {
    let stream = flagged_key_stream(0, &[]);
    assert_eq!(
        read_gnark_vk(&stream, CheckElement::Yes),
        Err(CodecError::LengthMismatch { subject: LengthSubject::Batch, expected: 1, found: 0 })
    );
    let missing = flagged_key_stream(2, &[g1_bytes(1, 2)]);
    assert_eq!(read_gnark_vk(&missing, CheckElement::Yes), Err(CodecError::TruncatedInput));
    let bad_last = flagged_key_stream(2, &[g1_bytes(1, 2), g1_bytes(1, 3)]);
    assert_eq!(read_gnark_vk(&bad_last, CheckElement::Yes), Err(CodecError::NotOnCurve));
    assert_eq!(
        read_gnark_vk(&bad_last, CheckElement::No).unwrap().gamma_abc_g1,
        vec![small_g1(1, 2)]
    );
    assert_eq!(
        read_gnark_vk(&stream[..stream.len() - 1], CheckElement::Yes),
        Err(CodecError::TruncatedInput)
    );
    assert_eq!(read_gnark_vk(&[], CheckElement::Yes), Err(CodecError::TruncatedInput));
}

#[test]
fn proofs_are_a_then_b_then_c() {
    let expected = Groth16Proof { a: small_g1(1, 2), b: lib_g2(generator2()), c: second_g1() };
    let mut fixed = g1_bytes(1, 2);
    fixed.extend(g2_bytes(generator2()));
    fixed.extend(be_bytes_g1(&second_g1()));
    assert_eq!(fixed.len(), 256);
    for check in [CheckElement::Yes, CheckElement::No] {
        assert_eq!(read_bellman_proof(&fixed, check), Ok(expected.clone()));
        assert_eq!(read_gnark_proof(&fixed, check), Ok(expected.clone()));
    }
    assert_eq!(read_bellman_proof(&fixed[..255], CheckElement::Yes), Err(CodecError::TruncatedInput));
    let mut compressed_a = be32(1);
    compressed_a[0] |= 0x80;
    let mut compressed_c = be32(1);
    compressed_c[0] |= 0xc0;
    let mut flagged = compressed_a;
    flagged.extend(g2_bytes(generator2()));
    flagged.extend(compressed_c);
    assert_eq!(flagged.len(), 192);
    assert_eq!(read_gnark_proof(&flagged, CheckElement::Yes), Ok(expected));
    assert_eq!(read_gnark_proof(&flagged[..191], CheckElement::Yes), Err(CodecError::TruncatedInput));
    let mut with_infinity = vec![0u8; 256];
    with_infinity[0] = 0x40;
    assert_eq!(
        read_gnark_proof(&with_infinity, CheckElement::Yes),
        Ok(Groth16Proof { a: G1Affine::Infinity, b: G2Affine::Infinity, c: G1Affine::Infinity })
    );
    assert_eq!(
        read_bellman_proof(&with_infinity, CheckElement::No),
        Err(CodecError::InvalidFieldEncoding)
    );
    assert_eq!(
        read_bellman_proof(&[0u8; 256], CheckElement::No),
        Err(CodecError::UnsupportedEncodingMode)
    );
}

#[test]
fn decoders_follow_the_format_that_the_caller_names() {
    let fixed = g1_bytes(1, 2);
    let check = CheckElement::Yes;
    assert_eq!(
        decode_g1(WireFormat::ExternalUncompressed, Curve::Bn254, &fixed, check),
        Ok((small_g1(1, 2), 64))
    );
    assert_eq!(
        decode_g1(WireFormat::ExternalFlagged, Curve::Bn254, &fixed, check),
        Ok((small_g1(1, 2), 64))
    );
    // The same bytes are no Montgomery representation of a point of the curve.
    assert_eq!(
        decode_g1(WireFormat::MontgomeryBinary, Curve::Bn254, &fixed, check),
        Err(CodecError::NotOnCurve)
    );
    assert_eq!(
        decode_g1(WireFormat::MontgomeryBinary, Curve::Bn254, &[0u8; 64], check),
        Ok((G1Affine::Infinity, 64))
    );
    assert_eq!(
        decode_g1(WireFormat::MontgomeryBinary, Curve::Bls12_381, &[0u8; 96], check),
        Ok((G1Affine::Infinity, 96))
    );
    assert_eq!(
        decode_g1(WireFormat::ExternalFlagged, Curve::Bn254, &[0u8; 64], check),
        Ok((G1Affine::Infinity, 64))
    );
    assert_eq!(
        decode_g1(WireFormat::ExternalUncompressed, Curve::Bn254, &[0u8; 64], check),
        Err(CodecError::UnsupportedEncodingMode)
    );
    let mut compressed = be32(1);
    compressed[0] |= 0xc0;
    assert_eq!(
        decode_g1(WireFormat::ExternalFlagged, Curve::Bn254, &compressed, check),
        Ok((second_g1(), 32))
    );
    let g = g2_bytes(generator2());
    assert_eq!(
        decode_g2(WireFormat::ExternalUncompressed, Curve::Bn254, &g, check),
        Ok((lib_g2(generator2()), 128))
    );
    assert_eq!(
        decode_g2(WireFormat::ExternalFlagged, Curve::Bn254, &g, check),
        Ok((lib_g2(generator2()), 128))
    );
    assert_eq!(
        decode_g2(WireFormat::MontgomeryBinary, Curve::Bls12_381, &[0u8; 192], check),
        Ok((G2Affine::Infinity, 192))
    );
    assert_eq!(
        decode_g2(WireFormat::MontgomeryBinary, Curve::Bn254, &[0u8; 127], check),
        Err(CodecError::TruncatedInput)
    );
}

#[test]
fn formats_without_bytes_or_curve_decode_nothing() {
    let bytes = g1_bytes(1, 2);
    for check in [CheckElement::Yes, CheckElement::No] {
        for curve in [Curve::Bn254, Curve::Bls12_381] {
            assert_eq!(
                decode_g1(WireFormat::DecimalJson, curve, &bytes, check),
                Err(CodecError::UnsupportedEncodingMode)
            );
            assert_eq!(
                decode_g2(WireFormat::DecimalJson, curve, &bytes, check),
                Err(CodecError::UnsupportedEncodingMode)
            );
        }
        for format in [WireFormat::ExternalUncompressed, WireFormat::ExternalFlagged] {
            assert_eq!(
                decode_g1(format, Curve::Bls12_381, &bytes, check),
                Err(CodecError::UnsupportedEncodingMode)
            );
            assert_eq!(
                decode_g2(format, Curve::Bls12_381, &bytes, check),
                Err(CodecError::UnsupportedEncodingMode)
            );
        }
    }
}
