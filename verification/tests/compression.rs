use ark_bn254::Fq;
use ark_ec::AffineRepr;
use ark_ff::{BigInteger, Field, PrimeField};
use pairing_codec::compress::{
    compress_g1_point, compress_g2_point, decompress_g1, decompress_g2, is_g1_compressible,
    is_g2_compressible, is_proof_compressible, prepare_compressed_proof,
    prepare_uncompressed_proof, try_compress_g1_point, try_compress_g2_point,
    try_prepare_compressed_proof, Groth16Proof, U256,
};
use pairing_codec::curve::{G1Affine, G2Affine};
use pairing_codec::error::CodecError;
use pairing_codec::field::{FieldElement, FieldKind, QuadExtElement};

const P_MINUS_TWO: &str =
    "21888242871839275222246405745257275088696311157297823662689037894645226208581";

fn word(v: u64) -> U256 {
    let mut bytes = vec![0u8; 32];
    bytes[..8].copy_from_slice(&v.to_le_bytes());
    U256::from_le_bytes(&bytes).unwrap()
}

fn word_of(f: ark_bn254::Fq) -> U256 {
    U256::from_le_bytes(&f.into_bigint().to_bytes_le()).unwrap()
}

fn fq_dec(s: &str) -> FieldElement {
    FieldElement::from_decimal(FieldKind::Bn254Fq, s).unwrap()
}

fn fq_ark(f: ark_bn254::Fq) -> FieldElement {
    FieldElement::from_le_bytes(FieldKind::Bn254Fq, &f.into_bigint().to_bytes_le()).unwrap()
}

fn g1_small(x: u8, y: u8) -> G1Affine {
    G1Affine::Point {
        x: FieldElement::from_u8(FieldKind::Bn254Fq, x),
        y: FieldElement::from_u8(FieldKind::Bn254Fq, y),
    }
}

fn g2_ark(p: ark_bn254::G2Affine) -> G2Affine {
    G2Affine::Point {
        x: QuadExtElement { c0: fq_ark(p.x.c0), c1: fq_ark(p.x.c1) },
        y: QuadExtElement { c0: fq_ark(p.y.c0), c1: fq_ark(p.y.c1) },
    }
}

/// The two low bits that go with a point of G2: the hint and the sign.
fn g2_low_bits(p: ark_bn254::G2Affine) -> u64 {
    let x = p.x;
    let n3ab = x.c0 * x.c1 * Fq::from(-3);
    let a_3 = x.c0.pow([3]);
    let b_3 = x.c1.pow([3]);
    let frac_27_82 = Fq::from(27) * Fq::from(82).inverse().unwrap();
    let frac_3_82 = Fq::from(3) * Fq::from(82).inverse().unwrap();
    let y0_pos = (n3ab * x.c1) + a_3 + frac_27_82;
    let y1_pos = -((n3ab * x.c0) + b_3 + frac_3_82);
    let half = Fq::from(2).inverse().unwrap();
    let d = ((y0_pos * y0_pos) + (y1_pos * y1_pos)).sqrt().unwrap();
    let hint = ((y0_pos + d) * half).sqrt().is_some();
    let y_computed = ark_bn254::Fq2::new(y0_pos, y1_pos).sqrt().unwrap();
    let sign = y_computed != p.y;
    2 * (hint as u64) + (sign as u64)
}

fn g2_expected(p: ark_bn254::G2Affine) -> (U256, U256) {
    let x0 = num_from(p.x.c0);
    let mut c0 = vec![0u8; 32];
    let mut carry = g2_low_bits(p) as u16;
    for i in 0..32 {
        let v = 4 * (x0[i] as u16) + carry;
        c0[i] = (v & 0xff) as u8;
        carry = v >> 8;
    }
    assert_eq!(carry, 0);
    (U256::from_le_bytes(&c0).unwrap(), word_of(p.x.c1))
}

fn num_from(f: ark_bn254::Fq) -> Vec<u8> {
    f.into_bigint().to_bytes_le()
}

#[test]
fn g1_compresses_to_twice_x_plus_the_sign() {
    // The root that is found for 1^3 + 3 = 4 is 2.
    assert_eq!(compress_g1_point(&g1_small(1, 2)), word(2));
    let negative = G1Affine::Point {
        x: FieldElement::from_u8(FieldKind::Bn254Fq, 1),
        y: fq_dec(P_MINUS_TWO),
    };
    assert_eq!(compress_g1_point(&negative), word(3));
    let third = G1Affine::Point {
        x: FieldElement::from_u8(FieldKind::Bn254Fq, 2),
        y: fq_dec(
            "16059845205665218889595687631975406613746683471807856151558479858750240882195",
        ),
    };
    assert_eq!(compress_g1_point(&third), word(4));
    let fourth = G1Affine::Point {
        x: FieldElement::from_u8(FieldKind::Bn254Fq, 2),
        y: fq_dec("5828397666174056332650718113281868474949627685489967511130558035894985326388"),
    };
    assert_eq!(try_compress_g1_point(&fourth), Some(word(5)));
}

#[test]
fn infinity_compresses_to_zero() {
    assert_eq!(compress_g1_point(&G1Affine::Infinity), word(0));
    assert_eq!(compress_g2_point(&G2Affine::Infinity), (word(0), word(0)));
    assert_eq!(decompress_g1(&word(0)), Ok(G1Affine::Infinity));
    assert_eq!(decompress_g2(&word(0), &word(0)), Ok(G2Affine::Infinity));
    assert!(U256::zero().is_zero());
    assert_eq!(U256::zero(), word(0));
}

#[test]
fn g1_decompresses_to_the_point() {
    assert_eq!(decompress_g1(&word(2)), Ok(g1_small(1, 2)));
    assert_eq!(
        decompress_g1(&word(3)),
        Ok(G1Affine::Point {
            x: FieldElement::from_u8(FieldKind::Bn254Fq, 1),
            y: fq_dec(P_MINUS_TWO)
        })
    );
    for x in [1u8, 2, 3, 5, 6, 7, 8, 9] {
        for sign in [0u64, 1] {
            let point = decompress_g1(&word(2 * x as u64 + sign)).unwrap();
            assert!(is_g1_compressible(&point));
            assert_eq!(compress_g1_point(&point), word(2 * x as u64 + sign));
        }
    }
}

#[test]
fn g1_words_that_are_no_points_are_rejected() {
    // 4^3 + 3 = 67 has no root.
    assert_eq!(decompress_g1(&word(8)), Err(CodecError::NotOnCurve));
    assert_eq!(decompress_g1(&word(9)), Err(CodecError::NotOnCurve));
    // No point of the curve has x = 0: 3 has no root.
    assert_eq!(decompress_g1(&word(1)), Err(CodecError::NotOnCurve));
    // Twice the order: x would be the order itself.
    let twice_order = U256::from_be_bytes(
        &hex::decode("60c89ce5c263405370a08b6d0302b0bb2f02d522d0e3951a7841182db0f9fa8e").unwrap(),
    )
    .unwrap();
    assert_eq!(decompress_g1(&twice_order), Err(CodecError::InvalidFieldEncoding));
    let all_ones = U256::from_le_bytes(&[0xff; 32]).unwrap();
    assert_eq!(decompress_g1(&all_ones), Err(CodecError::InvalidFieldEncoding));
}

#[test]
fn points_off_the_curve_are_not_compressed() {
    assert!(!is_g1_compressible(&g1_small(1, 3)));
    assert_eq!(try_compress_g1_point(&g1_small(1, 3)), None);
    assert_eq!(try_compress_g1_point(&g1_small(4, 1)), None);
    let off = G2Affine::Point {
        x: QuadExtElement {
            c0: FieldElement::from_u8(FieldKind::Bn254Fq, 1),
            c1: FieldElement::from_u8(FieldKind::Bn254Fq, 2),
        },
        y: QuadExtElement {
            c0: FieldElement::from_u8(FieldKind::Bn254Fq, 3),
            c1: FieldElement::from_u8(FieldKind::Bn254Fq, 4),
        },
    };
    assert!(!is_g2_compressible(&off));
    assert_eq!(try_compress_g2_point(&off), None);
    let proof = Groth16Proof { a: g1_small(1, 2), b: off, c: g1_small(1, 2) };
    assert!(!is_proof_compressible(&proof));
    assert_eq!(try_prepare_compressed_proof(&proof), None);
}

#[test]
fn g2_compresses_as_the_contract_expects() {
    let g = ark_bn254::G2Affine::generator();
    let mut points = vec![g, -g];
    let mut p = g;
    for _ in 0..6 {
        p = (p + g).into();
        points.push(p);
        points.push(-p);
    }
    let mut seen_bits = [false; 4];
    for p in points {
        let point = g2_ark(p);
        assert!(is_g2_compressible(&point));
        let (c0, c1) = compress_g2_point(&point);
        assert_eq!((c0.clone(), c1.clone()), g2_expected(p));
        assert_eq!(try_compress_g2_point(&point), Some((c0.clone(), c1.clone())));
        assert_eq!(decompress_g2(&c0, &c1), Ok(point));
        seen_bits[g2_low_bits(p) as usize] = true;
    }
    assert!(seen_bits[0] || seen_bits[2]);
    assert!(seen_bits[1] || seen_bits[3]);
}

#[test]
fn g2_words_with_the_wrong_hint_are_rejected() {
    let g = ark_bn254::G2Affine::generator();
    let (c0, c1) = compress_g2_point(&g2_ark(g));
    let mut bytes = c0.to_le_bytes();
    bytes[0] ^= 2;
    let flipped = U256::from_le_bytes(&bytes).unwrap();
    assert_eq!(decompress_g2(&flipped, &c1), Err(CodecError::UnsupportedEncodingMode));
    let order = U256::from_be_bytes(
        &hex::decode("30644e72e131a029b85045b68181585d97816a916871ca8d3c208c16d87cfd47").unwrap(),
    )
    .unwrap();
    assert_eq!(decompress_g2(&c0, &order), Err(CodecError::InvalidFieldEncoding));
}

#[test]
fn g2_words_that_are_no_points_are_rejected() {
    let mut rejected = 0;
    for x0 in 1u64..40 {
        match decompress_g2(&word(4 * x0), &word(1)) {
            Err(CodecError::NotOnCurve) => rejected += 1,
            Err(CodecError::UnsupportedEncodingMode) => {
                assert!(decompress_g2(&word(4 * x0 + 2), &word(1)).is_ok());
            }
            Ok(point) => {
                assert_eq!(compress_g2_point(&point), (word(4 * x0), word(1)));
            }
            Err(e) => panic!("unexpected error {:?}", e),
        }
    }
    assert!(rejected > 0);
}

#[test]
fn compressed_proof_holds_a_then_b1_b0_then_c() {
    let g2 = g2_ark(ark_bn254::G2Affine::generator());
    let proof = Groth16Proof {
        a: g1_small(1, 2),
        b: g2.clone(),
        c: G1Affine::Point { x: FieldElement::from_u8(FieldKind::Bn254Fq, 1), y: fq_dec(P_MINUS_TWO) },
    };
    assert!(is_proof_compressible(&proof));
    let words = prepare_compressed_proof(&proof);
    let (b0, b1) = compress_g2_point(&g2);
    assert_eq!(words, [word(2), b1, b0, word(3)]);
    assert_eq!(try_prepare_compressed_proof(&proof), Some(words));
}

#[test]
fn uncompressed_proof_holds_the_coordinates_with_b_swapped() {
    let g = ark_bn254::G2Affine::generator();
    let proof = Groth16Proof { a: g1_small(1, 2), b: g2_ark(g), c: G1Affine::Infinity };
    let words = prepare_uncompressed_proof(&proof);
    assert_eq!(
        words,
        [
            word(1),
            word(2),
            word_of(g.x.c1),
            word_of(g.x.c0),
            word_of(g.y.c1),
            word_of(g.y.c0),
            word(0),
            word(0),
        ]
    );
    let empty = Groth16Proof { a: G1Affine::Infinity, b: G2Affine::Infinity, c: G1Affine::Infinity };
    assert_eq!(prepare_uncompressed_proof(&empty), [word(0), word(0), word(0), word(0), word(0), word(0), word(0), word(0)]);
    assert_eq!(prepare_compressed_proof(&empty), [word(0), word(0), word(0), word(0)]);
}

#[test]
fn words_are_read_and_written_in_both_byte_orders() {
    let w = word(0x0102);
    let mut le = vec![0u8; 32];
    le[0] = 2;
    le[1] = 1;
    assert_eq!(w.to_le_bytes(), le);
    le.reverse();
    assert_eq!(w.to_be_bytes(), le);
    assert_eq!(U256::from_be_bytes(&le), Some(w));
    assert_eq!(U256::from_le_bytes(&[0u8; 31]), None);
    assert_eq!(U256::from_be_bytes(&[0u8; 33]), None);
    assert_eq!(
        U256::from_field(&FieldElement::from_u8(FieldKind::Bn254Fr, 7)),
        word(7)
    );
}

#[test]
fn no_point_has_the_first_coordinate_zero() {
    assert!(FieldElement::from_u8(FieldKind::Bn254Fq, 3).sqrt().is_none());
    assert_eq!(decompress_g1(&word(1)), Err(CodecError::NotOnCurve));
    assert_eq!(decompress_g1(&word(0)), Ok(G1Affine::Infinity));
    for low in 1..4u64 {
        assert_eq!(decompress_g2(&word(low), &word(0)), Err(CodecError::NotOnCurve));
    }
    assert_eq!(decompress_g2(&word(0), &word(0)), Ok(G2Affine::Infinity));
    let zero = FieldElement::zero(FieldKind::Bn254Fq);
    let third = FieldElement::from_u8(FieldKind::Bn254Fq, 3);
    let at_zero = G1Affine::Point { x: zero, y: third };
    assert!(!is_g1_compressible(&at_zero));
    assert_eq!(try_compress_g1_point(&at_zero), None);
}

#[test]
fn every_generator_multiple_comes_back_from_its_compressed_form() {
    let mut g1 = ark_bn254::G1Affine::generator();
    let mut g2 = ark_bn254::G2Affine::generator();
    for _ in 0..12 {
        let (x, y) = g1.xy().unwrap();
        let p = G1Affine::Point { x: fq_ark(x), y: fq_ark(y) };
        let c = compress_g1_point(&p);
        assert!(!c.is_zero());
        assert_eq!(decompress_g1(&c), Ok(p));
        let q = g2_ark(g2);
        let (c0, c1) = compress_g2_point(&q);
        assert!(!(c0.is_zero() && c1.is_zero()));
        assert_eq!(decompress_g2(&c0, &c1), Ok(q));
        g1 = (g1 + ark_bn254::G1Affine::generator()).into();
        g2 = (g2 + ark_bn254::G2Affine::generator()).into();
    }
}
