use ark_ec::AffineRepr;
use ark_ff::{BigInteger, PrimeField};
use pairing_codec::curve::{CheckElement, Curve, G1Affine, G2Affine};
use pairing_codec::error::CodecError;
use pairing_codec::field::{FieldElement, FieldKind, QuadExtElement};

fn hex_bytes(s: &str) -> Vec<u8> {
    hex::decode(s).unwrap()
}

fn bn_mont(v: u64) -> Vec<u8> {
    ark_bn254::Fq::from(v).0.to_bytes_le()
}

fn bn_mont_of(f: ark_bn254::Fq) -> Vec<u8> {
    f.0.to_bytes_le()
}

fn bn_fq_of(f: ark_bn254::Fq) -> FieldElement {
    FieldElement::from_le_bytes(FieldKind::Bn254Fq, &f.into_bigint().to_bytes_le()).unwrap()
}

fn bn_g1_bytes(x: u64, y: u64) -> Vec<u8> {
    let mut bytes = bn_mont(x);
    bytes.extend(bn_mont(y));
    bytes
}

fn bn_g2_generator_bytes() -> Vec<u8> {
    let g = ark_bn254::G2Affine::generator();
    let mut bytes = bn_mont_of(g.x.c0);
    bytes.extend(bn_mont_of(g.x.c1));
    bytes.extend(bn_mont_of(g.y.c0));
    bytes.extend(bn_mont_of(g.y.c1));
    bytes
}

fn bn_g2_generator_point() -> G2Affine {
    let g = ark_bn254::G2Affine::generator();
    G2Affine::Point {
        x: QuadExtElement { c0: bn_fq_of(g.x.c0), c1: bn_fq_of(g.x.c1) },
        y: QuadExtElement { c0: bn_fq_of(g.y.c0), c1: bn_fq_of(g.y.c1) },
    }
}

fn bn_g1(x: u8, y: u8) -> G1Affine {
    G1Affine::Point {
        x: FieldElement::from_u8(FieldKind::Bn254Fq, x),
        y: FieldElement::from_u8(FieldKind::Bn254Fq, y),
    }
}

#[test]
fn montgomery_form_of_one_decodes_to_one() {
    // Two to the power of 256, reduced: the representation of one.
    let one = hex_bytes("9d0d8fc58d435dd33d0bc7f528eb780a2c4679786fa36e662fdf079ac1770a0e");
    assert_eq!(
        FieldElement::from_montgomery_bytes(FieldKind::Bn254Fq, &one),
        Ok(FieldElement::one(FieldKind::Bn254Fq))
    );
    let two = hex_bytes("3a1b1e8b1b87baa67b168eeb51d6f114588cf2f0de46ddcc5ebe0f3483ef141c");
    assert_eq!(
        Curve::Bn254.fq_from_montgomery_bytes(&two),
        Ok(FieldElement::from_u8(FieldKind::Bn254Fq, 2))
    );
    let wide_one = hex_bytes("fdff02000000097602000cc40b00f4ebba58c7535798485f455752705358ce776dec56a2971a075c93e480fac35ef615");
    assert_eq!(
        Curve::Bls12_381.fq_from_montgomery_bytes(&wide_one),
        Ok(FieldElement::one(FieldKind::Bls12_381Fq))
    );
    let scalar_one = hex_bytes("fbffff4f1c3496ac29cd609f9576fc362e4679786fa36e662fdf079ac1770a0e");
    assert_eq!(
        Curve::Bn254.fr_from_montgomery_bytes(&scalar_one),
        Ok(FieldElement::one(FieldKind::Bn254Fr))
    );
}

#[test]
fn montgomery_form_is_taken_as_it_stands_in_every_field() {
    let seven_fr = ark_bls12_381::Fr::from(7u64).0.to_bytes_le();
    assert_eq!(
        Curve::Bls12_381.fr_from_montgomery_bytes(&seven_fr),
        Ok(FieldElement::from_u8(FieldKind::Bls12_381Fr, 7))
    );
    let seven_jub = taceo_ark_babyjubjub::Fr::from(7u64).0.to_bytes_le();
    assert_eq!(
        FieldElement::from_montgomery_bytes(FieldKind::BabyJubJubFr, &seven_jub),
        Ok(FieldElement::from_u8(FieldKind::BabyJubJubFr, 7))
    );
    // Bytes that are not in Montgomery form stand for another value.
    let mut plain_one = vec![0u8; 32];
    plain_one[0] = 1;
    let decoded = FieldElement::from_montgomery_bytes(FieldKind::Bn254Fq, &plain_one).unwrap();
    assert_eq!(
        decoded.to_decimal(),
        "20988524275117001072002809824448087578619730785600314334253784976379291040311"
    );
}

#[test]
fn proving_key_scalars_take_the_reduction_step_once_more() {
    // Two to the power of 512, reduced: it stands for one after two steps.
    let r_squared = hex_bytes("a76d21ae45e6b81be3595ce3b13afe538580bb533d83498ca5444e7fb1d01602");
    assert_eq!(
        Curve::Bn254.fr_from_bytes_for_groth16_zkey(&r_squared),
        Ok(FieldElement::one(FieldKind::Bn254Fr))
    );
    let once = Curve::Bn254.fr_from_montgomery_bytes(&r_squared).unwrap();
    assert_eq!(
        once.to_le_bytes(),
        hex_bytes("fbffff4f1c3496ac29cd609f9576fc362e4679786fa36e662fdf079ac1770a0e")
    );
    assert_eq!(
        FieldElement::from_montgomery_bytes_reduced(FieldKind::Bn254Fr, &[0u8; 31]),
        Err(CodecError::TruncatedInput)
    );
}

#[test]
fn montgomery_bytes_at_or_above_the_order_are_rejected() {
    let order = hex_bytes("47fd7cd8168c203c8dca7168916a81975d588181b64550b829a031e1724e6430");
    assert_eq!(
        FieldElement::from_montgomery_bytes(FieldKind::Bn254Fq, &order),
        Err(CodecError::InvalidFieldEncoding)
    );
    assert_eq!(
        FieldElement::from_montgomery_bytes(FieldKind::Bn254Fq, &[0xff; 32]),
        Err(CodecError::InvalidFieldEncoding)
    );
    let mut below = order.clone();
    below[0] -= 1;
    assert!(FieldElement::from_montgomery_bytes(FieldKind::Bn254Fq, &below).is_ok());
    assert_eq!(
        FieldElement::from_montgomery_bytes(FieldKind::Bn254Fq, &order[..31]),
        Err(CodecError::TruncatedInput)
    );
}

#[test]
fn plain_bytes_are_read_in_both_byte_orders() {
    let mut le = vec![0u8; 32];
    le[0] = 2;
    le[1] = 1;
    let e = FieldElement::from_le_bytes(FieldKind::Bn254Fq, &le).unwrap();
    assert_eq!(e.to_decimal(), "258");
    le.reverse();
    assert_eq!(FieldElement::from_be_bytes(FieldKind::Bn254Fq, &le), Ok(e));
    assert_eq!(
        FieldElement::from_be_bytes(FieldKind::Bn254Fq, &[0xff; 32]),
        Err(CodecError::InvalidFieldEncoding)
    );
    assert_eq!(
        FieldElement::from_le_bytes(FieldKind::Bls12_381Fq, &[0u8; 47]),
        Err(CodecError::TruncatedInput)
    );
}

#[test]
fn zero_bytes_are_the_point_at_infinity() {
    for check in [CheckElement::Yes, CheckElement::No] {
        assert_eq!(Curve::Bn254.g1_from_bytes(&[0u8; 64], check), Ok(G1Affine::Infinity));
        assert_eq!(Curve::Bls12_381.g1_from_bytes(&[0u8; 96], check), Ok(G1Affine::Infinity));
        assert_eq!(Curve::Bn254.g2_from_bytes(&[0u8; 128], check), Ok(G2Affine::Infinity));
        assert_eq!(Curve::Bls12_381.g2_from_bytes(&[0u8; 192], check), Ok(G2Affine::Infinity));
    }
}

#[test]
fn g1_is_decoded_from_two_field_widths() {
    let bytes = bn_g1_bytes(1, 2);
    assert_eq!(Curve::Bn254.g1_from_bytes(&bytes, CheckElement::Yes), Ok(bn_g1(1, 2)));
    assert_eq!(Curve::Bn254.g1_from_bytes(&bytes, CheckElement::No), Ok(bn_g1(1, 2)));
    assert_eq!(
        Curve::Bn254.g1_from_bytes(&bytes[..63], CheckElement::Yes),
        Err(CodecError::TruncatedInput)
    );
    assert_eq!(
        Curve::Bn254.g1_from_bytes(&bytes[..10], CheckElement::No),
        Err(CodecError::TruncatedInput)
    );
    let off_curve = bn_g1_bytes(1, 3);
    assert_eq!(
        Curve::Bn254.g1_from_bytes(&off_curve, CheckElement::Yes),
        Err(CodecError::NotOnCurve)
    );
    assert_eq!(Curve::Bn254.g1_from_bytes(&off_curve, CheckElement::No), Ok(bn_g1(1, 3)));
}

#[test]
fn g1_of_bls12_381_is_checked_for_the_subgroup() {
    let g = ark_bls12_381::G1Affine::generator();
    let mut bytes = g.x.0.to_bytes_le();
    bytes.extend(g.y.0.to_bytes_le());
    assert_eq!(bytes.len(), 96);
    let point = Curve::Bls12_381.g1_from_bytes(&bytes, CheckElement::Yes).unwrap();
    assert_eq!(
        point,
        G1Affine::Point {
            x: FieldElement::from_le_bytes(FieldKind::Bls12_381Fq, &g.x.into_bigint().to_bytes_le())
                .unwrap(),
            y: FieldElement::from_le_bytes(FieldKind::Bls12_381Fq, &g.y.into_bigint().to_bytes_le())
                .unwrap(),
        }
    );
    // (0, 2) is on the curve and has order 3.
    let mut small = ark_bls12_381::Fq::from(0u64).0.to_bytes_le();
    small.extend(ark_bls12_381::Fq::from(2u64).0.to_bytes_le());
    assert_eq!(
        Curve::Bls12_381.g1_from_bytes(&small, CheckElement::Yes),
        Err(CodecError::NotInSubgroup)
    );
    assert!(Curve::Bls12_381.g1_from_bytes(&small, CheckElement::No).is_ok());
}

#[test]
fn g2_is_decoded_from_four_field_widths() {
    let bytes = bn_g2_generator_bytes();
    assert_eq!(bytes.len(), 128);
    assert_eq!(Curve::Bn254.g2_from_bytes(&bytes, CheckElement::Yes), Ok(bn_g2_generator_point()));
    assert_eq!(Curve::Bn254.g2_from_bytes(&bytes, CheckElement::No), Ok(bn_g2_generator_point()));
    assert_eq!(
        Curve::Bn254.g2_from_bytes(&bytes[..127], CheckElement::No),
        Err(CodecError::TruncatedInput)
    );
    let mut swapped = bytes.clone();
    swapped.swap(0, 1);
    assert_eq!(
        Curve::Bn254.g2_from_bytes(&swapped, CheckElement::Yes),
        Err(CodecError::NotOnCurve)
    );
    assert!(Curve::Bn254.g2_from_bytes(&swapped, CheckElement::No).is_ok());
}

fn bn_g2_outside_subgroup() -> ark_bn254::G2Affine {
    let mut k = 1u64;
    loop {
        let x = ark_bn254::Fq2::new(ark_bn254::Fq::from(k), ark_bn254::Fq::from(1u64));
        if let Some(p) = ark_bn254::G2Affine::get_point_from_x_unchecked(x, true) {
            if !p.is_in_correct_subgroup_assuming_on_curve() {
                return p;
            }
        }
        k += 1;
    }
}

#[test]
fn g2_point_outside_the_subgroup_is_rejected_only_when_checked() {
    let p = bn_g2_outside_subgroup();
    let mut bytes = bn_mont_of(p.x.c0);
    bytes.extend(bn_mont_of(p.x.c1));
    bytes.extend(bn_mont_of(p.y.c0));
    bytes.extend(bn_mont_of(p.y.c1));
    assert_eq!(
        Curve::Bn254.g2_from_bytes(&bytes, CheckElement::Yes),
        Err(CodecError::NotInSubgroup)
    );
    assert!(Curve::Bn254.g2_from_bytes(&bytes, CheckElement::No).is_ok());

    let mut k = 1u64;
    let q = loop {
        let x = ark_bls12_381::Fq2::new(ark_bls12_381::Fq::from(k), ark_bls12_381::Fq::from(1u64));
        if let Some(q) = ark_bls12_381::G2Affine::get_point_from_x_unchecked(x, true) {
            if !q.is_in_correct_subgroup_assuming_on_curve() {
                break q;
            }
        }
        k += 1;
    };
    let mut bytes = q.x.c0.0.to_bytes_le();
    bytes.extend(q.x.c1.0.to_bytes_le());
    bytes.extend(q.y.c0.0.to_bytes_le());
    bytes.extend(q.y.c1.0.to_bytes_le());
    assert_eq!(
        Curve::Bls12_381.g2_from_bytes(&bytes, CheckElement::Yes),
        Err(CodecError::NotInSubgroup)
    );
    let g = ark_bls12_381::G2Affine::generator();
    let mut bytes = g.x.c0.0.to_bytes_le();
    bytes.extend(g.x.c1.0.to_bytes_le());
    bytes.extend(g.y.c0.0.to_bytes_le());
    bytes.extend(g.y.c1.0.to_bytes_le());
    assert!(Curve::Bls12_381.g2_from_bytes(&bytes, CheckElement::Yes).is_ok());
}

#[test]
fn batch_of_g1_keeps_the_order_of_the_bytes() {
    let points: [(u64, u64); 3] = [(1, 2), (0, 0), (1, 3)];
    let mut bytes = Vec::new();
    for (x, y) in points {
        bytes.extend(bn_g1_bytes(x, y));
    }
    let decoded = Curve::Bn254.g1_vec_from_bytes(&bytes, 3, CheckElement::No).unwrap();
    assert_eq!(decoded, vec![bn_g1(1, 2), G1Affine::Infinity, bn_g1(1, 3)]);
    for i in 0..3 {
        assert_eq!(
            Curve::Bn254.g1_from_bytes(&bytes[64 * i..64 * (i + 1)], CheckElement::No),
            Ok(decoded[i].clone())
        );
    }
    assert_eq!(
        Curve::Bn254.g1_vec_from_bytes(&bytes, 2, CheckElement::Yes),
        Ok(vec![bn_g1(1, 2), G1Affine::Infinity])
    );
    assert_eq!(
        Curve::Bn254.g1_vec_from_bytes(&bytes, 3, CheckElement::Yes),
        Err(CodecError::NotOnCurve)
    );
}

#[test]
fn batch_of_no_points_is_empty() {
    assert_eq!(Curve::Bn254.g1_vec_from_bytes(&[], 0, CheckElement::Yes), Ok(vec![]));
    assert_eq!(Curve::Bn254.g2_vec_from_bytes(&[1, 2, 3], 0, CheckElement::Yes), Ok(vec![]));
}

#[test]
fn batch_that_is_too_short_is_truncated() {
    let bytes = bn_g1_bytes(1, 2);
    assert_eq!(
        Curve::Bn254.g1_vec_from_bytes(&bytes, 2, CheckElement::Yes),
        Err(CodecError::TruncatedInput)
    );
    assert_eq!(
        Curve::Bn254.g1_vec_from_bytes(&bytes, usize::MAX, CheckElement::Yes),
        Err(CodecError::TruncatedInput)
    );
    assert_eq!(
        Curve::Bn254.g2_vec_from_bytes(&bytes, 1, CheckElement::No),
        Err(CodecError::TruncatedInput)
    );
}

#[test]
fn batch_of_g2_keeps_the_order_of_the_bytes() {
    let mut bytes = bn_g2_generator_bytes();
    bytes.extend([0u8; 128]);
    bytes.extend(bn_g2_generator_bytes());
    assert_eq!(
        Curve::Bn254.g2_vec_from_bytes(&bytes, 3, CheckElement::Yes),
        Ok(vec![bn_g2_generator_point(), G2Affine::Infinity, bn_g2_generator_point()])
    );
}

#[test]
fn widths_follow_the_curve() {
    assert_eq!(Curve::Bn254.base_field_byte_size(), 32);
    assert_eq!(Curve::Bn254.scalar_field_byte_size(), 32);
    assert_eq!(Curve::Bn254.g1_serialized_byte_size_compressed(), 32);
    assert_eq!(Curve::Bn254.g1_serialized_byte_size_uncompressed(), 64);
    assert_eq!(Curve::Bn254.g2_serialized_byte_size_compressed(), 64);
    assert_eq!(Curve::Bn254.g2_serialized_byte_size_uncompressed(), 128);
    assert_eq!(Curve::Bls12_381.base_field_byte_size(), 48);
    assert_eq!(Curve::Bls12_381.scalar_field_byte_size(), 32);
    assert_eq!(Curve::Bls12_381.g1_serialized_byte_size_uncompressed(), 96);
    assert_eq!(Curve::Bls12_381.g2_serialized_byte_size_uncompressed(), 192);
    assert_eq!(Curve::Bn254.get_circom_name(), "bn128");
    assert_eq!(Curve::Bls12_381.get_circom_name(), "bls12381");
    assert_eq!(FieldKind::Bn254Fq.modulus_bytes().len(), 32);
    assert_eq!(FieldKind::Bls12_381Fq.modulus_bytes().len(), 48);
}
