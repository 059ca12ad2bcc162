use pairing_codec::babyjubjub::EdwardsAffine;
use pairing_codec::compress::U256;
use pairing_codec::field::{FieldElement, FieldKind};
use pairing_codec::material::{
    affine_seq_to_u256_vec, affine_to_u256_vec, bbf_inv, bbf_legendre, bbf_num_2_bits_helper,
    bbf_sqrt_input, bbf_sqrt_unchecked, fingerprint_of, fq_seq_to_u256_vec, fq_to_u256_vec,
    fr_to_u256_vec, BlackBoxFunction, CircomGroth16MaterialBuilder, Compress, Groth16Error,
    Validate, ZkeyError,
};

const EMPTY_SHA256: &str = "e3b0c44298fc1c149afbf4c8996fb92427ae41e4649b934ca495991b7852b855";
const ABC_SHA256: &str = "ba7816bf8f01cfea414140de5dae2223b00361a396177a9cb410ff61f20015ad";
const FR_MINUS_ONE: &str =
    "21888242871839275222246405745257275088548364400416034343698204186575808495616";
const FR_HALF: &str =
    "10944121435919637611123202872628637544274182200208017171849102093287904247809";

fn fr(s: &str) -> FieldElement {
    FieldElement::from_decimal(FieldKind::Bn254Fr, s).unwrap()
}

fn small_word(v: u8) -> U256 {
    let mut bytes = vec![0u8; 32];
    bytes[0] = v;
    U256::from_le_bytes(&bytes).unwrap()
}

#[test]
fn fingerprint_is_the_sha256_digest_in_hex() {
    assert_eq!(fingerprint_of(b""), EMPTY_SHA256);
    assert_eq!(fingerprint_of(b"abc"), ABC_SHA256);
    assert_ne!(fingerprint_of(b"abd"), ABC_SHA256);
}

#[test]
fn builder_starts_uncompressed_and_validating() {
    let builder = CircomGroth16MaterialBuilder::new();
    assert_eq!(builder, CircomGroth16MaterialBuilder::default());
    assert_eq!(builder.compress, Compress::No);
    assert_eq!(builder.validate, Validate::Yes);
    assert_eq!(builder.fingerprint_zkey, None);
    assert_eq!(builder.fingerprint_graph, None);
    assert!(builder.bbfs.is_empty());
}

#[test]
fn builder_keeps_what_it_is_told() {
    let builder = CircomGroth16MaterialBuilder::new()
        .compress(Compress::Yes)
        .validate(Validate::No)
        .fingerprint_zkey("aa".to_string())
        .fingerprint_graph("bb".to_string());
    assert_eq!(builder.compress, Compress::Yes);
    assert_eq!(builder.validate, Validate::No);
    assert_eq!(builder.fingerprint_zkey, Some("aa".to_string()));
    assert_eq!(builder.fingerprint_graph, Some("bb".to_string()));
}

#[test]
fn builder_holds_each_function_once() {
    let builder = CircomGroth16MaterialBuilder::new()
        .bbf_inv()
        .bbf_legendre()
        .bbf_inv()
        .bbf_sqrt_unchecked()
        .bbf_sqrt_input()
        .bbf_num_2_bits_helper()
        .bbf_legendre();
    assert_eq!(
        builder.bbfs,
        vec![
            BlackBoxFunction::Inv,
            BlackBoxFunction::Legendre,
            BlackBoxFunction::SqrtUnchecked,
            BlackBoxFunction::SqrtInput,
            BlackBoxFunction::Num2BitsHelper,
        ]
    );
    assert!(builder.has_bbf(BlackBoxFunction::SqrtInput));
    let partial = CircomGroth16MaterialBuilder::new()
        .bbf_legendre()
        .add_bbfs(&vec![BlackBoxFunction::Inv, BlackBoxFunction::Legendre, BlackBoxFunction::Inv]);
    assert_eq!(partial.bbfs, vec![BlackBoxFunction::Legendre, BlackBoxFunction::Inv]);
    assert!(!partial.has_bbf(BlackBoxFunction::SqrtInput));
    assert_eq!(BlackBoxFunction::Inv.name(), "bbf_inv");
    assert_eq!(BlackBoxFunction::Num2BitsHelper.name(), "bbf_num_2_bits_helper");
}

#[test]
fn key_with_the_expected_fingerprint_is_not_validated_again() {
    let builder = CircomGroth16MaterialBuilder::new().fingerprint_zkey(ABC_SHA256.to_string());
    assert_eq!(builder.check_zkey(b"abc"), Ok(Validate::No));
    assert_eq!(
        builder.check_zkey(b""),
        Err(ZkeyError::ZkeyFingerprintMismatch(EMPTY_SHA256.to_string()))
    );
    let upper = CircomGroth16MaterialBuilder::new().fingerprint_zkey(ABC_SHA256.to_uppercase());
    assert_eq!(
        upper.check_zkey(b"abc"),
        Err(ZkeyError::ZkeyFingerprintMismatch(ABC_SHA256.to_string()))
    );
}

#[test]
fn key_without_a_fingerprint_is_validated_as_asked() {
    let builder = CircomGroth16MaterialBuilder::new();
    assert_eq!(builder.check_zkey(b"abc"), Ok(Validate::Yes));
    assert_eq!(builder.validate(Validate::No).check_zkey(b"abc"), Ok(Validate::No));
}

#[test]
fn graph_is_checked_against_its_fingerprint() {
    let builder = CircomGroth16MaterialBuilder::new().fingerprint_graph(EMPTY_SHA256.to_string());
    assert_eq!(builder.check_graph(b""), Ok(()));
    assert_eq!(
        builder.check_graph(b"abc"),
        Err(ZkeyError::GraphFingerprintMismatch(ABC_SHA256.to_string()))
    );
    assert_eq!(CircomGroth16MaterialBuilder::new().check_graph(b"anything"), Ok(()));
}

#[test]
fn errors_can_be_told_apart() {
    assert_ne!(ZkeyError::ZkeyInvalid, ZkeyError::GraphInvalid);
    assert_ne!(ZkeyError::IoError, ZkeyError::ZkeyInvalid);
    assert_ne!(Groth16Error::WitnessGeneration, Groth16Error::ProofGeneration);
    assert_ne!(Groth16Error::ProofGeneration, Groth16Error::InvalidProof);
}

#[test]
fn inverse_of_zero_is_zero() {
    assert_eq!(bbf_inv(&[fr("0")]), fr("0"));
    assert_eq!(bbf_inv(&[fr("1")]), fr("1"));
    assert_eq!(bbf_inv(&[fr("2")]), fr(FR_HALF));
    assert_eq!(bbf_inv(&[fr(FR_HALF)]), fr("2"));
    assert_eq!(bbf_inv(&[fr(FR_MINUS_ONE), fr("5")]), fr(FR_MINUS_ONE));
}

#[test]
fn legendre_symbol_is_zero_one_or_minus_one() {
    assert_eq!(bbf_legendre(&[fr("0")]), fr("0"));
    assert_eq!(bbf_legendre(&[fr("1")]), fr("1"));
    assert_eq!(bbf_legendre(&[fr("4")]), fr("1"));
    assert_eq!(bbf_legendre(&[fr("3")]), fr("1"));
    assert_eq!(bbf_legendre(&[fr("5")]), fr(FR_MINUS_ONE));
}

#[test]
fn square_root_is_zero_where_there_is_none() {
    assert_eq!(bbf_sqrt_unchecked(&[fr("5")]), fr("0"));
    assert_eq!(bbf_sqrt_unchecked(&[fr("0")]), fr("0"));
    let root = bbf_sqrt_unchecked(&[fr("4")]);
    assert!(root == fr("2") || root == fr("21888242871839275222246405745257275088548364400416034343698204186575808495615"));
    let root = bbf_sqrt_unchecked(&[fr("3")]);
    let back = bbf_inv(&[bbf_inv(&[root.clone()])]);
    assert_eq!(back, root);
    assert_ne!(root, fr("0"));
    assert_ne!(root, fr("3"));
}

#[test]
fn sqrt_input_chooses_by_the_symbol() {
    assert_eq!(bbf_sqrt_input(&[fr("1"), fr("10"), fr("20")]), fr("10"));
    assert_eq!(bbf_sqrt_input(&[fr("0"), fr("10"), fr("20")]), fr("10"));
    assert_eq!(bbf_sqrt_input(&[fr(FR_MINUS_ONE), fr("10"), fr("20")]), fr("20"));
}

#[test]
fn bits_helper_gives_one_bit() {
    // 5 is 101 in binary.
    assert_eq!(bbf_num_2_bits_helper(&[fr("5"), fr("0")]), fr("1"));
    assert_eq!(bbf_num_2_bits_helper(&[fr("5"), fr("1")]), fr("0"));
    assert_eq!(bbf_num_2_bits_helper(&[fr("5"), fr("2")]), fr("1"));
    assert_eq!(bbf_num_2_bits_helper(&[fr("5"), fr("3")]), fr("0"));
    // 2^200 + 2^9
    let big = fr("1606938044258990275541962092341162602522202993782792835301888");
    assert_eq!(bbf_num_2_bits_helper(&[big.clone(), fr("200")]), fr("1"));
    assert_eq!(bbf_num_2_bits_helper(&[big.clone(), fr("199")]), fr("0"));
    assert_eq!(bbf_num_2_bits_helper(&[big.clone(), fr("9")]), fr("1"));
    assert_eq!(bbf_num_2_bits_helper(&[big.clone(), fr("8")]), fr("0"));
    assert_eq!(bbf_num_2_bits_helper(&[big.clone(), fr("255")]), fr("0"));
    // The order less one is odd below and has bit 253 set.
    assert_eq!(bbf_num_2_bits_helper(&[fr(FR_MINUS_ONE), fr("253")]), fr("1"));
    assert_eq!(bbf_num_2_bits_helper(&[fr(FR_MINUS_ONE), fr("254")]), fr("0"));
}

#[test]
fn bits_helper_reads_the_lowest_64_bits_of_the_index() {
    assert_eq!(bbf_num_2_bits_helper(&[fr("5"), fr("256")]), fr("0"));
    assert_eq!(bbf_num_2_bits_helper(&[fr("5"), fr("65536")]), fr("0"));
    // 2^64 and 2^64 + 2 have the lowest 64 bits of 0 and 2.
    assert_eq!(bbf_num_2_bits_helper(&[fr("5"), fr("18446744073709551616")]), fr("1"));
    assert_eq!(bbf_num_2_bits_helper(&[fr("5"), fr("18446744073709551618")]), fr("1"));
    assert_eq!(bbf_num_2_bits_helper(&[fr("5"), fr("18446744073709551617")]), fr("0"));
}

#[test]
fn elements_become_words() {
    assert_eq!(fq_to_u256_vec(&fr("7")), vec![small_word(7)]);
    assert_eq!(
        fr_to_u256_vec(&FieldElement::from_u8(FieldKind::BabyJubJubFr, 9)),
        vec![small_word(9)]
    );
    assert_eq!(fq_seq_to_u256_vec(&[fr("3"), fr("1")]), vec![small_word(3), small_word(1)]);
    assert_eq!(fq_seq_to_u256_vec(&[]), vec![]);
    let p = EdwardsAffine { x: fr("4"), y: fr("6") };
    let q = EdwardsAffine { x: fr("0"), y: fr("1") };
    assert_eq!(affine_to_u256_vec(&p), vec![small_word(4), small_word(6)]);
    assert_eq!(
        affine_seq_to_u256_vec(&[p, q]),
        vec![small_word(4), small_word(6), small_word(0), small_word(1)]
    );
}

#[test]
fn functions_are_called_by_their_kind() {
    let cases = [
        (BlackBoxFunction::Inv, 1, fr(FR_HALF)),
        (BlackBoxFunction::Legendre, 1, fr("1")),
        (BlackBoxFunction::SqrtUnchecked, 1, bbf_sqrt_unchecked(&[fr("2")])),
        (BlackBoxFunction::SqrtInput, 3, fr("5")),
        (BlackBoxFunction::Num2BitsHelper, 2, fr("0")),
    ];
    let args = [fr("2"), fr("5"), fr("7")];
    for (f, count, expected) in cases {
        assert_eq!(f.argument_count(), count);
        assert_eq!(f.apply(&args), expected);
    }
}

#[test]
fn material_is_checked_key_first() {
    let builder = CircomGroth16MaterialBuilder::new()
        .compress(Compress::Yes)
        .bbf_inv()
        .fingerprint_zkey(ABC_SHA256.to_string())
        .fingerprint_graph(EMPTY_SHA256.to_string());
    let plan = builder.clone().build_from_bytes(b"abc", b"").unwrap();
    assert_eq!(plan.compress, Compress::Yes);
    assert_eq!(plan.validate, Validate::No);
    assert_eq!(plan.bbfs, vec![BlackBoxFunction::Inv]);
    assert_eq!(
        builder.clone().build_from_bytes(b"abc", b"abc"),
        Err(ZkeyError::GraphFingerprintMismatch(ABC_SHA256.to_string()))
    );
    assert_eq!(
        builder.clone().build_from_bytes(b"", b"abc"),
        Err(ZkeyError::ZkeyFingerprintMismatch(EMPTY_SHA256.to_string()))
    );
    let plain = CircomGroth16MaterialBuilder::new().build_from_bytes(b"x", b"y").unwrap();
    assert_eq!(plain.validate, Validate::Yes);
    assert_eq!(plain.compress, Compress::No);
    assert!(plain.bbfs.is_empty());
}

#[test]
fn builder_that_is_handed_on_keeps_its_functions_apart() {
    let builder = CircomGroth16MaterialBuilder::default()
        .bbf_sqrt_input()
        .validate(Validate::No)
        .bbf_sqrt_input()
        .add_bbfs(&vec![BlackBoxFunction::SqrtInput, BlackBoxFunction::Inv])
        .bbf_inv();
    assert_eq!(builder.bbfs, vec![BlackBoxFunction::SqrtInput, BlackBoxFunction::Inv]);
    let plan = builder.build_from_bytes(b"", b"").unwrap();
    assert_eq!(plan.bbfs, vec![BlackBoxFunction::SqrtInput, BlackBoxFunction::Inv]);
}
