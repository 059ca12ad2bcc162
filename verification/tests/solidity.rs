use pairing_codec::compress::Groth16Proof;
use pairing_codec::curve::{G1Affine, G2Affine};
use pairing_codec::external::VerifyingKey;
use pairing_codec::field::{FieldElement, FieldKind, QuadExtElement};
use pairing_codec::solidity::{
    generate_call, join_with_commas, Format, SolidityVerifierConfig, SolidityVerifierContext,
};

fn base(v: u8) -> FieldElement {
    FieldElement::from_u8(FieldKind::Bn254Fq, v)
}

fn scalar(s: &str) -> FieldElement {
    FieldElement::from_decimal(FieldKind::Bn254Fr, s).unwrap()
}

#[test]
fn default_pragma_is_0_8_0() {
    let config = SolidityVerifierConfig::default();
    assert_eq!(config.pragma_version, "^0.8.0");
    let context = SolidityVerifierContext {
        vk: VerifyingKey {
            alpha_g1: G1Affine::Infinity,
            beta_g2: G2Affine::Infinity,
            gamma_g2: G2Affine::Infinity,
            delta_g2: G2Affine::Infinity,
            gamma_abc_g1: vec![],
        },
        config: config.clone(),
    };
    assert_eq!(context.config, config);
}

#[test]
fn formats_have_their_names() {
    assert_eq!(Format::default(), Format::Circom);
    for (format, name) in
        [(Format::Circom, "circom"), (Format::Bellman, "bellman"), (Format::Gnark, "gnark")]
    {
        assert_eq!(format.name(), name);
        assert_eq!(Format::from_name(name), Some(format));
    }
    assert_eq!(Format::from_name("Circom"), None);
    assert_eq!(Format::from_name(""), None);
    assert_eq!(Format::from_name("gnark "), None);
}

#[test]
fn parts_are_joined_with_commas() {
    let parts = |items: &[&str]| items.iter().map(|s| s.to_string()).collect::<Vec<String>>();
    assert_eq!(join_with_commas(&parts(&[])), "");
    assert_eq!(join_with_commas(&parts(&["a"])), "a");
    assert_eq!(join_with_commas(&parts(&["a", "", "c"])), "a,,c");
}

#[test]
fn call_lists_the_proof_and_the_inputs() {
    let proof = Groth16Proof {
        a: G1Affine::Point { x: base(1), y: base(2) },
        b: G2Affine::Point {
            x: QuadExtElement { c0: base(3), c1: base(4) },
            y: QuadExtElement { c0: base(5), c1: base(6) },
        },
        c: G1Affine::Infinity,
    };
    let big = "21888242871839275222246405745257275088548364400416034343698204186575808495616";
    let inputs = vec![scalar("7"), scalar("0"), scalar(big)];
    assert_eq!(
        generate_call(&proof, &inputs),
        format!("[1,2,4,3,6,5,0,0],[7,0,{}]", big)
    );
    let empty = Groth16Proof { a: G1Affine::Infinity, b: G2Affine::Infinity, c: G1Affine::Infinity };
    assert_eq!(generate_call(&empty, &vec![]), "[0,0,0,0,0,0,0,0],[]");
}
