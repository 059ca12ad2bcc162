use pairing_codec::error::CodecError;
use pairing_codec::field::{FieldElement, FieldKind};
use pairing_codec::public_input::PublicInput;

fn input_from_json(kind: FieldKind, text: &str) -> PublicInput {
    let tokens: Vec<String> = serde_json::from_str(text).unwrap();
    PublicInput::from_tokens(kind, &tokens).unwrap()
}

fn input_to_json(kind: FieldKind, input: &PublicInput) -> String {
    serde_json::to_string(&input.to_tokens(kind)).unwrap()
}

#[test]
fn can_serde_public_input_bls12_381() {
    let is_public_input_str = "[\"1\",\"2\",\"3\"]";
    let public_input = input_from_json(FieldKind::Bls12_381Fr, is_public_input_str);
    let should_values = vec![
        FieldElement::from_decimal(FieldKind::Bls12_381Fr, "1").unwrap(),
        FieldElement::from_decimal(FieldKind::Bls12_381Fr, "2").unwrap(),
        FieldElement::from_decimal(FieldKind::Bls12_381Fr, "3").unwrap(),
    ];
    assert_eq!(public_input.0, should_values);
    let ser_public_input = input_to_json(FieldKind::Bls12_381Fr, &public_input);
    assert_eq!(ser_public_input, is_public_input_str);
    let der_public_input = input_from_json(FieldKind::Bls12_381Fr, &ser_public_input);
    assert_eq!(der_public_input, public_input);
}

#[test]
fn can_serde_public_input_bn254() {
    let is_public_input_str = "[\"1\",\"2\",\"3\"]";
    let public_input = input_from_json(FieldKind::Bn254Fr, is_public_input_str);
    let should_values = vec![
        FieldElement::from_decimal(FieldKind::Bn254Fr, "1").unwrap(),
        FieldElement::from_decimal(FieldKind::Bn254Fr, "2").unwrap(),
        FieldElement::from_decimal(FieldKind::Bn254Fr, "3").unwrap(),
    ];
    assert_eq!(public_input.0, should_values);
    let ser_proof = input_to_json(FieldKind::Bn254Fr, &public_input);
    assert_eq!(ser_proof, is_public_input_str);
    let der_proof = input_from_json(FieldKind::Bn254Fr, &ser_proof);
    assert_eq!(der_proof, public_input);
}

#[test]
fn public_input_hands_its_values_out() {
    let public_input = input_from_json(FieldKind::Bn254Fr, "[\"7\",\"0\"]");
    assert_eq!(public_input.as_ref().len(), 2);
    assert_eq!(public_input.as_ref()[0], FieldElement::from_u8(FieldKind::Bn254Fr, 7));
    let values = public_input.clone().into_inner();
    assert_eq!(values, public_input.0);
    let bad = vec!["1".to_string(), "two".to_string()];
    assert_eq!(
        PublicInput::from_tokens(FieldKind::Bn254Fr, &bad),
        Err(CodecError::InvalidFieldEncoding)
    );
}
