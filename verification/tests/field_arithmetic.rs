use ark_ff::PrimeField;
use pairing_codec::field::{FieldElement, FieldKind, QuadExtElement};

const P_MINUS_ONE: &str =
    "21888242871839275222246405745257275088696311157297823662689037894645226208582";
const P_MINUS_TWO: &str =
    "21888242871839275222246405745257275088696311157297823662689037894645226208581";

fn all_kinds() -> [FieldKind; 5] {
    [
        FieldKind::Bn254Fq,
        FieldKind::Bn254Fr,
        FieldKind::Bls12_381Fq,
        FieldKind::Bls12_381Fr,
        FieldKind::BabyJubJubFr,
    ]
}

fn el(s: &str) -> FieldElement {
    FieldElement::from_decimal(FieldKind::Bn254Fq, s).unwrap()
}

fn small(v: u8) -> FieldElement {
    FieldElement::from_u8(FieldKind::Bn254Fq, v)
}

#[test]
fn decimal_and_bytes_agree_in_every_field() {
    for kind in all_kinds() {
        let width = kind.width();
        let mut bytes = vec![0u8; width];
        bytes[0] = 2;
        bytes[1] = 1;
        bytes[9] = 3;
        // 258 + 3 * 256^9
        let digits = "14167099448608935641346";
        let parsed = FieldElement::from_decimal(kind, digits).unwrap();
        assert_eq!(parsed.to_le_bytes(), bytes);
        let read = FieldElement::from_le_bytes(kind, &bytes).unwrap();
        assert_eq!(read.to_decimal(), digits);
        assert_eq!(read, parsed);
        assert_eq!(read.field_kind(), kind);
        assert_eq!(FieldElement::from_decimal(kind, "7").unwrap(), FieldElement::from_u8(kind, 7));
    }
}

#[test]
fn orders_are_reduced_to_zero_in_every_field() {
    let orders = [
        "21888242871839275222246405745257275088696311157297823662689037894645226208583",
        "21888242871839275222246405745257275088548364400416034343698204186575808495617",
        "4002409555221667393417789825735904156556882819939007885332058136124031650490837864442687629129015664037894272559787",
        "52435875175126190479447740508185965837690552500527637822603658699938581184513",
        "2736030358979909402780800718157159386076813972158567259200215660948447373041",
    ];
    for (kind, order) in all_kinds().into_iter().zip(orders) {
        assert!(FieldElement::from_decimal(kind, order).unwrap().is_zero());
        let order_bytes = kind.modulus_bytes();
        assert_eq!(order_bytes.len(), kind.width());
        assert!(FieldElement::from_le_bytes(kind, &order_bytes).is_err());
        let mut below = order_bytes.clone();
        below[0] -= 1;
        let largest = FieldElement::from_le_bytes(kind, &below).unwrap();
        let mut digits = order.to_string();
        let last = digits.pop().unwrap();
        digits.push(char::from_digit(last.to_digit(10).unwrap() - 1, 10).unwrap());
        assert_eq!(largest.to_decimal(), digits);
    }
}

#[test]
fn elements_are_compared_by_their_residues() {
    assert!(small(3).less_than(&small(4)));
    assert!(!small(4).less_than(&small(4)));
    assert!(small(255).less_than(&el("256")));
    assert!(!el(P_MINUS_ONE).less_than(&small(1)));
    assert!(small(4).equals(&el("4")));
    assert!(!small(4).equals(&small(5)));
    assert!(FieldElement::zero(FieldKind::Bn254Fq).is_zero());
    assert!(!FieldElement::one(FieldKind::Bn254Fq).is_zero());
    assert_eq!(small(9).duplicate(), small(9));
}

#[test]
fn sums_are_reduced() {
    assert_eq!(small(3).field_add(&small(4)), small(7));
    assert_eq!(el(P_MINUS_ONE).field_add(&small(2)), small(1));
    assert_eq!(el(P_MINUS_ONE).field_add(&small(1)), small(0));
}

#[test]
fn products_are_reduced() {
    assert_eq!(small(3).field_mul(&small(4)), small(12));
    assert_eq!(el(P_MINUS_ONE).field_mul(&el(P_MINUS_ONE)), small(1));
    assert_eq!(el(P_MINUS_ONE).field_mul(&small(2)), el(P_MINUS_TWO));
    assert_eq!(small(0).field_mul(&el(P_MINUS_ONE)), small(0));
}

#[test]
fn negatives_are_taken_from_the_order() {
    assert_eq!(small(0).field_neg(), small(0));
    assert_eq!(small(1).field_neg(), el(P_MINUS_ONE));
    assert_eq!(el(P_MINUS_TWO).field_neg(), small(2));
}

#[test]
fn roots_are_powers_of_the_value() {
    assert_eq!(small(4).sqrt(), Some(small(2)));
    assert_eq!(small(0).sqrt(), Some(small(0)));
    assert_eq!(small(1).sqrt(), Some(small(1)));
    // 3 and 67 are no squares.
    assert_eq!(small(3).sqrt(), None);
    assert_eq!(small(67).sqrt(), None);
    let root = small(11).sqrt().unwrap();
    assert_eq!(
        root.to_decimal(),
        "16059845205665218889595687631975406613746683471807856151558479858750240882195"
    );
    assert_eq!(root.field_mul(&root), small(11));
}

#[test]
fn extension_elements_have_roots_and_negatives() {
    let zero = QuadExtElement::zero(FieldKind::Bn254Fq);
    assert!(zero.is_zero());
    let four = QuadExtElement { c0: small(4), c1: small(0) };
    assert!(!four.is_zero());
    let root = four.sqrt().unwrap();
    assert!(
        root.equals(&QuadExtElement { c0: small(2), c1: small(0) })
            || root.equals(&QuadExtElement { c0: el(P_MINUS_TWO), c1: small(0) })
    );
    // -4 is the square of 2u.
    let minus_four = four.quad_neg();
    assert_eq!(minus_four.c0, el("21888242871839275222246405745257275088696311157297823662689037894645226208579"));
    let root = minus_four.sqrt().unwrap();
    assert!(root.c0.is_zero());
    assert!(root.c1.equals(&small(2)) || root.c1.equals(&el(P_MINUS_TWO)));
    assert_eq!(four.duplicate(), four);
    assert_eq!(zero.sqrt(), Some(QuadExtElement::zero(FieldKind::Bn254Fq)));
}

fn to_ark(e: &FieldElement) -> ark_bn254::Fq {
    ark_bn254::Fq::from_le_bytes_mod_order(&e.to_le_bytes())
}

#[test]
fn extension_roots_square_to_the_value() {
    let values: [(u64, u64); 9] =
        [(4, 0), (0, 4), (3, 4), (5, 12), (1, 1), (2, 1), (7, 3), (9, 0), (3, 0)];
    let mut roots = 0;
    for (c0, c1) in values {
        let value = QuadExtElement { c0: el(&c0.to_string()), c1: el(&c1.to_string()) };
        if let Some(root) = value.sqrt() {
            let r = ark_bn254::Fq2::new(to_ark(&root.c0), to_ark(&root.c1));
            let expected = ark_bn254::Fq2::new(ark_bn254::Fq::from(c0), ark_bn254::Fq::from(c1));
            assert_eq!(r * r, expected);
            roots += 1;
        }
    }
    assert!(roots >= 3);
}

#[test]
fn bytes_of_any_length_are_reduced_into_the_field() {
    let expected = [
        (FieldKind::Bn254Fq, "3096616502983703923843567936837374451735540968419076528771170197431451843208"),
        (FieldKind::Bn254Fr, "944936681149208446651664254269745548490766851729442924617792859073125903782"),
        (FieldKind::Bls12_381Fq, "430096185787450071452650961369359805044079073593882877197051868092971860424631005521210078654398420381778439793820"),
        (FieldKind::Bls12_381Fr, "3294906474794265442129797520630710739278575682199800681788903916070560242796"),
        (FieldKind::BabyJubJubFr, "1932414053906531050938999051622903410247027166288844946833223180670942884381"),
    ];
    for (kind, digits) in expected {
        assert_eq!(FieldElement::from_le_bytes_mod_order(kind, &[0xff; 64]).to_decimal(), digits);
        assert!(FieldElement::from_le_bytes_mod_order(kind, &kind.modulus_bytes()).is_zero());
        assert!(FieldElement::from_le_bytes_mod_order(kind, &[]).is_zero());
        assert_eq!(
            FieldElement::from_le_bytes_mod_order(kind, &[5]),
            FieldElement::from_u8(kind, 5)
        );
        let mut above = kind.modulus_bytes();
        above[0] += 7;
        above.push(0);
        assert_eq!(
            FieldElement::from_le_bytes_mod_order(kind, &above),
            FieldElement::from_u8(kind, 7)
        );
        assert_eq!(FieldElement::from_le_bytes_mod_order(kind, &[1]).field_kind(), kind);
    }
}
