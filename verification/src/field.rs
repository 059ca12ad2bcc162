//! Prime-field elements and the extension fields built from them.
//!
//! A [`FieldElement`] holds the canonical residue of an element, as bytes
//! with the least significant one first; arkworks does the arithmetic.

use vstd::prelude::*;

use crate::backend;
use crate::decimal::{check_decimal, decimal_digits, decimal_value, is_decimal};
use crate::error::CodecError;
use crate::natbytes::{
    be_nat, copy_range, is_zero_bytes, le_nat, le_nat_from, lemma_zeros, relate, reversed,
    zero_bytes, Relation,
};

verus! {

/// The prime fields that the supported curves are built on.
#[derive(Clone, Copy, Debug, PartialEq, Eq, Structural)]
pub enum FieldKind {
    /// The base field of BN254.
    Bn254Fq,
    /// The scalar field of BN254.
    Bn254Fr,
    /// The base field of BLS12-381.
    Bls12_381Fq,
    /// The scalar field of BLS12-381.
    Bls12_381Fr,
    /// The scalar field of Baby Jubjub. Its base field is the scalar field
    /// of BN254.
    BabyJubJubFr,
}

impl FieldKind {
    /// The order of the field.
    pub open spec fn modulus(self) -> nat {
        match self {
            FieldKind::Bn254Fq => 21888242871839275222246405745257275088696311157297823662689037894645226208583nat,
            FieldKind::Bn254Fr => 21888242871839275222246405745257275088548364400416034343698204186575808495617nat,
            FieldKind::Bls12_381Fq => 4002409555221667393417789825735904156556882819939007885332058136124031650490837864442687629129015664037894272559787nat,
            FieldKind::Bls12_381Fr => 52435875175126190479447740508185965837690552500527637822603658699938581184513nat,
            FieldKind::BabyJubJubFr => 2736030358979909402780800718157159386076813972158567259200215660948447373041nat,
        }
    }

    /// The number of bytes that hold one element.
    pub open spec fn byte_width(self) -> nat {
        match self {
            FieldKind::Bls12_381Fq => 48,
            _ => 32,
        }
    }

    /// The inverse, modulo the order, of two to the power of eight times the
    /// byte width: the factor that takes a Montgomery representation to the
    /// value it represents.
    pub open spec fn montgomery_factor(self) -> nat {
        match self {
            FieldKind::Bn254Fq => 20988524275117001072002809824448087578619730785600314334253784976379291040311nat,
            FieldKind::Bn254Fr => 9915499612839321149637521777990102151350674507940716049588462388200839649614nat,
            FieldKind::Bls12_381Fq => 3231460744492646417066832100176244795738767926513225105051837195607029917124509527734802654356338138714468589979680nat,
            FieldKind::Bls12_381Fr => 12549076656233958353659347336803947287922716146853412054870763148006372261952nat,
            FieldKind::BabyJubJubFr => 2690372226113268396297012623192856059391176198075914686286099330940473760405nat,
        }
    }

    /// The value that the Montgomery representation `raw` stands for.
    pub open spec fn from_montgomery(self, raw: nat) -> nat {
        (raw * self.montgomery_factor()) % self.modulus()
    }

    /// The number of bytes that hold one element.
    pub fn width(self) -> (w: usize)
        ensures
            w == self.byte_width(),
    {
        match self {
            FieldKind::Bls12_381Fq => 48,
            _ => 32,
        }
    }

    /// The order of the field, least significant byte first.
    #[verifier::rlimit(50)]
    pub fn modulus_bytes(self) -> (r: Vec<u8>)
        ensures
            r@.len() == self.byte_width(),
            le_nat(r@) == self.modulus(),
    {
        let r = match self {
            FieldKind::Bn254Fq => vec![
                71u8, 253, 124, 216, 22, 140, 32, 60, 141, 202, 113, 104, 145, 106, 129, 151,
                93, 88, 129, 129, 182, 69, 80, 184, 41, 160, 49, 225, 114, 78, 100, 48,
            ],
            FieldKind::Bn254Fr => vec![
                1u8, 0, 0, 240, 147, 245, 225, 67, 145, 112, 185, 121, 72, 232, 51, 40,
                93, 88, 129, 129, 182, 69, 80, 184, 41, 160, 49, 225, 114, 78, 100, 48,
            ],
            FieldKind::Bls12_381Fq => vec![
                171u8, 170, 255, 255, 255, 255, 254, 185, 255, 255, 83, 177, 254, 255, 171, 30,
                36, 246, 176, 246, 160, 210, 48, 103, 191, 18, 133, 243, 132, 75, 119, 100,
                215, 172, 75, 67, 182, 167, 27, 75, 154, 230, 127, 57, 234, 17, 1, 26,
            ],
            FieldKind::Bls12_381Fr => vec![
                1u8, 0, 0, 0, 255, 255, 255, 255, 254, 91, 254, 255, 2, 164, 189, 83,
                5, 216, 161, 9, 8, 216, 57, 51, 72, 125, 157, 41, 83, 167, 237, 115,
            ],
            FieldKind::BabyJubJubFr => vec![
                241u8, 38, 33, 57, 220, 151, 114, 103, 10, 238, 32, 57, 184, 237, 62, 171,
                11, 43, 48, 208, 182, 8, 10, 55, 5, 52, 38, 92, 206, 137, 12, 6,
            ],
        };
        proof {
            reveal_with_fuel(le_nat_from, 50);
        }
        r
    }
}

/// The sum of `a` and `b` modulo `p`.
pub open spec fn mod_add(p: nat, a: nat, b: nat) -> nat {
    (a + b) % p
}

/// The product of `a` and `b` modulo `p`.
pub open spec fn mod_mul(p: nat, a: nat, b: nat) -> nat {
    (a * b) % p
}

/// The negative of `a` modulo `p`, for `a` below `p`.
pub open spec fn mod_neg(p: nat, a: nat) -> nat {
    ((p - a) % (p as int)) as nat
}

/// `a` to the power of `e`, modulo `p`.
pub open spec fn mod_pow(p: nat, a: nat, e: nat) -> nat
    decreases e,
{
    if e == 0 {
        1nat % p
    } else {
        (a * mod_pow(p, a, (e - 1) as nat)) % p
    }
}

/// A residue and its negative have the same square.
pub proof fn lemma_square_of_negative(p: nat, a: nat)
    requires
        0 < p,
        a < p,
    ensures
        mod_mul(p, mod_neg(p, a), mod_neg(p, a)) == mod_mul(p, a, a),
{
    if a == 0 {
        vstd::arithmetic::div_mod::lemma_mod_self_0(p as int);
        assert(mod_neg(p, a) == 0);
    } else {
        let n = p - a;
        vstd::arithmetic::div_mod::lemma_small_mod(n as nat, p);
        assert(mod_neg(p, a) == n);
        assert(n * n == p * (p - 2 * a) + a * a) by (nonlinear_arith)
            requires
                n == p - a,
        ;
        vstd::arithmetic::div_mod::lemma_mod_multiples_vanish(
            p - 2 * a,
            (a * a) as int,
            p as int,
        );
    }
}

/// The order of the base field of BN254.
pub open spec fn bn254_fq_modulus() -> nat {
    FieldKind::Bn254Fq.modulus()
}

/// A quarter of the order of the base field of BN254 plus one. The order
/// leaves three when divided by four, so that a square `a` has the root
/// `a` to this power.
pub open spec fn bn254_fq_root_exponent() -> nat {
    5472060717959818805561601436314318772174077789324455915672259473661306552146nat
}

/// The square root that arkworks finds for `a` in the base field of BN254,
/// if `a` has one: `a` to the power of [`bn254_fq_root_exponent`], provided
/// that its square is `a`.
#[verifier::opaque]
pub open spec fn bn254_fq_root(a: nat) -> Option<nat> {
    let c = mod_pow(bn254_fq_modulus(), a, bn254_fq_root_exponent());
    if mod_mul(bn254_fq_modulus(), c, c) == a {
        Some(c)
    } else {
        None
    }
}

/// The square root that arkworks finds for `c0 + c1 * u` in the quadratic
/// extension of the base field of BN254, if it has one.
pub uninterp spec fn bn254_fq2_root(c0: nat, c1: nat) -> Option<(nat, nat)>;

/// An element of a prime field, held as its canonical residue.
#[derive(Clone, Debug, PartialEq, Eq)]
pub struct FieldElement {
    kind: FieldKind,
    bytes: Vec<u8>,
}

impl View for FieldElement {
    type V = nat;

    /// The canonical residue.
    closed spec fn view(&self) -> nat {
        le_nat(self.bytes@)
    }
}

/// What decoding the decimal token `s` into the field `kind` gives.
pub open spec fn decimal_element(kind: FieldKind, s: Seq<char>) -> Result<nat, CodecError> {
    if is_decimal(s) {
        Ok(decimal_value(s) % kind.modulus())
    } else {
        Err(CodecError::InvalidFieldEncoding)
    }
}

/// What decoding the leading bytes of `bytes`, least significant byte first,
/// into the field `kind` gives.
pub open spec fn le_element(kind: FieldKind, bytes: Seq<u8>) -> Result<nat, CodecError> {
    if bytes.len() < kind.byte_width() {
        Err(CodecError::TruncatedInput)
    } else if le_nat(bytes.subrange(0, kind.byte_width() as int)) >= kind.modulus() {
        Err(CodecError::InvalidFieldEncoding)
    } else {
        Ok(le_nat(bytes.subrange(0, kind.byte_width() as int)))
    }
}

/// What decoding the leading bytes of `bytes`, most significant byte first,
/// into the field `kind` gives.
pub open spec fn be_element(kind: FieldKind, bytes: Seq<u8>) -> Result<nat, CodecError> {
    if bytes.len() < kind.byte_width() {
        Err(CodecError::TruncatedInput)
    } else if be_nat(bytes.subrange(0, kind.byte_width() as int)) >= kind.modulus() {
        Err(CodecError::InvalidFieldEncoding)
    } else {
        Ok(be_nat(bytes.subrange(0, kind.byte_width() as int)))
    }
}

/// What decoding the leading bytes of `bytes` as a Montgomery representation
/// of the field `kind` gives, without a further reduction step.
pub open spec fn montgomery_element(kind: FieldKind, bytes: Seq<u8>) -> Result<nat, CodecError> {
    match le_element(kind, bytes) {
        Ok(raw) => Ok(kind.from_montgomery(raw)),
        Err(e) => Err(e),
    }
}

/// What decoding the leading bytes of `bytes` as a Montgomery representation
/// of the field `kind` gives when the reduction step is applied once more.
pub open spec fn montgomery_element_reduced(kind: FieldKind, bytes: Seq<u8>) -> Result<
    nat,
    CodecError,
> {
    match le_element(kind, bytes) {
        Ok(raw) => Ok(kind.from_montgomery(kind.from_montgomery(raw))),
        Err(e) => Err(e),
    }
}

/// The residue inside a decoding result.
pub open spec fn element_view(r: Result<FieldElement, CodecError>) -> Result<nat, CodecError> {
    match r {
        Ok(e) => Ok(e@),
        Err(e) => Err(e),
    }
}

/// Whether a decoding result, if it holds an element, holds a valid one of
/// the field `kind`.
pub open spec fn element_in(r: Result<FieldElement, CodecError>, kind: FieldKind) -> bool {
    r is Ok ==> r.unwrap().wf() && r.unwrap().kind() == kind
}

impl FieldElement {
    /// The field that the element belongs to.
    pub closed spec fn kind(&self) -> FieldKind {
        self.kind
    }

    /// The canonical residue as bytes, least significant byte first.
    pub closed spec fn le_bytes(&self) -> Seq<u8> {
        self.bytes@
    }

    /// Validity: the bytes have the field's width and spell a number below
    /// its order.
    pub closed spec fn wf(&self) -> bool {
        &&& self.bytes@.len() == self.kind.byte_width()
        &&& le_nat(self.bytes@) < self.kind.modulus()
    }

    /// The bytes of a valid element spell its residue, which is below the
    /// order of the field.
    pub proof fn lemma_valid(&self)
        requires
            self.wf(),
        ensures
            self@ < self.kind().modulus(),
            self.le_bytes().len() == self.kind().byte_width(),
            le_nat(self.le_bytes()) == self@,
    {
    }

    /// The field that the element belongs to.
    pub fn field_kind(&self) -> (k: FieldKind)
        ensures
            k == self.kind(),
    {
        self.kind
    }

    /// The element with residue `v`.
    pub fn from_u8(kind: FieldKind, v: u8) -> (r: FieldElement)
        ensures
            r.wf(),
            r.kind() == kind,
            r@ == v,
    {
        let mut bytes = zero_bytes(kind.width());
        let ghost zeros = bytes@;
        bytes.set(0, v);
        proof {
            assert forall|k: int| 1 <= k < bytes@.len() implies bytes@[k] == 0 by {
                assert(bytes@[k] == zeros[k]);
            }
            lemma_zeros(bytes@, 1);
            assert(le_nat_from(bytes@, 0) == v as nat + 256 * le_nat_from(bytes@, 1));
        }
        FieldElement { kind, bytes }
    }

    /// The additive identity.
    pub fn zero(kind: FieldKind) -> (r: FieldElement)
        ensures
            r.wf(),
            r.kind() == kind,
            r@ == 0,
    {
        FieldElement::from_u8(kind, 0)
    }

    /// The multiplicative identity.
    pub fn one(kind: FieldKind) -> (r: FieldElement)
        ensures
            r.wf(),
            r.kind() == kind,
            r@ == 1,
    {
        FieldElement::from_u8(kind, 1)
    }

    /// Whether the element is the additive identity.
    pub fn is_zero(&self) -> (r: bool)
        ensures
            r == (self@ == 0),
    {
        is_zero_bytes(self.bytes.as_slice())
    }

    /// Whether two elements of one field have the same residue.
    pub fn equals(&self, other: &FieldElement) -> (r: bool)
        requires
            self.wf(),
            other.wf(),
            self.kind() == other.kind(),
        ensures
            r == (self@ == other@),
    {
        relate(self.bytes.as_slice(), other.bytes.as_slice()) == Relation::Same
    }

    /// Whether the residue of `self` is below that of `other`.
    pub fn less_than(&self, other: &FieldElement) -> (r: bool)
        requires
            self.wf(),
            other.wf(),
            self.kind() == other.kind(),
        ensures
            r == (self@ < other@),
    {
        relate(self.bytes.as_slice(), other.bytes.as_slice()) == Relation::Below
    }

    /// A copy of the element.
    pub fn duplicate(&self) -> (r: FieldElement)
        requires
            self.wf(),
        ensures
            r.wf(),
            r.kind() == self.kind(),
            r@ == self@,
            r.le_bytes() == self.le_bytes(),
    {
        let bytes = copy_range(self.bytes.as_slice(), 0, self.bytes.len());
        assert(bytes@ =~= self.bytes@);
        FieldElement { kind: self.kind, bytes }
    }

    /// Reads an element from the leading bytes of `bytes`, least significant
    /// byte first. A number that is not below the order is rejected.
    pub fn from_le_bytes(kind: FieldKind, bytes: &[u8]) -> (r: Result<FieldElement, CodecError>)
        ensures
            element_view(r) == le_element(kind, bytes@),
            element_in(r, kind),
    {
        let w = kind.width();
        if bytes.len() < w {
            return Err(CodecError::TruncatedInput);
        }
        let chunk = copy_range(bytes, 0, w);
        let modulus = kind.modulus_bytes();
        if relate(chunk.as_slice(), modulus.as_slice()) == Relation::Below {
            Ok(FieldElement { kind, bytes: chunk })
        } else {
            Err(CodecError::InvalidFieldEncoding)
        }
    }

    /// Reads an element from the leading bytes of `bytes`, most significant
    /// byte first. A number that is not below the order is rejected.
    pub fn from_be_bytes(kind: FieldKind, bytes: &[u8]) -> (r: Result<FieldElement, CodecError>)
        ensures
            element_view(r) == be_element(kind, bytes@),
            element_in(r, kind),
    {
        let w = kind.width();
        if bytes.len() < w {
            return Err(CodecError::TruncatedInput);
        }
        let chunk = copy_range(bytes, 0, w);
        let flipped = reversed(chunk.as_slice());
        let modulus = kind.modulus_bytes();
        if relate(flipped.as_slice(), modulus.as_slice()) == Relation::Below {
            Ok(FieldElement { kind, bytes: flipped })
        } else {
            Err(CodecError::InvalidFieldEncoding)
        }
    }

    /// The canonical residue, least significant byte first.
    pub fn to_le_bytes(&self) -> (r: Vec<u8>)
        requires
            self.wf(),
        ensures
            r@ == self.le_bytes(),
            r@.len() == self.kind().byte_width(),
            le_nat(r@) == self@,
            le_nat(r@) < self.kind().modulus(),
    {
        let r = copy_range(self.bytes.as_slice(), 0, self.bytes.len());
        assert(r@ =~= self.bytes@);
        r
    }

    /// The canonical residue, most significant byte first.
    pub fn to_be_bytes(&self) -> (r: Vec<u8>)
        requires
            self.wf(),
        ensures
            r@ == self.le_bytes().reverse(),
            r@.len() == self.kind().byte_width(),
            be_nat(r@) == self@,
            be_nat(r@) < self.kind().modulus(),
    {
        let r = reversed(self.bytes.as_slice());
        assert(r@.reverse() =~= self.bytes@);
        r
    }

    /// The sum of two elements of the base field of BN254.
    pub fn field_add(&self, other: &FieldElement) -> (r: FieldElement)
        requires
            self.wf(),
            other.wf(),
            self.kind() == FieldKind::Bn254Fq,
            other.kind() == FieldKind::Bn254Fq,
        ensures
            r.wf(),
            r.kind() == FieldKind::Bn254Fq,
            r@ == mod_add(bn254_fq_modulus(), self@, other@),
    {
        let bytes = backend::bn254_fq_add(self.bytes.as_slice(), other.bytes.as_slice());
        FieldElement { kind: FieldKind::Bn254Fq, bytes }
    }

    /// The product of two elements of the base field of BN254.
    pub fn field_mul(&self, other: &FieldElement) -> (r: FieldElement)
        requires
            self.wf(),
            other.wf(),
            self.kind() == FieldKind::Bn254Fq,
            other.kind() == FieldKind::Bn254Fq,
        ensures
            r.wf(),
            r.kind() == FieldKind::Bn254Fq,
            r@ == mod_mul(bn254_fq_modulus(), self@, other@),
    {
        let bytes = backend::bn254_fq_mul(self.bytes.as_slice(), other.bytes.as_slice());
        FieldElement { kind: FieldKind::Bn254Fq, bytes }
    }

    /// The negative of an element of the base field of BN254.
    pub fn field_neg(&self) -> (r: FieldElement)
        requires
            self.wf(),
            self.kind() == FieldKind::Bn254Fq,
        ensures
            r.wf(),
            r.kind() == FieldKind::Bn254Fq,
            r@ == mod_neg(bn254_fq_modulus(), self@),
    {
        let bytes = backend::bn254_fq_neg(self.bytes.as_slice());
        FieldElement { kind: FieldKind::Bn254Fq, bytes }
    }

    /// The square root of an element of the base field of BN254, if it has
    /// one.
    pub fn sqrt(&self) -> (r: Option<FieldElement>)
        requires
            self.wf(),
            self.kind() == FieldKind::Bn254Fq,
        ensures
            r is Some <==> bn254_fq_root(self@) is Some,
            r is Some ==> r.unwrap().wf() && r.unwrap().kind() == FieldKind::Bn254Fq
                && r.unwrap()@ == bn254_fq_root(self@).unwrap(),
            r is Some ==> mod_mul(bn254_fq_modulus(), r.unwrap()@, r.unwrap()@) == self@,
    {
        proof {
            reveal(bn254_fq_root);
        }
        match backend::bn254_fq_sqrt(self.bytes.as_slice()) {
            Some(bytes) => Some(FieldElement { kind: FieldKind::Bn254Fq, bytes }),
            None => None,
        }
    }

    /// Reads `bytes` as a number, least significant byte first, and reduces
    /// it into the field `kind`. Bytes of any number are taken.
    pub fn from_le_bytes_mod_order(kind: FieldKind, bytes: &[u8]) -> (r: FieldElement)
        ensures
            r.wf(),
            r.kind() == kind,
            r@ == le_nat(bytes@) % kind.modulus(),
    {
        let reduced = match kind {
            FieldKind::Bn254Fq => backend::bn254_fq_from_le_bytes_mod_order(bytes),
            FieldKind::Bn254Fr => backend::bn254_fr_from_le_bytes_mod_order(bytes),
            FieldKind::Bls12_381Fq => backend::bls12_381_fq_from_le_bytes_mod_order(bytes),
            FieldKind::Bls12_381Fr => backend::bls12_381_fr_from_le_bytes_mod_order(bytes),
            FieldKind::BabyJubJubFr => backend::babyjubjub_fr_from_le_bytes_mod_order(bytes),
        };
        FieldElement { kind, bytes: reduced }
    }

    /// Decodes a decimal token. A token that is not made of decimal digits
    /// alone is rejected; a number that is not below the order of the field
    /// is reduced modulo the order.
    pub fn from_decimal(kind: FieldKind, s: &str) -> (r: Result<FieldElement, CodecError>)
        ensures
            element_view(r) == decimal_element(kind, s@),
            element_in(r, kind),
    {
        if !check_decimal(s) {
            return Err(CodecError::InvalidFieldEncoding);
        }
        let parsed = match kind {
            FieldKind::Bn254Fq => backend::bn254_fq_from_decimal(s),
            FieldKind::Bn254Fr => backend::bn254_fr_from_decimal(s),
            FieldKind::Bls12_381Fq => backend::bls12_381_fq_from_decimal(s),
            FieldKind::Bls12_381Fr => backend::bls12_381_fr_from_decimal(s),
            FieldKind::BabyJubJubFr => backend::babyjubjub_fr_from_decimal(s),
        };
        match parsed {
            Some(bytes) => Ok(FieldElement { kind, bytes }),
            None => Err(CodecError::InvalidFieldEncoding),
        }
    }

    /// The residue in decimal notation, without sign or leading zeros.
    pub fn to_decimal(&self) -> (r: String)
        requires
            self.wf(),
        ensures
            r@ == decimal_digits(self@),
    {
        match self.kind {
            FieldKind::Bn254Fq => backend::bn254_fq_to_decimal(self.bytes.as_slice()),
            FieldKind::Bn254Fr => backend::bn254_fr_to_decimal(self.bytes.as_slice()),
            FieldKind::Bls12_381Fq => backend::bls12_381_fq_to_decimal(self.bytes.as_slice()),
            FieldKind::Bls12_381Fr => backend::bls12_381_fr_to_decimal(self.bytes.as_slice()),
            FieldKind::BabyJubJubFr => backend::babyjubjub_fr_to_decimal(self.bytes.as_slice()),
        }
    }

    /// The value that a valid raw representation stands for.
    fn montgomery_step(kind: FieldKind, raw: &FieldElement) -> (r: Option<FieldElement>)
        requires
            raw.wf(),
            raw.kind() == kind,
        ensures
            r is Some,
            r.unwrap().wf(),
            r.unwrap().kind() == kind,
            r.unwrap()@ == kind.from_montgomery(raw@),
    {
        let stepped = match kind {
            FieldKind::Bn254Fq => backend::bn254_fq_from_montgomery(raw.bytes.as_slice()),
            FieldKind::Bn254Fr => backend::bn254_fr_from_montgomery(raw.bytes.as_slice()),
            FieldKind::Bls12_381Fq => backend::bls12_381_fq_from_montgomery(raw.bytes.as_slice()),
            FieldKind::Bls12_381Fr => backend::bls12_381_fr_from_montgomery(raw.bytes.as_slice()),
            FieldKind::BabyJubJubFr => backend::babyjubjub_fr_from_montgomery(raw.bytes.as_slice()),
        };
        match stepped {
            Some(bytes) => Some(FieldElement { kind, bytes }),
            None => None,
        }
    }

    /// Reads an element whose leading bytes hold its Montgomery
    /// representation, least significant byte first. The representation is
    /// taken as it stands: no reduction step is applied to it. One that is
    /// not below the order of the field is rejected.
    pub fn from_montgomery_bytes(kind: FieldKind, bytes: &[u8]) -> (r: Result<
        FieldElement,
        CodecError,
    >)
        ensures
            element_view(r) == montgomery_element(kind, bytes@),
            element_in(r, kind),
    {
        match FieldElement::from_le_bytes(kind, bytes) {
            Ok(raw) => match FieldElement::montgomery_step(kind, &raw) {
                Some(e) => Ok(e),
                None => Err(CodecError::InvalidFieldEncoding),
            },
            Err(e) => Err(e),
        }
    }

    /// Reads an element as [`FieldElement::from_montgomery_bytes`] does and
    /// applies the reduction step to the result once more.
    pub fn from_montgomery_bytes_reduced(kind: FieldKind, bytes: &[u8]) -> (r: Result<
        FieldElement,
        CodecError,
    >)
        ensures
            element_view(r) == montgomery_element_reduced(kind, bytes@),
            element_in(r, kind),
    {
        match FieldElement::from_le_bytes(kind, bytes) {
            Ok(raw) => match FieldElement::montgomery_step(kind, &raw) {
                Some(once) => match FieldElement::montgomery_step(kind, &once) {
                    Some(e) => Ok(e),
                    None => Err(CodecError::InvalidFieldEncoding),
                },
                None => Err(CodecError::InvalidFieldEncoding),
            },
            Err(e) => Err(e),
        }
    }
}

/// An element of a quadratic extension: `c0 + c1 * u`.
#[derive(Clone, Debug, PartialEq, Eq)]
pub struct QuadExtElement {
    pub c0: FieldElement,
    pub c1: FieldElement,
}

impl View for QuadExtElement {
    type V = (nat, nat);

    open spec fn view(&self) -> (nat, nat) {
        (self.c0@, self.c1@)
    }
}

impl QuadExtElement {
    /// Validity: two valid elements of one prime field.
    pub open spec fn wf(&self) -> bool {
        &&& self.c0.wf()
        &&& self.c1.wf()
        &&& self.c0.kind() == self.c1.kind()
    }

    /// The prime field underneath.
    pub open spec fn kind(&self) -> FieldKind {
        self.c0.kind()
    }

    /// The additive identity.
    pub fn zero(kind: FieldKind) -> (r: QuadExtElement)
        ensures
            r.wf(),
            r.kind() == kind,
            r@ == (0nat, 0nat),
    {
        QuadExtElement { c0: FieldElement::zero(kind), c1: FieldElement::zero(kind) }
    }

    /// Whether both components are zero.
    pub fn is_zero(&self) -> (r: bool)
        ensures
            r == (self@ == (0nat, 0nat)),
    {
        self.c0.is_zero() && self.c1.is_zero()
    }

    /// Whether two elements over one prime field have the same components.
    pub fn equals(&self, other: &QuadExtElement) -> (r: bool)
        requires
            self.wf(),
            other.wf(),
            self.kind() == other.kind(),
        ensures
            r == (self@ == other@),
    {
        self.c0.equals(&other.c0) && self.c1.equals(&other.c1)
    }

    /// The negative of an element over the base field of BN254.
    pub fn quad_neg(&self) -> (r: QuadExtElement)
        requires
            self.wf(),
            self.kind() == FieldKind::Bn254Fq,
        ensures
            r.wf(),
            r.kind() == FieldKind::Bn254Fq,
            r@ == (mod_neg(bn254_fq_modulus(), self@.0), mod_neg(bn254_fq_modulus(), self@.1)),
    {
        QuadExtElement { c0: self.c0.field_neg(), c1: self.c1.field_neg() }
    }

    /// The square root of an element over the base field of BN254, if it
    /// has one.
    pub fn sqrt(&self) -> (r: Option<QuadExtElement>)
        requires
            self.wf(),
            self.kind() == FieldKind::Bn254Fq,
        ensures
            r is Some <==> bn254_fq2_root(self@.0, self@.1) is Some,
            r is Some ==> r.unwrap().wf() && r.unwrap().kind() == FieldKind::Bn254Fq
                && r.unwrap()@ == bn254_fq2_root(self@.0, self@.1).unwrap(),
            r is Some ==> crate::curve::quad_mul(bn254_fq_modulus(), r.unwrap()@, r.unwrap()@)
                == self@,
    {
        let c0 = self.c0.to_le_bytes();
        let c1 = self.c1.to_le_bytes();
        match backend::bn254_fq2_sqrt(c0.as_slice(), c1.as_slice()) {
            Some(pair) => {
                let (r0, r1) = pair;
                match (
                    FieldElement::from_le_bytes(FieldKind::Bn254Fq, r0.as_slice()),
                    FieldElement::from_le_bytes(FieldKind::Bn254Fq, r1.as_slice()),
                ) {
                    (Ok(a), Ok(b)) => {
                        assert(r0@.subrange(0, 32) =~= r0@);
                        assert(r1@.subrange(0, 32) =~= r1@);
                        Some(QuadExtElement { c0: a, c1: b })
                    },
                    _ => {
                        assert(r0@.subrange(0, 32) =~= r0@);
                        assert(r1@.subrange(0, 32) =~= r1@);
                        None
                    },
                }
            },
            None => None,
        }
    }

    /// A copy of the element.
    pub fn duplicate(&self) -> (r: QuadExtElement)
        requires
            self.wf(),
        ensures
            r.wf(),
            r.kind() == self.kind(),
            r@ == self@,
    {
        QuadExtElement { c0: self.c0.duplicate(), c1: self.c1.duplicate() }
    }
}

/// An element of a cubic extension over a quadratic one:
/// `c0 + c1 * v + c2 * v^2`.
#[derive(Clone, Debug, PartialEq, Eq)]
pub struct CubicExtElement {
    pub c0: QuadExtElement,
    pub c1: QuadExtElement,
    pub c2: QuadExtElement,
}

impl View for CubicExtElement {
    type V = ((nat, nat), (nat, nat), (nat, nat));

    open spec fn view(&self) -> ((nat, nat), (nat, nat), (nat, nat)) {
        (self.c0@, self.c1@, self.c2@)
    }
}

impl CubicExtElement {
    /// Validity: three valid quadratic elements over one prime field.
    pub open spec fn wf(&self) -> bool {
        &&& self.c0.wf()
        &&& self.c1.wf()
        &&& self.c2.wf()
        &&& self.c0.kind() == self.c1.kind()
        &&& self.c0.kind() == self.c2.kind()
    }

    /// The prime field underneath.
    pub open spec fn kind(&self) -> FieldKind {
        self.c0.kind()
    }
}

/// An element of the target group: a quadratic extension over the cubic
/// one, `c0 + c1 * w`.
#[derive(Clone, Debug, PartialEq, Eq)]
pub struct Fp12Element {
    pub c0: CubicExtElement,
    pub c1: CubicExtElement,
}

impl View for Fp12Element {
    type V = (((nat, nat), (nat, nat), (nat, nat)), ((nat, nat), (nat, nat), (nat, nat)));

    open spec fn view(&self) -> (
        ((nat, nat), (nat, nat), (nat, nat)),
        ((nat, nat), (nat, nat), (nat, nat)),
    ) {
        (self.c0@, self.c1@)
    }
}

impl Fp12Element {
    /// Validity: two valid cubic elements over one prime field.
    pub open spec fn wf(&self) -> bool {
        &&& self.c0.wf()
        &&& self.c1.wf()
        &&& self.c0.kind() == self.c1.kind()
    }

    /// The prime field underneath.
    pub open spec fn kind(&self) -> FieldKind {
        self.c0.kind()
    }
}

} // verus!
