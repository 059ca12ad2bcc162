//! Point compression for the on-chain verifier of BN254 proofs.
//!
//! A point of the curve is known from its `x` coordinate up to the sign of
//! `y`. A compressed G1 point is the word `2 * x + sign`; a compressed G2
//! point is the pair of words `(4 * x0 + 2 * hint + sign, x1)`, where
//! `hint` tells the verifier which root to take on its way to `y`: it is set
//! when half the sum of the first component of `y^2` and the root of its
//! norm has a square root. The point at infinity is the zero word, or the
//! pair of zero words.

use vstd::prelude::*;

use crate::curve::{
    g1_on_curve, g1_rhs, g2_coeff_b, g2_on_curve, g2_rhs, quad_add, quad_mul, Curve, G1Affine,
    G2Affine,
};
use crate::error::CodecError;
use crate::field::{
    bn254_fq2_root, bn254_fq_modulus, bn254_fq_root, lemma_square_of_negative, mod_add, mod_mul,
    mod_neg, FieldElement, FieldKind, QuadExtElement,
};
use crate::json::{g1_in, g1_result, g2_in, g2_result};
use crate::modular::{
    lemma_congruent_from, lemma_congruent_residues, lemma_congruent_same, lemma_congruent_self,
    lemma_mod_add, lemma_mod_mul, lemma_mod_neg, lemma_quad_add, lemma_quad_mul,
    lemma_quad_square_of_negative,
};
use crate::nonresidue::{
    lemma_three_has_no_root, lemma_twist_constant_norm_has_no_root, twist_constant_norm,
};
use crate::natbytes::{
    be_nat, copy_range, double_plus, halve, is_zero_bytes, le_nat, le_nat_from, lemma_top_byte,
    reversed, top_byte_weight, zero_bytes,
};

verus! {

/// A word of 256 bits, the unit in which the verifier contract takes its
/// arguments.
#[derive(Clone, Debug, PartialEq, Eq)]
pub struct U256 {
    bytes: Vec<u8>,
}

impl View for U256 {
    type V = nat;

    /// The number that the word holds.
    closed spec fn view(&self) -> nat {
        le_nat(self.bytes@)
    }
}

impl U256 {
    /// Validity: the word is 32 bytes wide.
    pub closed spec fn wf(&self) -> bool {
        self.bytes@.len() == 32
    }

    /// The word that holds zero.
    pub fn zero() -> (r: U256)
        ensures
            r.wf(),
            r@ == 0,
    {
        U256 { bytes: zero_bytes(32) }
    }

    /// The word that holds the residue of `e`, an element of a field of 32
    /// bytes.
    pub fn from_field(e: &FieldElement) -> (r: U256)
        requires
            e.wf(),
            e.kind().byte_width() == 32,
        ensures
            r.wf(),
            r@ == e@,
    {
        U256 { bytes: e.to_le_bytes() }
    }

    /// The word whose 32 bytes, least significant byte first, are `bytes`.
    pub fn from_le_bytes(bytes: &[u8]) -> (r: Option<U256>)
        ensures
            r is Some <==> bytes@.len() == 32,
            r is Some ==> r.unwrap().wf() && r.unwrap()@ == le_nat(bytes@),
    {
        if bytes.len() != 32 {
            None
        } else {
            let copy = copy_range(bytes, 0, 32);
            assert(copy@ =~= bytes@);
            Some(U256 { bytes: copy })
        }
    }

    /// The word whose 32 bytes, most significant byte first, are `bytes`.
    pub fn from_be_bytes(bytes: &[u8]) -> (r: Option<U256>)
        ensures
            r is Some <==> bytes@.len() == 32,
            r is Some ==> r.unwrap().wf() && r.unwrap()@ == be_nat(bytes@),
    {
        if bytes.len() != 32 {
            None
        } else {
            Some(U256 { bytes: reversed(bytes) })
        }
    }

    /// The 32 bytes of the word, least significant byte first.
    pub fn to_le_bytes(&self) -> (r: Vec<u8>)
        requires
            self.wf(),
        ensures
            r@.len() == 32,
            le_nat(r@) == self@,
    {
        let r = copy_range(self.bytes.as_slice(), 0, 32);
        assert(r@ =~= self.bytes@);
        r
    }

    /// The 32 bytes of the word, most significant byte first.
    pub fn to_be_bytes(&self) -> (r: Vec<u8>)
        requires
            self.wf(),
        ensures
            r@.len() == 32,
            be_nat(r@) == self@,
    {
        let r = reversed(self.bytes.as_slice());
        assert(r@.reverse() =~= self.bytes@);
        r
    }

    /// Whether the word holds zero.
    pub fn is_zero(&self) -> (r: bool)
        ensures
            r == (self@ == 0),
    {
        is_zero_bytes(self.bytes.as_slice())
    }

    /// The word that holds twice the number of `self`, plus `low`.
    fn shifted(&self, low: bool) -> (r: U256)
        requires
            self.wf(),
            self@ < 128 * top_byte_weight(),
        ensures
            r.wf(),
            r@ == 2 * self@ + bit(low),
    {
        proof {
            lemma_top_byte(self.bytes@);
        }
        U256 { bytes: double_plus(self.bytes.as_slice(), low) }
    }

    /// The word that holds half the number of `self`, rounded down, and
    /// whether that number was odd.
    fn halved(&self) -> (r: (U256, bool))
        requires
            self.wf(),
        ensures
            r.0.wf(),
            r.0@ == self@ / 2,
            r.1 == (self@ % 2 == 1),
    {
        let (bytes, odd) = halve(self.bytes.as_slice());
        (U256 { bytes }, odd)
    }

    /// The element of the base field of BN254 with the number of the word
    /// as its residue, if the number is below the order of the field.
    fn to_base_field(&self) -> (r: Option<FieldElement>)
        requires
            self.wf(),
        ensures
            r is Some <==> self@ < bn254_fq_modulus(),
            r is Some ==> r.unwrap().wf() && r.unwrap().kind() == FieldKind::Bn254Fq
                && r.unwrap()@ == self@,
    {
        assert(self.bytes@.subrange(0, 32) =~= self.bytes@);
        match FieldElement::from_le_bytes(FieldKind::Bn254Fq, self.bytes.as_slice()) {
            Ok(e) => Some(e),
            Err(_) => None,
        }
    }
}

/// One for `true`, zero for `false`.
pub open spec fn bit(b: bool) -> nat {
    if b {
        1
    } else {
        0
    }
}

/// The root of the right-hand side of the equation of G1 at `x`, if there
/// is one.
pub open spec fn g1_root(x: nat) -> Option<nat> {
    bn254_fq_root(g1_rhs(Curve::Bn254, x))
}

/// Whether a point of G1 can be compressed: the right-hand side of the curve
/// equation at its `x` has a root, and its `y` is that root or the negative
/// of it. This is what being on the curve comes to.
pub open spec fn g1_compressible(p: Option<(nat, nat)>) -> bool {
    match p {
        None => true,
        Some((x, y)) => g1_root(x) is Some && (y == g1_root(x).unwrap() || y == mod_neg(
            bn254_fq_modulus(),
            g1_root(x).unwrap(),
        )),
    }
}

/// The compressed form of a point of G1.
pub open spec fn compressed_g1(p: Option<(nat, nat)>) -> nat {
    match p {
        None => 0,
        Some((x, y)) => 2 * x + bit(y != g1_root(x).unwrap()),
    }
}

/// The point of G1 that the word `c` is the compressed form of.
pub open spec fn decompressed_g1(c: nat) -> Result<Option<(nat, nat)>, CodecError> {
    if c == 0 {
        Ok(None)
    } else if c / 2 >= bn254_fq_modulus() {
        Err(CodecError::InvalidFieldEncoding)
    } else {
        match g1_root(c / 2) {
            None => Err(CodecError::NotOnCurve),
            Some(y) => Ok(
                Some(
                    (
                        c / 2,
                        if c % 2 == 1 {
                            mod_neg(bn254_fq_modulus(), y)
                        } else {
                            y
                        },
                    ),
                ),
            ),
        }
    }
}

/// 27 divided by 82 in the base field of BN254.
pub open spec fn frac_27_82() -> nat {
    19485874751759354771024239261021720505790618469301721065564631296452457478373nat
}

/// 3 divided by 82 in the base field of BN254.
pub open spec fn frac_3_82() -> nat {
    21621313080719284060999498358119991246151234191964923374119659383734918571893nat
}

/// One half in the base field of BN254.
pub open spec fn one_half() -> nat {
    10944121435919637611123202872628637544348155578648911831344518947322613104292nat
}

/// The cube of `a` in the base field of BN254.
pub open spec fn cube(a: nat) -> nat {
    mod_mul(bn254_fq_modulus(), mod_mul(bn254_fq_modulus(), a, a), a)
}

/// The right-hand side of the equation of G2 at `x = a + b * u`, that is
/// `x^3 + 3 / (9 + u)`, written out in its two components:
/// `a^3 - 3 * a * b^2 + 27 / 82` and `-(b^3 - 3 * a^2 * b + 3 / 82)`.
#[verifier::opaque]
pub open spec fn twist_rhs(x: (nat, nat)) -> (nat, nat) {
    let p = bn254_fq_modulus();
    let n3ab = mod_mul(p, mod_mul(p, x.0, x.1), mod_neg(p, 3));
    (
        mod_add(p, mod_add(p, mod_mul(p, n3ab, x.1), cube(x.0)), frac_27_82()),
        mod_neg(p, mod_add(p, mod_add(p, mod_mul(p, n3ab, x.0), cube(x.1)), frac_3_82())),
    )
}

/// The root of the norm `v0^2 + v1^2` of `v`, if there is one.
#[verifier::opaque]
pub open spec fn norm_root(v: (nat, nat)) -> Option<nat> {
    let p = bn254_fq_modulus();
    bn254_fq_root(mod_add(p, mod_mul(p, v.0, v.0), mod_mul(p, v.1, v.1)))
}

/// The hint that goes with `v` and the root `d` of its norm: whether
/// `(v0 + d) / 2` has a square root.
#[verifier::opaque]
pub open spec fn root_hint(v: (nat, nat), d: nat) -> bool {
    let p = bn254_fq_modulus();
    bn254_fq_root(mod_mul(p, mod_add(p, v.0, d), one_half())) is Some
}

/// The root of the right-hand side of the equation of G2 at `x`, if there
/// is one.
pub open spec fn g2_root(x: (nat, nat)) -> Option<(nat, nat)> {
    bn254_fq2_root(twist_rhs(x).0, twist_rhs(x).1)
}

/// The negative of `v` in the quadratic extension.
pub open spec fn twist_neg(v: (nat, nat)) -> (nat, nat) {
    (mod_neg(bn254_fq_modulus(), v.0), mod_neg(bn254_fq_modulus(), v.1))
}

/// Whether a point of G2 can be compressed: the right-hand side of the curve
/// equation at its `x` has a root and a norm with a root, and its `y` is
/// that root or the negative of it.
pub open spec fn g2_compressible(p: Option<((nat, nat), (nat, nat))>) -> bool {
    match p {
        None => true,
        Some((x, y)) => norm_root(twist_rhs(x)) is Some && g2_root(x) is Some && (y == g2_root(
            x,
        ).unwrap() || y == twist_neg(g2_root(x).unwrap())),
    }
}

/// The compressed form of a point of G2.
pub open spec fn compressed_g2(p: Option<((nat, nat), (nat, nat))>) -> (nat, nat) {
    match p {
        None => (0, 0),
        Some((x, y)) => (
            4 * x.0 + 2 * bit(root_hint(twist_rhs(x), norm_root(twist_rhs(x)).unwrap())) + bit(
                y != g2_root(x).unwrap(),
            ),
            x.1,
        ),
    }
}

/// The point of G2 that the pair of words `(c0, c1)` is the compressed form
/// of. A hint that does not go with the coordinates is an error of its own.
pub open spec fn decompressed_g2(c0: nat, c1: nat) -> Result<
    Option<((nat, nat), (nat, nat))>,
    CodecError,
> {
    let x = (c0 / 4, c1);
    if c0 == 0 && c1 == 0 {
        Ok(None)
    } else if x.0 >= bn254_fq_modulus() || x.1 >= bn254_fq_modulus() {
        Err(CodecError::InvalidFieldEncoding)
    } else if norm_root(twist_rhs(x)) is None {
        Err(CodecError::NotOnCurve)
    } else if root_hint(twist_rhs(x), norm_root(twist_rhs(x)).unwrap()) != ((c0 / 2) % 2 == 1) {
        Err(CodecError::UnsupportedEncodingMode)
    } else {
        match g2_root(x) {
            None => Err(CodecError::NotOnCurve),
            Some(y) => Ok(
                Some(
                    (
                        x,
                        if c0 % 2 == 1 {
                            twist_neg(y)
                        } else {
                            y
                        },
                    ),
                ),
            ),
        }
    }
}

/// The element with the residue that `bytes` spell, for `bytes` that spell
/// a residue.
fn constant(bytes: Vec<u8>) -> (r: FieldElement)
    requires
        bytes@.len() == 32,
        le_nat(bytes@) < bn254_fq_modulus(),
    ensures
        r.wf(),
        r.kind() == FieldKind::Bn254Fq,
        r@ == le_nat(bytes@),
{
    assert(bytes@.subrange(0, 32) =~= bytes@);
    match FieldElement::from_le_bytes(FieldKind::Bn254Fq, bytes.as_slice()) {
        Ok(e) => e,
        Err(_) => FieldElement::zero(FieldKind::Bn254Fq),
    }
}

/// 27 divided by 82.
#[verifier::rlimit(50)]
fn frac_27_82_element() -> (r: FieldElement)
    ensures
        r.wf(),
        r.kind() == FieldKind::Bn254Fq,
        r@ == frac_27_82(),
{
    let bytes: Vec<u8> = vec![
        229u8, 56, 161, 36, 220, 230, 103, 50, 163, 239, 219, 89, 229, 197, 180, 181,
        195, 106, 224, 27, 153, 24, 190, 129, 174, 170, 184, 206, 64, 157, 20, 43,
    ];
    proof {
        reveal_with_fuel(le_nat_from, 33);
    }
    constant(bytes)
}

/// 3 divided by 82.
#[verifier::rlimit(50)]
fn frac_3_82_element() -> (r: FieldElement)
    ensures
        r.wf(),
        r.kind() == FieldKind::Bn254Fq,
        r@ == frac_3_82(),
{
    let bytes: Vec<u8> = vec![
        117u8, 231, 185, 82, 16, 207, 125, 87, 58, 178, 68, 131, 12, 202, 49, 240,
        104, 90, 168, 146, 8, 150, 35, 235, 84, 161, 64, 166, 194, 58, 205, 47,
    ];
    proof {
        reveal_with_fuel(le_nat_from, 33);
    }
    constant(bytes)
}

/// One half.
#[verifier::rlimit(50)]
fn one_half_element() -> (r: FieldElement)
    ensures
        r.wf(),
        r.kind() == FieldKind::Bn254Fq,
        r@ == one_half(),
{
    let bytes: Vec<u8> = vec![
        164u8, 126, 62, 108, 11, 70, 16, 158, 70, 229, 56, 180, 72, 181, 192, 203,
        46, 172, 192, 64, 219, 34, 40, 220, 20, 208, 152, 112, 57, 39, 50, 24,
    ];
    proof {
        reveal_with_fuel(le_nat_from, 33);
    }
    constant(bytes)
}

/// The right-hand side of the equation of G1 at `x`.
pub(crate) fn g1_rhs_of(x: &FieldElement) -> (r: FieldElement)
    requires
        x.wf(),
        x.kind() == FieldKind::Bn254Fq,
    ensures
        r.wf(),
        r.kind() == FieldKind::Bn254Fq,
        r@ == g1_rhs(Curve::Bn254, x@),
{
    let three = FieldElement::from_u8(FieldKind::Bn254Fq, 3);
    x.field_mul(x).field_mul(x).field_add(&three)
}

/// The right-hand side of the equation of G2 at `x`.
pub(crate) fn twist_rhs_of(x: &QuadExtElement) -> (r: QuadExtElement)
    requires
        x.wf(),
        x.kind() == FieldKind::Bn254Fq,
    ensures
        r.wf(),
        r.kind() == FieldKind::Bn254Fq,
        r@ == twist_rhs(x@),
{
    reveal(twist_rhs);
    let frac_27_82 = frac_27_82_element();
    let frac_3_82 = frac_3_82_element();
    let minus_three = FieldElement::from_u8(FieldKind::Bn254Fq, 3).field_neg();
    let n3ab = x.c0.field_mul(&x.c1).field_mul(&minus_three);
    let a_3 = x.c0.field_mul(&x.c0).field_mul(&x.c0);
    let b_3 = x.c1.field_mul(&x.c1).field_mul(&x.c1);
    let y0 = n3ab.field_mul(&x.c1).field_add(&a_3).field_add(&frac_27_82);
    let y1 = n3ab.field_mul(&x.c0).field_add(&b_3).field_add(&frac_3_82).field_neg();
    QuadExtElement { c0: y0, c1: y1 }
}

/// The root of the norm of `v`, if there is one.
fn norm_root_of(v: &QuadExtElement) -> (r: Option<FieldElement>)
    requires
        v.wf(),
        v.kind() == FieldKind::Bn254Fq,
    ensures
        r is Some <==> norm_root(v@) is Some,
        r is Some ==> r.unwrap().wf() && r.unwrap().kind() == FieldKind::Bn254Fq && r.unwrap()@
            == norm_root(v@).unwrap(),
{
    reveal(norm_root);
    v.c0.field_mul(&v.c0).field_add(&v.c1.field_mul(&v.c1)).sqrt()
}

/// The hint that goes with `v` and the root `d` of its norm.
fn root_hint_of(v: &QuadExtElement, d: &FieldElement) -> (r: bool)
    requires
        v.wf(),
        v.kind() == FieldKind::Bn254Fq,
        d.wf(),
        d.kind() == FieldKind::Bn254Fq,
    ensures
        r == root_hint(v@, d@),
{
    reveal(root_hint);
    let half = one_half_element();
    v.c0.field_add(d).field_mul(&half).sqrt().is_some()
}

/// Whether a point of G1 can be compressed.
pub fn is_g1_compressible(point: &G1Affine) -> (r: bool)
    requires
        point.wf(),
        point.over(Curve::Bn254),
    ensures
        r == g1_compressible(point@),
        r && point@ is Some ==> g1_on_curve(Curve::Bn254, point@.unwrap().0, point@.unwrap().1),
{
    proof {
        if g1_compressible(point@) && point@ is Some {
            lemma_compressible_is_on_curve(point@.unwrap().0, point@.unwrap().1);
        }
    }
    match point {
        G1Affine::Infinity => true,
        G1Affine::Point { x, y } => match g1_rhs_of(x).sqrt() {
            None => false,
            Some(root) => y.equals(&root) || y.equals(&root.field_neg()),
        },
    }
}

/// Compresses a point of G1 into one word. The point has to be on the
/// curve: see [`g1_compressible`].
pub fn compress_g1_point(point: &G1Affine) -> (r: U256)
    requires
        point.wf(),
        point.over(Curve::Bn254),
        g1_compressible(point@),
    ensures
        r.wf(),
        r@ == compressed_g1(point@),
{
    match point {
        G1Affine::Infinity => U256::zero(),
        G1Affine::Point { x, y } => {
            proof {
                x.lemma_valid();
            }
            let word = U256::from_field(x);
            match g1_rhs_of(x).sqrt() {
                Some(root) => word.shifted(!y.equals(&root)),
                None => word,
            }
        },
    }
}

/// Compresses a point of G1 into one word, if it can be compressed.
pub fn try_compress_g1_point(point: &G1Affine) -> (r: Option<U256>)
    requires
        point.wf(),
        point.over(Curve::Bn254),
    ensures
        r is Some <==> g1_compressible(point@),
        r is Some ==> r.unwrap().wf() && r.unwrap()@ == compressed_g1(point@),
{
    if is_g1_compressible(point) {
        Some(compress_g1_point(point))
    } else {
        None
    }
}

/// Recovers a point of G1 from its compressed form. The zero word is the
/// point at infinity; any other word holds `x` above its lowest bit, which
/// says whether `y` is the negative of the root of the right-hand side.
pub fn decompress_g1(word: &U256) -> (r: Result<G1Affine, CodecError>)
    requires
        word.wf(),
    ensures
        g1_result(r) == decompressed_g1(word@),
        g1_in(r, Curve::Bn254),
        r is Ok && r.unwrap()@ is Some ==> g1_on_curve(
            Curve::Bn254,
            r.unwrap()@.unwrap().0,
            r.unwrap()@.unwrap().1,
        ),
{
    proof {
        if decompressed_g1(word@) is Ok && decompressed_g1(word@).unwrap() is Some {
            lemma_decompressed_is_on_curve(word@);
        }
    }
    if word.is_zero() {
        return Ok(G1Affine::Infinity);
    }
    let (half, negative) = word.halved();
    let x = match half.to_base_field() {
        Some(x) => x,
        None => {
            return Err(CodecError::InvalidFieldEncoding);
        },
    };
    match g1_rhs_of(&x).sqrt() {
        None => Err(CodecError::NotOnCurve),
        Some(root) => {
            let y = if negative {
                root.field_neg()
            } else {
                root
            };
            Ok(G1Affine::Point { x, y })
        },
    }
}

/// Whether a point of G2 can be compressed.
pub fn is_g2_compressible(point: &G2Affine) -> (r: bool)
    requires
        point.wf(),
        point.over(Curve::Bn254),
    ensures
        r == g2_compressible(point@),
        r && point@ is Some ==> g2_on_curve(Curve::Bn254, point@.unwrap().0, point@.unwrap().1),
{
    match point {
        G2Affine::Infinity => true,
        G2Affine::Point { x, y } => {
            let rhs = twist_rhs_of(x);
            if norm_root_of(&rhs).is_none() {
                return false;
            }
            match rhs.sqrt() {
                None => false,
                Some(root) => {
                    proof {
                        lemma_twist_rhs_is_curve_rhs(x@);
                        lemma_quad_square_of_negative(bn254_fq_modulus(), root@);
                    }
                    y.equals(&root) || y.equals(&root.quad_neg())
                },
            }
        },
    }
}

/// Compresses a point of G2 into two words. The point has to be on the
/// curve: see [`g2_compressible`].
#[verifier::rlimit(50)]
pub fn compress_g2_point(point: &G2Affine) -> (r: (U256, U256))
    requires
        point.wf(),
        point.over(Curve::Bn254),
        g2_compressible(point@),
    ensures
        r.0.wf(),
        r.1.wf(),
        (r.0@, r.1@) == compressed_g2(point@),
{
    match point {
        G2Affine::Infinity => (U256::zero(), U256::zero()),
        G2Affine::Point { x, y } => {
            proof {
                x.c0.lemma_valid();
            }
            let b0 = U256::from_field(&x.c0);
            let b1 = U256::from_field(&x.c1);
            let rhs = twist_rhs_of(x);
            match (norm_root_of(&rhs), rhs.sqrt()) {
                (Some(d), Some(root)) => {
                    let hint = root_hint_of(&rhs, &d);
                    (b0.shifted(hint).shifted(!y.equals(&root)), b1)
                },
                _ => (b0, b1),
            }
        },
    }
}

/// Compresses a point of G2 into two words, if it can be compressed.
pub fn try_compress_g2_point(point: &G2Affine) -> (r: Option<(U256, U256)>)
    requires
        point.wf(),
        point.over(Curve::Bn254),
    ensures
        r is Some <==> g2_compressible(point@),
        r is Some ==> r.unwrap().0.wf() && r.unwrap().1.wf() && (r.unwrap().0@, r.unwrap().1@)
            == compressed_g2(point@),
{
    if is_g2_compressible(point) {
        Some(compress_g2_point(point))
    } else {
        None
    }
}

/// Recovers a point of G2 from its compressed form. The pair of zero words
/// is the point at infinity; otherwise the first word holds `x0` above its
/// two lowest bits, the hint and the sign of `y`, and the second holds `x1`.
#[verifier::rlimit(50)]
pub fn decompress_g2(c0: &U256, c1: &U256) -> (r: Result<G2Affine, CodecError>)
    requires
        c0.wf(),
        c1.wf(),
    ensures
        g2_result(r) == decompressed_g2(c0@, c1@),
        g2_in(r, Curve::Bn254),
        r is Ok && r.unwrap()@ is Some ==> g2_on_curve(
            Curve::Bn254,
            r.unwrap()@.unwrap().0,
            r.unwrap()@.unwrap().1,
        ),
{
    if c0.is_zero() && c1.is_zero() {
        return Ok(G2Affine::Infinity);
    }
    let (upper, negative) = c0.halved();
    let (quarter, hint) = upper.halved();
    let x = match (quarter.to_base_field(), c1.to_base_field()) {
        (Some(x0), Some(x1)) => QuadExtElement { c0: x0, c1: x1 },
        _ => {
            return Err(CodecError::InvalidFieldEncoding);
        },
    };
    let rhs = twist_rhs_of(&x);
    let d = match norm_root_of(&rhs) {
        Some(d) => d,
        None => {
            return Err(CodecError::NotOnCurve);
        },
    };
    if root_hint_of(&rhs, &d) != hint {
        return Err(CodecError::UnsupportedEncodingMode);
    }
    match rhs.sqrt() {
        None => Err(CodecError::NotOnCurve),
        Some(root) => {
            proof {
                lemma_twist_rhs_is_curve_rhs(x@);
                lemma_quad_square_of_negative(bn254_fq_modulus(), root@);
            }
            let y = if negative {
                root.quad_neg()
            } else {
                root
            };
            Ok(G2Affine::Point { x, y })
        },
    }
}

/// A Groth16 proof over BN254: the points `A` and `C` of G1 and `B` of G2.
#[derive(Clone, Debug, PartialEq, Eq)]
pub struct Groth16Proof {
    pub a: G1Affine,
    pub b: G2Affine,
    pub c: G1Affine,
}

impl Groth16Proof {
    /// Validity: three valid points with coordinates over the base field of
    /// BN254.
    pub open spec fn wf(&self) -> bool {
        &&& self.a.wf() && self.a.over(Curve::Bn254)
        &&& self.b.wf() && self.b.over(Curve::Bn254)
        &&& self.c.wf() && self.c.over(Curve::Bn254)
    }

    /// Whether each of the three points can be compressed.
    pub open spec fn compressible(&self) -> bool {
        g1_compressible(self.a@) && g2_compressible(self.b@) && g1_compressible(self.c@)
    }
}

/// The numbers that a sequence of words holds.
pub open spec fn word_views(words: Seq<U256>) -> Seq<nat> {
    Seq::new(words.len(), |i: int| words[i]@)
}

/// The four words of a compressed proof: `A`, the second and the first word
/// of `B`, and `C`.
pub open spec fn compressed_proof(
    a: Option<(nat, nat)>,
    b: Option<((nat, nat), (nat, nat))>,
    c: Option<(nat, nat)>,
) -> Seq<nat> {
    seq![compressed_g1(a), compressed_g2(b).1, compressed_g2(b).0, compressed_g1(c)]
}

/// The coordinates of a point of G1 as the verifier takes them: zero for
/// the point at infinity.
pub open spec fn g1_coordinates(p: Option<(nat, nat)>) -> (nat, nat) {
    match p {
        Some(xy) => xy,
        None => (0, 0),
    }
}

/// The coordinates of a point of G2 as the verifier takes them: zero for
/// the point at infinity.
pub open spec fn g2_coordinates(p: Option<((nat, nat), (nat, nat))>) -> ((nat, nat), (nat, nat)) {
    match p {
        Some(xy) => xy,
        None => ((0, 0), (0, 0)),
    }
}

/// The eight words of an uncompressed proof: the coordinates of `A`, of `B`
/// with the second component of each coordinate first, and of `C`.
pub open spec fn uncompressed_proof(
    a: Option<(nat, nat)>,
    b: Option<((nat, nat), (nat, nat))>,
    c: Option<(nat, nat)>,
) -> Seq<nat> {
    seq![
        g1_coordinates(a).0,
        g1_coordinates(a).1,
        g2_coordinates(b).0.1,
        g2_coordinates(b).0.0,
        g2_coordinates(b).1.1,
        g2_coordinates(b).1.0,
        g1_coordinates(c).0,
        g1_coordinates(c).1,
    ]
}

/// Whether all words of a sequence are valid.
pub open spec fn words_wf(words: Seq<U256>) -> bool {
    forall|i: int| 0 <= i < words.len() ==> (#[trigger] words[i]).wf()
}

/// Whether a proof can be compressed.
pub fn is_proof_compressible(proof: &Groth16Proof) -> (r: bool)
    requires
        proof.wf(),
    ensures
        r == proof.compressible(),
{
    is_g1_compressible(&proof.a) && is_g2_compressible(&proof.b) && is_g1_compressible(&proof.c)
}

/// Compresses a Groth16 proof by compressing its three points. The points
/// have to be on their curves: see [`Groth16Proof::compressible`].
pub fn prepare_compressed_proof(proof: &Groth16Proof) -> (r: [U256; 4])
    requires
        proof.wf(),
        proof.compressible(),
    ensures
        words_wf(r@),
        word_views(r@) == compressed_proof(proof.a@, proof.b@, proof.c@),
{
    let a = compress_g1_point(&proof.a);
    let (b0, b1) = compress_g2_point(&proof.b);
    let c = compress_g1_point(&proof.c);
    let r = [a, b1, b0, c];
    assert(word_views(r@) =~= compressed_proof(proof.a@, proof.b@, proof.c@));
    r
}

/// Compresses a Groth16 proof, if its three points can be compressed.
pub fn try_prepare_compressed_proof(proof: &Groth16Proof) -> (r: Option<[U256; 4]>)
    requires
        proof.wf(),
    ensures
        r is Some <==> proof.compressible(),
        r is Some ==> words_wf(r.unwrap()@) && word_views(r.unwrap()@) == compressed_proof(
            proof.a@,
            proof.b@,
            proof.c@,
        ),
{
    if is_proof_compressible(proof) {
        Some(prepare_compressed_proof(proof))
    } else {
        None
    }
}

/// The two words of the coordinates of a point of G1.
fn g1_words(p: &G1Affine) -> (r: (U256, U256))
    requires
        p.wf(),
        p.over(Curve::Bn254),
    ensures
        r.0.wf(),
        r.1.wf(),
        (r.0@, r.1@) == g1_coordinates(p@),
{
    match p {
        G1Affine::Infinity => (U256::zero(), U256::zero()),
        G1Affine::Point { x, y } => (U256::from_field(x), U256::from_field(y)),
    }
}

/// Lays a Groth16 proof out as the eight words that the verifier contract
/// takes for an uncompressed proof.
pub fn prepare_uncompressed_proof(proof: &Groth16Proof) -> (r: [U256; 8])
    requires
        proof.wf(),
    ensures
        words_wf(r@),
        word_views(r@) == uncompressed_proof(proof.a@, proof.b@, proof.c@),
{
    let (ax, ay) = g1_words(&proof.a);
    let (cx, cy) = g1_words(&proof.c);
    let (bx1, bx0, by1, by0) = match &proof.b {
        G2Affine::Infinity => (U256::zero(), U256::zero(), U256::zero(), U256::zero()),
        G2Affine::Point { x, y } => (
            U256::from_field(&x.c1),
            U256::from_field(&x.c0),
            U256::from_field(&y.c1),
            U256::from_field(&y.c0),
        ),
    };
    let r = [ax, ay, bx1, bx0, by1, by0, cx, cy];
    assert(word_views(r@) =~= uncompressed_proof(proof.a@, proof.b@, proof.c@));
    r
}

/// The point at infinity compresses to the zero word in G1 and to the pair
/// of zero words in G2, and these decompress to the point at infinity.
pub proof fn lemma_infinity_compresses_to_zero()
    ensures
        compressed_g1(None) == 0,
        compressed_g2(None) == (0nat, 0nat),
        decompressed_g1(0) == Ok::<Option<(nat, nat)>, CodecError>(None),
        decompressed_g2(0, 0) == Ok::<Option<((nat, nat), (nat, nat))>, CodecError>(None),
{
}

/// What the compressor takes the root of in G2 is the right-hand side of
/// the curve equation: the two written-out components are those of
/// `x^3 + 3 / (9 + u)`.
#[verifier::rlimit(50)]
pub proof fn lemma_twist_rhs_is_curve_rhs(x: (nat, nat))
    ensures
        twist_rhs(x) == g2_rhs(Curve::Bn254, x),
{
    reveal(twist_rhs);
    let p = bn254_fq_modulus();
    let m = p as int;
    let a = x.0 as int;
    let b = x.1 as int;
    lemma_congruent_self(m, a);
    lemma_congruent_self(m, b);
    lemma_congruent_self(m, 3);
    lemma_congruent_self(m, frac_27_82() as int);
    lemma_congruent_self(m, frac_3_82() as int);

    // The curve's side: x * x * x + b.
    let square = quad_mul(p, x, x);
    lemma_quad_mul(p, x, (a, b), x, (a, b));
    let s0 = a * a - b * b;
    let s1 = a * b + b * a;
    let cubed = quad_mul(p, square, x);
    lemma_quad_mul(p, square, (s0, s1), x, (a, b));
    let c0 = s0 * a - s1 * b;
    let c1 = s0 * b + s1 * a;
    let coeff = g2_coeff_b(Curve::Bn254);
    lemma_congruent_self(m, coeff.0 as int);
    lemma_congruent_from(m, coeff.1 as int, -(frac_3_82() as int), 1);
    let curve_side = quad_add(p, cubed, coeff);
    lemma_quad_add(p, cubed, (c0, c1), coeff, (coeff.0 as int, -(frac_3_82() as int)));
    assert(curve_side == g2_rhs(Curve::Bn254, x));

    // The compressor's side.
    let ab = mod_mul(p, x.0, x.1);
    lemma_mod_mul(p, x.0, a, x.1, b);
    let minus_three = mod_neg(p, 3);
    lemma_mod_neg(p, 3, 3);
    let n3ab = mod_mul(p, ab, minus_three);
    lemma_mod_mul(p, ab, a * b, minus_three, -3);
    let n = (a * b) * (-3);
    let aa = mod_mul(p, x.0, x.0);
    lemma_mod_mul(p, x.0, a, x.0, a);
    lemma_mod_mul(p, aa, a * a, x.0, a);
    let bb = mod_mul(p, x.1, x.1);
    lemma_mod_mul(p, x.1, b, x.1, b);
    lemma_mod_mul(p, bb, b * b, x.1, b);
    let t0 = mod_mul(p, n3ab, x.1);
    lemma_mod_mul(p, n3ab, n, x.1, b);
    let u0 = mod_add(p, t0, cube(x.0));
    lemma_mod_add(p, t0, n * b, cube(x.0), (a * a) * a);
    let y0 = mod_add(p, u0, frac_27_82());
    lemma_mod_add(p, u0, n * b + (a * a) * a, frac_27_82(), frac_27_82() as int);
    let t1 = mod_mul(p, n3ab, x.0);
    lemma_mod_mul(p, n3ab, n, x.0, a);
    let u1 = mod_add(p, t1, cube(x.1));
    lemma_mod_add(p, t1, n * a, cube(x.1), (b * b) * b);
    let v1 = mod_add(p, u1, frac_3_82());
    lemma_mod_add(p, u1, n * a + (b * b) * b, frac_3_82(), frac_3_82() as int);
    let y1 = mod_neg(p, v1);
    lemma_mod_neg(p, v1, n * a + (b * b) * b + frac_3_82());
    assert(twist_rhs(x) == (y0, y1));

    // Both sides are residues of the same two numbers.
    let first = n * b + (a * a) * a + frac_27_82();
    let second = -(n * a + (b * b) * b + frac_3_82());
    assert(c0 + coeff.0 == first) by (nonlinear_arith)
        requires
            c0 == s0 * a - s1 * b,
            s0 == a * a - b * b,
            s1 == a * b + b * a,
            n == (a * b) * (-3),
            first == n * b + (a * a) * a + frac_27_82(),
            coeff.0 == frac_27_82(),
    ;
    assert(c1 + (-(frac_3_82() as int)) == second) by (nonlinear_arith)
        requires
            c1 == s0 * b + s1 * a,
            s0 == a * a - b * b,
            s1 == a * b + b * a,
            n == (a * b) * (-3),
            second == -(n * a + (b * b) * b + frac_3_82()),
    ;
    lemma_congruent_same(m, curve_side.0 as int, y0 as int, first);
    lemma_congruent_same(m, curve_side.1 as int, y1 as int, second);
    lemma_congruent_residues(m, curve_side.0 as int, y0 as int);
    lemma_congruent_residues(m, curve_side.1 as int, y1 as int);
}

/// A point of G1 that can be compressed satisfies the curve equation.
pub proof fn lemma_compressible_is_on_curve(x: nat, y: nat)
    requires
        g1_compressible(Some((x, y))),
    ensures
        g1_on_curve(Curve::Bn254, x, y),
{
    reveal(bn254_fq_root);
    let p = bn254_fq_modulus();
    let root = g1_root(x).unwrap();
    assert(root < p);
    lemma_square_of_negative(p, root);
}

/// A word that decompresses to a finite point of G1 decompresses to a point
/// that satisfies the curve equation.
pub proof fn lemma_decompressed_is_on_curve(c: nat)
    requires
        decompressed_g1(c) is Ok,
        decompressed_g1(c).unwrap() is Some,
    ensures
        g1_on_curve(
            Curve::Bn254,
            decompressed_g1(c).unwrap().unwrap().0,
            decompressed_g1(c).unwrap().unwrap().1,
        ),
{
    reveal(bn254_fq_root);
    let p = bn254_fq_modulus();
    let root = g1_root(c / 2).unwrap();
    assert(root < p);
    lemma_square_of_negative(p, root);
}

/// No point of G1 has the first coordinate zero: the right-hand side of the
/// curve equation is three there, which has no root.
pub proof fn lemma_no_root_at_zero_g1()
    ensures
        g1_root(0) is None,
{
    let q: nat = 21888242871839275222246405745257275088696311157297823662689037894645226208583nat;
    assert(Curve::Bn254.base_field().modulus() == q);
    assert(mod_mul(q, 0, 0) == 0);
    assert(mod_add(q, 0, 3) == 3);
    assert(g1_rhs(Curve::Bn254, 0) == 3);
    lemma_three_has_no_root();
}

/// No point of G2 has the first coordinate zero: the norm of the right-hand
/// side of the curve equation has no root there.
pub proof fn lemma_no_root_at_zero_g2()
    ensures
        norm_root(twist_rhs((0nat, 0nat))) is None,
{
    reveal(twist_rhs);
    reveal(norm_root);
    let q: nat = 21888242871839275222246405745257275088696311157297823662689037894645226208583nat;
    assert(bn254_fq_modulus() == q);
    let v = twist_rhs((0nat, 0nat));
    assert(mod_mul(q, 0, 0) == 0);
    assert(mod_neg(q, 3) == 21888242871839275222246405745257275088696311157297823662689037894645226208580nat);
    assert(mod_mul(q, 0, 21888242871839275222246405745257275088696311157297823662689037894645226208580nat) == 0);
    assert(cube(0) == 0);
    assert(mod_add(q, 0, 0) == 0);
    assert(mod_add(q, 0, 19485874751759354771024239261021720505790618469301721065564631296452457478373nat) == 19485874751759354771024239261021720505790618469301721065564631296452457478373nat);
    assert(v.0 == 19485874751759354771024239261021720505790618469301721065564631296452457478373nat);
    assert(mod_add(q, 0, 21621313080719284060999498358119991246151234191964923374119659383734918571893nat) == 21621313080719284060999498358119991246151234191964923374119659383734918571893nat);
    assert(mod_neg(q, 21621313080719284060999498358119991246151234191964923374119659383734918571893nat) == 266929791119991161246907387137283842545076965332900288569378510910307636690nat);
    assert(v.1 == 266929791119991161246907387137283842545076965332900288569378510910307636690nat);
    assert(mod_mul(q, 19485874751759354771024239261021720505790618469301721065564631296452457478373nat, 19485874751759354771024239261021720505790618469301721065564631296452457478373nat) == 2945993426385268304005502260478559481747495775930180014088872589924736722006nat);
    assert(mod_mul(q, 266929791119991161246907387137283842545076965332900288569378510910307636690nat, 266929791119991161246907387137283842545076965332900288569378510910307636690nat) == 18141460072094033434500181323366864079313584485368942782892029771989566576507nat);
    assert(mod_add(q, 2945993426385268304005502260478559481747495775930180014088872589924736722006nat, 18141460072094033434500181323366864079313584485368942782892029771989566576507nat) == twist_constant_norm());
    lemma_twist_constant_norm_has_no_root();
}

/// The compressed form of a finite point that can be compressed is not the
/// zero word in G1, nor the pair of zero words in G2: these stand for the
/// point at infinity alone.
pub proof fn lemma_compressed_is_not_zero(p: G1Affine, q: G2Affine)
    requires
        p.wf(),
        p.over(Curve::Bn254),
        p@ is Some,
        g1_compressible(p@),
        q.wf(),
        q.over(Curve::Bn254),
        q@ is Some,
        g2_compressible(q@),
    ensures
        compressed_g1(p@) != 0,
        compressed_g2(q@) != (0nat, 0nat),
{
    lemma_no_root_at_zero_g1();
    lemma_no_root_at_zero_g2();
    let x = q@.unwrap().0;
    if compressed_g2(q@) == (0nat, 0nat) {
        assert(x.0 == 0 && x.1 == 0);
        assert(x == (0nat, 0nat));
    }
}

/// Decompressing the compressed form of a finite point of G1 that can be
/// compressed gives the point back.
#[verifier::rlimit(50)]
pub proof fn lemma_g1_compression_round_trip(p: G1Affine)
    requires
        p.wf(),
        p.over(Curve::Bn254),
        p@ is Some,
        g1_compressible(p@),
    ensures
        decompressed_g1(compressed_g1(p@)) == Ok::<Option<(nat, nat)>, CodecError>(p@),
{
    lemma_no_root_at_zero_g1();
    match p {
        G1Affine::Infinity => {},
        G1Affine::Point { x, y } => {
            x.lemma_valid();
            y.lemma_valid();
        },
    }
}

/// Decompressing the compressed form of a finite point of G2 that can be
/// compressed gives the point back.
#[verifier::rlimit(50)]
pub proof fn lemma_g2_compression_round_trip(p: G2Affine)
    requires
        p.wf(),
        p.over(Curve::Bn254),
        p@ is Some,
        g2_compressible(p@),
    ensures
        decompressed_g2(compressed_g2(p@).0, compressed_g2(p@).1) == Ok::<
            Option<((nat, nat), (nat, nat))>,
            CodecError,
        >(p@),
{
    lemma_no_root_at_zero_g2();
    match p {
        G2Affine::Infinity => {},
        G2Affine::Point { x, y } => {
            x.c0.lemma_valid();
            x.c1.lemma_valid();
            let rhs = twist_rhs(x@);
            let hint = root_hint(rhs, norm_root(rhs).unwrap());
            let sign = y@ != g2_root(x@).unwrap();
            let c0 = 4 * x@.0 + 2 * bit(hint) + bit(sign);
            assert(compressed_g2(p@) == (c0, x@.1));
            assert(c0 / 4 == x@.0 && ((c0 / 2) % 2 == 1) == hint && (c0 % 2 == 1) == sign);
            assert((c0 / 4, x@.1) == x@);
            if c0 == 0 && x@.1 == 0 {
                assert(x@ == (0nat, 0nat));
            }
        },
    }
}

} // verus!
