//! The decimal wire format for Baby Jubjub, a twisted Edwards curve over the
//! scalar field of BN254.
//!
//! A point is the pair of tokens `[x, y]` of its affine coordinates. The
//! curve has no point at infinity: its neutral element is the finite point
//! `(0, 1)`.

use vstd::prelude::*;

use crate::backend;
use crate::curve::CheckElement;
use crate::decimal::decimal_digits;
use crate::error::{CodecError, LengthSubject};
use crate::field::{
    decimal_element, element_in, element_view, mod_add, mod_mul, FieldElement, FieldKind,
};
use crate::json::{
    collected, deserialize_f, deserialize_f_seq, elements_result, lemma_token_round_trip,
    lemma_unit_tokens, serialize_f, serialize_f_seq,
};

verus! {

/// The order of the base field of Baby Jubjub.
pub open spec fn base_modulus() -> nat {
    FieldKind::Bn254Fr.modulus()
}

/// Whether `(x, y)` satisfies the equation of Baby Jubjub,
/// `168700 * x^2 + y^2 = 1 + 168696 * x^2 * y^2`.
pub open spec fn babyjubjub_on_curve(x: nat, y: nat) -> bool {
    let p = base_modulus();
    let x2 = mod_mul(p, x, x);
    let y2 = mod_mul(p, y, y);
    mod_add(p, y2, mod_mul(p, 168700, x2)) == mod_add(
        p,
        1,
        mod_mul(p, 168696, mod_mul(p, x2, y2)),
    )
}

/// What arkworks' subgroup test answers for the point `(x, y)` of
/// Baby Jubjub.
pub uninterp spec fn babyjubjub_subgroup(x: nat, y: nat) -> bool;

/// A point of Baby Jubjub in affine coordinates.
#[derive(Clone, Debug, PartialEq, Eq)]
pub struct EdwardsAffine {
    pub x: FieldElement,
    pub y: FieldElement,
}

impl View for EdwardsAffine {
    type V = (nat, nat);

    open spec fn view(&self) -> (nat, nat) {
        (self.x@, self.y@)
    }
}

impl EdwardsAffine {
    /// Validity: the coordinates are valid elements of the base field.
    /// Nothing is said of the curve equation.
    pub open spec fn wf(&self) -> bool {
        &&& self.x.wf()
        &&& self.y.wf()
        &&& self.x.kind() == FieldKind::Bn254Fr
        &&& self.y.kind() == FieldKind::Bn254Fr
    }

    /// Whether this is the neutral element `(0, 1)`.
    pub fn is_zero(&self) -> (r: bool)
        requires
            self.wf(),
        ensures
            r == (self@ == (0nat, 1nat)),
    {
        let one = FieldElement::one(FieldKind::Bn254Fr);
        self.x.is_zero() && self.y.equals(&one)
    }
}

/// The point of Baby Jubjub with the coordinates `(x, y)`: the neutral
/// element passes unjudged; any other point is judged as `check` asks, the
/// curve equation first and the subgroup second.
pub open spec fn affine_from_coordinates(check: CheckElement, x: nat, y: nat) -> Result<
    (nat, nat),
    CodecError,
> {
    if x == 0 && y == 1 {
        Ok((x, y))
    } else if check == CheckElement::No {
        Ok((x, y))
    } else if !babyjubjub_on_curve(x, y) {
        Err(CodecError::NotOnCurve)
    } else if !babyjubjub_subgroup(x, y) {
        Err(CodecError::NotInSubgroup)
    } else {
        Ok((x, y))
    }
}

/// What decoding the two tokens of a point gives.
pub open spec fn affine_from_tokens(check: CheckElement, x: Seq<char>, y: Seq<char>) -> Result<
    (nat, nat),
    CodecError,
> {
    match (decimal_element(FieldKind::Bn254Fr, x), decimal_element(FieldKind::Bn254Fr, y)) {
        (Ok(xv), Ok(yv)) => affine_from_coordinates(check, xv, yv),
        _ => Err(CodecError::InvalidFieldEncoding),
    }
}

/// What decoding a sequence of tokens as one point gives.
pub open spec fn affine_from_pair(check: CheckElement, tokens: Seq<Seq<char>>) -> Result<
    (nat, nat),
    CodecError,
> {
    if tokens.len() < 2 {
        Err(CodecError::TruncatedInput)
    } else if tokens.len() > 2 {
        Err(CodecError::UnexpectedTrailingElement)
    } else {
        affine_from_tokens(check, tokens[0], tokens[1])
    }
}

/// What decoding one entry of a sequence of points gives.
pub open spec fn affine_from_entry(check: CheckElement, tokens: Seq<Seq<char>>) -> Result<
    (nat, nat),
    CodecError,
> {
    if tokens.len() != 2 {
        Err(
            CodecError::LengthMismatch {
                subject: LengthSubject::PointTokens,
                expected: 2,
                found: tokens.len() as usize,
            },
        )
    } else {
        affine_from_tokens(check, tokens[0], tokens[1])
    }
}

/// What the entries of a sequence of points decode to, one by one.
pub open spec fn affine_entries(check: CheckElement, tokens: Seq<Seq<Seq<char>>>) -> Seq<
    Result<(nat, nat), CodecError>,
> {
    Seq::new(tokens.len(), |i: int| affine_from_entry(check, tokens[i]))
}

/// What decoding a sequence of points gives when `size`, if present, is the
/// number of points expected. The points are decoded in order and the first
/// error is the result; the number of points is looked at only when all of
/// them have been decoded.
pub open spec fn affine_seq_decoded(
    check: CheckElement,
    tokens: Seq<Seq<Seq<char>>>,
    size: Option<usize>,
    r: Result<Seq<(nat, nat)>, CodecError>,
) -> bool {
    let items = affine_entries(check, tokens);
    if (forall|i: int| 0 <= i < items.len() ==> (#[trigger] items[i]) is Ok) && size is Some
        && size.unwrap() != tokens.len() {
        r == Err::<Seq<(nat, nat)>, CodecError>(
            CodecError::LengthMismatch {
                subject: LengthSubject::Batch,
                expected: size.unwrap(),
                found: tokens.len() as usize,
            },
        )
    } else {
        collected(items, r)
    }
}

/// The tokens of a point: `[x, y]`.
pub open spec fn affine_tokens(p: (nat, nat)) -> Seq<Seq<char>> {
    seq![decimal_digits(p.0), decimal_digits(p.1)]
}

/// The coordinates of a sequence of points.
pub open spec fn affine_views(v: Seq<EdwardsAffine>) -> Seq<(nat, nat)> {
    Seq::new(v.len(), |i: int| v[i]@)
}

/// The view inside the result of decoding a point.
pub open spec fn affine_result(r: Result<EdwardsAffine, CodecError>) -> Result<
    (nat, nat),
    CodecError,
> {
    match r {
        Ok(p) => Ok(p@),
        Err(e) => Err(e),
    }
}

/// The views inside the result of decoding a sequence of points.
pub open spec fn affine_seq_result(r: Result<Vec<EdwardsAffine>, CodecError>) -> Result<
    Seq<(nat, nat)>,
    CodecError,
> {
    match r {
        Ok(v) => Ok(affine_views(v@)),
        Err(e) => Err(e),
    }
}

/// Whether every point of a decoded sequence, if there is one, is valid.
pub open spec fn affine_seq_valid(r: Result<Vec<EdwardsAffine>, CodecError>) -> bool {
    r is Ok ==> forall|i: int| 0 <= i < r.unwrap()@.len() ==> (#[trigger] r.unwrap()@[i]).wf()
}

/// Serializes an element of the scalar field of Baby Jubjub as its decimal
/// token.
pub fn serialize_fr(f: &FieldElement) -> (r: String)
    requires
        f.wf(),
        f.kind() == FieldKind::BabyJubJubFr,
    ensures
        r@ == decimal_digits(f@),
{
    serialize_f(f)
}

/// Serializes an element of the base field of Baby Jubjub as its decimal
/// token.
pub fn serialize_fq(f: &FieldElement) -> (r: String)
    requires
        f.wf(),
        f.kind() == FieldKind::Bn254Fr,
    ensures
        r@ == decimal_digits(f@),
{
    serialize_f(f)
}

/// Serializes a sequence of elements of the base field of Baby Jubjub as
/// their decimal tokens, in order.
pub fn serialize_fq_seq(ps: &Vec<FieldElement>) -> (r: Vec<String>)
    requires
        forall|i: int|
            0 <= i < ps@.len() ==> (#[trigger] ps@[i]).wf() && ps@[i].kind() == FieldKind::Bn254Fr,
    ensures
        r.deep_view() == Seq::new(ps@.len(), |i: int| decimal_digits(ps@[i]@)),
{
    serialize_f_seq(ps)
}

/// Serializes a point as its two tokens.
pub fn serialize_affine(p: &EdwardsAffine) -> (r: Vec<String>)
    requires
        p.wf(),
    ensures
        r.deep_view() == affine_tokens(p@),
{
    let r = vec![p.x.to_decimal(), p.y.to_decimal()];
    assert(r.deep_view() =~~= affine_tokens(p@));
    r
}

/// Serializes a sequence of points, each as its two tokens, in order.
pub fn serialize_affine_seq(ps: &Vec<EdwardsAffine>) -> (r: Vec<Vec<String>>)
    requires
        forall|i: int| 0 <= i < ps@.len() ==> (#[trigger] ps@[i]).wf(),
    ensures
        r.deep_view() == Seq::new(ps@.len(), |i: int| affine_tokens(ps@[i]@)),
{
    let mut r: Vec<Vec<String>> = Vec::new();
    let mut i: usize = 0;
    while i < ps.len()
        invariant
            i <= ps@.len(),
            r@.len() == i,
            forall|k: int| 0 <= k < ps@.len() ==> (#[trigger] ps@[k]).wf(),
            forall|k: int| 0 <= k < i ==> (#[trigger] r@[k]).deep_view() == affine_tokens(ps@[k]@),
        decreases ps@.len() - i,
    {
        r.push(serialize_affine(&ps[i]));
        i = i + 1;
    }
    assert(r.deep_view() =~= Seq::new(ps@.len(), |i: int| affine_tokens(ps@[i]@)));
    r
}

/// Deserializes an element of the scalar field of Baby Jubjub from its
/// decimal token.
pub fn deserialize_fr(token: &str) -> (r: Result<FieldElement, CodecError>)
    ensures
        element_view(r) == decimal_element(FieldKind::BabyJubJubFr, token@),
        element_in(r, FieldKind::BabyJubJubFr),
{
    deserialize_f(FieldKind::BabyJubJubFr, token)
}

/// Deserializes an element of the base field of Baby Jubjub from its
/// decimal token.
pub fn deserialize_fq(token: &str) -> (r: Result<FieldElement, CodecError>)
    ensures
        element_view(r) == decimal_element(FieldKind::Bn254Fr, token@),
        element_in(r, FieldKind::Bn254Fr),
{
    deserialize_f(FieldKind::Bn254Fr, token)
}

/// Deserializes a sequence of elements of the base field of Baby Jubjub
/// from their decimal tokens.
pub fn deserialize_fq_seq(tokens: &Vec<String>) -> (r: Result<Vec<FieldElement>, CodecError>)
    ensures
        collected(
            Seq::new(tokens@.len(), |i: int| decimal_element(FieldKind::Bn254Fr, tokens@[i]@)),
            elements_result(r),
        ),
        r is Ok ==> forall|i: int|
            0 <= i < r.unwrap()@.len() ==> (#[trigger] r.unwrap()@[i]).wf() && r.unwrap()@[i].kind()
                == FieldKind::Bn254Fr,
{
    deserialize_f_seq(FieldKind::Bn254Fr, tokens)
}

/// Decodes a point from the tokens of its two coordinates.
pub fn affine_from_strings(check: CheckElement, x: &str, y: &str) -> (r: Result<
    EdwardsAffine,
    CodecError,
>)
    ensures
        affine_result(r) == affine_from_tokens(check, x@, y@),
        r is Ok ==> r.unwrap().wf(),
{
    let x = match FieldElement::from_decimal(FieldKind::Bn254Fr, x) {
        Ok(e) => e,
        Err(e) => {
            return Err(CodecError::InvalidFieldEncoding);
        },
    };
    let y = match FieldElement::from_decimal(FieldKind::Bn254Fr, y) {
        Ok(e) => e,
        Err(e) => {
            return Err(CodecError::InvalidFieldEncoding);
        },
    };
    let p = EdwardsAffine { x, y };
    if p.is_zero() {
        return Ok(p);
    }
    match check {
        CheckElement::No => Ok(p),
        CheckElement::Yes => {
            let xb = p.x.to_le_bytes();
            let yb = p.y.to_le_bytes();
            if !backend::babyjubjub_is_on_curve(xb.as_slice(), yb.as_slice()) {
                Err(CodecError::NotOnCurve)
            } else if !backend::babyjubjub_in_subgroup(xb.as_slice(), yb.as_slice()) {
                Err(CodecError::NotInSubgroup)
            } else {
                Ok(p)
            }
        },
    }
}

/// Decodes a point from a sequence of tokens: exactly two, `x` and `y` in
/// this order.
pub fn deserialize_affine_with(check: CheckElement, tokens: &Vec<String>) -> (r: Result<
    EdwardsAffine,
    CodecError,
>)
    ensures
        affine_result(r) == affine_from_pair(check, tokens.deep_view()),
        r is Ok ==> r.unwrap().wf(),
{
    if tokens.len() < 2 {
        Err(CodecError::TruncatedInput)
    } else if tokens.len() > 2 {
        Err(CodecError::UnexpectedTrailingElement)
    } else {
        affine_from_strings(check, tokens[0].as_str(), tokens[1].as_str())
    }
}

/// Decodes a point from its two tokens and checks that it is a point of the
/// curve and a member of the subgroup.
pub fn deserialize_affine(tokens: &Vec<String>) -> (r: Result<EdwardsAffine, CodecError>)
    ensures
        affine_result(r) == affine_from_pair(CheckElement::Yes, tokens.deep_view()),
        r is Ok ==> r.unwrap().wf(),
{
    deserialize_affine_with(CheckElement::Yes, tokens)
}

/// Decodes a point from its two tokens without checking it. Use it on
/// trusted input only.
pub fn deserialize_affine_unchecked(tokens: &Vec<String>) -> (r: Result<EdwardsAffine, CodecError>)
    ensures
        affine_result(r) == affine_from_pair(CheckElement::No, tokens.deep_view()),
        r is Ok ==> r.unwrap().wf(),
{
    deserialize_affine_with(CheckElement::No, tokens)
}

/// Decodes one entry of a sequence of points: exactly two tokens.
fn affine_from_entry_tokens(check: CheckElement, point: &Vec<String>) -> (r: Result<
    EdwardsAffine,
    CodecError,
>)
    ensures
        affine_result(r) == affine_from_entry(check, point.deep_view()),
        r is Ok ==> r.unwrap().wf(),
{
    if point.len() != 2 {
        Err(
            CodecError::LengthMismatch {
                subject: LengthSubject::PointTokens,
                expected: 2,
                found: point.len(),
            },
        )
    } else {
        affine_from_strings(check, point[0].as_str(), point[1].as_str())
    }
}

/// Decodes a sequence of points, each from its two tokens, and, where `size`
/// is given, checks the number of points against it afterwards.
#[verifier::rlimit(50)]
pub fn deserialize_affine_seq_with(
    check: CheckElement,
    tokens: &Vec<Vec<String>>,
    size: Option<usize>,
) -> (r: Result<Vec<EdwardsAffine>, CodecError>)
    ensures
        affine_seq_decoded(check, tokens.deep_view(), size, affine_seq_result(r)),
        affine_seq_valid(r),
{
    let ghost t = tokens.deep_view();
    let ghost items = affine_entries(check, t);
    let mut values: Vec<EdwardsAffine> = Vec::new();
    let mut i: usize = 0;
    while i < tokens.len()
        invariant
            i <= tokens@.len(),
            values@.len() == i,
            t == tokens.deep_view(),
            items == affine_entries(check, t),
            forall|k: int|
                0 <= k < i ==> #[trigger] items[k] == Ok::<(nat, nat), CodecError>(values@[k]@),
            forall|k: int| 0 <= k < i ==> (#[trigger] values@[k]).wf(),
        decreases tokens@.len() - i,
    {
        assert(t[i as int] == tokens@[i as int].deep_view());
        match affine_from_entry_tokens(check, &tokens[i]) {
            Ok(p) => {
                values.push(p);
            },
            Err(e) => {
                assert(items[i as int] == Err::<(nat, nat), CodecError>(e));
                assert(collected(items, Err::<Seq<(nat, nat)>, CodecError>(e)));
                return Err(e);
            },
        }
        i = i + 1;
    }
    assert(collected(items, Ok::<Seq<(nat, nat)>, CodecError>(affine_views(values@))));
    match size {
        Some(n) => {
            if n != values.len() {
                return Err(
                    CodecError::LengthMismatch {
                        subject: LengthSubject::Batch,
                        expected: n,
                        found: values.len(),
                    },
                );
            }
        },
        None => {},
    }
    Ok(values)
}

/// Decodes a sequence of points and checks each of them.
pub fn deserialize_affine_seq(tokens: &Vec<Vec<String>>) -> (r: Result<
    Vec<EdwardsAffine>,
    CodecError,
>)
    ensures
        affine_seq_decoded(CheckElement::Yes, tokens.deep_view(), None, affine_seq_result(r)),
        affine_seq_valid(r),
{
    deserialize_affine_seq_with(CheckElement::Yes, tokens, None)
}

/// Decodes a sequence of points without checking any of them. Use it on
/// trusted input only.
pub fn deserialize_affine_seq_unchecked(tokens: &Vec<Vec<String>>) -> (r: Result<
    Vec<EdwardsAffine>,
    CodecError,
>)
    ensures
        affine_seq_decoded(CheckElement::No, tokens.deep_view(), None, affine_seq_result(r)),
        affine_seq_valid(r),
{
    deserialize_affine_seq_with(CheckElement::No, tokens, None)
}

/// Decoding the tokens of a point gives the point back, whether points are
/// checked or not. The point is the neutral element or one that passes the
/// checks.
pub proof fn lemma_affine_tokens_round_trip(check: CheckElement, p: EdwardsAffine)
    requires
        p.wf(),
        affine_from_coordinates(CheckElement::Yes, p@.0, p@.1) is Ok,
    ensures
        affine_from_pair(check, affine_tokens(p@)) == Ok::<(nat, nat), CodecError>(p@),
{
    lemma_token_round_trip(p.x);
    lemma_token_round_trip(p.y);
}

/// The tokens `["0", "1"]` of the neutral element decode to it, whether
/// points are checked or not.
pub proof fn lemma_neutral_tokens_decode(check: CheckElement)
    ensures
        affine_from_pair(check, seq![seq!['0'], seq!['1']]) == Ok::<(nat, nat), CodecError>(
            (0nat, 1nat),
        ),
{
    lemma_unit_tokens(FieldKind::Bn254Fr);
}

/// A point that decodes when points are checked decodes to the same point
/// when they are not.
pub proof fn lemma_affine_checked_then_unchecked(tokens: Seq<Seq<char>>)
    requires
        affine_from_pair(CheckElement::Yes, tokens) is Ok,
    ensures
        affine_from_pair(CheckElement::No, tokens) == affine_from_pair(CheckElement::Yes, tokens),
{
}

} // verus!
