//! The decimal wire format: field elements as decimal tokens, points as
//! nested sequences of such tokens.
//!
//! A G1 point is the triple `[x, y, z]`, a G2 point the triple of pairs
//! `[[x0, x1], [y0, y1], [z0, z1]]`, an element of the target group a
//! `2 x 3 x 2` nesting. Finite points carry `z = 1`; the point at infinity is
//! the fixed triple `["0", "1", "0"]`, or `[["0", "0"], ["1", "0"], ["0", "0"]]`
//! in G2. The functions here work on the tokens; reading and writing the
//! surrounding JSON text is left to the caller.

use vstd::prelude::*;
use vstd::string::*;

use crate::curve::{
    g1_coeff_b, g1_on_curve, g1_verdict, g2_coeff_b, g2_on_curve, g2_verdict, quad_add, quad_mul,
    validate_g1, validate_g2, CheckElement, Curve, G1Affine, G2Affine,
};
use crate::decimal::{decimal_digits, lemma_decimal_digits_value};
use crate::error::{CodecError, LengthSubject};
use crate::field::{
    decimal_element, mod_add, mod_mul, CubicExtElement, FieldElement, FieldKind, Fp12Element,
    QuadExtElement,
};

verus! {

/// What gathering the results `items` in order gives: all the values if
/// every item succeeded, else the first error.
pub open spec fn collected<V>(
    items: Seq<Result<V, CodecError>>,
    r: Result<Seq<V>, CodecError>,
) -> bool {
    match r {
        Ok(vs) => vs.len() == items.len() && forall|i: int|
            0 <= i < items.len() ==> #[trigger] items[i] == Ok::<V, CodecError>(vs[i]),
        Err(e) => exists|i: int|
            0 <= i < items.len() && #[trigger] items[i] == Err::<V, CodecError>(e) && forall|j: int|
                0 <= j < i ==> (#[trigger] items[j]) is Ok,
    }
}

/// The residues of a sequence of field elements.
pub open spec fn element_views(v: Seq<FieldElement>) -> Seq<nat> {
    Seq::new(v.len(), |i: int| v[i]@)
}

/// The coordinates of a sequence of G1 points.
pub open spec fn g1_views(v: Seq<G1Affine>) -> Seq<Option<(nat, nat)>> {
    Seq::new(v.len(), |i: int| v[i]@)
}

/// The views inside the result of decoding a sequence of field elements.
pub open spec fn elements_result(r: Result<Vec<FieldElement>, CodecError>) -> Result<
    Seq<nat>,
    CodecError,
> {
    match r {
        Ok(v) => Ok(element_views(v@)),
        Err(e) => Err(e),
    }
}

/// The view inside the result of decoding a G1 point.
pub open spec fn g1_result(r: Result<G1Affine, CodecError>) -> Result<
    Option<(nat, nat)>,
    CodecError,
> {
    match r {
        Ok(p) => Ok(p@),
        Err(e) => Err(e),
    }
}

/// The view inside the result of decoding a G2 point.
pub open spec fn g2_result(r: Result<G2Affine, CodecError>) -> Result<
    Option<((nat, nat), (nat, nat))>,
    CodecError,
> {
    match r {
        Ok(p) => Ok(p@),
        Err(e) => Err(e),
    }
}

/// The views inside the result of decoding a sequence of G1 points.
pub open spec fn g1_seq_result(r: Result<Vec<G1Affine>, CodecError>) -> Result<
    Seq<Option<(nat, nat)>>,
    CodecError,
> {
    match r {
        Ok(v) => Ok(g1_views(v@)),
        Err(e) => Err(e),
    }
}

/// Whether a decoded G1 point, if there is one, is valid and over `curve`.
pub open spec fn g1_in(r: Result<G1Affine, CodecError>, curve: Curve) -> bool {
    r is Ok ==> r.unwrap().wf() && r.unwrap().over(curve)
}

/// Whether a decoded G2 point, if there is one, is valid and over `curve`.
pub open spec fn g2_in(r: Result<G2Affine, CodecError>, curve: Curve) -> bool {
    r is Ok ==> r.unwrap().wf() && r.unwrap().over(curve)
}

/// Whether every point of a decoded sequence, if there is one, is valid and
/// over `curve`.
pub open spec fn g1_seq_in(r: Result<Vec<G1Affine>, CodecError>, curve: Curve) -> bool {
    r is Ok ==> forall|i: int|
        0 <= i < r.unwrap()@.len() ==> (#[trigger] r.unwrap()@[i]).wf() && r.unwrap()@[i].over(
            curve,
        )
}

/// The tokens of a G1 point: `[x, y, "1"]`, or `["0", "1", "0"]` for the
/// point at infinity.
pub open spec fn g1_tokens(p: Option<(nat, nat)>) -> Seq<Seq<char>> {
    match p {
        Some((x, y)) => seq![decimal_digits(x), decimal_digits(y), seq!['1']],
        None => seq![seq!['0'], seq!['1'], seq!['0']],
    }
}

/// The tokens of an element of a quadratic extension: `[c0, c1]`.
pub open spec fn quad_tokens(e: (nat, nat)) -> Seq<Seq<char>> {
    seq![decimal_digits(e.0), decimal_digits(e.1)]
}

/// The tokens of a G2 point: `[[x0, x1], [y0, y1], ["1", "0"]]`, or
/// `[["0", "0"], ["1", "0"], ["0", "0"]]` for the point at infinity.
pub open spec fn g2_tokens(p: Option<((nat, nat), (nat, nat))>) -> Seq<Seq<Seq<char>>> {
    match p {
        Some((x, y)) => seq![quad_tokens(x), quad_tokens(y), seq![seq!['1'], seq!['0']]],
        None => seq![
            seq![seq!['0'], seq!['0']],
            seq![seq!['1'], seq!['0']],
            seq![seq!['0'], seq!['0']],
        ],
    }
}

/// The tokens of an element of a cubic extension: `[c0, c1, c2]`, each a
/// pair.
pub open spec fn cubic_tokens(e: ((nat, nat), (nat, nat), (nat, nat))) -> Seq<Seq<Seq<char>>> {
    seq![quad_tokens(e.0), quad_tokens(e.1), quad_tokens(e.2)]
}

/// The tokens of an element of the target group: `[c0, c1]`, each a triple
/// of pairs.
pub open spec fn gt_tokens(
    e: (((nat, nat), (nat, nat), (nat, nat)), ((nat, nat), (nat, nat), (nat, nat))),
) -> Seq<Seq<Seq<Seq<char>>>> {
    seq![cubic_tokens(e.0), cubic_tokens(e.1)]
}

/// The point that the projective coordinates `(x, y, z)` of the decimal
/// format stand for. The infinity triple `(0, 1, 0)` and the origin
/// `x = y = 0` are the point at infinity, whatever `check` says. Anything
/// else is the finite point `(x, y)`, judged as `check` asks; `z` plays no
/// part in it.
pub open spec fn g1_from_projective(
    curve: Curve,
    check: CheckElement,
    x: nat,
    y: nat,
    z: nat,
) -> Result<Option<(nat, nat)>, CodecError> {
    if (x == 0 && y == 1 && z == 0) || (x == 0 && y == 0) {
        Ok(None)
    } else {
        match g1_verdict(curve, x, y, check) {
            Ok(_) => Ok(Some((x, y))),
            Err(e) => Err(e),
        }
    }
}

/// What decoding the three tokens of a G1 point gives.
pub open spec fn g1_from_strings(
    curve: Curve,
    check: CheckElement,
    x: Seq<char>,
    y: Seq<char>,
    z: Seq<char>,
) -> Result<Option<(nat, nat)>, CodecError> {
    let kind = curve.base_field();
    match (decimal_element(kind, x), decimal_element(kind, y), decimal_element(kind, z)) {
        (Ok(xv), Ok(yv), Ok(zv)) => g1_from_projective(curve, check, xv, yv, zv),
        _ => Err(CodecError::InvalidFieldEncoding),
    }
}

/// What decoding a sequence of tokens as one G1 point gives.
pub open spec fn g1_from_tokens(curve: Curve, check: CheckElement, tokens: Seq<Seq<char>>) -> Result<
    Option<(nat, nat)>,
    CodecError,
> {
    if tokens.len() < 3 {
        Err(CodecError::TruncatedInput)
    } else if tokens.len() > 3 {
        Err(CodecError::UnexpectedTrailingElement)
    } else {
        g1_from_strings(curve, check, tokens[0], tokens[1], tokens[2])
    }
}

/// What decoding one entry of a sequence of G1 points gives.
pub open spec fn g1_from_entry(curve: Curve, check: CheckElement, tokens: Seq<Seq<char>>) -> Result<
    Option<(nat, nat)>,
    CodecError,
> {
    if tokens.len() != 3 {
        Err(
            CodecError::LengthMismatch {
                subject: LengthSubject::PointTokens,
                expected: 3,
                found: tokens.len() as usize,
            },
        )
    } else {
        g1_from_strings(curve, check, tokens[0], tokens[1], tokens[2])
    }
}

/// The point of G2 that the projective coordinates `(x, y, z)` of the
/// decimal format stand for, as [`g1_from_projective`] says it for G1; the
/// infinity triple is `((0, 0), (1, 0), (0, 0))`.
pub open spec fn g2_from_projective(
    curve: Curve,
    check: CheckElement,
    x: (nat, nat),
    y: (nat, nat),
    z: (nat, nat),
) -> Result<Option<((nat, nat), (nat, nat))>, CodecError> {
    if (x == (0nat, 0nat) && y == (1nat, 0nat) && z == (0nat, 0nat)) || (x == (0nat, 0nat) && y == (
        0nat,
        0nat,
    )) {
        Ok(None)
    } else {
        match g2_verdict(curve, x, y, check) {
            Ok(_) => Ok(Some((x, y))),
            Err(e) => Err(e),
        }
    }
}

/// What decoding the two tokens of an element of a quadratic extension
/// gives.
pub open spec fn quad_from_strings(kind: FieldKind, c0: Seq<char>, c1: Seq<char>) -> Result<
    (nat, nat),
    CodecError,
> {
    match (decimal_element(kind, c0), decimal_element(kind, c1)) {
        (Ok(a), Ok(b)) => Ok((a, b)),
        _ => Err(CodecError::InvalidFieldEncoding),
    }
}

/// What decoding the six tokens of a G2 point gives.
pub open spec fn g2_from_strings(
    curve: Curve,
    check: CheckElement,
    x0: Seq<char>,
    x1: Seq<char>,
    y0: Seq<char>,
    y1: Seq<char>,
    z0: Seq<char>,
    z1: Seq<char>,
) -> Result<Option<((nat, nat), (nat, nat))>, CodecError> {
    let kind = curve.base_field();
    match (
        quad_from_strings(kind, x0, x1),
        quad_from_strings(kind, y0, y1),
        quad_from_strings(kind, z0, z1),
    ) {
        (Ok(x), Ok(y), Ok(z)) => g2_from_projective(curve, check, x, y, z),
        _ => Err(CodecError::InvalidFieldEncoding),
    }
}

/// The error for a coordinate of a G2 point that has `found` tokens in
/// place of two.
pub open spec fn coordinate_length(subject: LengthSubject, found: nat) -> CodecError {
    CodecError::LengthMismatch { subject, expected: 2, found: found as usize }
}

/// What decoding a sequence of token sequences as one G2 point gives.
pub open spec fn g2_from_tokens(
    curve: Curve,
    check: CheckElement,
    tokens: Seq<Seq<Seq<char>>>,
) -> Result<Option<((nat, nat), (nat, nat))>, CodecError> {
    if tokens.len() < 3 {
        Err(CodecError::TruncatedInput)
    } else if tokens.len() > 3 {
        Err(CodecError::UnexpectedTrailingElement)
    } else if tokens[0].len() != 2 {
        Err(coordinate_length(LengthSubject::CoordinateX, tokens[0].len()))
    } else if tokens[1].len() != 2 {
        Err(coordinate_length(LengthSubject::CoordinateY, tokens[1].len()))
    } else if tokens[2].len() != 2 {
        Err(coordinate_length(LengthSubject::CoordinateZ, tokens[2].len()))
    } else {
        g2_from_strings(
            curve,
            check,
            tokens[0][0],
            tokens[0][1],
            tokens[1][0],
            tokens[1][1],
            tokens[2][0],
            tokens[2][1],
        )
    }
}

/// What decoding a sequence of tokens as an element of a quadratic
/// extension gives.
pub open spec fn quad_from_tokens(kind: FieldKind, tokens: Seq<Seq<char>>) -> Result<
    (nat, nat),
    CodecError,
> {
    if tokens.len() != 2 {
        Err(
            CodecError::LengthMismatch {
                subject: LengthSubject::QuadraticComponents,
                expected: 2,
                found: tokens.len() as usize,
            },
        )
    } else {
        quad_from_strings(kind, tokens[0], tokens[1])
    }
}

/// The error for an element of a cubic extension that has `found`
/// components in place of three.
pub open spec fn cubic_length(found: nat) -> CodecError {
    CodecError::LengthMismatch {
        subject: LengthSubject::CubicComponents,
        expected: 3,
        found: found as usize,
    }
}

/// What decoding a sequence of token sequences as an element of a cubic
/// extension gives. The components are decoded in order and the first error
/// is the result.
pub open spec fn cubic_from_tokens(kind: FieldKind, tokens: Seq<Seq<Seq<char>>>) -> Result<
    ((nat, nat), (nat, nat), (nat, nat)),
    CodecError,
> {
    if tokens.len() != 3 {
        Err(cubic_length(tokens.len()))
    } else {
        match quad_from_tokens(kind, tokens[0]) {
            Err(e) => Err(e),
            Ok(c0) => match quad_from_tokens(kind, tokens[1]) {
                Err(e) => Err(e),
                Ok(c1) => match quad_from_tokens(kind, tokens[2]) {
                    Err(e) => Err(e),
                    Ok(c2) => Ok((c0, c1, c2)),
                },
            },
        }
    }
}

/// What decoding a nesting of tokens as an element of the target group
/// gives. The arity of both halves is looked at before any token is read.
pub open spec fn gt_from_tokens(kind: FieldKind, tokens: Seq<Seq<Seq<Seq<char>>>>) -> Result<
    (((nat, nat), (nat, nat), (nat, nat)), ((nat, nat), (nat, nat), (nat, nat))),
    CodecError,
> {
    if tokens.len() < 2 {
        Err(CodecError::TruncatedInput)
    } else if tokens.len() > 2 {
        Err(CodecError::UnexpectedTrailingElement)
    } else if tokens[0].len() != 3 {
        Err(cubic_length(tokens[0].len()))
    } else if tokens[1].len() != 3 {
        Err(cubic_length(tokens[1].len()))
    } else {
        match cubic_from_tokens(kind, tokens[0]) {
            Err(e) => Err(e),
            Ok(c0) => match cubic_from_tokens(kind, tokens[1]) {
                Err(e) => Err(e),
                Ok(c1) => Ok((c0, c1)),
            },
        }
    }
}

/// Serializes a prime-field element as its decimal token.
pub fn serialize_f(p: &FieldElement) -> (r: String)
    requires
        p.wf(),
    ensures
        r@ == decimal_digits(p@),
{
    p.to_decimal()
}

/// Serializes a sequence of prime-field elements as their decimal tokens,
/// in order.
pub fn serialize_f_seq(ps: &Vec<FieldElement>) -> (r: Vec<String>)
    requires
        forall|i: int| 0 <= i < ps@.len() ==> (#[trigger] ps@[i]).wf(),
    ensures
        r.deep_view() == Seq::new(ps@.len(), |i: int| decimal_digits(ps@[i]@)),
{
    let mut r: Vec<String> = Vec::new();
    let mut i: usize = 0;
    while i < ps.len()
        invariant
            i <= ps@.len(),
            r@.len() == i,
            forall|k: int| 0 <= k < ps@.len() ==> (#[trigger] ps@[k]).wf(),
            forall|k: int| 0 <= k < i ==> (#[trigger] r@[k])@ == decimal_digits(ps@[k]@),
        decreases ps@.len() - i,
    {
        r.push(ps[i].to_decimal());
        i = i + 1;
    }
    assert(r.deep_view() =~= Seq::new(ps@.len(), |i: int| decimal_digits(ps@[i]@)));
    r
}

/// Deserializes a prime-field element of the field `kind` from its decimal
/// token.
pub fn deserialize_f(kind: FieldKind, token: &str) -> (r: Result<FieldElement, CodecError>)
    ensures
        crate::field::element_view(r) == decimal_element(kind, token@),
        crate::field::element_in(r, kind),
{
    FieldElement::from_decimal(kind, token)
}

/// Deserializes a sequence of prime-field elements of the field `kind` from
/// their decimal tokens. The first token that is no decimal token fails the
/// whole sequence.
pub fn deserialize_f_seq(kind: FieldKind, tokens: &Vec<String>) -> (r: Result<
    Vec<FieldElement>,
    CodecError,
>)
    ensures
        collected(
            Seq::new(tokens@.len(), |i: int| decimal_element(kind, tokens@[i]@)),
            elements_result(r),
        ),
        r is Ok ==> forall|i: int|
            0 <= i < r.unwrap()@.len() ==> (#[trigger] r.unwrap()@[i]).wf() && r.unwrap()@[i].kind()
                == kind,
{
    let ghost items = Seq::new(tokens@.len(), |i: int| decimal_element(kind, tokens@[i]@));
    let mut values: Vec<FieldElement> = Vec::new();
    let mut i: usize = 0;
    while i < tokens.len()
        invariant
            i <= tokens@.len(),
            values@.len() == i,
            items == Seq::new(tokens@.len(), |i: int| decimal_element(kind, tokens@[i]@)),
            forall|k: int| 0 <= k < i ==> #[trigger] items[k] == Ok::<nat, CodecError>(values@[k]@),
            forall|k: int| 0 <= k < i ==> (#[trigger] values@[k]).wf() && values@[k].kind() == kind,
        decreases tokens@.len() - i,
    {
        match FieldElement::from_decimal(kind, tokens[i].as_str()) {
            Ok(e) => {
                values.push(e);
            },
            Err(e) => {
                assert(items[i as int] == Err::<nat, CodecError>(e));
                assert(collected(items, Err::<Seq<nat>, CodecError>(e)));
                return Err(e);
            },
        }
        i = i + 1;
    }
    assert(collected(items, Ok::<Seq<nat>, CodecError>(element_views(values@))));
    Ok(values)
}

/// The tokens of a G1 point: `[x, y, "1"]` for a finite point,
/// `["0", "1", "0"]` for the point at infinity.
pub fn g1_to_strings_projective(p: &G1Affine) -> (r: Vec<String>)
    requires
        p.wf(),
    ensures
        r.deep_view() == g1_tokens(p@),
{
    proof {
        reveal_strlit("0");
        reveal_strlit("1");
    }
    let r = match p {
        G1Affine::Point { x, y } => vec![x.to_decimal(), y.to_decimal(), "1".to_string()],
        G1Affine::Infinity => vec!["0".to_string(), "1".to_string(), "0".to_string()],
    };
    assert(r.deep_view() =~~= g1_tokens(p@));
    r
}

/// Serializes a G1 point as its three tokens.
pub fn serialize_g1(p: &G1Affine) -> (r: Vec<String>)
    requires
        p.wf(),
    ensures
        r.deep_view() == g1_tokens(p@),
{
    g1_to_strings_projective(p)
}

/// The two tokens of an element of a quadratic extension.
fn quad_to_strings(e: &QuadExtElement) -> (r: Vec<String>)
    requires
        e.wf(),
    ensures
        r.deep_view() == quad_tokens(e@),
{
    let r = vec![e.c0.to_decimal(), e.c1.to_decimal()];
    assert(r.deep_view() =~~= quad_tokens(e@));
    r
}

/// The pair of tokens that spell `(c0, c1)` with `c0` and `c1` zero or one.
fn unit_pair(c0: bool, c1: bool) -> (r: Vec<String>)
    ensures
        r.deep_view() == seq![
            seq![if c0 { '1' } else { '0' }],
            seq![if c1 { '1' } else { '0' }],
        ],
{
    proof {
        reveal_strlit("0");
        reveal_strlit("1");
    }
    let a = if c0 {
        "1".to_string()
    } else {
        "0".to_string()
    };
    let b = if c1 {
        "1".to_string()
    } else {
        "0".to_string()
    };
    let r = vec![a, b];
    assert(r.deep_view() =~~= seq![
        seq![if c0 { '1' } else { '0' }],
        seq![if c1 { '1' } else { '0' }],
    ]);
    r
}

/// Serializes a G2 point as its three pairs of tokens.
pub fn serialize_g2(p: &G2Affine) -> (r: Vec<Vec<String>>)
    requires
        p.wf(),
    ensures
        r.deep_view() == g2_tokens(p@),
{
    let r = match p {
        G2Affine::Point { x, y } => vec![
            quad_to_strings(x),
            quad_to_strings(y),
            unit_pair(true, false),
        ],
        G2Affine::Infinity => vec![
            unit_pair(false, false),
            unit_pair(true, false),
            unit_pair(false, false),
        ],
    };
    assert(r.deep_view() =~~= g2_tokens(p@));
    r
}

/// The three pairs of tokens of an element of a cubic extension.
fn cubic_to_strings(e: &CubicExtElement) -> (r: Vec<Vec<String>>)
    requires
        e.wf(),
    ensures
        r.deep_view() == cubic_tokens(e@),
{
    let r = vec![quad_to_strings(&e.c0), quad_to_strings(&e.c1), quad_to_strings(&e.c2)];
    assert(r.deep_view() =~~= cubic_tokens(e@));
    r
}

/// Serializes an element of the target group as its `2 x 3 x 2` nesting of
/// tokens.
pub fn serialize_gt(p: &Fp12Element) -> (r: Vec<Vec<Vec<String>>>)
    requires
        p.wf(),
    ensures
        r.deep_view() == gt_tokens(p@),
{
    let r = vec![cubic_to_strings(&p.c0), cubic_to_strings(&p.c1)];
    assert(r.deep_view() =~~= gt_tokens(p@));
    r
}

/// Serializes a sequence of G1 points, each as its three tokens, in order.
pub fn serialize_g1_seq(ps: &Vec<G1Affine>) -> (r: Vec<Vec<String>>)
    requires
        forall|i: int| 0 <= i < ps@.len() ==> (#[trigger] ps@[i]).wf(),
    ensures
        r.deep_view() == Seq::new(ps@.len(), |i: int| g1_tokens(ps@[i]@)),
{
    let mut r: Vec<Vec<String>> = Vec::new();
    let mut i: usize = 0;
    while i < ps.len()
        invariant
            i <= ps@.len(),
            r@.len() == i,
            forall|k: int| 0 <= k < ps@.len() ==> (#[trigger] ps@[k]).wf(),
            forall|k: int| 0 <= k < i ==> (#[trigger] r@[k]).deep_view() == g1_tokens(ps@[k]@),
        decreases ps@.len() - i,
    {
        r.push(g1_to_strings_projective(&ps[i]));
        i = i + 1;
    }
    assert(r.deep_view() =~= Seq::new(ps@.len(), |i: int| g1_tokens(ps@[i]@)));
    r
}

/// Decodes a G1 point from the tokens of its three projective coordinates.
pub fn g1_from_strings_projective(curve: Curve, check: CheckElement, x: &str, y: &str, z: &str) -> (r:
    Result<G1Affine, CodecError>)
    ensures
        g1_result(r) == g1_from_strings(curve, check, x@, y@, z@),
        g1_in(r, curve),
{
    let kind = curve.base_field_kind();
    let x = match FieldElement::from_decimal(kind, x) {
        Ok(e) => e,
        Err(e) => {
            return Err(CodecError::InvalidFieldEncoding);
        },
    };
    let y = match FieldElement::from_decimal(kind, y) {
        Ok(e) => e,
        Err(e) => {
            return Err(CodecError::InvalidFieldEncoding);
        },
    };
    let z = match FieldElement::from_decimal(kind, z) {
        Ok(e) => e,
        Err(e) => {
            return Err(CodecError::InvalidFieldEncoding);
        },
    };
    let one = FieldElement::one(kind);
    if x.is_zero() && (y.is_zero() || (y.equals(&one) && z.is_zero())) {
        return Ok(G1Affine::Infinity);
    }
    match validate_g1(curve, &x, &y, check) {
        Ok(_) => Ok(G1Affine::Point { x, y }),
        Err(e) => Err(e),
    }
}

/// Decodes a G1 point from a sequence of tokens: exactly three, `x`, `y`
/// and `z` in this order.
pub fn deserialize_g1_with(curve: Curve, check: CheckElement, tokens: &Vec<String>) -> (r: Result<
    G1Affine,
    CodecError,
>)
    ensures
        g1_result(r) == g1_from_tokens(curve, check, tokens.deep_view()),
        g1_in(r, curve),
{
    if tokens.len() < 3 {
        Err(CodecError::TruncatedInput)
    } else if tokens.len() > 3 {
        Err(CodecError::UnexpectedTrailingElement)
    } else {
        g1_from_strings_projective(
            curve,
            check,
            tokens[0].as_str(),
            tokens[1].as_str(),
            tokens[2].as_str(),
        )
    }
}

/// Decodes a G1 point from its three tokens and checks that it is a point
/// of the curve and a member of the subgroup.
pub fn deserialize_g1(curve: Curve, tokens: &Vec<String>) -> (r: Result<G1Affine, CodecError>)
    ensures
        g1_result(r) == g1_from_tokens(curve, CheckElement::Yes, tokens.deep_view()),
        g1_in(r, curve),
{
    deserialize_g1_with(curve, CheckElement::Yes, tokens)
}

/// Decodes a G1 point from its three tokens without checking it. Use it on
/// trusted input only.
pub fn deserialize_g1_unchecked(curve: Curve, tokens: &Vec<String>) -> (r: Result<
    G1Affine,
    CodecError,
>)
    ensures
        g1_result(r) == g1_from_tokens(curve, CheckElement::No, tokens.deep_view()),
        g1_in(r, curve),
{
    deserialize_g1_with(curve, CheckElement::No, tokens)
}

/// Decodes an element of the quadratic extension from two tokens.
fn quad_from_two(kind: FieldKind, c0: &str, c1: &str) -> (r: Result<QuadExtElement, CodecError>)
    ensures
        quad_result(r) == quad_from_strings(kind, c0@, c1@),
        r is Ok ==> r.unwrap().wf() && r.unwrap().kind() == kind,
{
    let c0 = match FieldElement::from_decimal(kind, c0) {
        Ok(e) => e,
        Err(e) => {
            return Err(CodecError::InvalidFieldEncoding);
        },
    };
    let c1 = match FieldElement::from_decimal(kind, c1) {
        Ok(e) => e,
        Err(e) => {
            return Err(CodecError::InvalidFieldEncoding);
        },
    };
    Ok(QuadExtElement { c0, c1 })
}

/// The view inside the result of decoding an element of a quadratic
/// extension.
pub open spec fn quad_result(r: Result<QuadExtElement, CodecError>) -> Result<
    (nat, nat),
    CodecError,
> {
    match r {
        Ok(e) => Ok(e@),
        Err(e) => Err(e),
    }
}

/// The view inside the result of decoding an element of a cubic extension.
pub open spec fn cubic_result(r: Result<CubicExtElement, CodecError>) -> Result<
    ((nat, nat), (nat, nat), (nat, nat)),
    CodecError,
> {
    match r {
        Ok(e) => Ok(e@),
        Err(e) => Err(e),
    }
}

/// The view inside the result of decoding an element of the target group.
pub open spec fn gt_result(r: Result<Fp12Element, CodecError>) -> Result<
    (((nat, nat), (nat, nat), (nat, nat)), ((nat, nat), (nat, nat), (nat, nat))),
    CodecError,
> {
    match r {
        Ok(e) => Ok(e@),
        Err(e) => Err(e),
    }
}

/// Decodes a G2 point from the tokens of its three projective coordinates,
/// two tokens each.
pub fn g2_from_strings_projective(
    curve: Curve,
    check: CheckElement,
    x0: &str,
    x1: &str,
    y0: &str,
    y1: &str,
    z0: &str,
    z1: &str,
) -> (r: Result<G2Affine, CodecError>)
    ensures
        g2_result(r) == g2_from_strings(curve, check, x0@, x1@, y0@, y1@, z0@, z1@),
        g2_in(r, curve),
{
    let kind = curve.base_field_kind();
    let x = match quad_from_two(kind, x0, x1) {
        Ok(e) => e,
        Err(e) => {
            return Err(CodecError::InvalidFieldEncoding);
        },
    };
    let y = match quad_from_two(kind, y0, y1) {
        Ok(e) => e,
        Err(e) => {
            return Err(CodecError::InvalidFieldEncoding);
        },
    };
    let z = match quad_from_two(kind, z0, z1) {
        Ok(e) => e,
        Err(e) => {
            return Err(CodecError::InvalidFieldEncoding);
        },
    };
    let one = FieldElement::one(kind);
    if x.is_zero() && (y.is_zero() || (y.c0.equals(&one) && y.c1.is_zero() && z.is_zero())) {
        return Ok(G2Affine::Infinity);
    }
    match validate_g2(curve, &x, &y, check) {
        Ok(_) => Ok(G2Affine::Point { x, y }),
        Err(e) => Err(e),
    }
}

/// Decodes a G2 point from a sequence of token sequences: exactly three
/// coordinates, `x`, `y` and `z` in this order, of exactly two tokens each.
pub fn deserialize_g2_with(curve: Curve, check: CheckElement, tokens: &Vec<Vec<String>>) -> (r:
    Result<G2Affine, CodecError>)
    ensures
        g2_result(r) == g2_from_tokens(curve, check, tokens.deep_view()),
        g2_in(r, curve),
{
    if tokens.len() < 3 {
        return Err(CodecError::TruncatedInput);
    }
    if tokens.len() > 3 {
        return Err(CodecError::UnexpectedTrailingElement);
    }
    let x = &tokens[0];
    let y = &tokens[1];
    let z = &tokens[2];
    if x.len() != 2 {
        Err(
            CodecError::LengthMismatch {
                subject: LengthSubject::CoordinateX,
                expected: 2,
                found: x.len(),
            },
        )
    } else if y.len() != 2 {
        Err(
            CodecError::LengthMismatch {
                subject: LengthSubject::CoordinateY,
                expected: 2,
                found: y.len(),
            },
        )
    } else if z.len() != 2 {
        Err(
            CodecError::LengthMismatch {
                subject: LengthSubject::CoordinateZ,
                expected: 2,
                found: z.len(),
            },
        )
    } else {
        g2_from_strings_projective(
            curve,
            check,
            x[0].as_str(),
            x[1].as_str(),
            y[0].as_str(),
            y[1].as_str(),
            z[0].as_str(),
            z[1].as_str(),
        )
    }
}

/// Decodes a G2 point from its three pairs of tokens and checks that it is
/// a point of the curve and a member of the subgroup.
pub fn deserialize_g2(curve: Curve, tokens: &Vec<Vec<String>>) -> (r: Result<G2Affine, CodecError>)
    ensures
        g2_result(r) == g2_from_tokens(curve, CheckElement::Yes, tokens.deep_view()),
        g2_in(r, curve),
{
    deserialize_g2_with(curve, CheckElement::Yes, tokens)
}

/// Decodes a G2 point from its three pairs of tokens without checking it.
/// Use it on trusted input only.
pub fn deserialize_g2_unchecked(curve: Curve, tokens: &Vec<Vec<String>>) -> (r: Result<
    G2Affine,
    CodecError,
>)
    ensures
        g2_result(r) == g2_from_tokens(curve, CheckElement::No, tokens.deep_view()),
        g2_in(r, curve),
{
    deserialize_g2_with(curve, CheckElement::No, tokens)
}

/// Builds an element of a quadratic extension from exactly two tokens.
pub fn quadratic_extension_field_from_vec(kind: FieldKind, strings: &Vec<String>) -> (r: Result<
    QuadExtElement,
    CodecError,
>)
    ensures
        quad_result(r) == quad_from_tokens(kind, strings.deep_view()),
        r is Ok ==> r.unwrap().wf() && r.unwrap().kind() == kind,
{
    if strings.len() != 2 {
        Err(
            CodecError::LengthMismatch {
                subject: LengthSubject::QuadraticComponents,
                expected: 2,
                found: strings.len(),
            },
        )
    } else {
        quad_from_two(kind, strings[0].as_str(), strings[1].as_str())
    }
}

/// Builds an element of a cubic extension from exactly three pairs of
/// tokens.
pub fn cubic_extension_field_from_vec(kind: FieldKind, strings: &Vec<Vec<String>>) -> (r: Result<
    CubicExtElement,
    CodecError,
>)
    ensures
        cubic_result(r) == cubic_from_tokens(kind, strings.deep_view()),
        r is Ok ==> r.unwrap().wf() && r.unwrap().kind() == kind,
{
    if strings.len() != 3 {
        return Err(
            CodecError::LengthMismatch {
                subject: LengthSubject::CubicComponents,
                expected: 3,
                found: strings.len(),
            },
        );
    }
    let c0 = match quadratic_extension_field_from_vec(kind, &strings[0]) {
        Ok(e) => e,
        Err(e) => {
            return Err(e);
        },
    };
    let c1 = match quadratic_extension_field_from_vec(kind, &strings[1]) {
        Ok(e) => e,
        Err(e) => {
            return Err(e);
        },
    };
    let c2 = match quadratic_extension_field_from_vec(kind, &strings[2]) {
        Ok(e) => e,
        Err(e) => {
            return Err(e);
        },
    };
    Ok(CubicExtElement { c0, c1, c2 })
}

/// Decodes an element of the target group of `curve` from its `2 x 3 x 2`
/// nesting of tokens. There is no curve equation to check it against.
pub fn deserialize_gt(curve: Curve, tokens: &Vec<Vec<Vec<String>>>) -> (r: Result<
    Fp12Element,
    CodecError,
>)
    ensures
        gt_result(r) == gt_from_tokens(curve.base_field(), tokens.deep_view()),
        r is Ok ==> r.unwrap().wf() && r.unwrap().kind() == curve.base_field(),
{
    let kind = curve.base_field_kind();
    if tokens.len() < 2 {
        return Err(CodecError::TruncatedInput);
    }
    if tokens.len() > 2 {
        return Err(CodecError::UnexpectedTrailingElement);
    }
    let x = &tokens[0];
    let y = &tokens[1];
    if x.len() != 3 {
        return Err(
            CodecError::LengthMismatch {
                subject: LengthSubject::CubicComponents,
                expected: 3,
                found: x.len(),
            },
        );
    }
    if y.len() != 3 {
        return Err(
            CodecError::LengthMismatch {
                subject: LengthSubject::CubicComponents,
                expected: 3,
                found: y.len(),
            },
        );
    }
    let c0 = match cubic_extension_field_from_vec(kind, x) {
        Ok(e) => e,
        Err(e) => {
            return Err(e);
        },
    };
    let c1 = match cubic_extension_field_from_vec(kind, y) {
        Ok(e) => e,
        Err(e) => {
            return Err(e);
        },
    };
    Ok(Fp12Element { c0, c1 })
}

/// What the entries of a sequence of G1 points decode to, one by one.
pub open spec fn g1_entries(curve: Curve, check: CheckElement, tokens: Seq<Seq<Seq<char>>>) -> Seq<
    Result<Option<(nat, nat)>, CodecError>,
> {
    Seq::new(tokens.len(), |i: int| g1_from_entry(curve, check, tokens[i]))
}

/// What decoding a sequence of G1 points gives when `size`, if present, is
/// the number of points expected. The points are decoded in order and the
/// first error is the result; the number of points is looked at only when
/// all of them have been decoded.
pub open spec fn g1_seq_decoded(
    curve: Curve,
    check: CheckElement,
    tokens: Seq<Seq<Seq<char>>>,
    size: Option<usize>,
    r: Result<Seq<Option<(nat, nat)>>, CodecError>,
) -> bool {
    let items = g1_entries(curve, check, tokens);
    if (forall|i: int| 0 <= i < items.len() ==> (#[trigger] items[i]) is Ok) && size is Some
        && size.unwrap() != tokens.len() {
        r == Err::<Seq<Option<(nat, nat)>>, CodecError>(
            CodecError::LengthMismatch {
                subject: LengthSubject::Batch,
                expected: size.unwrap(),
                found: tokens.len() as usize,
            },
        )
    } else {
        collected(items, r)
    }
}

/// Decodes one entry of a sequence of G1 points: exactly three tokens.
fn g1_from_entry_tokens(curve: Curve, check: CheckElement, point: &Vec<String>) -> (r: Result<
    G1Affine,
    CodecError,
>)
    ensures
        g1_result(r) == g1_from_entry(curve, check, point.deep_view()),
        g1_in(r, curve),
{
    if point.len() != 3 {
        Err(
            CodecError::LengthMismatch {
                subject: LengthSubject::PointTokens,
                expected: 3,
                found: point.len(),
            },
        )
    } else {
        g1_from_strings_projective(
            curve,
            check,
            point[0].as_str(),
            point[1].as_str(),
            point[2].as_str(),
        )
    }
}

/// Decodes a sequence of G1 points, each from its three tokens, and, where
/// `size` is given, checks the number of points against it afterwards.
#[verifier::rlimit(50)]
pub fn deserialize_g1_seq_with(
    curve: Curve,
    check: CheckElement,
    tokens: &Vec<Vec<String>>,
    size: Option<usize>,
) -> (r: Result<Vec<G1Affine>, CodecError>)
    ensures
        g1_seq_decoded(curve, check, tokens.deep_view(), size, g1_seq_result(r)),
        g1_seq_in(r, curve),
{
    let ghost t = tokens.deep_view();
    let ghost items = g1_entries(curve, check, t);
    let mut values: Vec<G1Affine> = Vec::new();
    let mut i: usize = 0;
    while i < tokens.len()
        invariant
            i <= tokens@.len(),
            values@.len() == i,
            t == tokens.deep_view(),
            items == g1_entries(curve, check, t),
            forall|k: int|
                0 <= k < i ==> #[trigger] items[k] == Ok::<Option<(nat, nat)>, CodecError>(
                    values@[k]@,
                ),
            forall|k: int| 0 <= k < i ==> (#[trigger] values@[k]).wf() && values@[k].over(curve),
        decreases tokens@.len() - i,
    {
        assert(t[i as int] == tokens@[i as int].deep_view());
        match g1_from_entry_tokens(curve, check, &tokens[i]) {
            Ok(p) => {
                values.push(p);
            },
            Err(e) => {
                assert(items[i as int] == Err::<Option<(nat, nat)>, CodecError>(e));
                assert(collected(items, Err::<Seq<Option<(nat, nat)>>, CodecError>(e)));
                return Err(e);
            },
        }
        i = i + 1;
    }
    assert(collected(items, Ok::<Seq<Option<(nat, nat)>>, CodecError>(g1_views(values@))));
    match size {
        Some(n) => {
            if n != values.len() {
                return Err(
                    CodecError::LengthMismatch {
                        subject: LengthSubject::Batch,
                        expected: n,
                        found: values.len(),
                    },
                );
            }
        },
        None => {},
    }
    Ok(values)
}

/// Decodes a sequence of G1 points and checks each of them.
pub fn deserialize_g1_seq(curve: Curve, tokens: &Vec<Vec<String>>) -> (r: Result<
    Vec<G1Affine>,
    CodecError,
>)
    ensures
        g1_seq_decoded(curve, CheckElement::Yes, tokens.deep_view(), None, g1_seq_result(r)),
        g1_seq_in(r, curve),
{
    deserialize_g1_seq_with(curve, CheckElement::Yes, tokens, None)
}

/// Decodes a sequence of G1 points without checking any of them. Use it on
/// trusted input only.
pub fn deserialize_g1_seq_unchecked(curve: Curve, tokens: &Vec<Vec<String>>) -> (r: Result<
    Vec<G1Affine>,
    CodecError,
>)
    ensures
        g1_seq_decoded(curve, CheckElement::No, tokens.deep_view(), None, g1_seq_result(r)),
        g1_seq_in(r, curve),
{
    deserialize_g1_seq_with(curve, CheckElement::No, tokens, None)
}

/// The token of a residue decodes to the residue.
pub proof fn lemma_token_round_trip(e: FieldElement)
    requires
        e.wf(),
    ensures
        decimal_element(e.kind(), decimal_digits(e@)) == Ok::<nat, CodecError>(e@),
{
    e.lemma_valid();
    lemma_decimal_digits_value(e@);
}

/// The tokens `"0"` and `"1"` decode to zero and one in every field.
pub proof fn lemma_unit_tokens(kind: FieldKind)
    ensures
        decimal_element(kind, seq!['0']) == Ok::<nat, CodecError>(0),
        decimal_element(kind, seq!['1']) == Ok::<nat, CodecError>(1),
{
    lemma_decimal_digits_value(0);
    lemma_decimal_digits_value(1);
    assert(decimal_digits(0) =~= seq!['0']);
    assert(decimal_digits(1) =~= seq!['1']);
    assert(0nat % kind.modulus() == 0 && 1nat % kind.modulus() == 1);
}

/// The origin is on neither curve of either pairing: the constant of the
/// curve equation is not zero.
#[verifier::rlimit(50)]
pub proof fn lemma_origin_off_curve(curve: Curve)
    ensures
        !g1_on_curve(curve, 0, 0),
        !g2_on_curve(curve, (0nat, 0nat), (0nat, 0nat)),
{
    let p = curve.base_field().modulus();
    let b = g2_coeff_b(curve);
    assert(mod_mul(p, 0, 0) == 0);
    assert(mod_add(p, 0, g1_coeff_b(curve)) == g1_coeff_b(curve));
    assert(quad_mul(p, (0nat, 0nat), (0nat, 0nat)) == (0nat, 0nat));
    assert(quad_add(p, (0nat, 0nat), b) == b);
}

/// The tokens of the point at infinity decode to the point at infinity, in
/// G1 and in G2, on every curve, whether points are checked or not.
pub proof fn lemma_infinity_tokens_decode(curve: Curve, check: CheckElement)
    ensures
        g1_from_tokens(curve, check, g1_tokens(None)) == Ok::<Option<(nat, nat)>, CodecError>(None),
        g2_from_tokens(curve, check, g2_tokens(None)) == Ok::<
            Option<((nat, nat), (nat, nat))>,
            CodecError,
        >(None),
{
    lemma_unit_tokens(curve.base_field());
}

/// Decoding the tokens of a point of G1 gives the point back, whether points
/// are checked or not. The point is the point at infinity or a finite point
/// that passes the checks.
pub proof fn lemma_g1_tokens_round_trip(curve: Curve, check: CheckElement, p: G1Affine)
    requires
        p.wf(),
        p.over(curve),
        p@ is Some ==> g1_verdict(curve, p@.unwrap().0, p@.unwrap().1, CheckElement::Yes) is Ok,
    ensures
        g1_from_tokens(curve, check, g1_tokens(p@)) == Ok::<Option<(nat, nat)>, CodecError>(p@),
{
    lemma_unit_tokens(curve.base_field());
    lemma_origin_off_curve(curve);
    match p {
        G1Affine::Infinity => {},
        G1Affine::Point { x, y } => {
            lemma_token_round_trip(x);
            lemma_token_round_trip(y);
        },
    }
}

/// Decoding the tokens of a point of G2 gives the point back, whether points
/// are checked or not. The point is the point at infinity or a finite point
/// that passes the checks.
#[verifier::rlimit(50)]
pub proof fn lemma_g2_tokens_round_trip(curve: Curve, check: CheckElement, p: G2Affine)
    requires
        p.wf(),
        p.over(curve),
        p@ is Some ==> g2_verdict(curve, p@.unwrap().0, p@.unwrap().1, CheckElement::Yes) is Ok,
    ensures
        g2_from_tokens(curve, check, g2_tokens(p@)) == Ok::<
            Option<((nat, nat), (nat, nat))>,
            CodecError,
        >(p@),
{
    lemma_unit_tokens(curve.base_field());
    lemma_origin_off_curve(curve);
    match p {
        G2Affine::Infinity => {},
        G2Affine::Point { x, y } => {
            lemma_token_round_trip(x.c0);
            lemma_token_round_trip(x.c1);
            lemma_token_round_trip(y.c0);
            lemma_token_round_trip(y.c1);
        },
    }
}

/// Decoding the tokens of an element of a quadratic extension gives the
/// element back.
pub proof fn lemma_quad_tokens_round_trip(e: QuadExtElement)
    requires
        e.wf(),
    ensures
        quad_from_tokens(e.kind(), quad_tokens(e@)) == Ok::<(nat, nat), CodecError>(e@),
{
    lemma_token_round_trip(e.c0);
    lemma_token_round_trip(e.c1);
}

/// Decoding the tokens of an element of a cubic extension gives the element
/// back.
pub proof fn lemma_cubic_tokens_round_trip(e: CubicExtElement)
    requires
        e.wf(),
    ensures
        cubic_from_tokens(e.kind(), cubic_tokens(e@)) == Ok::<
            ((nat, nat), (nat, nat), (nat, nat)),
            CodecError,
        >(e@),
{
    lemma_quad_tokens_round_trip(e.c0);
    lemma_quad_tokens_round_trip(e.c1);
    lemma_quad_tokens_round_trip(e.c2);
}

/// Decoding the tokens of an element of the target group gives the element
/// back.
#[verifier::rlimit(50)]
pub proof fn lemma_gt_tokens_round_trip(e: Fp12Element)
    requires
        e.wf(),
    ensures
        gt_from_tokens(e.kind(), gt_tokens(e@)) == Ok::<
            (((nat, nat), (nat, nat), (nat, nat)), ((nat, nat), (nat, nat), (nat, nat))),
            CodecError,
        >(e@),
{
    lemma_cubic_tokens_round_trip(e.c0);
    lemma_cubic_tokens_round_trip(e.c1);
}

/// A point of G1 that decodes when points are checked decodes to the same
/// point when they are not.
pub proof fn lemma_g1_tokens_checked_then_unchecked(curve: Curve, tokens: Seq<Seq<char>>)
    requires
        g1_from_tokens(curve, CheckElement::Yes, tokens) is Ok,
    ensures
        g1_from_tokens(curve, CheckElement::No, tokens) == g1_from_tokens(
            curve,
            CheckElement::Yes,
            tokens,
        ),
{
}

/// A point of G2 that decodes when points are checked decodes to the same
/// point when they are not.
pub proof fn lemma_g2_tokens_checked_then_unchecked(curve: Curve, tokens: Seq<Seq<Seq<char>>>)
    requires
        g2_from_tokens(curve, CheckElement::Yes, tokens) is Ok,
    ensures
        g2_from_tokens(curve, CheckElement::No, tokens) == g2_from_tokens(
            curve,
            CheckElement::Yes,
            tokens,
        ),
{
}

/// An entry of a sequence of G1 points that decodes when points are checked
/// decodes to the same point when they are not.
pub proof fn lemma_g1_entry_checked_then_unchecked(curve: Curve, tokens: Seq<Seq<char>>)
    requires
        g1_from_entry(curve, CheckElement::Yes, tokens) is Ok,
    ensures
        g1_from_entry(curve, CheckElement::No, tokens) == g1_from_entry(
            curve,
            CheckElement::Yes,
            tokens,
        ),
{
}

/// Gathering is decided by the items: where every item of `a` has been
/// gathered into `values`, and `b` agrees with `a`, gathering `b` gives
/// `values` and nothing else.
pub proof fn lemma_collected_agree<V>(
    a: Seq<Result<V, CodecError>>,
    b: Seq<Result<V, CodecError>>,
    values: Seq<V>,
    r: Result<Seq<V>, CodecError>,
)
    requires
        a.len() == b.len(),
        collected(a, Ok::<Seq<V>, CodecError>(values)),
        forall|i: int| 0 <= i < a.len() && (#[trigger] a[i]) is Ok ==> b[i] == a[i],
        collected(b, r),
    ensures
        r == Ok::<Seq<V>, CodecError>(values),
{
    assert forall|i: int| 0 <= i < b.len() implies #[trigger] b[i] == Ok::<V, CodecError>(
        values[i],
    ) by {
        assert(a[i] == Ok::<V, CodecError>(values[i]));
    }
    match r {
        Ok(vs) => {
            assert forall|i: int| 0 <= i < vs.len() implies vs[i] == values[i] by {
                assert(b[i] == Ok::<V, CodecError>(vs[i]));
            }
            assert(vs =~= values);
        },
        Err(e) => {
            let i = choose|i: int| 0 <= i < b.len() && #[trigger] b[i] == Err::<V, CodecError>(e);
            assert(b[i] is Ok);
        },
    }
}

/// A sequence of G1 points that decodes when points are checked decodes to
/// the same points when they are not.
pub proof fn lemma_g1_seq_checked_then_unchecked(
    curve: Curve,
    tokens: Seq<Seq<Seq<char>>>,
    size: Option<usize>,
    checked: Seq<Option<(nat, nat)>>,
    unchecked: Result<Seq<Option<(nat, nat)>>, CodecError>,
)
    requires
        g1_seq_decoded(
            curve,
            CheckElement::Yes,
            tokens,
            size,
            Ok::<Seq<Option<(nat, nat)>>, CodecError>(checked),
        ),
        g1_seq_decoded(curve, CheckElement::No, tokens, size, unchecked),
    ensures
        unchecked == Ok::<Seq<Option<(nat, nat)>>, CodecError>(checked),
{
    let yes = g1_entries(curve, CheckElement::Yes, tokens);
    let no = g1_entries(curve, CheckElement::No, tokens);
    assert forall|i: int| 0 <= i < yes.len() && (#[trigger] yes[i]) is Ok implies no[i]
        == yes[i] by {
        lemma_g1_entry_checked_then_unchecked(curve, tokens[i]);
    }
    assert(forall|i: int| 0 <= i < yes.len() ==> (#[trigger] yes[i]) is Ok);
    assert(collected(yes, Ok::<Seq<Option<(nat, nat)>>, CodecError>(checked)));
    assert forall|i: int| 0 <= i < no.len() implies (#[trigger] no[i]) is Ok by {
        assert(yes[i] is Ok);
    }
    lemma_collected_agree(yes, no, checked, unchecked);
}

} // verus!
