//! The binary formats of two other Groth16 provers for BN254.
//!
//! Both hold coordinates as 32 bytes each, most significant byte first, and
//! the two components of a G2 coordinate with the second one first. The
//! fixed format holds every point uncompressed, `x` then `y`, and has no way
//! to write the point at infinity. The flagged format keeps a mode in the two
//! highest bits of the first byte of a point: `00` for an uncompressed
//! point, `01` for the point at infinity, `10` and `11` for a compressed
//! point whose `y` is the smaller or the larger of the two roots.
//!
//! A stream is read front to back. The functions take the stream as a byte
//! string and a reader decodes what stands at its start.

use vstd::prelude::*;

use crate::compress::{
    g1_coordinates, g1_rhs_of, g1_root, g2_coordinates, g2_root, lemma_twist_rhs_is_curve_rhs,
    twist_neg, twist_rhs_of, Groth16Proof,
};
use crate::modular::lemma_quad_square_of_negative;
use crate::curve::{
    check_g1_subgroup, check_g2_subgroup, g1_in_subgroup, g1_on_curve, g1_verdict,
    g2_in_subgroup, g2_on_curve, g2_verdict, validate_g1, validate_g2, CheckElement, Curve,
    G1Affine, G2Affine,
};
use crate::error::{CodecError, LengthSubject};
use crate::field::{
    be_element, bn254_fq_modulus, element_in, element_view, lemma_square_of_negative, mod_neg,
    FieldElement, FieldKind, QuadExtElement,
};
use crate::json::{
    collected, g1_in, g1_result, g1_views, g2_in, g2_result, lemma_collected_agree,
    lemma_origin_off_curve,
};
use crate::montgomery::{g1_from_affine, g1_from_montgomery, g2_from_affine, g2_from_montgomery};
use crate::natbytes::{be_nat, copy_range, le_nat_from, lemma_zeros, zero_bytes};

verus! {

/// At most `len` bytes of `bytes`, from `from` on: fewer where `bytes` ends
/// before.
pub open spec fn window(bytes: Seq<u8>, from: nat, len: nat) -> Seq<u8> {
    if from >= bytes.len() {
        Seq::empty()
    } else if from + len >= bytes.len() {
        bytes.subrange(from as int, bytes.len() as int)
    } else {
        bytes.subrange(from as int, (from + len) as int)
    }
}

/// At most `len` bytes of `bytes`, from `from` on, as a vector of their own.
pub fn window_of(bytes: &[u8], from: usize, len: usize) -> (r: Vec<u8>)
    ensures
        r@ == window(bytes@, from as nat, len as nat),
{
    let n = bytes.len();
    if from >= n {
        Vec::new()
    } else if len >= n - from {
        copy_range(bytes, from, n - from)
    } else {
        copy_range(bytes, from, len)
    }
}

/// The `i`-th coordinate of a point: 32 bytes, most significant byte first.
pub open spec fn be_coordinate(bytes: Seq<u8>, i: int) -> Result<nat, CodecError> {
    be_element(FieldKind::Bn254Fq, bytes.subrange(32 * i, 32 * (i + 1)))
}

/// Reads the `i`-th coordinate of a point.
fn be_coordinate_of(bytes: &[u8], i: usize) -> (r: Result<FieldElement, CodecError>)
    requires
        i < 4,
        32 * (i + 1) <= bytes@.len(),
    ensures
        element_view(r) == be_coordinate(bytes@, i as int),
        element_in(r, FieldKind::Bn254Fq),
{
    let chunk = copy_range(bytes, 32 * i, 32);
    assert(chunk@.subrange(0, 32) =~= chunk@);
    FieldElement::from_be_bytes(FieldKind::Bn254Fq, chunk.as_slice())
}

/// What the fixed format's G1 point at the start of `bytes` decodes to: 64
/// bytes, `x` then `y`. The origin is no point of this format.
pub open spec fn bellman_g1(bytes: Seq<u8>, check: CheckElement) -> Result<
    Option<(nat, nat)>,
    CodecError,
> {
    if bytes.len() < 64 {
        Err(CodecError::TruncatedInput)
    } else {
        match be_coordinate(bytes, 0) {
            Err(e) => Err(e),
            Ok(x) => match be_coordinate(bytes, 1) {
                Err(e) => Err(e),
                Ok(y) => if x == 0 && y == 0 {
                    Err(CodecError::UnsupportedEncodingMode)
                } else {
                    match g1_verdict(Curve::Bn254, x, y, check) {
                        Ok(_) => Ok(Some((x, y))),
                        Err(e) => Err(e),
                    }
                },
            },
        }
    }
}

/// What the fixed format's G2 point at the start of `bytes` decodes to: 128
/// bytes, `x1`, `x0`, `y1`, `y0`. The origin is no point of this format.
pub open spec fn bellman_g2(bytes: Seq<u8>, check: CheckElement) -> Result<
    Option<((nat, nat), (nat, nat))>,
    CodecError,
> {
    if bytes.len() < 128 {
        Err(CodecError::TruncatedInput)
    } else {
        match be_coordinate(bytes, 0) {
            Err(e) => Err(e),
            Ok(x1) => match be_coordinate(bytes, 1) {
                Err(e) => Err(e),
                Ok(x0) => match be_coordinate(bytes, 2) {
                    Err(e) => Err(e),
                    Ok(y1) => match be_coordinate(bytes, 3) {
                        Err(e) => Err(e),
                        Ok(y0) => if (x0, x1) == (0nat, 0nat) && (y0, y1) == (0nat, 0nat) {
                            Err(CodecError::UnsupportedEncodingMode)
                        } else {
                            match g2_verdict(Curve::Bn254, (x0, x1), (y0, y1), check) {
                                Ok(_) => Ok(Some(((x0, x1), (y0, y1)))),
                                Err(e) => Err(e),
                            }
                        },
                    },
                },
            },
        }
    }
}

/// Decodes the G1 point of the fixed format that stands at the start of
/// `bytes`.
pub fn read_bellman_g1(bytes: &[u8], check: CheckElement) -> (r: Result<G1Affine, CodecError>)
    ensures
        g1_result(r) == bellman_g1(bytes@, check),
        g1_in(r, Curve::Bn254),
{
    if bytes.len() < 64 {
        return Err(CodecError::TruncatedInput);
    }
    let x = match be_coordinate_of(bytes, 0) {
        Ok(e) => e,
        Err(e) => {
            return Err(e);
        },
    };
    let y = match be_coordinate_of(bytes, 1) {
        Ok(e) => e,
        Err(e) => {
            return Err(e);
        },
    };
    if x.is_zero() && y.is_zero() {
        return Err(CodecError::UnsupportedEncodingMode);
    }
    match validate_g1(Curve::Bn254, &x, &y, check) {
        Ok(_) => Ok(G1Affine::Point { x, y }),
        Err(e) => Err(e),
    }
}

/// Decodes the G2 point of the fixed format that stands at the start of
/// `bytes`.
pub fn read_bellman_g2(bytes: &[u8], check: CheckElement) -> (r: Result<G2Affine, CodecError>)
    ensures
        g2_result(r) == bellman_g2(bytes@, check),
        g2_in(r, Curve::Bn254),
{
    if bytes.len() < 128 {
        return Err(CodecError::TruncatedInput);
    }
    let x1 = match be_coordinate_of(bytes, 0) {
        Ok(e) => e,
        Err(e) => {
            return Err(e);
        },
    };
    let x0 = match be_coordinate_of(bytes, 1) {
        Ok(e) => e,
        Err(e) => {
            return Err(e);
        },
    };
    let y1 = match be_coordinate_of(bytes, 2) {
        Ok(e) => e,
        Err(e) => {
            return Err(e);
        },
    };
    let y0 = match be_coordinate_of(bytes, 3) {
        Ok(e) => e,
        Err(e) => {
            return Err(e);
        },
    };
    let x = QuadExtElement { c0: x0, c1: x1 };
    let y = QuadExtElement { c0: y0, c1: y1 };
    if x.is_zero() && y.is_zero() {
        return Err(CodecError::UnsupportedEncodingMode);
    }
    match validate_g2(Curve::Bn254, &x, &y, check) {
        Ok(_) => Ok(G2Affine::Point { x, y }),
        Err(e) => Err(e),
    }
}

/// The number that four bytes at the start of `bytes` spell, most
/// significant byte first.
pub open spec fn be_count(bytes: Seq<u8>) -> Result<nat, CodecError> {
    if bytes.len() < 4 {
        Err(CodecError::TruncatedInput)
    } else {
        Ok(be_nat(bytes.subrange(0, 4)))
    }
}

/// Reads a count of four bytes, most significant byte first.
#[verifier::rlimit(50)]
pub fn read_count(bytes: &[u8]) -> (r: Result<u32, CodecError>)
    ensures
        r is Ok ==> be_count(bytes@) == Ok::<nat, CodecError>(r.unwrap() as nat),
        r is Err ==> be_count(bytes@) == Err::<nat, CodecError>(r.unwrap_err()),
{
    if bytes.len() < 4 {
        return Err(CodecError::TruncatedInput);
    }
    let b0 = bytes[0] as u32;
    let b1 = bytes[1] as u32;
    let b2 = bytes[2] as u32;
    let b3 = bytes[3] as u32;
    proof {
        let s = bytes@.subrange(0, 4);
        let t = s.reverse();
        assert(t[0] == bytes@[3] && t[1] == bytes@[2] && t[2] == bytes@[1] && t[3] == bytes@[0]);
        reveal_with_fuel(le_nat_from, 5);
    }
    Ok(((b0 * 256 + b1) * 256 + b2) * 256 + b3)
}

/// A Groth16 verifying key over BN254.
#[derive(Clone, Debug, PartialEq, Eq)]
pub struct VerifyingKey {
    pub alpha_g1: G1Affine,
    pub beta_g2: G2Affine,
    pub gamma_g2: G2Affine,
    pub delta_g2: G2Affine,
    /// The points that the public inputs are combined with.
    pub gamma_abc_g1: Vec<G1Affine>,
}

/// The coordinates inside a verifying key.
pub struct VerifyingKeyView {
    pub alpha_g1: Option<(nat, nat)>,
    pub beta_g2: Option<((nat, nat), (nat, nat))>,
    pub gamma_g2: Option<((nat, nat), (nat, nat))>,
    pub delta_g2: Option<((nat, nat), (nat, nat))>,
    pub gamma_abc_g1: Seq<Option<(nat, nat)>>,
}

impl View for VerifyingKey {
    type V = VerifyingKeyView;

    open spec fn view(&self) -> VerifyingKeyView {
        VerifyingKeyView {
            alpha_g1: self.alpha_g1@,
            beta_g2: self.beta_g2@,
            gamma_g2: self.gamma_g2@,
            delta_g2: self.delta_g2@,
            gamma_abc_g1: g1_views(self.gamma_abc_g1@),
        }
    }
}

impl VerifyingKey {
    /// Validity: valid points with coordinates over the base field of
    /// BN254.
    pub open spec fn wf(&self) -> bool {
        &&& self.alpha_g1.wf() && self.alpha_g1.over(Curve::Bn254)
        &&& self.beta_g2.wf() && self.beta_g2.over(Curve::Bn254)
        &&& self.gamma_g2.wf() && self.gamma_g2.over(Curve::Bn254)
        &&& self.delta_g2.wf() && self.delta_g2.over(Curve::Bn254)
        &&& forall|i: int|
            0 <= i < self.gamma_abc_g1@.len() ==> (#[trigger] self.gamma_abc_g1@[i]).wf()
                && self.gamma_abc_g1@[i].over(Curve::Bn254)
    }
}

/// The view inside the result of decoding a verifying key.
pub open spec fn vk_result(r: Result<VerifyingKey, CodecError>) -> Result<
    VerifyingKeyView,
    CodecError,
> {
    match r {
        Ok(vk) => Ok(vk@),
        Err(e) => Err(e),
    }
}

/// The four points that a verifying key keeps of the six at its start.
pub struct KeyHeader {
    pub alpha_g1: Option<(nat, nat)>,
    pub beta_g2: Option<((nat, nat), (nat, nat))>,
    pub gamma_g2: Option<((nat, nat), (nat, nat))>,
    pub delta_g2: Option<((nat, nat), (nat, nat))>,
}

/// What the six points at the start of a verifying key of the fixed format
/// decode to: `alpha` in G1, `beta` in G1, `beta` in G2, `gamma` in G2,
/// `delta` in G1 and `delta` in G2. All six are decoded, in this order; the
/// two that the key has no use for are then dropped.
pub open spec fn bellman_header(bytes: Seq<u8>, check: CheckElement) -> Result<
    KeyHeader,
    CodecError,
> {
    match bellman_g1(window(bytes, 0, 64), check) {
        Err(e) => Err(e),
        Ok(alpha_g1) => match bellman_g1(window(bytes, 64, 64), check) {
            Err(e) => Err(e),
            Ok(_) => match bellman_g2(window(bytes, 128, 128), check) {
                Err(e) => Err(e),
                Ok(beta_g2) => match bellman_g2(window(bytes, 256, 128), check) {
                    Err(e) => Err(e),
                    Ok(gamma_g2) => match bellman_g1(window(bytes, 384, 64), check) {
                        Err(e) => Err(e),
                        Ok(_) => match bellman_g2(window(bytes, 448, 128), check) {
                            Err(e) => Err(e),
                            Ok(delta_g2) => Ok(
                                KeyHeader { alpha_g1, beta_g2, gamma_g2, delta_g2 },
                            ),
                        },
                    },
                },
            },
        }
    }
}

/// Whether a verifying key starts with the points of `header`.
pub open spec fn starts_with(vk: VerifyingKeyView, header: KeyHeader) -> bool {
    &&& vk.alpha_g1 == header.alpha_g1
    &&& vk.beta_g2 == header.beta_g2
    &&& vk.gamma_g2 == header.gamma_g2
    &&& vk.delta_g2 == header.delta_g2
}

/// What the `n` points of the fixed format that follow the count of a
/// verifying key decode to, one by one.
pub open spec fn bellman_points(bytes: Seq<u8>, check: CheckElement, n: nat) -> Seq<
    Result<Option<(nat, nat)>, CodecError>,
> {
    Seq::new(n, |i: int| bellman_g1(window(bytes, (580 + 64 * i) as nat, 64), check))
}

/// What a verifying key of the fixed format decodes to: the six points of
/// the header, a count of four bytes, and as many points of G1 as the count
/// says, which the key holds in the order of the stream. The first part that
/// does not decode fails the key.
pub open spec fn bellman_vk_decoded(
    bytes: Seq<u8>,
    check: CheckElement,
    r: Result<VerifyingKeyView, CodecError>,
) -> bool {
    match bellman_header(bytes, check) {
        Err(e) => r == Err::<VerifyingKeyView, CodecError>(e),
        Ok(header) => match be_count(window(bytes, 576, 4)) {
            Err(e) => r == Err::<VerifyingKeyView, CodecError>(e),
            Ok(n) => match r {
                Ok(vk) => starts_with(vk, header) && collected(
                    bellman_points(bytes, check, n),
                    Ok::<Seq<Option<(nat, nat)>>, CodecError>(vk.gamma_abc_g1),
                ),
                Err(e) => collected(
                    bellman_points(bytes, check, n),
                    Err::<Seq<Option<(nat, nat)>>, CodecError>(e),
                ),
            },
        },
    }
}

/// The points at the start of a verifying key, as decoded.
#[derive(Debug)]
struct Header {
    alpha_g1: G1Affine,
    beta_g2: G2Affine,
    gamma_g2: G2Affine,
    delta_g2: G2Affine,
}

impl Header {
    spec fn wf(&self) -> bool {
        &&& self.alpha_g1.wf() && self.alpha_g1.over(Curve::Bn254)
        &&& self.beta_g2.wf() && self.beta_g2.over(Curve::Bn254)
        &&& self.gamma_g2.wf() && self.gamma_g2.over(Curve::Bn254)
        &&& self.delta_g2.wf() && self.delta_g2.over(Curve::Bn254)
    }

    spec fn view(&self) -> KeyHeader {
        KeyHeader {
            alpha_g1: self.alpha_g1@,
            beta_g2: self.beta_g2@,
            gamma_g2: self.gamma_g2@,
            delta_g2: self.delta_g2@,
        }
    }
}

/// Decodes the six points at the start of a verifying key of the fixed
/// format.
#[verifier::rlimit(50)]
fn read_bellman_header(bytes: &[u8], check: CheckElement) -> (r: Result<Header, CodecError>)
    ensures
        r is Ok ==> r.unwrap().wf() && bellman_header(bytes@, check) == Ok::<
            KeyHeader,
            CodecError,
        >(r.unwrap().view()),
        r is Err ==> bellman_header(bytes@, check) == Err::<KeyHeader, CodecError>(r.unwrap_err()),
{
    let alpha_g1 = match read_bellman_g1(window_of(bytes, 0, 64).as_slice(), check) {
        Ok(p) => p,
        Err(e) => {
            return Err(e);
        },
    };
    match read_bellman_g1(window_of(bytes, 64, 64).as_slice(), check) {
        Ok(_) => {},
        Err(e) => {
            return Err(e);
        },
    }
    let beta_g2 = match read_bellman_g2(window_of(bytes, 128, 128).as_slice(), check) {
        Ok(p) => p,
        Err(e) => {
            return Err(e);
        },
    };
    let gamma_g2 = match read_bellman_g2(window_of(bytes, 256, 128).as_slice(), check) {
        Ok(p) => p,
        Err(e) => {
            return Err(e);
        },
    };
    match read_bellman_g1(window_of(bytes, 384, 64).as_slice(), check) {
        Ok(_) => {},
        Err(e) => {
            return Err(e);
        },
    }
    let delta_g2 = match read_bellman_g2(window_of(bytes, 448, 128).as_slice(), check) {
        Ok(p) => p,
        Err(e) => {
            return Err(e);
        },
    };
    Ok(Header { alpha_g1, beta_g2, gamma_g2, delta_g2 })
}

/// Decodes the G1 point of the fixed format that stands at `pos` in `bytes`.
fn read_bellman_g1_at(bytes: &[u8], pos: usize, check: CheckElement) -> (r: Result<
    G1Affine,
    CodecError,
>)
    ensures
        g1_result(r) == bellman_g1(window(bytes@, pos as nat, 64), check),
        g1_in(r, Curve::Bn254),
        r is Ok ==> pos + 64 <= bytes@.len(),
{
    let chunk = window_of(bytes, pos, 64);
    read_bellman_g1(chunk.as_slice(), check)
}

/// Decodes the verifying key of the fixed format that stands at the start of
/// `bytes`.
#[verifier::rlimit(50)]
pub fn read_bellman_vk(bytes: &[u8], check: CheckElement) -> (r: Result<VerifyingKey, CodecError>)
    ensures
        bellman_vk_decoded(bytes@, check, vk_result(r)),
        r is Ok ==> r.unwrap().wf(),
{
    let header = match read_bellman_header(bytes, check) {
        Ok(h) => h,
        Err(e) => {
            return Err(e);
        },
    };
    let count = match read_count(window_of(bytes, 576, 4).as_slice()) {
        Ok(n) => n,
        Err(e) => {
            return Err(e);
        },
    };
    let ghost items = bellman_points(bytes@, check, count as nat);
    let total = bytes.len();
    let mut points: Vec<G1Affine> = Vec::new();
    let mut i: u32 = 0;
    let mut pos: usize = 580;
    while i < count
        invariant
            i <= count,
            points@.len() == i,
            total == bytes@.len(),
            pos == 580 + 64 * i,
            i > 0 ==> pos <= total,
            bellman_header(bytes@, check) == Ok::<KeyHeader, CodecError>(header.view()),
            be_count(window(bytes@, 576, 4)) == Ok::<nat, CodecError>(count as nat),
            items == bellman_points(bytes@, check, count as nat),
            forall|k: int|
                0 <= k < i ==> #[trigger] items[k] == Ok::<Option<(nat, nat)>, CodecError>(
                    points@[k]@,
                ),
            forall|k: int|
                0 <= k < i ==> (#[trigger] points@[k]).wf() && points@[k].over(Curve::Bn254),
        decreases count - i,
    {
        match read_bellman_g1_at(bytes, pos, check) {
            Ok(p) => {
                points.push(p);
            },
            Err(e) => {
                assert(items[i as int] == Err::<Option<(nat, nat)>, CodecError>(e));
                assert(collected(items, Err::<Seq<Option<(nat, nat)>>, CodecError>(e)));
                return Err(e);
            },
        }
        pos = pos + 64;
        i = i + 1;
    }
    assert(collected(items, Ok::<Seq<Option<(nat, nat)>>, CodecError>(g1_views(points@))));
    Ok(
        VerifyingKey {
            alpha_g1: header.alpha_g1,
            beta_g2: header.beta_g2,
            gamma_g2: header.gamma_g2,
            delta_g2: header.delta_g2,
            gamma_abc_g1: points,
        },
    )
}

/// How a point of the flagged format is written.
#[derive(Clone, Copy, Debug, PartialEq, Eq, Structural)]
pub enum PointMode {
    /// Both coordinates follow.
    Uncompressed,
    /// The point at infinity.
    Infinity,
    /// Only `x` follows; `y` is the smaller root.
    CompressedSmallest,
    /// Only `x` follows; `y` is the larger root.
    CompressedLargest,
}

/// The mode in the two highest bits of the first byte of a point.
pub open spec fn point_mode(first: u8) -> PointMode {
    if first < 64 {
        PointMode::Uncompressed
    } else if first < 128 {
        PointMode::Infinity
    } else if first < 192 {
        PointMode::CompressedSmallest
    } else {
        PointMode::CompressedLargest
    }
}

/// Reads the mode in the two highest bits of the first byte of a point.
pub fn decode_point_mode(first: u8) -> (m: PointMode)
    ensures
        m == point_mode(first),
{
    if first < 64 {
        PointMode::Uncompressed
    } else if first < 128 {
        PointMode::Infinity
    } else if first < 192 {
        PointMode::CompressedSmallest
    } else {
        PointMode::CompressedLargest
    }
}

/// The bytes of a coordinate with the two mode bits cleared.
pub open spec fn without_flags(bytes: Seq<u8>) -> Seq<u8> {
    bytes.update(0, (bytes[0] % 64) as u8)
}

/// The one of the root `r` and its negative `n` that a compressed point of
/// G1 stands for: the larger number if `largest`, else the smaller.
pub open spec fn chosen_root(r: nat, n: nat, largest: bool) -> nat {
    if (r < n) == largest {
        n
    } else {
        r
    }
}

/// The order of the quadratic extension: by the second component, then by
/// the first.
pub open spec fn quad_less(a: (nat, nat), b: (nat, nat)) -> bool {
    a.1 < b.1 || (a.1 == b.1 && a.0 < b.0)
}

/// The one of the root `r` and its negative `n` that a compressed point of
/// G2 stands for: the larger in the order of the extension if `largest`, else
/// the smaller.
pub open spec fn chosen_quad_root(r: (nat, nat), n: (nat, nat), largest: bool) -> (nat, nat) {
    if quad_less(r, n) == largest {
        n
    } else {
        r
    }
}

/// What a compressed G1 point of the flagged format decodes to: `x` is read
/// with the mode bits cleared, `y` is the root that the mode asks for, and
/// the point is tested for subgroup membership if `check` asks for it.
pub open spec fn gnark_g1_compressed(bytes: Seq<u8>, check: CheckElement, largest: bool) -> Result<
    Option<(nat, nat)>,
    CodecError,
> {
    match be_element(FieldKind::Bn254Fq, without_flags(bytes.subrange(0, 32))) {
        Err(e) => Err(e),
        Ok(x) => match g1_root(x) {
            None => Err(CodecError::NotOnCurve),
            Some(r) => {
                let y = chosen_root(r, mod_neg(bn254_fq_modulus(), r), largest);
                if check == CheckElement::Yes && !g1_in_subgroup(Curve::Bn254, x, y) {
                    Err(CodecError::NotInSubgroup)
                } else {
                    Ok(Some((x, y)))
                }
            },
        },
    }
}

/// A decoded value and the number of bytes that it took.
pub open spec fn taking<T>(r: Result<T, CodecError>, used: nat) -> Result<(T, nat), CodecError> {
    match r {
        Ok(v) => Ok((v, used)),
        Err(e) => Err(e),
    }
}

/// What the flagged format's G1 point at the start of `bytes` decodes to,
/// and how many bytes it takes: 64 if it is uncompressed, else 32. The point
/// at infinity takes its 32 bytes whatever they hold below the mode bits.
pub open spec fn gnark_g1(bytes: Seq<u8>, check: CheckElement) -> Result<
    (Option<(nat, nat)>, nat),
    CodecError,
> {
    if bytes.len() < 32 {
        Err(CodecError::TruncatedInput)
    } else {
        match point_mode(bytes[0]) {
            PointMode::Infinity => Ok((None, 32)),
            PointMode::CompressedSmallest => taking(gnark_g1_compressed(bytes, check, false), 32),
            PointMode::CompressedLargest => taking(gnark_g1_compressed(bytes, check, true), 32),
            PointMode::Uncompressed => if bytes.len() < 64 {
                Err(CodecError::TruncatedInput)
            } else {
                match be_coordinate(bytes, 0) {
                    Err(e) => Err(e),
                    Ok(x) => match be_coordinate(bytes, 1) {
                        Err(e) => Err(e),
                        Ok(y) => taking(g1_from_affine(Curve::Bn254, check, x, y), 64),
                    },
                }
            },
        }
    }
}

/// What a compressed G2 point of the flagged format decodes to, as
/// [`gnark_g1_compressed`] says it for G1. The second component of `x`
/// comes first and carries the mode bits.
pub open spec fn gnark_g2_compressed(bytes: Seq<u8>, check: CheckElement, largest: bool) -> Result<
    Option<((nat, nat), (nat, nat))>,
    CodecError,
> {
    match be_element(FieldKind::Bn254Fq, without_flags(bytes.subrange(0, 32))) {
        Err(e) => Err(e),
        Ok(x1) => match be_coordinate(bytes, 1) {
            Err(e) => Err(e),
            Ok(x0) => match g2_root((x0, x1)) {
                None => Err(CodecError::NotOnCurve),
                Some(r) => {
                    let y = chosen_quad_root(r, twist_neg(r), largest);
                    if check == CheckElement::Yes && !g2_in_subgroup(Curve::Bn254, (x0, x1), y) {
                        Err(CodecError::NotInSubgroup)
                    } else {
                        Ok(Some(((x0, x1), y)))
                    }
                },
            },
        },
    }
}

/// What the flagged format's G2 point at the start of `bytes` decodes to,
/// and how many bytes it takes: 128 if it is uncompressed, else 64.
pub open spec fn gnark_g2(bytes: Seq<u8>, check: CheckElement) -> Result<
    (Option<((nat, nat), (nat, nat))>, nat),
    CodecError,
> {
    if bytes.len() < 64 {
        Err(CodecError::TruncatedInput)
    } else {
        match point_mode(bytes[0]) {
            PointMode::Infinity => Ok((None, 64)),
            PointMode::CompressedSmallest => taking(gnark_g2_compressed(bytes, check, false), 64),
            PointMode::CompressedLargest => taking(gnark_g2_compressed(bytes, check, true), 64),
            PointMode::Uncompressed => if bytes.len() < 128 {
                Err(CodecError::TruncatedInput)
            } else {
                match be_coordinate(bytes, 0) {
                    Err(e) => Err(e),
                    Ok(x1) => match be_coordinate(bytes, 1) {
                        Err(e) => Err(e),
                        Ok(x0) => match be_coordinate(bytes, 2) {
                            Err(e) => Err(e),
                            Ok(y1) => match be_coordinate(bytes, 3) {
                                Err(e) => Err(e),
                                Ok(y0) => taking(
                                    g2_from_affine(Curve::Bn254, check, (x0, x1), (y0, y1)),
                                    128,
                                ),
                            },
                        },
                    },
                }
            },
        }
    }
}

/// The point and the count of bytes inside the result of decoding a point
/// of G1 of the flagged format.
pub open spec fn g1_taken(r: Result<(G1Affine, usize), CodecError>) -> Result<
    (Option<(nat, nat)>, nat),
    CodecError,
> {
    match r {
        Ok((p, used)) => Ok((p@, used as nat)),
        Err(e) => Err(e),
    }
}

/// The point and the count of bytes inside the result of decoding a point
/// of G2 of the flagged format.
pub open spec fn g2_taken(r: Result<(G2Affine, usize), CodecError>) -> Result<
    (Option<((nat, nat), (nat, nat))>, nat),
    CodecError,
> {
    match r {
        Ok((p, used)) => Ok((p@, used as nat)),
        Err(e) => Err(e),
    }
}

/// Reads the first coordinate of a point with its mode bits cleared.
fn flagged_coordinate_of(bytes: &[u8]) -> (r: Result<FieldElement, CodecError>)
    requires
        32 <= bytes@.len(),
    ensures
        element_view(r) == be_element(FieldKind::Bn254Fq, without_flags(bytes@.subrange(0, 32))),
        element_in(r, FieldKind::Bn254Fq),
{
    let mut chunk = copy_range(bytes, 0, 32);
    let first = chunk[0] % 64;
    chunk.set(0, first);
    assert(chunk@ =~= without_flags(bytes@.subrange(0, 32)));
    assert(chunk@.subrange(0, 32) =~= chunk@);
    FieldElement::from_be_bytes(FieldKind::Bn254Fq, chunk.as_slice())
}

/// Decodes a compressed G1 point of the flagged format.
fn read_gnark_g1_compressed(bytes: &[u8], check: CheckElement, largest: bool) -> (r: Result<
    G1Affine,
    CodecError,
>)
    requires
        32 <= bytes@.len(),
    ensures
        g1_result(r) == gnark_g1_compressed(bytes@, check, largest),
        g1_in(r, Curve::Bn254),
        r is Ok ==> r.unwrap()@ is Some && g1_on_curve(
            Curve::Bn254,
            r.unwrap()@.unwrap().0,
            r.unwrap()@.unwrap().1,
        ),
{
    let x = match flagged_coordinate_of(bytes) {
        Ok(e) => e,
        Err(e) => {
            return Err(e);
        },
    };
    let root = match g1_rhs_of(&x).sqrt() {
        Some(r) => r,
        None => {
            return Err(CodecError::NotOnCurve);
        },
    };
    proof {
        root.lemma_valid();
        lemma_square_of_negative(bn254_fq_modulus(), root@);
    }
    let negative = root.field_neg();
    let y = if root.less_than(&negative) == largest {
        negative
    } else {
        root
    };
    match check {
        CheckElement::Yes => {
            if !check_g1_subgroup(Curve::Bn254, &x, &y) {
                return Err(CodecError::NotInSubgroup);
            }
        },
        CheckElement::No => {},
    }
    Ok(G1Affine::Point { x, y })
}

/// Decodes the G1 point of the flagged format that stands at the start of
/// `bytes`, and says how many bytes it took.
pub fn read_gnark_g1(bytes: &[u8], check: CheckElement) -> (r: Result<(G1Affine, usize), CodecError>)
    ensures
        g1_taken(r) == gnark_g1(bytes@, check),
        r is Ok ==> r.unwrap().0.wf() && r.unwrap().0.over(Curve::Bn254),
        r is Ok ==> r.unwrap().1 <= bytes@.len(),
        r is Ok && bytes@[0] >= 128 ==> r.unwrap().0@ is Some && g1_on_curve(
            Curve::Bn254,
            r.unwrap().0@.unwrap().0,
            r.unwrap().0@.unwrap().1,
        ),
{
    if bytes.len() < 32 {
        return Err(CodecError::TruncatedInput);
    }
    match decode_point_mode(bytes[0]) {
        PointMode::Infinity => Ok((G1Affine::Infinity, 32)),
        PointMode::CompressedSmallest => match read_gnark_g1_compressed(bytes, check, false) {
            Ok(p) => Ok((p, 32)),
            Err(e) => Err(e),
        },
        PointMode::CompressedLargest => match read_gnark_g1_compressed(bytes, check, true) {
            Ok(p) => Ok((p, 32)),
            Err(e) => Err(e),
        },
        PointMode::Uncompressed => {
            if bytes.len() < 64 {
                return Err(CodecError::TruncatedInput);
            }
            let x = match be_coordinate_of(bytes, 0) {
                Ok(e) => e,
                Err(e) => {
                    return Err(e);
                },
            };
            let y = match be_coordinate_of(bytes, 1) {
                Ok(e) => e,
                Err(e) => {
                    return Err(e);
                },
            };
            if x.is_zero() && y.is_zero() {
                return Ok((G1Affine::Infinity, 64));
            }
            match validate_g1(Curve::Bn254, &x, &y, check) {
                Ok(_) => Ok((G1Affine::Point { x, y }, 64)),
                Err(e) => Err(e),
            }
        },
    }
}

/// Whether `a` comes before `b` in the order of the quadratic extension.
fn quad_less_than(a: &QuadExtElement, b: &QuadExtElement) -> (r: bool)
    requires
        a.wf(),
        b.wf(),
        a.kind() == b.kind(),
    ensures
        r == quad_less(a@, b@),
{
    a.c1.less_than(&b.c1) || (a.c1.equals(&b.c1) && a.c0.less_than(&b.c0))
}

/// Decodes a compressed G2 point of the flagged format.
fn read_gnark_g2_compressed(bytes: &[u8], check: CheckElement, largest: bool) -> (r: Result<
    G2Affine,
    CodecError,
>)
    requires
        64 <= bytes@.len(),
    ensures
        g2_result(r) == gnark_g2_compressed(bytes@, check, largest),
        g2_in(r, Curve::Bn254),
        r is Ok ==> r.unwrap()@ is Some && g2_on_curve(
            Curve::Bn254,
            r.unwrap()@.unwrap().0,
            r.unwrap()@.unwrap().1,
        ),
{
    let x1 = match flagged_coordinate_of(bytes) {
        Ok(e) => e,
        Err(e) => {
            return Err(e);
        },
    };
    let x0 = match be_coordinate_of(bytes, 1) {
        Ok(e) => e,
        Err(e) => {
            return Err(e);
        },
    };
    let x = QuadExtElement { c0: x0, c1: x1 };
    let root = match twist_rhs_of(&x).sqrt() {
        Some(r) => r,
        None => {
            return Err(CodecError::NotOnCurve);
        },
    };
    proof {
        lemma_twist_rhs_is_curve_rhs(x@);
        lemma_quad_square_of_negative(bn254_fq_modulus(), root@);
    }
    let negative = root.quad_neg();
    let y = if quad_less_than(&root, &negative) == largest {
        negative
    } else {
        root
    };
    match check {
        CheckElement::Yes => {
            if !check_g2_subgroup(Curve::Bn254, &x, &y) {
                return Err(CodecError::NotInSubgroup);
            }
        },
        CheckElement::No => {},
    }
    Ok(G2Affine::Point { x, y })
}

/// Decodes the G2 point of the flagged format that stands at the start of
/// `bytes`, and says how many bytes it took.
pub fn read_gnark_g2(bytes: &[u8], check: CheckElement) -> (r: Result<(G2Affine, usize), CodecError>)
    ensures
        g2_taken(r) == gnark_g2(bytes@, check),
        r is Ok ==> r.unwrap().0.wf() && r.unwrap().0.over(Curve::Bn254),
        r is Ok ==> r.unwrap().1 <= bytes@.len(),
        r is Ok && bytes@[0] >= 128 ==> r.unwrap().0@ is Some && g2_on_curve(
            Curve::Bn254,
            r.unwrap().0@.unwrap().0,
            r.unwrap().0@.unwrap().1,
        ),
{
    if bytes.len() < 64 {
        return Err(CodecError::TruncatedInput);
    }
    match decode_point_mode(bytes[0]) {
        PointMode::Infinity => Ok((G2Affine::Infinity, 64)),
        PointMode::CompressedSmallest => match read_gnark_g2_compressed(bytes, check, false) {
            Ok(p) => Ok((p, 64)),
            Err(e) => Err(e),
        },
        PointMode::CompressedLargest => match read_gnark_g2_compressed(bytes, check, true) {
            Ok(p) => Ok((p, 64)),
            Err(e) => Err(e),
        },
        PointMode::Uncompressed => {
            if bytes.len() < 128 {
                return Err(CodecError::TruncatedInput);
            }
            let x1 = match be_coordinate_of(bytes, 0) {
                Ok(e) => e,
                Err(e) => {
                    return Err(e);
                },
            };
            let x0 = match be_coordinate_of(bytes, 1) {
                Ok(e) => e,
                Err(e) => {
                    return Err(e);
                },
            };
            let y1 = match be_coordinate_of(bytes, 2) {
                Ok(e) => e,
                Err(e) => {
                    return Err(e);
                },
            };
            let y0 = match be_coordinate_of(bytes, 3) {
                Ok(e) => e,
                Err(e) => {
                    return Err(e);
                },
            };
            let x = QuadExtElement { c0: x0, c1: x1 };
            let y = QuadExtElement { c0: y0, c1: y1 };
            if x.is_zero() && y.is_zero() {
                return Ok((G2Affine::Infinity, 128));
            }
            match validate_g2(Curve::Bn254, &x, &y, check) {
                Ok(_) => Ok((G2Affine::Point { x, y }, 128)),
                Err(e) => Err(e),
            }
        },
    }
}

/// A point of the flagged format whose mode is `01` is the point at
/// infinity, whatever the bytes hold below the mode bits and whatever
/// `check` says.
pub proof fn lemma_infinity_flag(bytes: Seq<u8>, check: CheckElement)
    requires
        bytes.len() > 0,
        point_mode(bytes[0]) == PointMode::Infinity,
    ensures
        bytes.len() >= 32 ==> gnark_g1(bytes, check) == Ok::<
            (Option<(nat, nat)>, nat),
            CodecError,
        >((None, 32)),
        bytes.len() >= 64 ==> gnark_g2(bytes, check) == Ok::<
            (Option<((nat, nat), (nat, nat))>, nat),
            CodecError,
        >((None, 64)),
{
}

/// What the flagged format's G1 point at `pos` in `bytes` decodes to.
#[verifier::opaque]
pub open spec fn gnark_g1_at(bytes: Seq<u8>, pos: nat, check: CheckElement) -> Result<
    (Option<(nat, nat)>, nat),
    CodecError,
> {
    gnark_g1(window(bytes, pos, 64), check)
}

/// What the flagged format's G2 point at `pos` in `bytes` decodes to.
#[verifier::opaque]
pub open spec fn gnark_g2_at(bytes: Seq<u8>, pos: nat, check: CheckElement) -> Result<
    (Option<((nat, nat), (nat, nat))>, nat),
    CodecError,
> {
    gnark_g2(window(bytes, pos, 128), check)
}

/// What the six points at the start of a verifying key of the flagged
/// format decode to, and where they end. The points are those of the fixed
/// format's header, in the same order, each as wide as its mode makes it.
pub open spec fn gnark_header(bytes: Seq<u8>, check: CheckElement) -> Result<
    (KeyHeader, nat),
    CodecError,
> {
    match gnark_g1_at(bytes, 0, check) {
        Err(e) => Err(e),
        Ok((alpha_g1, n0)) => match gnark_g1_at(bytes, n0, check) {
            Err(e) => Err(e),
            Ok((_, n1)) => match gnark_g2_at(bytes, n0 + n1, check) {
                Err(e) => Err(e),
                Ok((beta_g2, n2)) => match gnark_g2_at(bytes, n0 + n1 + n2, check) {
                    Err(e) => Err(e),
                    Ok((gamma_g2, n3)) => match gnark_g1_at(bytes, n0 + n1 + n2 + n3, check) {
                        Err(e) => Err(e),
                        Ok((_, n4)) => match gnark_g2_at(bytes, n0 + n1 + n2 + n3 + n4, check) {
                            Err(e) => Err(e),
                            Ok((delta_g2, n5)) => Ok(
                                (
                                    KeyHeader { alpha_g1, beta_g2, gamma_g2, delta_g2 },
                                    n0 + n1 + n2 + n3 + n4 + n5,
                                ),
                            ),
                        },
                    },
                },
            },
        }
    }
}

/// The width that the mode at the start of `bytes` gives a G1 point of the
/// flagged format.
pub open spec fn gnark_g1_width(bytes: Seq<u8>) -> nat {
    if bytes.len() > 0 && point_mode(bytes[0]) == PointMode::Uncompressed {
        64
    } else {
        32
    }
}

/// Where the `i`-th of the G1 points that follow one another from `start`
/// on begins.
pub open spec fn gnark_offset(bytes: Seq<u8>, start: nat, i: nat) -> nat
    decreases i,
{
    if i == 0 {
        start
    } else {
        gnark_offset(bytes, start, (i - 1) as nat) + gnark_g1_width(
            window(bytes, gnark_offset(bytes, start, (i - 1) as nat), 64),
        )
    }
}

/// The value inside a result that also counts bytes.
pub open spec fn value_of<T>(r: Result<(T, nat), CodecError>) -> Result<T, CodecError> {
    match r {
        Ok((v, _)) => Ok(v),
        Err(e) => Err(e),
    }
}

/// What the `n` points of the flagged format that follow one another from
/// `start` on decode to, one by one.
pub open spec fn gnark_points(bytes: Seq<u8>, check: CheckElement, start: nat, n: nat) -> Seq<
    Result<Option<(nat, nat)>, CodecError>,
> {
    Seq::new(
        n,
        |i: int| value_of(gnark_g1_at(bytes, gnark_offset(bytes, start, i as nat), check)),
    )
}

/// Whether `kept` holds, in order, the values of all of `items` but the
/// last, and the last is a value too.
pub open spec fn collected_but_last<V>(items: Seq<Result<V, CodecError>>, kept: Seq<V>) -> bool {
    &&& kept.len() + 1 == items.len()
    &&& items[items.len() - 1] is Ok
    &&& forall|i: int| 0 <= i < kept.len() ==> #[trigger] items[i] == Ok::<V, CodecError>(kept[i])
}

/// The error for a verifying key of the flagged format whose count is zero.
pub open spec fn empty_key() -> CodecError {
    CodecError::LengthMismatch { subject: LengthSubject::Batch, expected: 1, found: 0 }
}

/// What a verifying key of the flagged format decodes to: the six points of
/// the header, a count of four bytes, and as many points of G1 as the count
/// says. The last of these is a slot that the protocol reserves: it is
/// decoded and dropped, so that the key holds one point fewer than the count
/// says, in the order of the stream. A count of zero leaves no room for the
/// slot and fails the key, as does the first part that does not decode.
pub open spec fn gnark_vk_decoded(
    bytes: Seq<u8>,
    check: CheckElement,
    r: Result<VerifyingKeyView, CodecError>,
) -> bool {
    match gnark_header(bytes, check) {
        Err(e) => r == Err::<VerifyingKeyView, CodecError>(e),
        Ok((header, pos)) => match be_count(window(bytes, pos, 4)) {
            Err(e) => r == Err::<VerifyingKeyView, CodecError>(e),
            Ok(n) => if n == 0 {
                r == Err::<VerifyingKeyView, CodecError>(empty_key())
            } else {
                match r {
                    Ok(vk) => starts_with(vk, header) && collected_but_last(
                        gnark_points(bytes, check, pos + 4, n),
                        vk.gamma_abc_g1,
                    ),
                    Err(e) => collected(
                        gnark_points(bytes, check, pos + 4, n),
                        Err::<Seq<Option<(nat, nat)>>, CodecError>(e),
                    ),
                }
            },
        },
    }
}

/// Decodes the G1 point of the flagged format that stands at `pos` in
/// `bytes`, and says how many bytes it took.
fn read_gnark_g1_at(bytes: &[u8], pos: usize, check: CheckElement) -> (r: Result<
    (G1Affine, usize),
    CodecError,
>)
    ensures
        g1_taken(r) == gnark_g1_at(bytes@, pos as nat, check),
        r is Ok ==> r.unwrap().0.wf() && r.unwrap().0.over(Curve::Bn254),
        r is Ok ==> pos + r.unwrap().1 <= bytes@.len(),
        r is Ok ==> r.unwrap().1 == gnark_g1_width(window(bytes@, pos as nat, 64)),
{
    reveal(gnark_g1_at);
    let chunk = window_of(bytes, pos, 64);
    read_gnark_g1(chunk.as_slice(), check)
}

/// Decodes the G2 point of the flagged format that stands at `pos` in
/// `bytes`, and says how many bytes it took.
fn read_gnark_g2_at(bytes: &[u8], pos: usize, check: CheckElement) -> (r: Result<
    (G2Affine, usize),
    CodecError,
>)
    ensures
        g2_taken(r) == gnark_g2_at(bytes@, pos as nat, check),
        r is Ok ==> r.unwrap().0.wf() && r.unwrap().0.over(Curve::Bn254),
        r is Ok ==> pos + r.unwrap().1 <= bytes@.len(),
{
    reveal(gnark_g2_at);
    let chunk = window_of(bytes, pos, 128);
    read_gnark_g2(chunk.as_slice(), check)
}

/// Decodes the six points at the start of a verifying key of the flagged
/// format, and says where they end.
#[verifier::rlimit(50)]
fn read_gnark_header(bytes: &[u8], check: CheckElement) -> (r: Result<(Header, usize), CodecError>)
    ensures
        r is Ok ==> r.unwrap().0.wf() && r.unwrap().1 <= bytes@.len() && gnark_header(
            bytes@,
            check,
        ) == Ok::<(KeyHeader, nat), CodecError>((r.unwrap().0.view(), r.unwrap().1 as nat)),
        r is Err ==> gnark_header(bytes@, check) == Err::<(KeyHeader, nat), CodecError>(
            r.unwrap_err(),
        ),
{
    let total = bytes.len();
    let (alpha_g1, n0) = match read_gnark_g1_at(bytes, 0, check) {
        Ok(p) => p,
        Err(e) => {
            return Err(e);
        },
    };
    let pos = n0;
    let pos = match read_gnark_g1_at(bytes, pos, check) {
        Ok(p) => pos + p.1,
        Err(e) => {
            return Err(e);
        },
    };
    let (beta_g2, n2) = match read_gnark_g2_at(bytes, pos, check) {
        Ok(p) => p,
        Err(e) => {
            return Err(e);
        },
    };
    let pos = pos + n2;
    let (gamma_g2, n3) = match read_gnark_g2_at(bytes, pos, check) {
        Ok(p) => p,
        Err(e) => {
            return Err(e);
        },
    };
    let pos = pos + n3;
    let pos = match read_gnark_g1_at(bytes, pos, check) {
        Ok(p) => pos + p.1,
        Err(e) => {
            return Err(e);
        },
    };
    let (delta_g2, n5) = match read_gnark_g2_at(bytes, pos, check) {
        Ok(p) => p,
        Err(e) => {
            return Err(e);
        },
    };
    Ok((Header { alpha_g1, beta_g2, gamma_g2, delta_g2 }, pos + n5))
}

/// Decodes the verifying key of the flagged format that stands at the start
/// of `bytes`.
#[verifier::rlimit(50)]
pub fn read_gnark_vk(bytes: &[u8], check: CheckElement) -> (r: Result<VerifyingKey, CodecError>)
    ensures
        gnark_vk_decoded(bytes@, check, vk_result(r)),
        r is Ok ==> r.unwrap().wf(),
{
    let total = bytes.len();
    let (header, end) = match read_gnark_header(bytes, check) {
        Ok(h) => h,
        Err(e) => {
            return Err(e);
        },
    };
    let count = match read_count(window_of(bytes, end, 4).as_slice()) {
        Ok(n) => n,
        Err(e) => {
            return Err(e);
        },
    };
    if count == 0 {
        return Err(
            CodecError::LengthMismatch { subject: LengthSubject::Batch, expected: 1, found: 0 },
        );
    }
    let start = end + 4;
    let ghost items = gnark_points(bytes@, check, start as nat, count as nat);
    let mut points: Vec<G1Affine> = Vec::new();
    let mut i: u32 = 0;
    let mut pos: usize = start;
    while i < count
        invariant
            i <= count,
            count > 0,
            points@.len() == i,
            total == bytes@.len(),
            pos <= total,
            start == end + 4,
            pos == gnark_offset(bytes@, start as nat, i as nat),
            gnark_header(bytes@, check) == Ok::<(KeyHeader, nat), CodecError>(
                (header.view(), end as nat),
            ),
            be_count(window(bytes@, end as nat, 4)) == Ok::<nat, CodecError>(count as nat),
            items == gnark_points(bytes@, check, start as nat, count as nat),
            forall|k: int|
                0 <= k < i ==> #[trigger] items[k] == Ok::<Option<(nat, nat)>, CodecError>(
                    points@[k]@,
                ),
            forall|k: int|
                0 <= k < i ==> (#[trigger] points@[k]).wf() && points@[k].over(Curve::Bn254),
        decreases count - i,
    {
        match read_gnark_g1_at(bytes, pos, check) {
            Ok(taken) => {
                let (p, used) = taken;
                points.push(p);
                pos = pos + used;
            },
            Err(e) => {
                assert(items[i as int] == Err::<Option<(nat, nat)>, CodecError>(e));
                assert(collected(items, Err::<Seq<Option<(nat, nat)>>, CodecError>(e)));
                return Err(e);
            },
        }
        i = i + 1;
    }
    let ghost all = points@;
    points.pop();
    assert(collected_but_last(items, g1_views(points@))) by {
        assert(items[count - 1] == Ok::<Option<(nat, nat)>, CodecError>(all[count - 1]@));
        assert forall|k: int| 0 <= k < points@.len() implies #[trigger] items[k] == Ok::<
            Option<(nat, nat)>,
            CodecError,
        >(g1_views(points@)[k]) by {
            assert(points@[k] == all[k]);
        }
    }
    Ok(
        VerifyingKey {
            alpha_g1: header.alpha_g1,
            beta_g2: header.beta_g2,
            gamma_g2: header.gamma_g2,
            delta_g2: header.delta_g2,
            gamma_abc_g1: points,
        },
    )
}

/// Whether `bytes` are the fixed format's form of the point `p` of G1: `x`
/// then `y`, 32 bytes each, most significant byte first, and zero bytes
/// throughout for the point at infinity.
pub open spec fn encodes_g1(bytes: Seq<u8>, p: Option<(nat, nat)>) -> bool {
    &&& bytes.len() == 64
    &&& be_nat(bytes.subrange(0, 32)) == g1_coordinates(p).0
    &&& be_nat(bytes.subrange(32, 64)) == g1_coordinates(p).1
}

/// Whether `bytes` are the fixed format's form of the point `p` of G2:
/// `x1`, `x0`, `y1`, `y0`, 32 bytes each, most significant byte first, and
/// zero bytes throughout for the point at infinity.
pub open spec fn encodes_g2(bytes: Seq<u8>, p: Option<((nat, nat), (nat, nat))>) -> bool {
    &&& bytes.len() == 128
    &&& be_nat(bytes.subrange(0, 32)) == g2_coordinates(p).0.1
    &&& be_nat(bytes.subrange(32, 64)) == g2_coordinates(p).0.0
    &&& be_nat(bytes.subrange(64, 96)) == g2_coordinates(p).1.1
    &&& be_nat(bytes.subrange(96, 128)) == g2_coordinates(p).1.0
}

/// Appends the bytes of `src` to `dst`.
pub fn push_all(dst: &mut Vec<u8>, src: &[u8])
    ensures
        final(dst)@ == old(dst)@ + src@,
{
    let n = src.len();
    let mut i: usize = 0;
    while i < n
        invariant
            i <= n,
            n == src@.len(),
            dst@ == old(dst)@ + src@.subrange(0, i as int),
        decreases n - i,
    {
        dst.push(src[i]);
        assert(src@.subrange(0, i + 1) =~= src@.subrange(0, i as int).push(src@[i as int]));
        i = i + 1;
    }
    assert(src@.subrange(0, n as int) =~= src@);
}

/// A run of zero bytes spells zero, most significant byte first too.
proof fn lemma_zero_run(bytes: Seq<u8>, from: int, to: int)
    requires
        0 <= from <= to <= bytes.len(),
        forall|i: int| 0 <= i < bytes.len() ==> bytes[i] == 0,
    ensures
        be_nat(bytes.subrange(from, to)) == 0,
{
    lemma_zeros(bytes.subrange(from, to).reverse(), 0);
}

/// Writes a point of G1 in the fixed format: 64 bytes.
pub fn be_bytes_g1(p: &G1Affine) -> (r: Vec<u8>)
    requires
        p.wf(),
        p.over(Curve::Bn254),
    ensures
        encodes_g1(r@, p@),
{
    match p {
        G1Affine::Infinity => {
            let r = zero_bytes(64);
            proof {
                lemma_zero_run(r@, 0, 32);
                lemma_zero_run(r@, 32, 64);
            }
            r
        },
        G1Affine::Point { x, y } => {
            let mut r = x.to_be_bytes();
            let ghost xb = r@;
            let yb = y.to_be_bytes();
            push_all(&mut r, yb.as_slice());
            assert(r@.subrange(0, 32) =~= xb);
            assert(r@.subrange(32, 64) =~= yb@);
            r
        },
    }
}

/// Writes a point of G2 in the fixed format: 128 bytes.
pub fn be_bytes_g2(p: &G2Affine) -> (r: Vec<u8>)
    requires
        p.wf(),
        p.over(Curve::Bn254),
    ensures
        encodes_g2(r@, p@),
{
    match p {
        G2Affine::Infinity => {
            let r = zero_bytes(128);
            proof {
                lemma_zero_run(r@, 0, 32);
                lemma_zero_run(r@, 32, 64);
                lemma_zero_run(r@, 64, 96);
                lemma_zero_run(r@, 96, 128);
            }
            r
        },
        G2Affine::Point { x, y } => {
            let mut r = x.c1.to_be_bytes();
            let ghost b0 = r@;
            let b1 = x.c0.to_be_bytes();
            let b2 = y.c1.to_be_bytes();
            let b3 = y.c0.to_be_bytes();
            push_all(&mut r, b1.as_slice());
            push_all(&mut r, b2.as_slice());
            push_all(&mut r, b3.as_slice());
            assert(r@.subrange(0, 32) =~= b0);
            assert(r@.subrange(32, 64) =~= b1@);
            assert(r@.subrange(64, 96) =~= b2@);
            assert(r@.subrange(96, 128) =~= b3@);
            r
        },
    }
}

/// Decoding the fixed format's form of a finite point gives the point back,
/// in G1 and in G2, whether points are checked or not. The point is one
/// that passes the checks.
#[verifier::rlimit(50)]
pub proof fn lemma_fixed_format_round_trip(
    check: CheckElement,
    p: G1Affine,
    p_bytes: Seq<u8>,
    q: G2Affine,
    q_bytes: Seq<u8>,
)
    requires
        p.wf() && p.over(Curve::Bn254) && p@ is Some,
        q.wf() && q.over(Curve::Bn254) && q@ is Some,
        g1_verdict(Curve::Bn254, p@.unwrap().0, p@.unwrap().1, CheckElement::Yes) is Ok,
        g2_verdict(Curve::Bn254, q@.unwrap().0, q@.unwrap().1, CheckElement::Yes) is Ok,
        encodes_g1(p_bytes, p@),
        encodes_g2(q_bytes, q@),
    ensures
        bellman_g1(p_bytes, check) == Ok::<Option<(nat, nat)>, CodecError>(p@),
        bellman_g2(q_bytes, check) == Ok::<Option<((nat, nat), (nat, nat))>, CodecError>(q@),
{
    lemma_origin_off_curve(Curve::Bn254);
    match p {
        G1Affine::Infinity => {},
        G1Affine::Point { x, y } => {
            x.lemma_valid();
            y.lemma_valid();
            assert(p_bytes.subrange(0, 32).subrange(0, 32) =~= p_bytes.subrange(0, 32));
            assert(p_bytes.subrange(32, 64).subrange(0, 32) =~= p_bytes.subrange(32, 64));
        },
    }
    match q {
        G2Affine::Infinity => {},
        G2Affine::Point { x, y } => {
            x.c0.lemma_valid();
            x.c1.lemma_valid();
            y.c0.lemma_valid();
            y.c1.lemma_valid();
            assert(q_bytes.subrange(0, 32).subrange(0, 32) =~= q_bytes.subrange(0, 32));
            assert(q_bytes.subrange(32, 64).subrange(0, 32) =~= q_bytes.subrange(32, 64));
            assert(q_bytes.subrange(64, 96).subrange(0, 32) =~= q_bytes.subrange(64, 96));
            assert(q_bytes.subrange(96, 128).subrange(0, 32) =~= q_bytes.subrange(96, 128));
        },
    }
}

/// A point that decodes when points are checked decodes to the same point
/// when they are not: in both formats, in G1 and in G2.
pub proof fn lemma_points_checked_then_unchecked(bytes: Seq<u8>)
    ensures
        bellman_g1(bytes, CheckElement::Yes) is Ok ==> bellman_g1(bytes, CheckElement::No)
            == bellman_g1(bytes, CheckElement::Yes),
        bellman_g2(bytes, CheckElement::Yes) is Ok ==> bellman_g2(bytes, CheckElement::No)
            == bellman_g2(bytes, CheckElement::Yes),
        gnark_g1(bytes, CheckElement::Yes) is Ok ==> gnark_g1(bytes, CheckElement::No) == gnark_g1(
            bytes,
            CheckElement::Yes,
        ),
        gnark_g2(bytes, CheckElement::Yes) is Ok ==> gnark_g2(bytes, CheckElement::No) == gnark_g2(
            bytes,
            CheckElement::Yes,
        ),
{
}

/// A verifying key of the fixed format that decodes when points are checked
/// decodes to the same key when they are not.
#[verifier::rlimit(50)]
pub proof fn lemma_bellman_vk_checked_then_unchecked(
    bytes: Seq<u8>,
    checked: VerifyingKeyView,
    unchecked: Result<VerifyingKeyView, CodecError>,
)
    requires
        bellman_vk_decoded(
            bytes,
            CheckElement::Yes,
            Ok::<VerifyingKeyView, CodecError>(checked),
        ),
        bellman_vk_decoded(bytes, CheckElement::No, unchecked),
    ensures
        unchecked is Ok,
        unchecked.unwrap().alpha_g1 == checked.alpha_g1,
        unchecked.unwrap().beta_g2 == checked.beta_g2,
        unchecked.unwrap().gamma_g2 == checked.gamma_g2,
        unchecked.unwrap().delta_g2 == checked.delta_g2,
        unchecked.unwrap().gamma_abc_g1 == checked.gamma_abc_g1,
{
    lemma_points_checked_then_unchecked(window(bytes, 0, 64));
    lemma_points_checked_then_unchecked(window(bytes, 64, 64));
    lemma_points_checked_then_unchecked(window(bytes, 128, 128));
    lemma_points_checked_then_unchecked(window(bytes, 256, 128));
    lemma_points_checked_then_unchecked(window(bytes, 384, 64));
    lemma_points_checked_then_unchecked(window(bytes, 448, 128));
    assert(bellman_header(bytes, CheckElement::No) == bellman_header(bytes, CheckElement::Yes));
    let n = be_count(window(bytes, 576, 4)).unwrap();
    let yes = bellman_points(bytes, CheckElement::Yes, n);
    let no = bellman_points(bytes, CheckElement::No, n);
    assert forall|i: int| 0 <= i < yes.len() && (#[trigger] yes[i]) is Ok implies no[i]
        == yes[i] by {
        lemma_points_checked_then_unchecked(window(bytes, (580 + 64 * i) as nat, 64));
    }
    match unchecked {
        Ok(vk) => {
            lemma_collected_agree(
                yes,
                no,
                checked.gamma_abc_g1,
                Ok::<Seq<Option<(nat, nat)>>, CodecError>(vk.gamma_abc_g1),
            );
        },
        Err(e) => {
            lemma_collected_agree(
                yes,
                no,
                checked.gamma_abc_g1,
                Err::<Seq<Option<(nat, nat)>>, CodecError>(e),
            );
        },
    }
}

/// The coordinates inside a proof.
pub struct ProofView {
    pub a: Option<(nat, nat)>,
    pub b: Option<((nat, nat), (nat, nat))>,
    pub c: Option<(nat, nat)>,
}

/// The view inside the result of decoding a proof.
pub open spec fn proof_result(r: Result<Groth16Proof, CodecError>) -> Result<ProofView, CodecError> {
    match r {
        Ok(p) => Ok(ProofView { a: p.a@, b: p.b@, c: p.c@ }),
        Err(e) => Err(e),
    }
}

/// What a proof of the fixed format decodes to: `A` in G1, `B` in G2 and `C`
/// in G1, one after the other. The first point that does not decode fails
/// the proof.
pub open spec fn bellman_proof(bytes: Seq<u8>, check: CheckElement) -> Result<
    ProofView,
    CodecError,
> {
    match bellman_g1(window(bytes, 0, 64), check) {
        Err(e) => Err(e),
        Ok(a) => match bellman_g2(window(bytes, 64, 128), check) {
            Err(e) => Err(e),
            Ok(b) => match bellman_g1(window(bytes, 192, 64), check) {
                Err(e) => Err(e),
                Ok(c) => Ok(ProofView { a, b, c }),
            },
        },
    }
}

/// What a proof of the flagged format decodes to: `A` in G1, `B` in G2 and
/// `C` in G1, one after the other, each as wide as its mode makes it. The
/// first point that does not decode fails the proof.
pub open spec fn gnark_proof(bytes: Seq<u8>, check: CheckElement) -> Result<ProofView, CodecError> {
    match gnark_g1_at(bytes, 0, check) {
        Err(e) => Err(e),
        Ok((a, n0)) => match gnark_g2_at(bytes, n0, check) {
            Err(e) => Err(e),
            Ok((b, n1)) => match gnark_g1_at(bytes, n0 + n1, check) {
                Err(e) => Err(e),
                Ok((c, _)) => Ok(ProofView { a, b, c }),
            },
        },
    }
}

/// Decodes the proof of the fixed format that stands at the start of
/// `bytes`.
pub fn read_bellman_proof(bytes: &[u8], check: CheckElement) -> (r: Result<
    Groth16Proof,
    CodecError,
>)
    ensures
        proof_result(r) == bellman_proof(bytes@, check),
        r is Ok ==> r.unwrap().wf(),
{
    let a = match read_bellman_g1(window_of(bytes, 0, 64).as_slice(), check) {
        Ok(p) => p,
        Err(e) => {
            return Err(e);
        },
    };
    let b = match read_bellman_g2(window_of(bytes, 64, 128).as_slice(), check) {
        Ok(p) => p,
        Err(e) => {
            return Err(e);
        },
    };
    let c = match read_bellman_g1(window_of(bytes, 192, 64).as_slice(), check) {
        Ok(p) => p,
        Err(e) => {
            return Err(e);
        },
    };
    Ok(Groth16Proof { a, b, c })
}

/// Decodes the proof of the flagged format that stands at the start of
/// `bytes`.
pub fn read_gnark_proof(bytes: &[u8], check: CheckElement) -> (r: Result<Groth16Proof, CodecError>)
    ensures
        proof_result(r) == gnark_proof(bytes@, check),
        r is Ok ==> r.unwrap().wf(),
{
    let total = bytes.len();
    let (a, n0) = match read_gnark_g1_at(bytes, 0, check) {
        Ok(p) => p,
        Err(e) => {
            return Err(e);
        },
    };
    let (b, n1) = match read_gnark_g2_at(bytes, n0, check) {
        Ok(p) => p,
        Err(e) => {
            return Err(e);
        },
    };
    let c = match read_gnark_g1_at(bytes, n0 + n1, check) {
        Ok(p) => p.0,
        Err(e) => {
            return Err(e);
        },
    };
    Ok(Groth16Proof { a, b, c })
}

/// The wire formats. The caller says which one the input is in; nothing is
/// guessed from the input.
#[derive(Clone, Copy, Debug, PartialEq, Eq, Structural)]
pub enum WireFormat {
    /// Decimal tokens; see [`crate::json`]. It has no bytes to decode.
    DecimalJson,
    /// Montgomery representations; see [`crate::montgomery`].
    MontgomeryBinary,
    /// The fixed format of this module, for BN254.
    ExternalUncompressed,
    /// The flagged format of this module, for BN254.
    ExternalFlagged,
}

/// What the G1 point at the start of `bytes` decodes to in the format
/// `format`, and how many bytes it takes. A format that has no bytes, or
/// that is not defined for `curve`, decodes nothing.
pub open spec fn wire_g1(format: WireFormat, curve: Curve, check: CheckElement, bytes: Seq<u8>)
    -> Result<(Option<(nat, nat)>, nat), CodecError> {
    match format {
        WireFormat::DecimalJson => Err(CodecError::UnsupportedEncodingMode),
        WireFormat::MontgomeryBinary => taking(
            g1_from_montgomery(curve, check, bytes),
            2 * curve.base_field().byte_width(),
        ),
        WireFormat::ExternalUncompressed => if curve == Curve::Bn254 {
            taking(bellman_g1(bytes, check), 64)
        } else {
            Err(CodecError::UnsupportedEncodingMode)
        },
        WireFormat::ExternalFlagged => if curve == Curve::Bn254 {
            gnark_g1(bytes, check)
        } else {
            Err(CodecError::UnsupportedEncodingMode)
        },
    }
}

/// What the G2 point at the start of `bytes` decodes to in the format
/// `format`, and how many bytes it takes, as [`wire_g1`] says it for G1.
pub open spec fn wire_g2(format: WireFormat, curve: Curve, check: CheckElement, bytes: Seq<u8>)
    -> Result<(Option<((nat, nat), (nat, nat))>, nat), CodecError> {
    match format {
        WireFormat::DecimalJson => Err(CodecError::UnsupportedEncodingMode),
        WireFormat::MontgomeryBinary => taking(
            g2_from_montgomery(curve, check, bytes),
            4 * curve.base_field().byte_width(),
        ),
        WireFormat::ExternalUncompressed => if curve == Curve::Bn254 {
            taking(bellman_g2(bytes, check), 128)
        } else {
            Err(CodecError::UnsupportedEncodingMode)
        },
        WireFormat::ExternalFlagged => if curve == Curve::Bn254 {
            gnark_g2(bytes, check)
        } else {
            Err(CodecError::UnsupportedEncodingMode)
        },
    }
}

/// Decodes the G1 point that stands at the start of `bytes` in the format
/// `format`, and says how many bytes it took.
pub fn decode_g1(format: WireFormat, curve: Curve, bytes: &[u8], check: CheckElement) -> (r: Result<
    (G1Affine, usize),
    CodecError,
>)
    ensures
        g1_taken(r) == wire_g1(format, curve, check, bytes@),
        r is Ok ==> r.unwrap().0.wf() && r.unwrap().0.over(curve),
{
    match format {
        WireFormat::DecimalJson => Err(CodecError::UnsupportedEncodingMode),
        WireFormat::MontgomeryBinary => match curve.g1_from_bytes(bytes, check) {
            Ok(p) => Ok((p, curve.g1_serialized_byte_size_uncompressed())),
            Err(e) => Err(e),
        },
        WireFormat::ExternalUncompressed => match curve {
            Curve::Bn254 => match read_bellman_g1(bytes, check) {
                Ok(p) => Ok((p, 64)),
                Err(e) => Err(e),
            },
            Curve::Bls12_381 => Err(CodecError::UnsupportedEncodingMode),
        },
        WireFormat::ExternalFlagged => match curve {
            Curve::Bn254 => read_gnark_g1(bytes, check),
            Curve::Bls12_381 => Err(CodecError::UnsupportedEncodingMode),
        },
    }
}

/// Decodes the G2 point that stands at the start of `bytes` in the format
/// `format`, and says how many bytes it took.
pub fn decode_g2(format: WireFormat, curve: Curve, bytes: &[u8], check: CheckElement) -> (r: Result<
    (G2Affine, usize),
    CodecError,
>)
    ensures
        g2_taken(r) == wire_g2(format, curve, check, bytes@),
        r is Ok ==> r.unwrap().0.wf() && r.unwrap().0.over(curve),
{
    match format {
        WireFormat::DecimalJson => Err(CodecError::UnsupportedEncodingMode),
        WireFormat::MontgomeryBinary => match curve.g2_from_bytes(bytes, check) {
            Ok(p) => Ok((p, curve.g2_serialized_byte_size_uncompressed())),
            Err(e) => Err(e),
        },
        WireFormat::ExternalUncompressed => match curve {
            Curve::Bn254 => match read_bellman_g2(bytes, check) {
                Ok(p) => Ok((p, 128)),
                Err(e) => Err(e),
            },
            Curve::Bls12_381 => Err(CodecError::UnsupportedEncodingMode),
        },
        WireFormat::ExternalFlagged => match curve {
            Curve::Bn254 => read_gnark_g2(bytes, check),
            Curve::Bls12_381 => Err(CodecError::UnsupportedEncodingMode),
        },
    }
}

} // verus!
