//! The binary format of circom's proving keys: coordinates as fixed-width
//! Montgomery representations, least significant byte first.
//!
//! A G1 point takes two field widths, `x` then `y`; a G2 point four,
//! `x0`, `x1`, `y0`, `y1`. Coordinates that are all zero are the point at
//! infinity.

use vstd::prelude::*;

use crate::curve::{
    g1_verdict, g2_verdict, validate_g1, validate_g2, CheckElement, Curve, G1Affine, G2Affine,
};
use crate::error::CodecError;
use crate::field::{
    element_in, element_view, montgomery_element, montgomery_element_reduced, FieldElement,
    QuadExtElement,
};
use crate::json::{
    collected, g1_in, g1_result, g1_seq_in, g1_seq_result, g1_views, g2_in, g2_result,
    lemma_collected_agree,
};
use crate::natbytes::{copy_range, lemma_zeros};

verus! {

/// The point of G1 with the affine coordinates `(x, y)`: the point at
/// infinity if both are zero, whatever `check` says, and else the finite
/// point, judged as `check` asks.
pub open spec fn g1_from_affine(curve: Curve, check: CheckElement, x: nat, y: nat) -> Result<
    Option<(nat, nat)>,
    CodecError,
> {
    if x == 0 && y == 0 {
        Ok(None)
    } else {
        match g1_verdict(curve, x, y, check) {
            Ok(_) => Ok(Some((x, y))),
            Err(e) => Err(e),
        }
    }
}

/// The point of G2 with the affine coordinates `(x, y)`, as
/// [`g1_from_affine`] says it for G1.
pub open spec fn g2_from_affine(
    curve: Curve,
    check: CheckElement,
    x: (nat, nat),
    y: (nat, nat),
) -> Result<Option<((nat, nat), (nat, nat))>, CodecError> {
    if x == (0nat, 0nat) && y == (0nat, 0nat) {
        Ok(None)
    } else {
        match g2_verdict(curve, x, y, check) {
            Ok(_) => Ok(Some((x, y))),
            Err(e) => Err(e),
        }
    }
}

/// The field element in the `i`-th field width of `bytes`.
pub open spec fn coordinate(curve: Curve, bytes: Seq<u8>, i: int) -> Result<nat, CodecError> {
    let w = curve.base_field().byte_width() as int;
    montgomery_element(curve.base_field(), bytes.subrange(i * w, (i + 1) * w))
}

/// What decoding the leading two field widths of `bytes` as a G1 point
/// gives. The coordinates are decoded in order and the first error is the
/// result.
pub open spec fn g1_from_montgomery(curve: Curve, check: CheckElement, bytes: Seq<u8>) -> Result<
    Option<(nat, nat)>,
    CodecError,
> {
    if bytes.len() < 2 * curve.base_field().byte_width() {
        Err(CodecError::TruncatedInput)
    } else {
        match coordinate(curve, bytes, 0) {
            Err(e) => Err(e),
            Ok(x) => match coordinate(curve, bytes, 1) {
                Err(e) => Err(e),
                Ok(y) => g1_from_affine(curve, check, x, y),
            },
        }
    }
}

/// What decoding the leading four field widths of `bytes` as a G2 point
/// gives. The coordinates are decoded in order and the first error is the
/// result.
pub open spec fn g2_from_montgomery(curve: Curve, check: CheckElement, bytes: Seq<u8>) -> Result<
    Option<((nat, nat), (nat, nat))>,
    CodecError,
> {
    if bytes.len() < 4 * curve.base_field().byte_width() {
        Err(CodecError::TruncatedInput)
    } else {
        match coordinate(curve, bytes, 0) {
            Err(e) => Err(e),
            Ok(x0) => match coordinate(curve, bytes, 1) {
                Err(e) => Err(e),
                Ok(x1) => match coordinate(curve, bytes, 2) {
                    Err(e) => Err(e),
                    Ok(y0) => match coordinate(curve, bytes, 3) {
                        Err(e) => Err(e),
                        Ok(y1) => g2_from_affine(curve, check, (x0, x1), (y0, y1)),
                    },
                },
            },
        }
    }
}

/// The coordinates of a sequence of G2 points.
pub open spec fn g2_views(v: Seq<G2Affine>) -> Seq<Option<((nat, nat), (nat, nat))>> {
    Seq::new(v.len(), |i: int| v[i]@)
}

/// The views inside the result of decoding a sequence of G2 points.
pub open spec fn g2_seq_result(r: Result<Vec<G2Affine>, CodecError>) -> Result<
    Seq<Option<((nat, nat), (nat, nat))>>,
    CodecError,
> {
    match r {
        Ok(v) => Ok(g2_views(v@)),
        Err(e) => Err(e),
    }
}

/// Whether every point of a decoded sequence, if there is one, is valid and
/// over `curve`.
pub open spec fn g2_seq_in(r: Result<Vec<G2Affine>, CodecError>, curve: Curve) -> bool {
    r is Ok ==> forall|i: int|
        0 <= i < r.unwrap()@.len() ==> (#[trigger] r.unwrap()@[i]).wf() && r.unwrap()@[i].over(
            curve,
        )
}

/// The `i`-th run of `size` bytes of `bytes`.
pub open spec fn chunk(bytes: Seq<u8>, size: int, i: int) -> Seq<u8> {
    bytes.subrange(i * size, (i + 1) * size)
}

/// The first `num` runs of `size` bytes lie inside a string that is `num`
/// times `size` bytes long.
pub proof fn lemma_chunk_fits(i: int, num: int, size: int)
    requires
        0 <= i < num,
        0 <= size,
    ensures
        0 <= i * size,
        (i + 1) * size == i * size + size,
        (i + 1) * size <= num * size,
{
    assert(0 <= i * size && (i + 1) * size == i * size + size && (i + 1) * size <= num * size)
        by (nonlinear_arith)
        requires
            0 <= i < num,
            0 <= size,
    ;
}

/// The `i`-th run of `size` bytes of `bytes`, as a vector of its own.
pub fn chunk_at(bytes: &[u8], size: usize, i: usize) -> (r: Vec<u8>)
    requires
        (i + 1) * size <= bytes@.len(),
    ensures
        r@ == chunk(bytes@, size as int, i as int),
{
    let n = bytes.len();
    proof {
        lemma_chunk_fits(i as int, i + 1, size as int);
    }
    copy_range(bytes, i * size, size)
}

/// What the first `num` runs of two field widths in `bytes` decode to as
/// points of G1, one by one.
pub open spec fn g1_chunks(curve: Curve, check: CheckElement, bytes: Seq<u8>, num: nat) -> Seq<
    Result<Option<(nat, nat)>, CodecError>,
> {
    let size = 2 * curve.base_field().byte_width() as int;
    Seq::new(num, |i: int| g1_from_montgomery(curve, check, chunk(bytes, size, i)))
}

/// What the first `num` runs of four field widths in `bytes` decode to as
/// points of G2, one by one.
pub open spec fn g2_chunks(curve: Curve, check: CheckElement, bytes: Seq<u8>, num: nat) -> Seq<
    Result<Option<((nat, nat), (nat, nat))>, CodecError>,
> {
    let size = 4 * curve.base_field().byte_width() as int;
    Seq::new(num, |i: int| g2_from_montgomery(curve, check, chunk(bytes, size, i)))
}

/// What decoding `num` G1 points that stand one after the other in `bytes`
/// gives: the points in the order of their bytes if every one decodes, and
/// else the error of the first that does not. Where `bytes` is too short for
/// `num` points nothing is decoded.
pub open spec fn g1_batch_decoded(
    curve: Curve,
    check: CheckElement,
    bytes: Seq<u8>,
    num: nat,
    r: Result<Seq<Option<(nat, nat)>>, CodecError>,
) -> bool {
    let size = 2 * curve.base_field().byte_width() as int;
    if bytes.len() < num * size {
        r == Err::<Seq<Option<(nat, nat)>>, CodecError>(CodecError::TruncatedInput)
    } else {
        collected(g1_chunks(curve, check, bytes, num), r)
    }
}

/// What decoding `num` G2 points that stand one after the other in `bytes`
/// gives, as [`g1_batch_decoded`] says it for G1.
pub open spec fn g2_batch_decoded(
    curve: Curve,
    check: CheckElement,
    bytes: Seq<u8>,
    num: nat,
    r: Result<Seq<Option<((nat, nat), (nat, nat))>>, CodecError>,
) -> bool {
    let size = 4 * curve.base_field().byte_width() as int;
    if bytes.len() < num * size {
        r == Err::<Seq<Option<((nat, nat), (nat, nat))>>, CodecError>(CodecError::TruncatedInput)
    } else {
        collected(g2_chunks(curve, check, bytes, num), r)
    }
}

impl Curve {
    /// The size in bytes of an element of the base field.
    pub fn base_field_byte_size(self) -> (n: usize)
        ensures
            n == self.base_field().byte_width(),
    {
        self.base_field_kind().width()
    }

    /// The size in bytes of an element of the scalar field.
    pub fn scalar_field_byte_size(self) -> (n: usize)
        ensures
            n == self.scalar_field().byte_width(),
    {
        self.scalar_field_kind().width()
    }

    /// The size in bytes of a compressed element of G1.
    pub fn g1_serialized_byte_size_compressed(self) -> (n: usize)
        ensures
            n == self.base_field().byte_width(),
    {
        self.base_field_byte_size()
    }

    /// The size in bytes of an uncompressed element of G1.
    pub fn g1_serialized_byte_size_uncompressed(self) -> (n: usize)
        ensures
            n == 2 * self.base_field().byte_width(),
    {
        2 * self.base_field_byte_size()
    }

    /// The size in bytes of a compressed element of G2.
    pub fn g2_serialized_byte_size_compressed(self) -> (n: usize)
        ensures
            n == 2 * self.base_field().byte_width(),
    {
        2 * self.base_field_byte_size()
    }

    /// The size in bytes of an uncompressed element of G2.
    pub fn g2_serialized_byte_size_uncompressed(self) -> (n: usize)
        ensures
            n == 4 * self.base_field().byte_width(),
    {
        4 * self.base_field_byte_size()
    }

    /// Reads the `i`-th coordinate of a point from `bytes`.
    fn coordinate_from_bytes(self, bytes: &[u8], i: usize) -> (r: Result<FieldElement, CodecError>)
        requires
            i < 4,
            (i + 1) * self.base_field().byte_width() <= bytes@.len(),
        ensures
            element_view(r) == coordinate(self, bytes@, i as int),
            element_in(r, self.base_field()),
    {
        let kind = self.base_field_kind();
        let w = kind.width();
        let chunk = copy_range(bytes, i * w, w);
        assert(chunk@.subrange(0, w as int) =~= chunk@);
        FieldElement::from_montgomery_bytes(kind, chunk.as_slice())
    }

    /// Reads an element of the base field from its Montgomery
    /// representation at the start of `bytes`. No reduction step is applied.
    pub fn fq_from_montgomery_bytes(self, bytes: &[u8]) -> (r: Result<FieldElement, CodecError>)
        ensures
            element_view(r) == montgomery_element(self.base_field(), bytes@),
            element_in(r, self.base_field()),
    {
        FieldElement::from_montgomery_bytes(self.base_field_kind(), bytes)
    }

    /// Reads an element of the scalar field from its Montgomery
    /// representation at the start of `bytes`. No reduction step is applied.
    pub fn fr_from_montgomery_bytes(self, bytes: &[u8]) -> (r: Result<FieldElement, CodecError>)
        ensures
            element_view(r) == montgomery_element(self.scalar_field(), bytes@),
            element_in(r, self.scalar_field()),
    {
        FieldElement::from_montgomery_bytes(self.scalar_field_kind(), bytes)
    }

    /// Reads an element of the scalar field as a proving key stores it: the
    /// Montgomery representation at the start of `bytes` needs the reduction
    /// step once more.
    pub fn fr_from_bytes_for_groth16_zkey(self, bytes: &[u8]) -> (r: Result<
        FieldElement,
        CodecError,
    >)
        ensures
            element_view(r) == montgomery_element_reduced(self.scalar_field(), bytes@),
            element_in(r, self.scalar_field()),
    {
        FieldElement::from_montgomery_bytes_reduced(self.scalar_field_kind(), bytes)
    }

    /// Decodes a G1 point from the two field widths at the start of `bytes`.
    pub fn g1_from_bytes(self, bytes: &[u8], check: CheckElement) -> (r: Result<
        G1Affine,
        CodecError,
    >)
        ensures
            g1_result(r) == g1_from_montgomery(self, check, bytes@),
            g1_in(r, self),
    {
        let w = self.base_field_byte_size();
        if bytes.len() < 2 * w {
            return Err(CodecError::TruncatedInput);
        }
        let x = match self.coordinate_from_bytes(bytes, 0) {
            Ok(e) => e,
            Err(e) => {
                return Err(e);
            },
        };
        let y = match self.coordinate_from_bytes(bytes, 1) {
            Ok(e) => e,
            Err(e) => {
                return Err(e);
            },
        };
        if x.is_zero() && y.is_zero() {
            return Ok(G1Affine::Infinity);
        }
        match validate_g1(self, &x, &y, check) {
            Ok(_) => Ok(G1Affine::Point { x, y }),
            Err(e) => Err(e),
        }
    }

    /// Decodes a G2 point from the four field widths at the start of
    /// `bytes`.
    pub fn g2_from_bytes(self, bytes: &[u8], check: CheckElement) -> (r: Result<
        G2Affine,
        CodecError,
    >)
        ensures
            g2_result(r) == g2_from_montgomery(self, check, bytes@),
            g2_in(r, self),
    {
        let w = self.base_field_byte_size();
        if bytes.len() < 4 * w {
            return Err(CodecError::TruncatedInput);
        }
        let x0 = match self.coordinate_from_bytes(bytes, 0) {
            Ok(e) => e,
            Err(e) => {
                return Err(e);
            },
        };
        let x1 = match self.coordinate_from_bytes(bytes, 1) {
            Ok(e) => e,
            Err(e) => {
                return Err(e);
            },
        };
        let y0 = match self.coordinate_from_bytes(bytes, 2) {
            Ok(e) => e,
            Err(e) => {
                return Err(e);
            },
        };
        let y1 = match self.coordinate_from_bytes(bytes, 3) {
            Ok(e) => e,
            Err(e) => {
                return Err(e);
            },
        };
        let x = QuadExtElement { c0: x0, c1: x1 };
        let y = QuadExtElement { c0: y0, c1: y1 };
        if x.is_zero() && y.is_zero() {
            return Ok(G2Affine::Infinity);
        }
        match validate_g2(self, &x, &y, check) {
            Ok(_) => Ok(G2Affine::Point { x, y }),
            Err(e) => Err(e),
        }
    }

    /// Decodes `num` G1 points that stand one after the other at the start
    /// of `bytes`. The result holds them in the order of their bytes; one
    /// point that does not decode fails the batch.
    #[verifier::rlimit(50)]
    pub fn g1_vec_from_bytes(self, bytes: &[u8], num: usize, check: CheckElement) -> (r: Result<
        Vec<G1Affine>,
        CodecError,
    >)
        ensures
            g1_batch_decoded(self, check, bytes@, num as nat, g1_seq_result(r)),
            g1_seq_in(r, self),
    {
        let size = self.g1_serialized_byte_size_uncompressed();
        let n = bytes.len();
        let total = match num.checked_mul(size) {
            Some(t) => t,
            None => {
                return Err(CodecError::TruncatedInput);
            },
        };
        if n < total {
            return Err(CodecError::TruncatedInput);
        }
        let ghost items = g1_chunks(self, check, bytes@, num as nat);
        let mut values: Vec<G1Affine> = Vec::new();
        let mut i: usize = 0;
        while i < num
            invariant
                i <= num,
                values@.len() == i,
                size == 2 * self.base_field().byte_width(),
                total == num * size,
                total <= bytes@.len(),
                items == g1_chunks(self, check, bytes@, num as nat),
                forall|k: int|
                    0 <= k < i ==> #[trigger] items[k] == Ok::<Option<(nat, nat)>, CodecError>(
                        values@[k]@,
                    ),
                forall|k: int| 0 <= k < i ==> (#[trigger] values@[k]).wf() && values@[k].over(self),
            decreases num - i,
        {
            proof {
                lemma_chunk_fits(i as int, num as int, size as int);
            }
            let chunk = chunk_at(bytes, size, i);
            match self.g1_from_bytes(chunk.as_slice(), check) {
                Ok(p) => {
                    values.push(p);
                },
                Err(e) => {
                    assert(items[i as int] == Err::<Option<(nat, nat)>, CodecError>(e));
                    assert(collected(items, Err::<Seq<Option<(nat, nat)>>, CodecError>(e)));
                    return Err(e);
                },
            }
            i = i + 1;
        }
        assert(collected(items, Ok::<Seq<Option<(nat, nat)>>, CodecError>(g1_views(values@))));
        Ok(values)
    }

    /// Decodes `num` G2 points that stand one after the other at the start
    /// of `bytes`. The result holds them in the order of their bytes; one
    /// point that does not decode fails the batch.
    #[verifier::rlimit(50)]
    pub fn g2_vec_from_bytes(self, bytes: &[u8], num: usize, check: CheckElement) -> (r: Result<
        Vec<G2Affine>,
        CodecError,
    >)
        ensures
            g2_batch_decoded(self, check, bytes@, num as nat, g2_seq_result(r)),
            g2_seq_in(r, self),
    {
        let size = self.g2_serialized_byte_size_uncompressed();
        let n = bytes.len();
        let total = match num.checked_mul(size) {
            Some(t) => t,
            None => {
                return Err(CodecError::TruncatedInput);
            },
        };
        if n < total {
            return Err(CodecError::TruncatedInput);
        }
        let ghost items = g2_chunks(self, check, bytes@, num as nat);
        let mut values: Vec<G2Affine> = Vec::new();
        let mut i: usize = 0;
        while i < num
            invariant
                i <= num,
                values@.len() == i,
                size == 4 * self.base_field().byte_width(),
                total == num * size,
                total <= bytes@.len(),
                items == g2_chunks(self, check, bytes@, num as nat),
                forall|k: int|
                    0 <= k < i ==> #[trigger] items[k] == Ok::<
                        Option<((nat, nat), (nat, nat))>,
                        CodecError,
                    >(values@[k]@),
                forall|k: int| 0 <= k < i ==> (#[trigger] values@[k]).wf() && values@[k].over(self),
            decreases num - i,
        {
            proof {
                lemma_chunk_fits(i as int, num as int, size as int);
            }
            let chunk = chunk_at(bytes, size, i);
            match self.g2_from_bytes(chunk.as_slice(), check) {
                Ok(p) => {
                    values.push(p);
                },
                Err(e) => {
                    assert(items[i as int] == Err::<Option<((nat, nat), (nat, nat))>, CodecError>(e));
                    assert(collected(
                        items,
                        Err::<Seq<Option<((nat, nat), (nat, nat))>>, CodecError>(e),
                    ));
                    return Err(e);
                },
            }
            i = i + 1;
        }
        assert(collected(
            items,
            Ok::<Seq<Option<((nat, nat), (nat, nat))>>, CodecError>(g2_views(values@)),
        ));
        Ok(values)
    }
}

/// Coordinates that are zero bytes throughout are the point at infinity,
/// in G1 and in G2, on every curve, whether points are checked or not.
#[verifier::rlimit(50)]
pub proof fn lemma_zero_bytes_are_infinity(curve: Curve, check: CheckElement, bytes: Seq<u8>)
    requires
        forall|i: int| 0 <= i < bytes.len() ==> bytes[i] == 0,
    ensures
        bytes.len() >= 2 * curve.base_field().byte_width() ==> g1_from_montgomery(
            curve,
            check,
            bytes,
        ) == Ok::<Option<(nat, nat)>, CodecError>(None),
        bytes.len() >= 4 * curve.base_field().byte_width() ==> g2_from_montgomery(
            curve,
            check,
            bytes,
        ) == Ok::<Option<((nat, nat), (nat, nat))>, CodecError>(None),
{
    let kind = curve.base_field();
    let w = kind.byte_width() as int;
    assert(kind.from_montgomery(0) == 0) by {
        assert(0 * kind.montgomery_factor() == 0);
    }
    assert forall|i: int| 0 <= i < 4 && (i + 1) * w <= bytes.len() implies coordinate(
        curve,
        bytes,
        i,
    ) == Ok::<nat, CodecError>(0) by {
        let part = bytes.subrange(i * w, (i + 1) * w);
        assert(part.subrange(0, w) =~= part);
        lemma_zeros(part, 0);
    }
}

/// A point of G1 that decodes when points are checked decodes to the same
/// point when they are not; and so does a point of G2.
pub proof fn lemma_montgomery_checked_then_unchecked(curve: Curve, bytes: Seq<u8>)
    ensures
        g1_from_montgomery(curve, CheckElement::Yes, bytes) is Ok ==> g1_from_montgomery(
            curve,
            CheckElement::No,
            bytes,
        ) == g1_from_montgomery(curve, CheckElement::Yes, bytes),
        g2_from_montgomery(curve, CheckElement::Yes, bytes) is Ok ==> g2_from_montgomery(
            curve,
            CheckElement::No,
            bytes,
        ) == g2_from_montgomery(curve, CheckElement::Yes, bytes),
{
}

/// A batch of G1 points that decodes when points are checked decodes to the
/// same points when they are not.
pub proof fn lemma_g1_batch_checked_then_unchecked(
    curve: Curve,
    bytes: Seq<u8>,
    num: nat,
    checked: Seq<Option<(nat, nat)>>,
    unchecked: Result<Seq<Option<(nat, nat)>>, CodecError>,
)
    requires
        g1_batch_decoded(
            curve,
            CheckElement::Yes,
            bytes,
            num,
            Ok::<Seq<Option<(nat, nat)>>, CodecError>(checked),
        ),
        g1_batch_decoded(curve, CheckElement::No, bytes, num, unchecked),
    ensures
        unchecked == Ok::<Seq<Option<(nat, nat)>>, CodecError>(checked),
{
    let size = 2 * curve.base_field().byte_width() as int;
    let yes = g1_chunks(curve, CheckElement::Yes, bytes, num);
    let no = g1_chunks(curve, CheckElement::No, bytes, num);
    assert forall|i: int| 0 <= i < yes.len() && (#[trigger] yes[i]) is Ok implies no[i]
        == yes[i] by {
        lemma_montgomery_checked_then_unchecked(curve, chunk(bytes, size, i));
    }
    lemma_collected_agree(yes, no, checked, unchecked);
}

/// A batch of G2 points that decodes when points are checked decodes to the
/// same points when they are not.
pub proof fn lemma_g2_batch_checked_then_unchecked(
    curve: Curve,
    bytes: Seq<u8>,
    num: nat,
    checked: Seq<Option<((nat, nat), (nat, nat))>>,
    unchecked: Result<Seq<Option<((nat, nat), (nat, nat))>>, CodecError>,
)
    requires
        g2_batch_decoded(
            curve,
            CheckElement::Yes,
            bytes,
            num,
            Ok::<Seq<Option<((nat, nat), (nat, nat))>>, CodecError>(checked),
        ),
        g2_batch_decoded(curve, CheckElement::No, bytes, num, unchecked),
    ensures
        unchecked == Ok::<Seq<Option<((nat, nat), (nat, nat))>>, CodecError>(checked),
{
    let size = 4 * curve.base_field().byte_width() as int;
    let yes = g2_chunks(curve, CheckElement::Yes, bytes, num);
    let no = g2_chunks(curve, CheckElement::No, bytes, num);
    assert forall|i: int| 0 <= i < yes.len() && (#[trigger] yes[i]) is Ok implies no[i]
        == yes[i] by {
        lemma_montgomery_checked_then_unchecked(curve, chunk(bytes, size, i));
    }
    lemma_collected_agree(yes, no, checked, unchecked);
}

/// A batch decodes to what its points decode to one by one, in the order of
/// their bytes: the `i`-th point of the result is the point in the `i`-th
/// run of bytes. This holds of a batch of any number of points, of none too.
pub proof fn lemma_batch_keeps_order(
    curve: Curve,
    check: CheckElement,
    bytes: Seq<u8>,
    num: nat,
    g1: Seq<Option<(nat, nat)>>,
    g2: Seq<Option<((nat, nat), (nat, nat))>>,
)
    ensures
        g1_batch_decoded(curve, check, bytes, num, Ok::<Seq<Option<(nat, nat)>>, CodecError>(g1))
            ==> g1.len() == num && forall|i: int|
            0 <= i < num ==> g1_from_montgomery(
                curve,
                check,
                #[trigger] chunk(bytes, 2 * curve.base_field().byte_width() as int, i),
            ) == Ok::<Option<(nat, nat)>, CodecError>(g1[i]),
        g2_batch_decoded(
            curve,
            check,
            bytes,
            num,
            Ok::<Seq<Option<((nat, nat), (nat, nat))>>, CodecError>(g2),
        ) ==> g2.len() == num && forall|i: int|
            0 <= i < num ==> g2_from_montgomery(
                curve,
                check,
                #[trigger] chunk(bytes, 4 * curve.base_field().byte_width() as int, i),
            ) == Ok::<Option<((nat, nat), (nat, nat))>, CodecError>(g2[i]),
{
    if g1_batch_decoded(curve, check, bytes, num, Ok::<Seq<Option<(nat, nat)>>, CodecError>(g1)) {
        let items = g1_chunks(curve, check, bytes, num);
        assert forall|i: int| 0 <= i < num implies g1_from_montgomery(
            curve,
            check,
            #[trigger] chunk(bytes, 2 * curve.base_field().byte_width() as int, i),
        ) == Ok::<Option<(nat, nat)>, CodecError>(g1[i]) by {
            assert(items[i] == Ok::<Option<(nat, nat)>, CodecError>(g1[i]));
        }
    }
    if g2_batch_decoded(
        curve,
        check,
        bytes,
        num,
        Ok::<Seq<Option<((nat, nat), (nat, nat))>>, CodecError>(g2),
    ) {
        let items = g2_chunks(curve, check, bytes, num);
        assert forall|i: int| 0 <= i < num implies g2_from_montgomery(
            curve,
            check,
            #[trigger] chunk(bytes, 4 * curve.base_field().byte_width() as int, i),
        ) == Ok::<Option<((nat, nat), (nat, nat))>, CodecError>(g2[i]) by {
            assert(items[i] == Ok::<Option<((nat, nat), (nat, nat))>, CodecError>(g2[i]));
        }
    }
}

} // verus!
