//! Errors reported by the decoders.

use vstd::prelude::*;

verus! {

/// The part of an input whose length was wrong.
#[derive(Clone, Copy, Debug, PartialEq, Eq, Structural)]
pub enum LengthSubject {
    /// The `x` coordinate of a G2 point: it needs two field elements.
    CoordinateX,
    /// The `y` coordinate of a G2 point: it needs two field elements.
    CoordinateY,
    /// The `z` coordinate of a G2 point: it needs two field elements.
    CoordinateZ,
    /// A cubic extension element: it needs three quadratic elements.
    CubicComponents,
    /// A quadratic extension element: it needs two field elements.
    QuadraticComponents,
    /// One point inside a sequence of points.
    PointTokens,
    /// The number of elements of a sequence.
    Batch,
}

/// Why an input was rejected.
#[derive(Clone, Copy, Debug, PartialEq, Eq, Structural)]
pub enum CodecError {
    /// Fewer tokens or bytes than the format requires.
    TruncatedInput,
    /// More tokens than the format requires.
    UnexpectedTrailingElement,
    /// A token or byte string that is no encoding of a field element.
    InvalidFieldEncoding,
    /// The coordinates do not satisfy the curve equation.
    NotOnCurve,
    /// The point is on the curve but outside the prime-order subgroup.
    NotInSubgroup,
    /// A nested sequence has the wrong number of elements.
    LengthMismatch { subject: LengthSubject, expected: usize, found: usize },
    /// A flag pattern that the format does not define in this position.
    UnsupportedEncodingMode,
}

} // verus!
