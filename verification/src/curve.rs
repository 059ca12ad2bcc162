//! The supported curves, their points, and the validity of a point.

use vstd::prelude::*;

use crate::backend;
use crate::error::CodecError;
use crate::field::{mod_add, mod_mul, FieldElement, FieldKind, QuadExtElement};

verus! {

/// A pairing-friendly curve.
#[derive(Clone, Copy, Debug, PartialEq, Eq, Structural)]
pub enum Curve {
    Bn254,
    Bls12_381,
}

/// Whether decoded points are checked to be valid points of the curve.
/// Skipping the checks is faster by orders of magnitude, but hands points
/// on that the arithmetic is not defined for: use `No` only on trusted
/// input.
#[derive(Clone, Copy, Debug, PartialEq, Eq, Structural)]
pub enum CheckElement {
    /// Check curve equation and subgroup membership.
    Yes,
    /// Skip the checks.
    No,
}

impl Curve {
    /// The field of the coordinates of G1.
    pub open spec fn base_field(self) -> FieldKind {
        match self {
            Curve::Bn254 => FieldKind::Bn254Fq,
            Curve::Bls12_381 => FieldKind::Bls12_381Fq,
        }
    }

    /// The field of the scalars.
    pub open spec fn scalar_field(self) -> FieldKind {
        match self {
            Curve::Bn254 => FieldKind::Bn254Fr,
            Curve::Bls12_381 => FieldKind::Bls12_381Fr,
        }
    }

    /// The field of the coordinates of G1.
    pub fn base_field_kind(self) -> (k: FieldKind)
        ensures
            k == self.base_field(),
    {
        match self {
            Curve::Bn254 => FieldKind::Bn254Fq,
            Curve::Bls12_381 => FieldKind::Bls12_381Fq,
        }
    }

    /// The field of the scalars.
    pub fn scalar_field_kind(self) -> (k: FieldKind)
        ensures
            k == self.scalar_field(),
    {
        match self {
            Curve::Bn254 => FieldKind::Bn254Fr,
            Curve::Bls12_381 => FieldKind::Bls12_381Fr,
        }
    }

    /// The name that circom gives the curve.
    pub fn get_circom_name(self) -> (r: String)
        ensures
            self == Curve::Bn254 ==> r@ == "bn128"@,
            self == Curve::Bls12_381 ==> r@ == "bls12381"@,
    {
        match self {
            Curve::Bn254 => "bn128".to_string(),
            Curve::Bls12_381 => "bls12381".to_string(),
        }
    }
}

/// The constant `b` of the equation `y^2 = x^3 + b` of G1.
pub open spec fn g1_coeff_b(curve: Curve) -> nat {
    match curve {
        Curve::Bn254 => 3,
        Curve::Bls12_381 => 4,
    }
}

/// The constant `b` of the equation `y^2 = x^3 + b` of G2, an element of the
/// quadratic extension.
pub open spec fn g2_coeff_b(curve: Curve) -> (nat, nat) {
    match curve {
        Curve::Bn254 => (
            19485874751759354771024239261021720505790618469301721065564631296452457478373nat,
            266929791119991161246907387137283842545076965332900288569378510910307636690nat,
        ),
        Curve::Bls12_381 => (4, 4),
    }
}

/// The product of `a` and `b` in the quadratic extension of the field of
/// order `p` by a square root of minus one.
pub open spec fn quad_mul(p: nat, a: (nat, nat), b: (nat, nat)) -> (nat, nat) {
    (
        ((a.0 * b.0 - a.1 * b.1) % (p as int)) as nat,
        (a.0 * b.1 + a.1 * b.0) % p,
    )
}

/// The sum of `a` and `b` in a quadratic extension of the field of order `p`.
pub open spec fn quad_add(p: nat, a: (nat, nat), b: (nat, nat)) -> (nat, nat) {
    ((a.0 + b.0) % p, (a.1 + b.1) % p)
}

/// The right-hand side of the equation of G1 at `x`.
pub open spec fn g1_rhs(curve: Curve, x: nat) -> nat {
    let p = curve.base_field().modulus();
    mod_add(p, mod_mul(p, mod_mul(p, x, x), x), g1_coeff_b(curve))
}

/// Whether `(x, y)` satisfies the equation of G1.
pub open spec fn g1_on_curve(curve: Curve, x: nat, y: nat) -> bool {
    mod_mul(curve.base_field().modulus(), y, y) == g1_rhs(curve, x)
}

/// The right-hand side of the equation of G2 at `x`.
pub open spec fn g2_rhs(curve: Curve, x: (nat, nat)) -> (nat, nat) {
    let p = curve.base_field().modulus();
    quad_add(p, quad_mul(p, quad_mul(p, x, x), x), g2_coeff_b(curve))
}

/// Whether `(x, y)` satisfies the equation of G2.
pub open spec fn g2_on_curve(curve: Curve, x: (nat, nat), y: (nat, nat)) -> bool {
    quad_mul(curve.base_field().modulus(), y, y) == g2_rhs(curve, x)
}

/// What arkworks' subgroup test answers for the point `(x, y)` of
/// BLS12-381's first curve.
pub uninterp spec fn bls12_381_g1_subgroup(x: nat, y: nat) -> bool;

/// What arkworks' subgroup test answers for the point
/// `(x0 + x1 * u, y0 + y1 * u)` of BN254's second curve.
pub uninterp spec fn bn254_g2_subgroup(x0: nat, x1: nat, y0: nat, y1: nat) -> bool;

/// What arkworks' subgroup test answers for the point
/// `(x0 + x1 * u, y0 + y1 * u)` of BLS12-381's second curve.
pub uninterp spec fn bls12_381_g2_subgroup(x0: nat, x1: nat, y0: nat, y1: nat) -> bool;

/// Whether the point `(x, y)` of G1 counts as a member of the prime-order
/// subgroup. BN254's first curve has cofactor one: all of its points do.
pub open spec fn g1_in_subgroup(curve: Curve, x: nat, y: nat) -> bool {
    match curve {
        Curve::Bn254 => true,
        Curve::Bls12_381 => bls12_381_g1_subgroup(x, y),
    }
}

/// Whether the point `(x, y)` of G2 counts as a member of the prime-order
/// subgroup.
pub open spec fn g2_in_subgroup(curve: Curve, x: (nat, nat), y: (nat, nat)) -> bool {
    match curve {
        Curve::Bn254 => bn254_g2_subgroup(x.0, x.1, y.0, y.1),
        Curve::Bls12_381 => bls12_381_g2_subgroup(x.0, x.1, y.0, y.1),
    }
}

/// The verdict on the coordinates `(x, y)` of a finite point of G1.
pub open spec fn g1_verdict(curve: Curve, x: nat, y: nat, check: CheckElement) -> Result<
    (),
    CodecError,
> {
    if check == CheckElement::No {
        Ok(())
    } else if !g1_on_curve(curve, x, y) {
        Err(CodecError::NotOnCurve)
    } else if !g1_in_subgroup(curve, x, y) {
        Err(CodecError::NotInSubgroup)
    } else {
        Ok(())
    }
}

/// The verdict on the coordinates `(x, y)` of a finite point of G2.
pub open spec fn g2_verdict(
    curve: Curve,
    x: (nat, nat),
    y: (nat, nat),
    check: CheckElement,
) -> Result<(), CodecError> {
    if check == CheckElement::No {
        Ok(())
    } else if !g2_on_curve(curve, x, y) {
        Err(CodecError::NotOnCurve)
    } else if !g2_in_subgroup(curve, x, y) {
        Err(CodecError::NotInSubgroup)
    } else {
        Ok(())
    }
}

/// A point of G1 in affine coordinates.
#[derive(Clone, Debug, PartialEq, Eq)]
pub enum G1Affine {
    /// The point at infinity.
    Infinity,
    /// A finite point.
    Point { x: FieldElement, y: FieldElement },
}

/// A point of G2 in affine coordinates.
#[derive(Clone, Debug, PartialEq, Eq)]
pub enum G2Affine {
    /// The point at infinity.
    Infinity,
    /// A finite point.
    Point { x: QuadExtElement, y: QuadExtElement },
}

impl View for G1Affine {
    type V = Option<(nat, nat)>;

    /// The coordinates, or `None` for the point at infinity.
    open spec fn view(&self) -> Option<(nat, nat)> {
        match self {
            G1Affine::Infinity => None,
            G1Affine::Point { x, y } => Some((x@, y@)),
        }
    }
}

impl View for G2Affine {
    type V = Option<((nat, nat), (nat, nat))>;

    /// The coordinates, or `None` for the point at infinity.
    open spec fn view(&self) -> Option<((nat, nat), (nat, nat))> {
        match self {
            G2Affine::Infinity => None,
            G2Affine::Point { x, y } => Some((x@, y@)),
        }
    }
}

impl G1Affine {
    /// Validity: the coordinates are valid elements of one field. Nothing
    /// is said of the curve equation.
    pub open spec fn wf(&self) -> bool {
        match self {
            G1Affine::Infinity => true,
            G1Affine::Point { x, y } => x.wf() && y.wf() && x.kind() == y.kind(),
        }
    }

    /// Whether the coordinates, if there are any, lie in the base field of
    /// `curve`.
    pub open spec fn over(&self, curve: Curve) -> bool {
        match self {
            G1Affine::Infinity => true,
            G1Affine::Point { x, y } => x.kind() == curve.base_field(),
        }
    }

    /// Whether this is the point at infinity.
    pub fn is_zero(&self) -> (r: bool)
        ensures
            r == (self@ is None),
    {
        match self {
            G1Affine::Infinity => true,
            G1Affine::Point { .. } => false,
        }
    }

    /// Whether both coordinates, if there are any, lie in the base field of
    /// `curve`.
    pub open spec fn fields_over(&self, curve: Curve) -> bool {
        match self {
            G1Affine::Infinity => true,
            G1Affine::Point { x, y } => x.kind() == curve.base_field() && y.kind()
                == curve.base_field(),
        }
    }

    /// Whether both coordinates, if there are any, lie in the base field of
    /// `curve`.
    pub fn is_over(&self, curve: Curve) -> (r: bool)
        ensures
            r == self.fields_over(curve),
    {
        match self {
            G1Affine::Infinity => true,
            G1Affine::Point { x, y } => x.field_kind() == curve.base_field_kind() && y.field_kind()
                == curve.base_field_kind(),
        }
    }
}

impl G2Affine {
    /// Validity: the coordinates are valid elements over one field. Nothing
    /// is said of the curve equation.
    pub open spec fn wf(&self) -> bool {
        match self {
            G2Affine::Infinity => true,
            G2Affine::Point { x, y } => x.wf() && y.wf() && x.kind() == y.kind(),
        }
    }

    /// Whether the coordinates, if there are any, lie over the base field of
    /// `curve`.
    pub open spec fn over(&self, curve: Curve) -> bool {
        match self {
            G2Affine::Infinity => true,
            G2Affine::Point { x, y } => x.kind() == curve.base_field(),
        }
    }

    /// Whether this is the point at infinity.
    pub fn is_zero(&self) -> (r: bool)
        ensures
            r == (self@ is None),
    {
        match self {
            G2Affine::Infinity => true,
            G2Affine::Point { .. } => false,
        }
    }

    /// Whether all components of the coordinates, if there are any, lie in
    /// the base field of `curve`.
    pub open spec fn fields_over(&self, curve: Curve) -> bool {
        match self {
            G2Affine::Infinity => true,
            G2Affine::Point { x, y } => x.c0.kind() == curve.base_field() && x.c1.kind()
                == curve.base_field() && y.c0.kind() == curve.base_field() && y.c1.kind()
                == curve.base_field(),
        }
    }

    /// Whether all components of the coordinates, if there are any, lie in
    /// the base field of `curve`.
    pub fn is_over(&self, curve: Curve) -> (r: bool)
        ensures
            r == self.fields_over(curve),
    {
        let kind = curve.base_field_kind();
        match self {
            G2Affine::Infinity => true,
            G2Affine::Point { x, y } => x.c0.field_kind() == kind && x.c1.field_kind() == kind
                && y.c0.field_kind() == kind && y.c1.field_kind() == kind,
        }
    }
}

/// Judges the coordinates of a finite point of G1: with `CheckElement::Yes`
/// the curve equation first, then subgroup membership; with
/// `CheckElement::No` nothing.
pub fn validate_g1(curve: Curve, x: &FieldElement, y: &FieldElement, check: CheckElement) -> (r:
    Result<(), CodecError>)
    requires
        x.wf(),
        y.wf(),
        x.kind() == curve.base_field(),
        y.kind() == curve.base_field(),
    ensures
        r == g1_verdict(curve, x@, y@, check),
{
    match check {
        CheckElement::No => Ok(()),
        CheckElement::Yes => {
            let xb = x.to_le_bytes();
            let yb = y.to_le_bytes();
            match curve {
                Curve::Bn254 => {
                    if !backend::bn254_g1_is_on_curve(xb.as_slice(), yb.as_slice()) {
                        Err(CodecError::NotOnCurve)
                    } else {
                        Ok(())
                    }
                },
                Curve::Bls12_381 => {
                    if !backend::bls12_381_g1_is_on_curve(xb.as_slice(), yb.as_slice()) {
                        Err(CodecError::NotOnCurve)
                    } else if !backend::bls12_381_g1_in_subgroup(xb.as_slice(), yb.as_slice()) {
                        Err(CodecError::NotInSubgroup)
                    } else {
                        Ok(())
                    }
                },
            }
        },
    }
}

/// Judges the coordinates of a finite point of G2, as [`validate_g1`] does
/// for G1.
pub fn validate_g2(curve: Curve, x: &QuadExtElement, y: &QuadExtElement, check: CheckElement) -> (r:
    Result<(), CodecError>)
    requires
        x.wf(),
        y.wf(),
        x.kind() == curve.base_field(),
        y.kind() == curve.base_field(),
    ensures
        r == g2_verdict(curve, x@, y@, check),
{
    match check {
        CheckElement::No => Ok(()),
        CheckElement::Yes => {
            let x0 = x.c0.to_le_bytes();
            let x1 = x.c1.to_le_bytes();
            let y0 = y.c0.to_le_bytes();
            let y1 = y.c1.to_le_bytes();
            let on_curve = match curve {
                Curve::Bn254 => backend::bn254_g2_is_on_curve(
                    x0.as_slice(),
                    x1.as_slice(),
                    y0.as_slice(),
                    y1.as_slice(),
                ),
                Curve::Bls12_381 => backend::bls12_381_g2_is_on_curve(
                    x0.as_slice(),
                    x1.as_slice(),
                    y0.as_slice(),
                    y1.as_slice(),
                ),
            };
            if !on_curve {
                return Err(CodecError::NotOnCurve);
            }
            let in_subgroup = match curve {
                Curve::Bn254 => backend::bn254_g2_in_subgroup(
                    x0.as_slice(),
                    x1.as_slice(),
                    y0.as_slice(),
                    y1.as_slice(),
                ),
                Curve::Bls12_381 => backend::bls12_381_g2_in_subgroup(
                    x0.as_slice(),
                    x1.as_slice(),
                    y0.as_slice(),
                    y1.as_slice(),
                ),
            };
            if !in_subgroup {
                Err(CodecError::NotInSubgroup)
            } else {
                Ok(())
            }
        },
    }
}

/// Whether a point of G1 that is known to be on the curve is a member of the
/// prime-order subgroup.
pub fn check_g1_subgroup(curve: Curve, x: &FieldElement, y: &FieldElement) -> (r: bool)
    requires
        x.wf(),
        y.wf(),
        x.kind() == curve.base_field(),
        y.kind() == curve.base_field(),
    ensures
        r == g1_in_subgroup(curve, x@, y@),
{
    match curve {
        Curve::Bn254 => true,
        Curve::Bls12_381 => {
            let xb = x.to_le_bytes();
            let yb = y.to_le_bytes();
            backend::bls12_381_g1_in_subgroup(xb.as_slice(), yb.as_slice())
        },
    }
}

/// Whether a point of G2 that is known to be on the curve is a member of the
/// prime-order subgroup.
pub fn check_g2_subgroup(curve: Curve, x: &QuadExtElement, y: &QuadExtElement) -> (r: bool)
    requires
        x.wf(),
        y.wf(),
        x.kind() == curve.base_field(),
        y.kind() == curve.base_field(),
    ensures
        r == g2_in_subgroup(curve, x@, y@),
{
    let x0 = x.c0.to_le_bytes();
    let x1 = x.c1.to_le_bytes();
    let y0 = y.c0.to_le_bytes();
    let y1 = y.c1.to_le_bytes();
    match curve {
        Curve::Bn254 => backend::bn254_g2_in_subgroup(
            x0.as_slice(),
            x1.as_slice(),
            y0.as_slice(),
            y1.as_slice(),
        ),
        Curve::Bls12_381 => backend::bls12_381_g2_in_subgroup(
            x0.as_slice(),
            x1.as_slice(),
            y0.as_slice(),
            y1.as_slice(),
        ),
    }
}

} // verus!
