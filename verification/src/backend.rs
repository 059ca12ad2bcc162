//! The calls into arkworks and into the hashing crates.
//!
//! Every function here is believed, not proved: its body hands plain bytes to
//! the outside crate and takes plain bytes back, and its contract restates
//! what the outside source does with them. Field elements cross this
//! boundary as their canonical value, least significant byte first.
//!
//! The functions come in families, one member for each field or curve:
//! - `*_from_decimal`, `*_to_decimal`, `*_from_montgomery` and
//!   `*_from_le_bytes_mod_order` for the five prime fields;
//! - `*_is_on_curve` for G1 and G2 of both pairings and for Baby Jubjub;
//! - `*_in_subgroup` wherever the subgroup is smaller than the curve;
//! - sum, product, negative and square root in the base field of BN254 and
//!   the square root in its quadratic extension, for point compression;
//! - inverse, Legendre symbol and square root in the scalar field of BN254;
//! - the SHA-256 digest and hexadecimal notation, for fingerprints.

use ark_ff::{BigInteger, Field, LegendreSymbol, PrimeField};
use ark_serialize::CanonicalDeserialize;
use sha2::Digest;
use std::str::FromStr;
use vstd::prelude::*;

use crate::babyjubjub::{babyjubjub_on_curve, babyjubjub_subgroup};
use crate::curve::{
    bls12_381_g1_subgroup, bls12_381_g2_subgroup, bn254_g2_subgroup, g1_on_curve, g2_on_curve,
    quad_mul, Curve,
};
use crate::decimal::{decimal_digits, decimal_value, is_decimal};
use crate::field::{
    bn254_fq2_root, bn254_fq_modulus, bn254_fq_root, mod_add, mod_mul, mod_neg, FieldKind,
};
use crate::material::{bn254_fr_root, hex_lower, legendre_symbol, sha256};
use crate::natbytes::le_nat;

verus! {

/// `<ark_bn254::Fq as FromStr>::from_str` on a decimal token: the digits are read as
/// a number, which is reduced modulo the order of the base field of BN254.
#[verifier::external_body]
pub(crate) fn bn254_fq_from_decimal(s: &str) -> (r: Option<Vec<u8>>)
    requires
        is_decimal(s@),
    ensures
        r is Some,
        r.unwrap()@.len() == 32,
        le_nat(r.unwrap()@) == decimal_value(s@) % FieldKind::Bn254Fq.modulus(),
{
    ark_bn254::Fq::from_str(s).ok().map(|f| f.into_bigint().to_bytes_le())
}

/// `Display` of `ark_bn254::Fq`: the canonical value in decimal notation,
/// without leading zeros.
#[verifier::external_body]
pub(crate) fn bn254_fq_to_decimal(bytes: &[u8]) -> (r: String)
    requires
        bytes@.len() == 32,
        le_nat(bytes@) < FieldKind::Bn254Fq.modulus(),
    ensures
        r@ == decimal_digits(le_nat(bytes@)),
{
    ark_bn254::Fq::from_le_bytes_mod_order(bytes).to_string()
}

/// `ark_bn254::Fq::new_unchecked` on the integer that `bytes` spell, followed by
/// `into_bigint`: the bytes are taken as a Montgomery representation as they
/// stand, and the value they represent comes back.
#[verifier::external_body]
pub(crate) fn bn254_fq_from_montgomery(bytes: &[u8]) -> (r: Option<Vec<u8>>)
    requires
        bytes@.len() == 32,
        le_nat(bytes@) < FieldKind::Bn254Fq.modulus(),
    ensures
        r is Some,
        r.unwrap()@.len() == 32,
        le_nat(r.unwrap()@) == FieldKind::Bn254Fq.from_montgomery(le_nat(bytes@)),
{
    ark_ff::BigInt::<4>::deserialize_uncompressed(bytes).ok().map(
        |b| ark_bn254::Fq::new_unchecked(b).into_bigint().to_bytes_le(),
    )
}

/// `<ark_bn254::Fr as FromStr>::from_str` on a decimal token: the digits are read as
/// a number, which is reduced modulo the order of the scalar field of BN254.
#[verifier::external_body]
pub(crate) fn bn254_fr_from_decimal(s: &str) -> (r: Option<Vec<u8>>)
    requires
        is_decimal(s@),
    ensures
        r is Some,
        r.unwrap()@.len() == 32,
        le_nat(r.unwrap()@) == decimal_value(s@) % FieldKind::Bn254Fr.modulus(),
{
    ark_bn254::Fr::from_str(s).ok().map(|f| f.into_bigint().to_bytes_le())
}

/// `Display` of `ark_bn254::Fr`: the canonical value in decimal notation,
/// without leading zeros.
#[verifier::external_body]
pub(crate) fn bn254_fr_to_decimal(bytes: &[u8]) -> (r: String)
    requires
        bytes@.len() == 32,
        le_nat(bytes@) < FieldKind::Bn254Fr.modulus(),
    ensures
        r@ == decimal_digits(le_nat(bytes@)),
{
    ark_bn254::Fr::from_le_bytes_mod_order(bytes).to_string()
}

/// `ark_bn254::Fr::new_unchecked` on the integer that `bytes` spell, followed by
/// `into_bigint`: the bytes are taken as a Montgomery representation as they
/// stand, and the value they represent comes back.
#[verifier::external_body]
pub(crate) fn bn254_fr_from_montgomery(bytes: &[u8]) -> (r: Option<Vec<u8>>)
    requires
        bytes@.len() == 32,
        le_nat(bytes@) < FieldKind::Bn254Fr.modulus(),
    ensures
        r is Some,
        r.unwrap()@.len() == 32,
        le_nat(r.unwrap()@) == FieldKind::Bn254Fr.from_montgomery(le_nat(bytes@)),
{
    ark_ff::BigInt::<4>::deserialize_uncompressed(bytes).ok().map(
        |b| ark_bn254::Fr::new_unchecked(b).into_bigint().to_bytes_le(),
    )
}

/// `<ark_bls12_381::Fq as FromStr>::from_str` on a decimal token: the digits are read as
/// a number, which is reduced modulo the order of the base field of BLS12-381.
#[verifier::external_body]
pub(crate) fn bls12_381_fq_from_decimal(s: &str) -> (r: Option<Vec<u8>>)
    requires
        is_decimal(s@),
    ensures
        r is Some,
        r.unwrap()@.len() == 48,
        le_nat(r.unwrap()@) == decimal_value(s@) % FieldKind::Bls12_381Fq.modulus(),
{
    ark_bls12_381::Fq::from_str(s).ok().map(|f| f.into_bigint().to_bytes_le())
}

/// `Display` of `ark_bls12_381::Fq`: the canonical value in decimal notation,
/// without leading zeros.
#[verifier::external_body]
pub(crate) fn bls12_381_fq_to_decimal(bytes: &[u8]) -> (r: String)
    requires
        bytes@.len() == 48,
        le_nat(bytes@) < FieldKind::Bls12_381Fq.modulus(),
    ensures
        r@ == decimal_digits(le_nat(bytes@)),
{
    ark_bls12_381::Fq::from_le_bytes_mod_order(bytes).to_string()
}

/// `ark_bls12_381::Fq::new_unchecked` on the integer that `bytes` spell, followed by
/// `into_bigint`: the bytes are taken as a Montgomery representation as they
/// stand, and the value they represent comes back.
#[verifier::external_body]
pub(crate) fn bls12_381_fq_from_montgomery(bytes: &[u8]) -> (r: Option<Vec<u8>>)
    requires
        bytes@.len() == 48,
        le_nat(bytes@) < FieldKind::Bls12_381Fq.modulus(),
    ensures
        r is Some,
        r.unwrap()@.len() == 48,
        le_nat(r.unwrap()@) == FieldKind::Bls12_381Fq.from_montgomery(le_nat(bytes@)),
{
    ark_ff::BigInt::<6>::deserialize_uncompressed(bytes).ok().map(
        |b| ark_bls12_381::Fq::new_unchecked(b).into_bigint().to_bytes_le(),
    )
}

/// `<ark_bls12_381::Fr as FromStr>::from_str` on a decimal token: the digits are read as
/// a number, which is reduced modulo the order of the scalar field of BLS12-381.
#[verifier::external_body]
pub(crate) fn bls12_381_fr_from_decimal(s: &str) -> (r: Option<Vec<u8>>)
    requires
        is_decimal(s@),
    ensures
        r is Some,
        r.unwrap()@.len() == 32,
        le_nat(r.unwrap()@) == decimal_value(s@) % FieldKind::Bls12_381Fr.modulus(),
{
    ark_bls12_381::Fr::from_str(s).ok().map(|f| f.into_bigint().to_bytes_le())
}

/// `Display` of `ark_bls12_381::Fr`: the canonical value in decimal notation,
/// without leading zeros.
#[verifier::external_body]
pub(crate) fn bls12_381_fr_to_decimal(bytes: &[u8]) -> (r: String)
    requires
        bytes@.len() == 32,
        le_nat(bytes@) < FieldKind::Bls12_381Fr.modulus(),
    ensures
        r@ == decimal_digits(le_nat(bytes@)),
{
    ark_bls12_381::Fr::from_le_bytes_mod_order(bytes).to_string()
}

/// `ark_bls12_381::Fr::new_unchecked` on the integer that `bytes` spell, followed by
/// `into_bigint`: the bytes are taken as a Montgomery representation as they
/// stand, and the value they represent comes back.
#[verifier::external_body]
pub(crate) fn bls12_381_fr_from_montgomery(bytes: &[u8]) -> (r: Option<Vec<u8>>)
    requires
        bytes@.len() == 32,
        le_nat(bytes@) < FieldKind::Bls12_381Fr.modulus(),
    ensures
        r is Some,
        r.unwrap()@.len() == 32,
        le_nat(r.unwrap()@) == FieldKind::Bls12_381Fr.from_montgomery(le_nat(bytes@)),
{
    ark_ff::BigInt::<4>::deserialize_uncompressed(bytes).ok().map(
        |b| ark_bls12_381::Fr::new_unchecked(b).into_bigint().to_bytes_le(),
    )
}

/// `<taceo_ark_babyjubjub::Fr as FromStr>::from_str` on a decimal token: the digits are read as
/// a number, which is reduced modulo the order of the scalar field of Baby Jubjub.
#[verifier::external_body]
pub(crate) fn babyjubjub_fr_from_decimal(s: &str) -> (r: Option<Vec<u8>>)
    requires
        is_decimal(s@),
    ensures
        r is Some,
        r.unwrap()@.len() == 32,
        le_nat(r.unwrap()@) == decimal_value(s@) % FieldKind::BabyJubJubFr.modulus(),
{
    taceo_ark_babyjubjub::Fr::from_str(s).ok().map(|f| f.into_bigint().to_bytes_le())
}

/// `Display` of `taceo_ark_babyjubjub::Fr`: the canonical value in decimal notation,
/// without leading zeros.
#[verifier::external_body]
pub(crate) fn babyjubjub_fr_to_decimal(bytes: &[u8]) -> (r: String)
    requires
        bytes@.len() == 32,
        le_nat(bytes@) < FieldKind::BabyJubJubFr.modulus(),
    ensures
        r@ == decimal_digits(le_nat(bytes@)),
{
    taceo_ark_babyjubjub::Fr::from_le_bytes_mod_order(bytes).to_string()
}

/// `taceo_ark_babyjubjub::Fr::new_unchecked` on the integer that `bytes` spell, followed by
/// `into_bigint`: the bytes are taken as a Montgomery representation as they
/// stand, and the value they represent comes back.
#[verifier::external_body]
pub(crate) fn babyjubjub_fr_from_montgomery(bytes: &[u8]) -> (r: Option<Vec<u8>>)
    requires
        bytes@.len() == 32,
        le_nat(bytes@) < FieldKind::BabyJubJubFr.modulus(),
    ensures
        r is Some,
        r.unwrap()@.len() == 32,
        le_nat(r.unwrap()@) == FieldKind::BabyJubJubFr.from_montgomery(le_nat(bytes@)),
{
    ark_ff::BigInt::<4>::deserialize_uncompressed(bytes).ok().map(
        |b| taceo_ark_babyjubjub::Fr::new_unchecked(b).into_bigint().to_bytes_le(),
    )
}

/// `is_on_curve` of a `ark_bn254::G1Affine` built by `new_unchecked`: whether
/// the coordinates satisfy the equation of BN254's first curve.
#[verifier::external_body]
pub(crate) fn bn254_g1_is_on_curve(x: &[u8], y: &[u8]) -> (r: bool)
    requires
        x@.len() == 32,
        y@.len() == 32,
        le_nat(x@) < Curve::Bn254.base_field().modulus(),
        le_nat(y@) < Curve::Bn254.base_field().modulus(),
    ensures
        r == g1_on_curve(Curve::Bn254, le_nat(x@), le_nat(y@)),
{
    ark_bn254::G1Affine::new_unchecked(
        ark_bn254::Fq::from_le_bytes_mod_order(x),
        ark_bn254::Fq::from_le_bytes_mod_order(y),
    ).is_on_curve()
}

/// `is_on_curve` of a `ark_bn254::G2Affine` built by `new_unchecked`: whether
/// the coordinates satisfy the equation of BN254's second curve.
#[verifier::external_body]
pub(crate) fn bn254_g2_is_on_curve(x0: &[u8], x1: &[u8], y0: &[u8], y1: &[u8]) -> (r: bool)
    requires
        x0@.len() == 32,
        x1@.len() == 32,
        y0@.len() == 32,
        y1@.len() == 32,
        le_nat(x0@) < Curve::Bn254.base_field().modulus(),
        le_nat(x1@) < Curve::Bn254.base_field().modulus(),
        le_nat(y0@) < Curve::Bn254.base_field().modulus(),
        le_nat(y1@) < Curve::Bn254.base_field().modulus(),
    ensures
        r == g2_on_curve(
            Curve::Bn254,
            (le_nat(x0@), le_nat(x1@)),
            (le_nat(y0@), le_nat(y1@)),
        ),
{
    let x = ark_bn254::Fq2::new(
        ark_bn254::Fq::from_le_bytes_mod_order(x0),
        ark_bn254::Fq::from_le_bytes_mod_order(x1),
    );
    let y = ark_bn254::Fq2::new(
        ark_bn254::Fq::from_le_bytes_mod_order(y0),
        ark_bn254::Fq::from_le_bytes_mod_order(y1),
    );
    ark_bn254::G2Affine::new_unchecked(x, y).is_on_curve()
}

/// `is_in_correct_subgroup_assuming_on_curve` of a `ark_bn254::G2Affine` built
/// by `new_unchecked`. What it computes is given a name, not a formula.
#[verifier::external_body]
pub(crate) fn bn254_g2_in_subgroup(x0: &[u8], x1: &[u8], y0: &[u8], y1: &[u8]) -> (r: bool)
    requires
        x0@.len() == 32,
        x1@.len() == 32,
        y0@.len() == 32,
        y1@.len() == 32,
        le_nat(x0@) < Curve::Bn254.base_field().modulus(),
        le_nat(x1@) < Curve::Bn254.base_field().modulus(),
        le_nat(y0@) < Curve::Bn254.base_field().modulus(),
        le_nat(y1@) < Curve::Bn254.base_field().modulus(),
    ensures
        r == bn254_g2_subgroup(le_nat(x0@), le_nat(x1@), le_nat(y0@), le_nat(y1@)),
{
    let x = ark_bn254::Fq2::new(
        ark_bn254::Fq::from_le_bytes_mod_order(x0),
        ark_bn254::Fq::from_le_bytes_mod_order(x1),
    );
    let y = ark_bn254::Fq2::new(
        ark_bn254::Fq::from_le_bytes_mod_order(y0),
        ark_bn254::Fq::from_le_bytes_mod_order(y1),
    );
    ark_bn254::G2Affine::new_unchecked(x, y).is_in_correct_subgroup_assuming_on_curve()
}

/// `is_on_curve` of a `ark_bls12_381::G1Affine` built by `new_unchecked`: whether
/// the coordinates satisfy the equation of BLS12-381's first curve.
#[verifier::external_body]
pub(crate) fn bls12_381_g1_is_on_curve(x: &[u8], y: &[u8]) -> (r: bool)
    requires
        x@.len() == 48,
        y@.len() == 48,
        le_nat(x@) < Curve::Bls12_381.base_field().modulus(),
        le_nat(y@) < Curve::Bls12_381.base_field().modulus(),
    ensures
        r == g1_on_curve(Curve::Bls12_381, le_nat(x@), le_nat(y@)),
{
    ark_bls12_381::G1Affine::new_unchecked(
        ark_bls12_381::Fq::from_le_bytes_mod_order(x),
        ark_bls12_381::Fq::from_le_bytes_mod_order(y),
    ).is_on_curve()
}

/// `is_on_curve` of a `ark_bls12_381::G2Affine` built by `new_unchecked`: whether
/// the coordinates satisfy the equation of BLS12-381's second curve.
#[verifier::external_body]
pub(crate) fn bls12_381_g2_is_on_curve(x0: &[u8], x1: &[u8], y0: &[u8], y1: &[u8]) -> (r: bool)
    requires
        x0@.len() == 48,
        x1@.len() == 48,
        y0@.len() == 48,
        y1@.len() == 48,
        le_nat(x0@) < Curve::Bls12_381.base_field().modulus(),
        le_nat(x1@) < Curve::Bls12_381.base_field().modulus(),
        le_nat(y0@) < Curve::Bls12_381.base_field().modulus(),
        le_nat(y1@) < Curve::Bls12_381.base_field().modulus(),
    ensures
        r == g2_on_curve(
            Curve::Bls12_381,
            (le_nat(x0@), le_nat(x1@)),
            (le_nat(y0@), le_nat(y1@)),
        ),
{
    let x = ark_bls12_381::Fq2::new(
        ark_bls12_381::Fq::from_le_bytes_mod_order(x0),
        ark_bls12_381::Fq::from_le_bytes_mod_order(x1),
    );
    let y = ark_bls12_381::Fq2::new(
        ark_bls12_381::Fq::from_le_bytes_mod_order(y0),
        ark_bls12_381::Fq::from_le_bytes_mod_order(y1),
    );
    ark_bls12_381::G2Affine::new_unchecked(x, y).is_on_curve()
}

/// `is_in_correct_subgroup_assuming_on_curve` of a `ark_bls12_381::G2Affine` built
/// by `new_unchecked`. What it computes is given a name, not a formula.
#[verifier::external_body]
pub(crate) fn bls12_381_g2_in_subgroup(x0: &[u8], x1: &[u8], y0: &[u8], y1: &[u8]) -> (r: bool)
    requires
        x0@.len() == 48,
        x1@.len() == 48,
        y0@.len() == 48,
        y1@.len() == 48,
        le_nat(x0@) < Curve::Bls12_381.base_field().modulus(),
        le_nat(x1@) < Curve::Bls12_381.base_field().modulus(),
        le_nat(y0@) < Curve::Bls12_381.base_field().modulus(),
        le_nat(y1@) < Curve::Bls12_381.base_field().modulus(),
    ensures
        r == bls12_381_g2_subgroup(le_nat(x0@), le_nat(x1@), le_nat(y0@), le_nat(y1@)),
{
    let x = ark_bls12_381::Fq2::new(
        ark_bls12_381::Fq::from_le_bytes_mod_order(x0),
        ark_bls12_381::Fq::from_le_bytes_mod_order(x1),
    );
    let y = ark_bls12_381::Fq2::new(
        ark_bls12_381::Fq::from_le_bytes_mod_order(y0),
        ark_bls12_381::Fq::from_le_bytes_mod_order(y1),
    );
    ark_bls12_381::G2Affine::new_unchecked(x, y).is_in_correct_subgroup_assuming_on_curve()
}

/// `is_in_correct_subgroup_assuming_on_curve` of an `ark_bls12_381::G1Affine`
/// built by `new_unchecked`. What it computes is given a name, not a formula.
#[verifier::external_body]
pub(crate) fn bls12_381_g1_in_subgroup(x: &[u8], y: &[u8]) -> (r: bool)
    requires
        x@.len() == 48,
        y@.len() == 48,
        le_nat(x@) < Curve::Bls12_381.base_field().modulus(),
        le_nat(y@) < Curve::Bls12_381.base_field().modulus(),
    ensures
        r == bls12_381_g1_subgroup(le_nat(x@), le_nat(y@)),
{
    ark_bls12_381::G1Affine::new_unchecked(
        ark_bls12_381::Fq::from_le_bytes_mod_order(x),
        ark_bls12_381::Fq::from_le_bytes_mod_order(y),
    ).is_in_correct_subgroup_assuming_on_curve()
}

/// `+` of `ark_bn254::Fq`: the sum modulo the order of the field.
#[verifier::external_body]
pub(crate) fn bn254_fq_add(a: &[u8], b: &[u8]) -> (r: Vec<u8>)
    requires
        a@.len() == 32,
        b@.len() == 32,
        le_nat(a@) < bn254_fq_modulus(),
        le_nat(b@) < bn254_fq_modulus(),
    ensures
        r@.len() == 32,
        le_nat(r@) < bn254_fq_modulus(),
        le_nat(r@) == mod_add(bn254_fq_modulus(), le_nat(a@), le_nat(b@)),
{
    let sum = ark_bn254::Fq::from_le_bytes_mod_order(a) + ark_bn254::Fq::from_le_bytes_mod_order(b);
    sum.into_bigint().to_bytes_le()
}

/// `*` of `ark_bn254::Fq`: the product modulo the order of the field.
#[verifier::external_body]
pub(crate) fn bn254_fq_mul(a: &[u8], b: &[u8]) -> (r: Vec<u8>)
    requires
        a@.len() == 32,
        b@.len() == 32,
        le_nat(a@) < bn254_fq_modulus(),
        le_nat(b@) < bn254_fq_modulus(),
    ensures
        r@.len() == 32,
        le_nat(r@) < bn254_fq_modulus(),
        le_nat(r@) == mod_mul(bn254_fq_modulus(), le_nat(a@), le_nat(b@)),
{
    let product = ark_bn254::Fq::from_le_bytes_mod_order(a)
        * ark_bn254::Fq::from_le_bytes_mod_order(b);
    product.into_bigint().to_bytes_le()
}

/// Unary `-` of `ark_bn254::Fq`: the order of the field less the value, and
/// zero for zero.
#[verifier::external_body]
pub(crate) fn bn254_fq_neg(a: &[u8]) -> (r: Vec<u8>)
    requires
        a@.len() == 32,
        le_nat(a@) < bn254_fq_modulus(),
    ensures
        r@.len() == 32,
        le_nat(r@) < bn254_fq_modulus(),
        le_nat(r@) == mod_neg(bn254_fq_modulus(), le_nat(a@)),
{
    (-ark_bn254::Fq::from_le_bytes_mod_order(a)).into_bigint().to_bytes_le()
}

/// `sqrt` of `ark_bn254::Fq`. The order of the field leaves three when
/// divided by four, for which arkworks raises the value to a quarter of the
/// order plus one and hands the power back if its square is the value.
#[verifier::external_body]
pub(crate) fn bn254_fq_sqrt(a: &[u8]) -> (r: Option<Vec<u8>>)
    requires
        a@.len() == 32,
        le_nat(a@) < bn254_fq_modulus(),
    ensures
        r is Some <==> bn254_fq_root(le_nat(a@)) is Some,
        r is Some ==> r.unwrap()@.len() == 32,
        r is Some ==> le_nat(r.unwrap()@) < bn254_fq_modulus(),
        r is Some ==> le_nat(r.unwrap()@) == bn254_fq_root(le_nat(a@)).unwrap(),
{
    ark_bn254::Fq::from_le_bytes_mod_order(a).sqrt().map(|s| s.into_bigint().to_bytes_le())
}

/// `sqrt` of `ark_bn254::Fq2`. What it computes is given a name, not a
/// formula; the components of a root are canonical residues, and the square
/// of a root is the value.
#[verifier::external_body]
pub(crate) fn bn254_fq2_sqrt(c0: &[u8], c1: &[u8]) -> (r: Option<(Vec<u8>, Vec<u8>)>)
    requires
        c0@.len() == 32,
        c1@.len() == 32,
        le_nat(c0@) < bn254_fq_modulus(),
        le_nat(c1@) < bn254_fq_modulus(),
    ensures
        r is Some <==> bn254_fq2_root(le_nat(c0@), le_nat(c1@)) is Some,
        r is Some ==> r.unwrap().0@.len() == 32 && r.unwrap().1@.len() == 32,
        r is Some ==> le_nat(r.unwrap().0@) < bn254_fq_modulus(),
        r is Some ==> le_nat(r.unwrap().1@) < bn254_fq_modulus(),
        r is Some ==> (le_nat(r.unwrap().0@), le_nat(r.unwrap().1@)) == bn254_fq2_root(
            le_nat(c0@),
            le_nat(c1@),
        ).unwrap(),
        r is Some ==> quad_mul(
            bn254_fq_modulus(),
            (le_nat(r.unwrap().0@), le_nat(r.unwrap().1@)),
            (le_nat(r.unwrap().0@), le_nat(r.unwrap().1@)),
        ) == (le_nat(c0@), le_nat(c1@)),
{
    let value = ark_bn254::Fq2::new(
        ark_bn254::Fq::from_le_bytes_mod_order(c0),
        ark_bn254::Fq::from_le_bytes_mod_order(c1),
    );
    value.sqrt().map(|s| (s.c0.into_bigint().to_bytes_le(), s.c1.into_bigint().to_bytes_le()))
}

/// `is_on_curve` of a `taceo_ark_babyjubjub::EdwardsAffine` built by
/// `new_unchecked`: whether the coordinates satisfy the equation of
/// Baby Jubjub.
#[verifier::external_body]
pub(crate) fn babyjubjub_is_on_curve(x: &[u8], y: &[u8]) -> (r: bool)
    requires
        x@.len() == 32,
        y@.len() == 32,
        le_nat(x@) < FieldKind::Bn254Fr.modulus(),
        le_nat(y@) < FieldKind::Bn254Fr.modulus(),
    ensures
        r == babyjubjub_on_curve(le_nat(x@), le_nat(y@)),
{
    taceo_ark_babyjubjub::EdwardsAffine::new_unchecked(
        taceo_ark_babyjubjub::Fq::from_le_bytes_mod_order(x),
        taceo_ark_babyjubjub::Fq::from_le_bytes_mod_order(y),
    ).is_on_curve()
}

/// `is_in_correct_subgroup_assuming_on_curve` of a
/// `taceo_ark_babyjubjub::EdwardsAffine` built by `new_unchecked`. What it
/// computes is given a name, not a formula.
#[verifier::external_body]
pub(crate) fn babyjubjub_in_subgroup(x: &[u8], y: &[u8]) -> (r: bool)
    requires
        x@.len() == 32,
        y@.len() == 32,
        le_nat(x@) < FieldKind::Bn254Fr.modulus(),
        le_nat(y@) < FieldKind::Bn254Fr.modulus(),
    ensures
        r == babyjubjub_subgroup(le_nat(x@), le_nat(y@)),
{
    taceo_ark_babyjubjub::EdwardsAffine::new_unchecked(
        taceo_ark_babyjubjub::Fq::from_le_bytes_mod_order(x),
        taceo_ark_babyjubjub::Fq::from_le_bytes_mod_order(y),
    ).is_in_correct_subgroup_assuming_on_curve()
}

/// `inverse` of `ark_bn254::Fr`: the multiplicative inverse of a value that
/// is not zero, and nothing for zero.
#[verifier::external_body]
pub(crate) fn bn254_fr_inverse(a: &[u8]) -> (r: Option<Vec<u8>>)
    requires
        a@.len() == 32,
        le_nat(a@) < FieldKind::Bn254Fr.modulus(),
    ensures
        r is Some <==> le_nat(a@) != 0,
        r is Some ==> r.unwrap()@.len() == 32,
        r is Some ==> le_nat(r.unwrap()@) < FieldKind::Bn254Fr.modulus(),
        r is Some ==> mod_mul(FieldKind::Bn254Fr.modulus(), le_nat(a@), le_nat(r.unwrap()@)) == 1,
{
    ark_bn254::Fr::from_le_bytes_mod_order(a).inverse().map(|s| s.into_bigint().to_bytes_le())
}

/// `legendre` of `ark_bn254::Fr`: the value to the power of half the order
/// less one, told apart as zero, one or anything else. The three outcomes
/// come back as 0, 1 and 2.
#[verifier::external_body]
pub(crate) fn bn254_fr_legendre(a: &[u8]) -> (r: u8)
    requires
        a@.len() == 32,
        le_nat(a@) < FieldKind::Bn254Fr.modulus(),
    ensures
        r == legendre_symbol(le_nat(a@)),
{
    match ark_bn254::Fr::from_le_bytes_mod_order(a).legendre() {
        LegendreSymbol::Zero => 0,
        LegendreSymbol::QuadraticResidue => 1,
        LegendreSymbol::QuadraticNonResidue => 2,
    }
}

/// `sqrt` of `ark_bn254::Fr`. What it computes is given a name, not a
/// formula; a root is a canonical residue.
#[verifier::external_body]
pub(crate) fn bn254_fr_sqrt(a: &[u8]) -> (r: Option<Vec<u8>>)
    requires
        a@.len() == 32,
        le_nat(a@) < FieldKind::Bn254Fr.modulus(),
    ensures
        r is Some <==> bn254_fr_root(le_nat(a@)) is Some,
        r is Some ==> r.unwrap()@.len() == 32,
        r is Some ==> le_nat(r.unwrap()@) < FieldKind::Bn254Fr.modulus(),
        r is Some ==> le_nat(r.unwrap()@) == bn254_fr_root(le_nat(a@)).unwrap(),
{
    ark_bn254::Fr::from_le_bytes_mod_order(a).sqrt().map(|s| s.into_bigint().to_bytes_le())
}

/// `sha2::Sha256::digest`: the SHA-256 digest of the data, 32 bytes.
#[verifier::external_body]
pub(crate) fn sha256_digest(data: &[u8]) -> (r: Vec<u8>)
    ensures
        r@.len() == 32,
        r@ == sha256(data@),
{
    sha2::Sha256::digest(data).to_vec()
}

/// `hex::encode`: two lower-case hexadecimal digits for each byte, the high
/// half first.
#[verifier::external_body]
pub(crate) fn hex_encode(data: &[u8]) -> (r: String)
    ensures
        r@ == hex_lower(data@),
{
    hex::encode(data)
}

/// `ark_bn254::Fq::from_le_bytes_mod_order`: the number that the bytes spell,
/// least significant byte first, reduced modulo the order of the base field of BN254.
#[verifier::external_body]
pub(crate) fn bn254_fq_from_le_bytes_mod_order(bytes: &[u8]) -> (r: Vec<u8>)
    ensures
        r@.len() == 32,
        le_nat(r@) == le_nat(bytes@) % FieldKind::Bn254Fq.modulus(),
{
    ark_bn254::Fq::from_le_bytes_mod_order(bytes).into_bigint().to_bytes_le()
}

/// `ark_bn254::Fr::from_le_bytes_mod_order`: the number that the bytes spell,
/// least significant byte first, reduced modulo the order of the scalar field of BN254.
#[verifier::external_body]
pub(crate) fn bn254_fr_from_le_bytes_mod_order(bytes: &[u8]) -> (r: Vec<u8>)
    ensures
        r@.len() == 32,
        le_nat(r@) == le_nat(bytes@) % FieldKind::Bn254Fr.modulus(),
{
    ark_bn254::Fr::from_le_bytes_mod_order(bytes).into_bigint().to_bytes_le()
}

/// `ark_bls12_381::Fq::from_le_bytes_mod_order`: the number that the bytes spell,
/// least significant byte first, reduced modulo the order of the base field of BLS12-381.
#[verifier::external_body]
pub(crate) fn bls12_381_fq_from_le_bytes_mod_order(bytes: &[u8]) -> (r: Vec<u8>)
    ensures
        r@.len() == 48,
        le_nat(r@) == le_nat(bytes@) % FieldKind::Bls12_381Fq.modulus(),
{
    ark_bls12_381::Fq::from_le_bytes_mod_order(bytes).into_bigint().to_bytes_le()
}

/// `ark_bls12_381::Fr::from_le_bytes_mod_order`: the number that the bytes spell,
/// least significant byte first, reduced modulo the order of the scalar field of BLS12-381.
#[verifier::external_body]
pub(crate) fn bls12_381_fr_from_le_bytes_mod_order(bytes: &[u8]) -> (r: Vec<u8>)
    ensures
        r@.len() == 32,
        le_nat(r@) == le_nat(bytes@) % FieldKind::Bls12_381Fr.modulus(),
{
    ark_bls12_381::Fr::from_le_bytes_mod_order(bytes).into_bigint().to_bytes_le()
}

/// `taceo_ark_babyjubjub::Fr::from_le_bytes_mod_order`: the number that the bytes spell,
/// least significant byte first, reduced modulo the order of the scalar field of Baby Jubjub.
#[verifier::external_body]
pub(crate) fn babyjubjub_fr_from_le_bytes_mod_order(bytes: &[u8]) -> (r: Vec<u8>)
    ensures
        r@.len() == 32,
        le_nat(r@) == le_nat(bytes@) % FieldKind::BabyJubJubFr.modulus(),
{
    taceo_ark_babyjubjub::Fr::from_le_bytes_mod_order(bytes).into_bigint().to_bytes_le()
}

} // verus!
