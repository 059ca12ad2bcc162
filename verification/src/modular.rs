//! Congruence of integers modulo a positive number, for proofs about
//! residues.

use vstd::arithmetic::div_mod::{lemma_fundamental_div_mod, lemma_mod_multiples_basic};
use vstd::prelude::*;

use crate::curve::{quad_add, quad_mul};
use crate::field::{mod_add, mod_mul, mod_neg};

verus! {

/// Whether `a` and `b` differ by a multiple of `p`.
pub open spec fn congruent(p: int, a: int, b: int) -> bool {
    (a - b) % p == 0
}

/// The multiple of `p` by which two congruent numbers differ.
pub proof fn lemma_congruent_witness(p: int, a: int, b: int) -> (k: int)
    requires
        p > 0,
        congruent(p, a, b),
    ensures
        a == b + k * p,
{
    let k = (a - b) / p;
    lemma_fundamental_div_mod(a - b, p);
    assert(p * k == k * p) by (nonlinear_arith);
    k
}

/// Numbers that differ by a multiple of `p` are congruent.
pub proof fn lemma_congruent_from(p: int, a: int, b: int, k: int)
    requires
        p > 0,
        a == b + k * p,
    ensures
        congruent(p, a, b),
{
    lemma_mod_multiples_basic(k, p);
}

/// A number is congruent to its residue.
pub proof fn lemma_residue(p: int, a: int)
    requires
        p > 0,
    ensures
        congruent(p, a % p, a),
        0 <= a % p < p,
{
    lemma_fundamental_div_mod(a, p);
    let k = -(a / p);
    assert(a % p == a + k * p) by (nonlinear_arith)
        requires
            a == p * (a / p) + (a % p),
            k == -(a / p),
    ;
    lemma_congruent_from(p, a % p, a, k);
}

/// Congruence is transitive.
pub proof fn lemma_congruent_chain(p: int, a: int, b: int, c: int)
    requires
        p > 0,
        congruent(p, a, b),
        congruent(p, b, c),
    ensures
        congruent(p, a, c),
{
    let k = lemma_congruent_witness(p, a, b);
    let l = lemma_congruent_witness(p, b, c);
    assert(a == c + (k + l) * p) by (nonlinear_arith)
        requires
            a == b + k * p,
            b == c + l * p,
    ;
    lemma_congruent_from(p, a, c, k + l);
}

/// Two numbers that are congruent to a third are congruent.
pub proof fn lemma_congruent_same(p: int, a: int, b: int, c: int)
    requires
        p > 0,
        congruent(p, a, c),
        congruent(p, b, c),
    ensures
        congruent(p, a, b),
{
    let k = lemma_congruent_witness(p, a, c);
    let l = lemma_congruent_witness(p, b, c);
    assert(a == b + (k - l) * p) by (nonlinear_arith)
        requires
            a == c + k * p,
            b == c + l * p,
    ;
    lemma_congruent_from(p, a, b, k - l);
}

/// Sums of congruent numbers are congruent.
pub proof fn lemma_congruent_sum(p: int, a: int, x: int, b: int, y: int)
    requires
        p > 0,
        congruent(p, a, x),
        congruent(p, b, y),
    ensures
        congruent(p, a + b, x + y),
{
    let k = lemma_congruent_witness(p, a, x);
    let l = lemma_congruent_witness(p, b, y);
    assert(a + b == (x + y) + (k + l) * p) by (nonlinear_arith)
        requires
            a == x + k * p,
            b == y + l * p,
    ;
    lemma_congruent_from(p, a + b, x + y, k + l);
}

/// Products of congruent numbers are congruent.
pub proof fn lemma_congruent_product(p: int, a: int, x: int, b: int, y: int)
    requires
        p > 0,
        congruent(p, a, x),
        congruent(p, b, y),
    ensures
        congruent(p, a * b, x * y),
{
    let k = lemma_congruent_witness(p, a, x);
    let l = lemma_congruent_witness(p, b, y);
    let m = k * y + l * x + k * l * p;
    assert(a * b == x * y + m * p) by (nonlinear_arith)
        requires
            a == x + k * p,
            b == y + l * p,
            m == k * y + l * x + k * l * p,
    ;
    lemma_congruent_from(p, a * b, x * y, m);
}

/// Negatives of congruent numbers are congruent.
pub proof fn lemma_congruent_negative(p: int, a: int, x: int)
    requires
        p > 0,
        congruent(p, a, x),
    ensures
        congruent(p, -a, -x),
{
    let k = lemma_congruent_witness(p, a, x);
    assert(-a == -x + (-k) * p) by (nonlinear_arith)
        requires
            a == x + k * p,
    ;
    lemma_congruent_from(p, -a, -x, -k);
}

/// Congruent residues are equal.
pub proof fn lemma_congruent_residues(p: int, a: int, b: int)
    requires
        p > 0,
        congruent(p, a, b),
        0 <= a < p,
        0 <= b < p,
    ensures
        a == b,
{
    let k = lemma_congruent_witness(p, a, b);
    assert(k == 0) by (nonlinear_arith)
        requires
            a == b + k * p,
            0 <= a < p,
            0 <= b < p,
            p > 0,
    ;
}

/// The sum of two residues is congruent to the sum of what they are
/// congruent to.
pub proof fn lemma_mod_add(p: nat, a: nat, x: int, b: nat, y: int)
    requires
        p > 0,
        congruent(p as int, a as int, x),
        congruent(p as int, b as int, y),
    ensures
        congruent(p as int, mod_add(p, a, b) as int, x + y),
        mod_add(p, a, b) < p,
{
    lemma_residue(p as int, (a + b) as int);
    lemma_congruent_sum(p as int, a as int, x, b as int, y);
    lemma_congruent_chain(p as int, mod_add(p, a, b) as int, (a + b) as int, x + y);
}

/// The product of two residues is congruent to the product of what they
/// are congruent to.
pub proof fn lemma_mod_mul(p: nat, a: nat, x: int, b: nat, y: int)
    requires
        p > 0,
        congruent(p as int, a as int, x),
        congruent(p as int, b as int, y),
    ensures
        congruent(p as int, mod_mul(p, a, b) as int, x * y),
        mod_mul(p, a, b) < p,
{
    lemma_residue(p as int, (a * b) as int);
    lemma_congruent_product(p as int, a as int, x, b as int, y);
    lemma_congruent_chain(p as int, mod_mul(p, a, b) as int, (a * b) as int, x * y);
}

/// The negative of a residue is congruent to the negative of what it is
/// congruent to.
pub proof fn lemma_mod_neg(p: nat, a: nat, x: int)
    requires
        p > 0,
        congruent(p as int, a as int, x),
    ensures
        congruent(p as int, mod_neg(p, a) as int, -x),
        mod_neg(p, a) < p,
{
    lemma_residue(p as int, p - a);
    lemma_congruent_from(p as int, p - a, -(a as int), 1);
    lemma_congruent_negative(p as int, a as int, x);
    lemma_congruent_chain(p as int, mod_neg(p, a) as int, p - a, -(a as int));
    lemma_congruent_chain(p as int, mod_neg(p, a) as int, -(a as int), -x);
}

/// Every number is congruent to itself.
pub proof fn lemma_congruent_self(p: int, a: int)
    requires
        p > 0,
    ensures
        congruent(p, a, a),
{
    lemma_congruent_from(p, a, a, 0);
}

/// The product of two elements of the quadratic extension is congruent,
/// component by component, to the product of what their components are
/// congruent to.
pub proof fn lemma_quad_mul(p: nat, a: (nat, nat), x: (int, int), b: (nat, nat), y: (int, int))
    requires
        p > 0,
        congruent(p as int, a.0 as int, x.0),
        congruent(p as int, a.1 as int, x.1),
        congruent(p as int, b.0 as int, y.0),
        congruent(p as int, b.1 as int, y.1),
    ensures
        congruent(p as int, quad_mul(p, a, b).0 as int, x.0 * y.0 - x.1 * y.1),
        congruent(p as int, quad_mul(p, a, b).1 as int, x.0 * y.1 + x.1 * y.0),
        quad_mul(p, a, b).0 < p,
        quad_mul(p, a, b).1 < p,
{
    let m = p as int;
    let a0 = a.0 as int;
    let a1 = a.1 as int;
    let b0 = b.0 as int;
    let b1 = b.1 as int;
    lemma_congruent_product(m, a0, x.0, b0, y.0);
    lemma_congruent_product(m, a1, x.1, b1, y.1);
    lemma_congruent_product(m, a0, x.0, b1, y.1);
    lemma_congruent_product(m, a1, x.1, b0, y.0);
    lemma_congruent_negative(m, a1 * b1, x.1 * y.1);
    lemma_congruent_sum(m, a0 * b0, x.0 * y.0, -(a1 * b1), -(x.1 * y.1));
    lemma_congruent_sum(m, a0 * b1, x.0 * y.1, a1 * b0, x.1 * y.0);
    lemma_residue(m, a0 * b0 - a1 * b1);
    lemma_residue(m, a0 * b1 + a1 * b0);
    lemma_congruent_chain(m, quad_mul(p, a, b).0 as int, a0 * b0 - a1 * b1, x.0 * y.0 - x.1 * y.1);
    lemma_congruent_chain(m, quad_mul(p, a, b).1 as int, a0 * b1 + a1 * b0, x.0 * y.1 + x.1 * y.0);
}

/// The sum of two elements of the quadratic extension is congruent,
/// component by component, to the sum of what their components are
/// congruent to.
pub proof fn lemma_quad_add(p: nat, a: (nat, nat), x: (int, int), b: (nat, nat), y: (int, int))
    requires
        p > 0,
        congruent(p as int, a.0 as int, x.0),
        congruent(p as int, a.1 as int, x.1),
        congruent(p as int, b.0 as int, y.0),
        congruent(p as int, b.1 as int, y.1),
    ensures
        congruent(p as int, quad_add(p, a, b).0 as int, x.0 + y.0),
        congruent(p as int, quad_add(p, a, b).1 as int, x.1 + y.1),
        quad_add(p, a, b).0 < p,
        quad_add(p, a, b).1 < p,
{
    lemma_mod_add(p, a.0, x.0, b.0, y.0);
    lemma_mod_add(p, a.1, x.1, b.1, y.1);
}

/// An element of the quadratic extension and its negative have the same
/// square.
pub proof fn lemma_quad_square_of_negative(p: nat, a: (nat, nat))
    requires
        p > 0,
    ensures
        quad_mul(p, (mod_neg(p, a.0), mod_neg(p, a.1)), (mod_neg(p, a.0), mod_neg(p, a.1)))
            == quad_mul(p, a, a),
{
    let m = p as int;
    let a0 = a.0 as int;
    let a1 = a.1 as int;
    let n = (mod_neg(p, a.0), mod_neg(p, a.1));
    lemma_congruent_self(m, a0);
    lemma_congruent_self(m, a1);
    lemma_mod_neg(p, a.0, a0);
    lemma_mod_neg(p, a.1, a1);
    lemma_quad_mul(p, a, (a0, a1), a, (a0, a1));
    lemma_quad_mul(p, n, (-a0, -a1), n, (-a0, -a1));
    assert((-a0) * (-a0) - (-a1) * (-a1) == a0 * a0 - a1 * a1) by (nonlinear_arith);
    assert((-a0) * (-a1) + (-a1) * (-a0) == a0 * a1 + a1 * a0) by (nonlinear_arith);
    lemma_congruent_same(m, quad_mul(p, n, n).0 as int, quad_mul(p, a, a).0 as int, a0 * a0 - a1 * a1);
    lemma_congruent_same(m, quad_mul(p, n, n).1 as int, quad_mul(p, a, a).1 as int, a0 * a1 + a1 * a0);
    lemma_congruent_residues(m, quad_mul(p, n, n).0 as int, quad_mul(p, a, a).0 as int);
    lemma_congruent_residues(m, quad_mul(p, n, n).1 as int, quad_mul(p, a, a).1 as int);
}

} // verus!
