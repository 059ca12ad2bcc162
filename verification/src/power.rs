//! Powers of residues: the power to a sum of exponents, and the steps of
//! square-and-multiply, by which a power to a large exponent is reached
//! from the leading digits of the exponent.

use vstd::prelude::*;

use crate::field::{mod_mul, mod_pow};
use crate::modular::{
    lemma_congruent_residues, lemma_congruent_same, lemma_congruent_self, lemma_mod_mul,
    lemma_residue,
};

verus! {

/// A power is a residue.
pub proof fn lemma_pow_bound(p: nat, a: nat, e: nat)
    requires
        p > 0,
    ensures
        mod_pow(p, a, e) < p,
{
    if e == 0 {
        lemma_residue(p as int, 1);
    } else {
        lemma_residue(p as int, (a * mod_pow(p, a, (e - 1) as nat)) as int);
    }
}

/// The power to a sum of exponents is the product of the powers.
pub proof fn lemma_pow_sum(p: nat, a: nat, m: nat, n: nat)
    requires
        p > 0,
    ensures
        mod_pow(p, a, m + n) == mod_mul(p, mod_pow(p, a, m), mod_pow(p, a, n)),
    decreases m,
{
    let q = p as int;
    let pn = mod_pow(p, a, n);
    lemma_pow_bound(p, a, n);
    lemma_pow_bound(p, a, m + n);
    lemma_congruent_self(q, pn as int);
    if m == 0 {
        lemma_residue(q, 1);
        lemma_mod_mul(p, 1nat % p, 1, pn, pn as int);
        assert(1 * (pn as int) == pn as int);
        lemma_congruent_residues(q, mod_mul(p, 1nat % p, pn) as int, pn as int);
        assert(m + n == n);
    } else {
        let m1 = (m - 1) as nat;
        let pm1 = mod_pow(p, a, m1);
        lemma_pow_sum(p, a, m1, n);
        assert((m + n - 1) as nat == m1 + n);
        let left = mod_mul(p, a, mod_mul(p, pm1, pn));
        let right = mod_mul(p, mod_mul(p, a, pm1), pn);
        assert(mod_pow(p, a, m + n) == left);
        assert(mod_pow(p, a, m) == mod_mul(p, a, pm1));
        lemma_congruent_self(q, a as int);
        lemma_residue(q, (pm1 * pn) as int);
        lemma_mod_mul(p, a, a as int, mod_mul(p, pm1, pn), (pm1 * pn) as int);
        lemma_residue(q, (a * pm1) as int);
        lemma_mod_mul(p, mod_mul(p, a, pm1), (a * pm1) as int, pn, pn as int);
        assert(a * (pm1 * pn) == (a * pm1) * pn) by (nonlinear_arith);
        lemma_congruent_same(q, left as int, right as int, (a * (pm1 * pn)) as int);
        lemma_congruent_residues(q, left as int, right as int);
    }
}

/// One step of square-and-multiply: the square of `v`, times `a` where
/// `odd` holds.
pub open spec fn pow_step(p: nat, a: nat, v: nat, odd: bool) -> nat {
    if odd {
        mod_mul(p, a, mod_mul(p, v, v))
    } else {
        mod_mul(p, v, v)
    }
}

/// From the power to `e`, one step of square-and-multiply gives the power
/// to `2 * e`, or to `2 * e + 1` where `odd` holds.
pub proof fn lemma_pow_step(p: nat, a: nat, e: nat, odd: bool)
    requires
        p > 0,
    ensures
        mod_pow(p, a, 2 * e + (if odd { 1nat } else { 0nat })) == pow_step(p, a, mod_pow(p, a, e), odd),
{
    lemma_pow_sum(p, a, e, e);
    assert(e + e == 2 * e);
    if odd {
        assert((2 * e + 1 - 1) as nat == 2 * e);
    }
}

} // verus!
