//! The curve's parameter d is no square in the field, which is what makes
//! the formula of the sum complete.

use crate::fermat::{group_order, lemma_fermat};
use crate::generator::lemma_euler_witness;
use crate::modular::{
    congruent, curve_d, field_mul, lemma_congruent_mul, lemma_curve_d, lemma_reduce_mul,
    lemma_reduce_neg, lemma_reduce_small, modulus, reduce,
};
use crate::order::pow_mod;
use vstd::arithmetic::div_mod::*;
use vstd::arithmetic::power::*;
use vstd::prelude::*;

verus! {

/// The product of 86649 and 86650: minus the parameter d times the square
/// of 86650.
pub open spec fn euler_base() -> int {
    7508135850
}

/// An even power of a negative is the power of the positive.
proof fn lemma_pow_even_negative(e: int, h: nat)
    ensures
        pow(-e, 2 * h) == pow(e, 2 * h),
{
    lemma_pow_multiplies(-e, 2, h);
    lemma_pow_multiplies(e, 2, h);
    lemma_square_is_pow2(-e);
    lemma_square_is_pow2(e);
    assert((-e) * (-e) == e * e) by (nonlinear_arith);
}

/// No residue has the curve's parameter d for square.
pub proof fn lemma_d_not_square(s: nat)
    requires
        s < modulus(),
    ensures
        field_mul(s, s) != curve_d(),
{
    if field_mul(s, s) == curve_d() {
        let m = modulus() as int;
        let e = euler_base();
        let h = (group_order() / 2) as nat;
        let w = field_mul(86650, s);
        // the square of w is minus the base
        let si = s as int;
        let dd = curve_d() as int;
        lemma_curve_d();
        lemma_reduce_small(s);
        lemma_reduce_small(86650);
        lemma_reduce_small(curve_d());
        lemma_reduce_mul(86650, si);
        lemma_reduce_mul(86650 * si, 86650 * si);
        lemma_reduce_mul(si, si);
        lemma_reduce_mul(dd, 86650);
        lemma_reduce_neg(86649);
        lemma_reduce_mul(si * si, 86650);
        lemma_reduce_mul((si * si) * 86650, 86650);
        lemma_reduce_mul(-86649, 86650);
        assert((86650 * si) * (86650 * si) == ((si * si) * 86650) * 86650) by (nonlinear_arith);
        assert(congruent(si * si, dd));
        lemma_congruent_mul(si * si, dd, 86650, 86650);
        assert(congruent(dd * 86650, -86649));
        lemma_congruent_mul(dd * 86650, -86649, 86650, 86650);
        lemma_congruent_mul((si * si) * 86650, dd * 86650, 86650, 86650);
        assert(field_mul(w, w) == reduce(-e));
        // w is not zero, so its power with the group's order is one
        if w == 0 {
            assert(0 * 0 == 0);
            lemma_small_mod(0, modulus());
            assert(false);
        }
        lemma_fermat(w as int);
        // but that power is the power of minus the base with half the order
        lemma_pow_multiplies(w as int, 2, h);
        lemma_square_is_pow2(w as int);
        lemma_pow_mod_noop((w as int) * (w as int), h, m);
        lemma_pow_mod_noop(-e, h, m);
        assert(2 * h == group_order());
        assert(h == 2 * (h / 2));
        lemma_pow_even_negative(e, (h / 2) as nat);
        lemma_euler_witness();
        assert(pow_mod(w as int, group_order(), m) == m - 1);
        assert(false);
    }
}

} // verus!
