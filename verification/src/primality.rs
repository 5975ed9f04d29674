//! Proving that a number is prime from a part of the factorization of its
//! predecessor, after Pocklington, and the evaluation of powers modulo a
//! number that such a proof rests on.

use crate::number_theory::{
    divides, is_prime, lemma_coprime_cancel, lemma_divides_combination, lemma_divides_quotient,
    lemma_divisor_bound,
};
use crate::order::{
    injective_into, is_order, lemma_order_divides, lemma_pigeonhole, lemma_pow_mod_add,
    lemma_pow_mod_bound, lemma_pow_mod_divisor, lemma_pow_mod_multiple, lemma_power_nonzero,
    lemma_powers_distinct, pow_mod,
};
use vstd::arithmetic::div_mod::*;
use vstd::arithmetic::mul::*;
use vstd::arithmetic::power::*;
use vstd::prelude::*;

verus! {

/// One step of square-and-multiply from the top bit down.
pub open spec fn square_step(x: int, a: int, n: int, bit: int) -> int {
    if bit == 1 {
        (((x * x) % n) * a) % n
    } else {
        (x * x) % n
    }
}

/// One step of square-and-multiply doubles the exponent and adds the bit.
pub proof fn lemma_square_step(a: int, k: nat, n: int, bit: int, x: int)
    requires
        n >= 2,
        x == pow_mod(a, k, n),
        bit == 0 || bit == 1,
    ensures
        pow_mod(a, (2 * k + bit) as nat, n) == square_step(x, a, n, bit),
{
    lemma_pow_mod_add(a, k, k, n);
    if bit == 1 {
        lemma_pow_mod_add(a, k + k, 1, n);
        lemma_pow1(a);
        lemma_mul_mod_noop_right((x * x) % n, a, n);
    }
}

/// The power with exponent zero, where square-and-multiply starts.
pub proof fn lemma_square_start(a: int, n: int) -> (r: (nat, int))
    requires
        n >= 2,
    ensures
        r == (0nat, 1int),
        r.1 == pow_mod(a, r.0, n),
{
    lemma_pow0(a);
    lemma_small_mod(1, n as nat);
    (0, 1)
}

/// The heart of Pocklington's criterion: where `a^(n-1)` is one modulo `n`,
/// and `a^((n-1)/q) - 1` is coprime to `n` for a prime `q` that divides
/// `n - 1`, the prime `q` divides the order of `a` modulo every prime
/// factor `p` of `n`. The numbers `u` and `v` witness the coprimality.
pub proof fn lemma_pocklington_factor(
    n: int,
    a: int,
    q: int,
    c: int,
    u: int,
    v: int,
    p: int,
    d: nat,
)
    requires
        n >= 2,
        is_prime(q),
        divides(q, n - 1),
        pow_mod(a, (n - 1) as nat, n) == 1,
        c == pow_mod(a, ((n - 1) / q) as nat, n),
        u * (c - 1) + v * n == 1,
        is_prime(p),
        divides(p, n),
        is_order(a, p, d),
    ensures
        divides(q, d as int),
{
    let e = ((n - 1) / q) as nat;
    lemma_divides_quotient(q, n - 1);
    lemma_div_pos_is_pos(n - 1, q);
    // modulo p the full power is one, so the order divides n - 1
    lemma_pow_mod_divisor(a, (n - 1) as nat, n, p);
    lemma_small_mod(1, p as nat);
    lemma_order_divides(a, p, d, (n - 1) as nat);
    // modulo p the partial power is not one
    lemma_pow_mod_divisor(a, e, n, p);
    if pow_mod(a, e, p) == 1 {
        lemma_sub_mod_noop(c, 1, p);
        lemma_small_mod(0, p as nat);
        assert((c - 1) % p == 0);
        lemma_divides_combination(p, c - 1, n, u, v);
        assert(false);
    }
    if !divides(q, d as int) {
        lemma_coprime_cancel(q, d as int, e as int);
        lemma_divides_quotient(d as int, e as int);
        lemma_div_pos_is_pos(e as int, d as int);
        lemma_pow_mod_multiple(a, d, (e / d) as nat, p);
        assert(false);
    }
}

/// The end of Pocklington's criterion: a prime `p` modulo which the order
/// of some `a` is a multiple of `f` is above `f`, so that its square is
/// above `n` where the square of `f` is.
pub proof fn lemma_pocklington_bound(n: int, a: int, f: int, p: int, d: nat)
    requires
        n >= 2,
        is_prime(p),
        divides(p, n),
        is_order(a, p, d),
        divides(f, d as int),
        f * f > n,
    ensures
        p * p > n,
{
    let powers = |i: int| pow_mod(a, i as nat, p);
    assert forall|i: int| 0 <= i < d implies 1 <= #[trigger] powers(i) <= p - 1 by {
        lemma_pow_mod_bound(a, i as nat, p);
        lemma_power_nonzero(a, p, d, i as nat);
    }
    assert forall|i: int, j: int| 0 <= i < j < d implies #[trigger] powers(i) != #[trigger] powers(
        j,
    ) by {
        lemma_powers_distinct(a, p, d, i as nat, j as nat);
    }
    lemma_pigeonhole(powers, d as int, p - 1);
    lemma_divisor_bound(f, d as int);
    assert(f * f < p * p) by (nonlinear_arith)
        requires
            0 < f < p,
    ;
}

} // verus!
