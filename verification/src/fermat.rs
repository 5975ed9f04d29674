//! Fermat's little theorem for the modulus, and with it the inverse:
//! every residue but zero is a power of the generator, whose order is the
//! modulus minus one.

use crate::generator::{
    generator, lemma_generator_full, lemma_generator_without_11, lemma_generator_without_2,
    lemma_generator_without_3, lemma_generator_without_of_108_bits,
    lemma_generator_without_of_138_bits,
};
use crate::modular::{field_inv, field_mul, modulus};
use crate::number_theory::{
    divides, is_prime, lemma_divides_quotient, lemma_divides_transitive, lemma_multiple_divides,
    lemma_prime_divides_product, lemma_prime_divisors, lemma_prime_factor,
};
use crate::order::{
    injective_into, is_order, lemma_order_divides, lemma_order_exists, lemma_pigeonhole_onto,
    lemma_pow_mod_bound, lemma_pow_mod_mul, lemma_pow_mod_multiple, lemma_power_nonzero,
    lemma_powers_distinct, pow_mod,
};
use crate::primes::{
    lemma_prime_11, lemma_prime_2, lemma_prime_3, lemma_prime_of_108_bits,
    lemma_prime_of_138_bits, lemma_prime_of_253_bits,
};
use vstd::arithmetic::div_mod::*;
use vstd::arithmetic::mul::*;
use vstd::arithmetic::power::*;
use vstd::prelude::*;

verus! {

/// The order of the field's multiplicative group: the modulus minus one,
/// which is 4 times 3 times 11 times a prime of 108 bits times a prime of
/// 138 bits.
pub open spec fn group_order() -> nat {
    0x1000000000000000000000000000000014def9dea2f79cd65812631a5cf5d3ecnat
}

/// The two large prime factors of the order of the multiplicative group.
pub open spec fn large_factors() -> (int, int) {
    (0x9c5c7a67bb0f1fef559a72f9c71int, 0x32cdcafae152df290ed9fa9b80caa8174cbint)
}

/// The modulus is prime.
pub proof fn lemma_modulus_prime()
    ensures
        is_prime(modulus() as int),
{
    lemma_prime_of_253_bits();
}

/// A prime that divides the order of the multiplicative group is one of
/// its five prime factors.
proof fn lemma_prime_factors_of_order(q: int)
    requires
        is_prime(q),
        divides(q, group_order() as int),
    ensures
        q == 2 || q == 3 || q == 11 || q == large_factors().0 || q == large_factors().1,
{
    lemma_prime_2();
    lemma_prime_3();
    lemma_prime_11();
    lemma_prime_of_108_bits();
    lemma_prime_of_138_bits();
    assert(0x1000000000000000000000000000000014def9dea2f79cd65812631a5cf5d3ecint == (132 * 0x9c5c7a67bb0f1fef559a72f9c71int) * 0x32cdcafae152df290ed9fa9b80caa8174cbint);
    assert(132 * 0x9c5c7a67bb0f1fef559a72f9c71int == 0x509faf1d7c73cc776823a348caa44int);
    lemma_prime_divides_product(q, 0x509faf1d7c73cc776823a348caa44int, 0x32cdcafae152df290ed9fa9b80caa8174cbint);
    if divides(q, 0x32cdcafae152df290ed9fa9b80caa8174cbint) {
        lemma_prime_divisors(0x32cdcafae152df290ed9fa9b80caa8174cbint, q);
    } else {
        lemma_prime_divides_product(q, 132, 0x9c5c7a67bb0f1fef559a72f9c71int);
        if divides(q, 0x9c5c7a67bb0f1fef559a72f9c71int) {
            lemma_prime_divisors(0x9c5c7a67bb0f1fef559a72f9c71int, q);
        } else {
            assert(132int == 12int * 11int);
            lemma_prime_divides_product(q, 12, 11);
            if divides(q, 11) {
                lemma_prime_divisors(11, q);
            } else {
                assert(12int == 4int * 3int);
                lemma_prime_divides_product(q, 4, 3);
                if divides(q, 3) {
                    lemma_prime_divisors(3, q);
                } else {
                    assert(4int == 2int * 2int);
                    lemma_prime_divides_product(q, 2, 2);
                    lemma_prime_divisors(2, q);
                }
            }
        }
    }
}

/// The order of the generator is the order of the multiplicative group.
pub proof fn lemma_generator_order()
    ensures
        is_order(generator(), modulus() as int, group_order()),
{
    let g = generator();
    let m = modulus() as int;
    let n = group_order();
    lemma_generator_full();
    let d = lemma_order_exists(g, m, n);
    lemma_order_divides(g, m, d, n);
    if d < n {
        lemma_divides_quotient(d as int, n as int);
        let c = n as int / d as int;
        assert(c >= 2) by (nonlinear_arith)
            requires
                n == d * c,
                0 < d < n,
        ;
        let q = lemma_prime_factor(c);
        lemma_multiple_divides(c, d as int);
        lemma_divides_transitive(q, c, n as int);
        lemma_prime_factors_of_order(q);
        // the order divides the group's order over that prime
        lemma_divides_quotient(q, c);
        let j = c / q;
        lemma_div_pos_is_pos(c, q);
        let e = d * j;
        assert(n == q * e) by (nonlinear_arith)
            requires
                n == d * c,
                c == q * j,
                e == d * j,
        ;
        lemma_div_multiples_vanish(e, q);
        lemma_mul_nonnegative(d as int, j);
        lemma_pow_mod_multiple(g, d, j as nat, m);
        assert(pow_mod(g, (n as int / q) as nat, m) == 1);
        lemma_generator_without_2();
        lemma_generator_without_3();
        lemma_generator_without_11();
        lemma_generator_without_of_108_bits();
        lemma_generator_without_of_138_bits();
        if q == 2 {
            assert(n as int / 2 == 0x80000000000000000000000000000000a6f7cef517bce6b2c09318d2e7ae9f6int);
        } else if q == 3 {
            assert(n as int / 3 == 0x55555555555555555555555555555555c4a534a3652899cc8062108c9a746a4int);
        } else if q == 11 {
            assert(n as int / 11 == 0x1745d1745d1745d1745d1745d1745d17642d0e5b1b96b594dd3204836ff1344int);
        } else if q == large_factors().0 {
            assert(n as int / 0x9c5c7a67bb0f1fef559a72f9c71int == 0x1a321ca95c2ebb112ba865382e687eac038acint);
        } else {
            assert(n as int / 0x32cdcafae152df290ed9fa9b80caa8174cbint == 0x509faf1d7c73cc776823a348caa44int);
        }
        assert(false);
    }
}

/// Every residue from one up to the modulus minus one is a power of the
/// generator.
pub proof fn lemma_generated(x: int) -> (i: nat)
    requires
        1 <= x < modulus(),
    ensures
        i < group_order(),
        pow_mod(generator(), i, modulus() as int) == x,
{
    let g = generator();
    let m = modulus() as int;
    let n = group_order();
    lemma_generator_order();
    let powers = |i: int| pow_mod(g, i as nat, m);
    assert forall|i: int| 0 <= i < n implies 1 <= #[trigger] powers(i) <= n by {
        lemma_pow_mod_bound(g, i as nat, m);
        lemma_power_nonzero(g, m, n, i as nat);
    }
    assert forall|i: int, j: int| 0 <= i < j < n implies #[trigger] powers(i) != #[trigger] powers(
        j,
    ) by {
        lemma_powers_distinct(g, m, n, i as nat, j as nat);
    }
    lemma_pigeonhole_onto(powers, n as int, x);
    let i = choose|i: int| 0 <= i < n && #[trigger] powers(i) == x;
    i as nat
}

/// Fermat's little theorem for the modulus: every residue but zero, to the
/// power of the modulus minus one, is one.
pub proof fn lemma_fermat(x: int)
    requires
        1 <= x < modulus(),
    ensures
        pow_mod(x, group_order(), modulus() as int) == 1,
{
    let g = generator();
    let m = modulus() as int;
    let n = group_order();
    let i = lemma_generated(x);
    lemma_generator_order();
    lemma_pow_mod_mul(g, i, n, m);
    lemma_pow_mod_multiple(g, n, i, m);
    lemma_mul_is_commutative(i as int, n as int);
}

/// The inverting power inverts: a residue but zero, times its power with
/// the modulus minus two for exponent, is one.
pub proof fn lemma_field_inverse(a: nat)
    requires
        0 < a < modulus(),
    ensures
        field_mul(a, field_inv(a)) == 1,
{
    let m = modulus() as int;
    let e = (modulus() - 2) as nat;
    lemma_fermat(a as int);
    lemma_pow_adds(a as int, 1, e);
    lemma_pow1(a as int);
    lemma_mul_mod_noop_right(a as int, pow(a as int, e), m);
    assert(1 + e == group_order());
}

/// The inverting power of zero is zero.
pub proof fn lemma_field_inverse_of_zero()
    ensures
        field_inv(0) == 0,
{
    lemma0_pow((modulus() - 2) as nat);
}

/// The field has no divisors of zero: a product is zero only where a
/// factor is.
pub proof fn lemma_no_zero_divisors(a: nat, b: nat)
    requires
        a < modulus(),
        b < modulus(),
        field_mul(a, b) == 0,
    ensures
        a == 0 || b == 0,
{
    if a != 0 {
        // b is (inverse of a) a b, and a b is zero
        let i = field_inv(a) as int;
        let m = modulus() as int;
        lemma_field_inverse(a);
        lemma_mul_mod_noop_left(a * i, b as int, m);
        lemma_mul_mod_noop_right(i, (a * b) as int, m);
        assert((a * i) * b == i * (a * b)) by (nonlinear_arith);
        assert(1 * (b as int) == b);
        assert(i * 0 == 0);
        lemma_small_mod(b, modulus());
        lemma_small_mod(0, modulus());
    }
}

} // verus!
