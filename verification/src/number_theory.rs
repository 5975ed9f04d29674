//! Divisibility and primes: Bezout's identity, Euclid's lemma, and the
//! least prime factor of a number.

use vstd::arithmetic::div_mod::*;
use vstd::arithmetic::mul::*;
use vstd::prelude::*;

verus! {

/// The positive number `d` divides `n`.
pub open spec fn divides(d: int, n: int) -> bool {
    d > 0 && n % d == 0
}

/// The number `p` is prime: it is at least two, and no number strictly
/// between one and `p` divides it.
pub open spec fn is_prime(p: int) -> bool {
    &&& p >= 2
    &&& forall|d: int| 1 < d < p ==> #[trigger] (p % d) != 0
}

/// A number is its divisor times the quotient.
pub proof fn lemma_divides_quotient(d: int, n: int)
    requires
        divides(d, n),
    ensures
        n == d * (n / d),
        n == (n / d) * d,
{
    lemma_fundamental_div_mod(n, d);
    lemma_mul_is_commutative(d, n / d);
}

/// A number divides its multiples.
pub proof fn lemma_multiple_divides(d: int, k: int)
    requires
        d > 0,
    ensures
        divides(d, d * k),
        divides(d, k * d),
{
    lemma_mod_multiples_basic(k, d);
    lemma_mul_is_commutative(d, k);
}

/// A common divisor of two numbers divides their combinations.
pub proof fn lemma_divides_combination(d: int, x: int, y: int, u: int, v: int)
    requires
        divides(d, x),
        divides(d, y),
    ensures
        divides(d, u * x + v * y),
{
    lemma_divides_quotient(d, x);
    lemma_divides_quotient(d, y);
    let (a, b) = (x / d, y / d);
    let k = u * a + v * b;
    assert(u * (d * a) + v * (d * b) == d * k) by (nonlinear_arith)
        requires
            k == u * a + v * b,
    ;
    lemma_multiple_divides(d, k);
}

/// A divisor of a positive number is at most the number.
pub proof fn lemma_divisor_bound(d: int, n: int)
    requires
        divides(d, n),
        n > 0,
    ensures
        d <= n,
{
    lemma_mod_is_zero(n as nat, d as nat);
}

/// A divisor of a divisor is a divisor.
pub proof fn lemma_divides_transitive(a: int, b: int, c: int)
    requires
        divides(a, b),
        divides(b, c),
    ensures
        divides(a, c),
{
    lemma_divides_quotient(a, b);
    lemma_divides_quotient(b, c);
    let (j, k) = (b / a, c / b);
    assert((a * j) * k == a * (j * k)) by (nonlinear_arith);
    lemma_multiple_divides(a, j * k);
}

/// Bezout's identity: a common divisor of two numbers that is a
/// combination of them.
pub proof fn lemma_bezout(a: int, b: int) -> (r: (int, int, int))
    requires
        a >= 0,
        b >= 0,
        a + b > 0,
    ensures
        r.0 == r.1 * a + r.2 * b,
        divides(r.0, a),
        divides(r.0, b),
    decreases b,
{
    if b == 0 {
        lemma_mod_self_0(a);
        (a, 1, 0)
    } else {
        lemma_mod_pos_bound(a, b);
        let (g, u, v) = lemma_bezout(b, a % b);
        lemma_fundamental_div_mod(a, b);
        let q = a / b;
        let m = a % b;
        lemma_divides_combination(g, b, m, q, 1);
        assert(q * b + 1 * m == a) by (nonlinear_arith)
            requires
                a == b * q + m,
        ;
        assert(u * b + v * m == v * a + (u - v * q) * b) by (nonlinear_arith)
            requires
                a == b * q + m,
        ;
        (g, v, u - v * q)
    }
}

/// The only divisors of a prime are one and the prime.
pub proof fn lemma_prime_divisors(p: int, g: int)
    requires
        is_prime(p),
        divides(g, p),
    ensures
        g == 1 || g == p,
{
    lemma_divisor_bound(g, p);
    if 1 < g < p {
        assert(p % g != 0);
    }
}

/// Euclid's lemma: a prime that divides a product divides a factor.
pub proof fn lemma_prime_divides_product(p: int, a: int, b: int)
    requires
        is_prime(p),
        a >= 0,
        b >= 0,
        divides(p, a * b),
    ensures
        divides(p, a) || divides(p, b),
{
    if !divides(p, a) {
        let (g, u, v) = lemma_bezout(a, p);
        lemma_prime_divisors(p, g);
        assert(g == 1);
        let ab = a * b;
        assert(b == u * ab + (v * b) * p) by (nonlinear_arith)
            requires
                1 == u * a + v * p,
                ab == a * b,
        ;
        lemma_multiple_divides(p, v * b);
        lemma_divides_combination(p, ab, (v * b) * p, u, 1);
    }
}

/// Where a prime `q` does not divide `e`, and `e` divides `q c`, `e`
/// divides `c`.
pub proof fn lemma_coprime_cancel(q: int, e: int, c: int)
    requires
        is_prime(q),
        e > 0,
        c >= 0,
        !divides(q, e),
        divides(e, q * c),
    ensures
        divides(e, c),
{
    let (g, u, v) = lemma_bezout(e, q);
    lemma_prime_divisors(q, g);
    assert(g == 1);
    let qc = q * c;
    assert(c == (u * c) * e + v * qc) by (nonlinear_arith)
        requires
            1 == u * e + v * q,
            qc == q * c,
    ;
    lemma_multiple_divides(e, u * c);
    lemma_divides_combination(e, (u * c) * e, qc, 1, v);
}

/// Where `a` and a prime `q` that does not divide `a` both divide `d`,
/// their product divides `d`.
pub proof fn lemma_product_divides(a: int, q: int, d: int)
    requires
        is_prime(q),
        a > 0,
        d >= 0,
        !divides(q, a),
        divides(a, d),
        divides(q, d),
    ensures
        divides(a * q, d),
{
    lemma_divides_quotient(a, d);
    let k = d / a;
    lemma_div_pos_is_pos(d, a);
    lemma_prime_divides_product(q, a, k);
    lemma_divides_quotient(q, k);
    let j = k / q;
    assert(a * (q * j) == (a * q) * j) by (nonlinear_arith);
    lemma_mul_strictly_positive(a, q);
    lemma_multiple_divides(a * q, j);
}

/// The least divisor of `n` from `k` on, where none is below `k`.
proof fn lemma_least_divisor(n: int, k: int) -> (p: int)
    requires
        2 <= k <= n,
        forall|d: int| 1 < d < k ==> #[trigger] (n % d) != 0,
    ensures
        k <= p <= n,
        divides(p, n),
        forall|d: int| 1 < d < p ==> #[trigger] (n % d) != 0,
    decreases n - k,
{
    if n % k == 0 {
        k
    } else {
        lemma_mod_self_0(n);
        lemma_least_divisor(n, k + 1)
    }
}

/// Every number from two on has a prime factor, and one that is not prime
/// has a prime factor whose square is at most the number.
pub proof fn lemma_prime_factor(n: int) -> (p: int)
    requires
        n >= 2,
    ensures
        is_prime(p),
        divides(p, n),
        !is_prime(n) ==> p * p <= n,
{
    let p = lemma_least_divisor(n, 2);
    assert forall|d: int| 1 < d < p implies #[trigger] (p % d) != 0 by {
        if p % d == 0 {
            lemma_divides_transitive(d, p, n);
            assert(n % d != 0);
        }
    }
    if !is_prime(n) {
        lemma_divides_quotient(p, n);
        let m = n / p;
        if p == n {
            assert(is_prime(n));
        }
        assert(m > 1) by (nonlinear_arith)
            requires
                n == p * m,
                2 <= p < n,
        ;
        lemma_multiple_divides(m, p);
        if m < p {
            assert(n % m != 0);
        }
        lemma_mul_inequality(p, m, p);
        lemma_mul_is_commutative(m, p);
    }
    p
}

/// Trial division: a number from two on is prime where no number from two
/// up to `s` divides it, and the square of `s + 1` is above it.
pub proof fn lemma_prime_by_trial(p: int, s: int)
    requires
        p >= 2,
        s >= 1,
        (s + 1) * (s + 1) > p,
        forall|d: int| 1 < d <= s ==> #[trigger] (p % d) != 0,
    ensures
        is_prime(p),
{
    if !is_prime(p) {
        let q = lemma_prime_factor(p);
        if q > s {
            lemma_mul_inequality(s + 1, q, s + 1);
            lemma_mul_inequality(s + 1, q, q);
            lemma_mul_is_commutative(q, s + 1);
        }
        assert(p % q != 0);
    }
}

} // verus!
