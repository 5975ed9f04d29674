//! Powers modulo a number: the order of an element, and the counting
//! argument that bounds it.

use crate::number_theory::{divides, lemma_divides_quotient};
use vstd::arithmetic::div_mod::*;
use vstd::arithmetic::mul::*;
use vstd::arithmetic::power::*;
use vstd::prelude::*;

verus! {

/// The power `a^e` modulo `n`.
pub open spec fn pow_mod(a: int, e: nat, n: int) -> int {
    pow(a, e) % n
}

/// A power modulo `n` is a residue modulo `n`.
pub proof fn lemma_pow_mod_bound(a: int, e: nat, n: int)
    requires
        n >= 2,
    ensures
        0 <= pow_mod(a, e, n) < n,
{
    lemma_mod_division_less_than_divisor(pow(a, e), n);
}

/// The power with a sum for exponent is the product of the powers.
pub proof fn lemma_pow_mod_add(a: int, i: nat, j: nat, n: int)
    requires
        n >= 2,
    ensures
        pow_mod(a, i + j, n) == (pow_mod(a, i, n) * pow_mod(a, j, n)) % n,
{
    lemma_pow_adds(a, i, j);
    lemma_mul_mod_noop(pow(a, i), pow(a, j), n);
}

/// The power with a product for exponent is the power of the power.
pub proof fn lemma_pow_mod_mul(a: int, d: nat, t: nat, n: int)
    requires
        n >= 2,
    ensures
        pow_mod(a, d * t, n) == pow_mod(pow_mod(a, d, n), t, n),
{
    lemma_pow_multiplies(a, d, t);
    lemma_pow_mod_noop(pow(a, d), t, n);
}

/// Where a power is one, so is the power with any multiple of its exponent.
pub proof fn lemma_pow_mod_multiple(a: int, d: nat, t: nat, n: int)
    requires
        n >= 2,
        pow_mod(a, d, n) == 1,
    ensures
        pow_mod(a, d * t, n) == 1,
{
    lemma_pow_mod_mul(a, d, t, n);
    lemma1_pow(t);
    lemma_small_mod(1, n as nat);
}

/// A power modulo a divisor of `n` is the power modulo `n`, reduced.
pub proof fn lemma_pow_mod_divisor(a: int, e: nat, n: int, p: int)
    requires
        n >= 2,
        p >= 2,
        divides(p, n),
    ensures
        pow_mod(a, e, p) == pow_mod(a, e, n) % p,
{
    lemma_divides_quotient(p, n);
    lemma_div_pos_is_pos(n, p);
    if n / p <= 0 {
        assert(p * (n / p) <= 0) by (nonlinear_arith)
            requires
                p >= 2,
                n / p <= 0,
        ;
    }
    lemma_mod_mod(pow(a, e), p, n / p);
}

/// `d` is the order of `a` modulo `n`: the least positive exponent that
/// gives one.
pub open spec fn is_order(a: int, n: int, d: nat) -> bool {
    &&& d > 0
    &&& pow_mod(a, d, n) == 1
    &&& forall|k: nat| 0 < k < d ==> #[trigger] pow_mod(a, k, n) != 1
}

/// The least exponent from `k` on that gives one, where none below does.
proof fn lemma_order_from(a: int, n: int, m: nat, k: nat) -> (d: nat)
    requires
        0 < k <= m,
        pow_mod(a, m, n) == 1,
        forall|j: nat| 0 < j < k ==> #[trigger] pow_mod(a, j, n) != 1,
    ensures
        d <= m,
        is_order(a, n, d),
    decreases m - k,
{
    if pow_mod(a, k, n) == 1 {
        k
    } else {
        lemma_order_from(a, n, m, k + 1)
    }
}

/// An element with a power that is one has an order.
pub proof fn lemma_order_exists(a: int, n: int, m: nat) -> (d: nat)
    requires
        m > 0,
        pow_mod(a, m, n) == 1,
    ensures
        d <= m,
        is_order(a, n, d),
{
    lemma_order_from(a, n, m, 1)
}

/// The order divides every exponent that gives one.
pub proof fn lemma_order_divides(a: int, n: int, d: nat, k: nat)
    requires
        n >= 2,
        is_order(a, n, d),
        pow_mod(a, k, n) == 1,
    ensures
        divides(d as int, k as int),
{
    let t = (k / d) as nat;
    let r = (k % d) as nat;
    lemma_fundamental_div_mod(k as int, d as int);
    lemma_mod_pos_bound(k as int, d as int);
    lemma_div_pos_is_pos(k as int, d as int);
    lemma_pow_mod_multiple(a, d, t, n);
    lemma_pow_mod_add(a, d * t, r, n);
    lemma_pow_mod_bound(a, r, n);
    let x = pow_mod(a, r, n);
    assert(1 * x == x);
    lemma_small_mod(x as nat, n as nat);
    assert(d * t + r == k);
    if r > 0 {
        assert(pow_mod(a, r, n) != 1);
    }
}

/// The powers of an element with exponents below its order are distinct.
pub proof fn lemma_powers_distinct(a: int, n: int, d: nat, i: nat, j: nat)
    requires
        n >= 2,
        is_order(a, n, d),
        i < j < d,
    ensures
        pow_mod(a, i, n) != pow_mod(a, j, n),
{
    if pow_mod(a, i, n) == pow_mod(a, j, n) {
        let k = (j - i) as nat;
        let c = (d - i) as nat;
        // a^(k + d) is a^k, and it is a^j a^c, which is a^i a^c, which is one
        lemma_pow_mod_add(a, k, d, n);
        lemma_pow_mod_bound(a, k, n);
        let x = pow_mod(a, k, n);
        assert(x * 1 == x);
        lemma_small_mod(x as nat, n as nat);
        lemma_pow_mod_add(a, j, c, n);
        lemma_pow_mod_add(a, i, c, n);
        assert(k + d == j + c);
        assert(i + c == d);
        assert(pow_mod(a, k, n) == 1);
    }
}

/// The powers of an element with an order are not zero.
pub proof fn lemma_power_nonzero(a: int, n: int, d: nat, i: nat)
    requires
        n >= 2,
        is_order(a, n, d),
        i < d,
    ensures
        pow_mod(a, i, n) != 0,
{
    let c = (d - i) as nat;
    lemma_pow_mod_add(a, i, c, n);
    assert(i + c == d);
    if pow_mod(a, i, n) == 0 {
        let y = pow_mod(a, c, n);
        assert(0 * y == 0);
        lemma_small_mod(0, n as nat);
    }
}

/// The function `f` takes the numbers below `e` to distinct numbers from
/// one to `m`.
pub open spec fn injective_into(f: spec_fn(int) -> int, e: int, m: int) -> bool {
    &&& forall|i: int| 0 <= i < e ==> 1 <= #[trigger] f(i) <= m
    &&& forall|i: int, j: int| 0 <= i < j < e ==> #[trigger] f(i) != #[trigger] f(j)
}

/// The pigeonhole principle: distinct numbers from one to `m` are at most
/// `m` in number.
pub proof fn lemma_pigeonhole(f: spec_fn(int) -> int, e: int, m: int)
    requires
        e >= 0,
        m >= 0,
        injective_into(f, e, m),
    ensures
        e <= m,
    decreases m,
{
    if e > 0 {
        if m == 0 {
            assert(1 <= f(0) <= m);
        } else if exists|i: int| 0 <= i < e && #[trigger] f(i) == m {
            let i0 = choose|i: int| 0 <= i < e && #[trigger] f(i) == m;
            let last = f(e - 1);
            let g = |i: int|
                if i == i0 {
                    last
                } else {
                    f(i)
                };
            assert forall|i: int| 0 <= i < e - 1 implies 1 <= #[trigger] g(i) <= m - 1 by {
                assert(1 <= f(i) <= m);
                assert(1 <= f(e - 1) <= m);
                if i == i0 {
                    assert(f(i0) != f(e - 1));
                } else if i < i0 {
                    assert(f(i) != f(i0));
                } else {
                    assert(f(i0) != f(i));
                }
            }
            assert forall|i: int, j: int| 0 <= i < j < e - 1 implies #[trigger] g(i)
                != #[trigger] g(j) by {
                assert(f(i) != f(j));
                assert(f(i) != f(e - 1));
                assert(f(j) != f(e - 1));
            }
            lemma_pigeonhole(g, e - 1, m - 1);
        } else {
            assert forall|i: int| 0 <= i < e implies 1 <= #[trigger] f(i) <= m - 1 by {
                assert(1 <= f(i) <= m);
            }
            lemma_pigeonhole(f, e, m - 1);
        }
    }
}

/// As many distinct numbers from one to `m` as `m` are all of them.
pub proof fn lemma_pigeonhole_onto(f: spec_fn(int) -> int, m: int, y: int)
    requires
        m >= 1,
        injective_into(f, m, m),
        1 <= y <= m,
    ensures
        exists|i: int| 0 <= i < m && #[trigger] f(i) == y,
{
    if !(exists|i: int| 0 <= i < m && #[trigger] f(i) == y) {
        let g = |i: int|
            if f(i) == m {
                y
            } else {
                f(i)
            };
        assert forall|i: int| 0 <= i < m implies 1 <= #[trigger] g(i) <= m - 1 by {
            assert(1 <= f(i) <= m);
            assert(f(i) != y);
        }
        assert forall|i: int, j: int| 0 <= i < j < m implies #[trigger] g(i) != #[trigger] g(
            j,
        ) by {
            assert(f(i) != f(j));
            assert(f(i) != y);
            assert(f(j) != y);
        }
        lemma_pigeonhole(g, m, m - 1);
    }
}

} // verus!
