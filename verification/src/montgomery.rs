//! Wide products of limbs and their Montgomery reduction.

use crate::limbs::{
    lemma_carry_step, lemma_u64_split52, limbs_bounded, limbs_value, sub_limbs, wide_value, L0, L1,
    L2, L3, L4, LFACTOR, MASK52,
};
use crate::modular::{
    from_montgomery, lemma_montgomery_quotient, lemma_mul_congruent, modulus, radix,
};
use vstd::arithmetic::div_mod::*;
use vstd::prelude::*;

verus! {

/// The largest product of two limbs below 2^52.
pub open spec fn max_product() -> int {
    0xffffffffffffe0000000000001
}

/// Nine wide limbs, each small enough for the reduction's sums to fit.
pub open spec fn wide_bounded(z: Seq<u128>) -> bool {
    &&& z.len() == 9
    &&& z[0] <= 5 * max_product()
    &&& z[1] <= 5 * max_product()
    &&& z[2] <= 5 * max_product()
    &&& z[3] <= 5 * max_product()
    &&& z[4] <= 5 * max_product()
    &&& z[5] <= 5 * max_product()
    &&& z[6] <= 5 * max_product()
    &&& z[7] <= 5 * max_product()
    &&& z[8] <= 5 * max_product()
}

/// The product of two words, which always fits in a wide word.
pub(crate) fn m(x: u64, y: u64) -> (r: u128)
    ensures
        r == x * y,
        x <= MASK52 && y <= MASK52 ==> r <= max_product(),
{
    assert(x * y <= 0xffffffffffffffff * 0xffffffffffffffff) by (nonlinear_arith)
        requires
            x <= 0xffffffffffffffff,
            y <= 0xffffffffffffffff,
    ;
    assert(x <= MASK52 && y <= MASK52 ==> x * y <= 0xfffffffffffff * 0xfffffffffffff)
        by (nonlinear_arith);
    (x as u128) * (y as u128)
}

/// A number times a number in radix 2^52, limb by limb.
proof fn lemma_row(a: int, b0: int, b1: int, b2: int, b3: int, b4: int)
    by (nonlinear_arith)
    ensures
        a * (b0 + b1 * 0x10000000000000 + b2 * 0x100000000000000000000000000 + b3 * 0x1000000000000000000000000000000000000000 + b4 * 0x10000000000000000000000000000000000000000000000000000)
            == a * b0 + (a * b1) * 0x10000000000000 + (a * b2) * 0x100000000000000000000000000 + (a * b3) * 0x1000000000000000000000000000000000000000 + (a * b4) * 0x10000000000000000000000000000000000000000000000000000,
        (b0 + b1 * 0x10000000000000 + b2 * 0x100000000000000000000000000 + b3 * 0x1000000000000000000000000000000000000000 + b4 * 0x10000000000000000000000000000000000000000000000000000) * a
            == a * b0 + (a * b1) * 0x10000000000000 + (a * b2) * 0x100000000000000000000000000 + (a * b3) * 0x1000000000000000000000000000000000000000 + (a * b4) * 0x10000000000000000000000000000000000000000000000000000,
{
}

/// The product of two numbers in radix 2^52, as the sum of the products of
/// their limbs.
pub(crate) proof fn lemma_schoolbook(
    a0: int, a1: int, a2: int, a3: int, a4: int,
    b0: int, b1: int, b2: int, b3: int, b4: int,
)
    ensures
        (a0 + a1 * 0x10000000000000 + a2 * 0x100000000000000000000000000 + a3 * 0x1000000000000000000000000000000000000000 + a4 * 0x10000000000000000000000000000000000000000000000000000)
            * (b0 + b1 * 0x10000000000000 + b2 * 0x100000000000000000000000000 + b3 * 0x1000000000000000000000000000000000000000 + b4 * 0x10000000000000000000000000000000000000000000000000000)
            == a0 * b0
            + (a0 * b1 + a1 * b0) * 0x10000000000000
            + (a0 * b2 + a1 * b1 + a2 * b0) * 0x100000000000000000000000000
            + (a0 * b3 + a1 * b2 + a2 * b1 + a3 * b0) * 0x1000000000000000000000000000000000000000
            + (a0 * b4 + a1 * b3 + a2 * b2 + a3 * b1 + a4 * b0) * 0x10000000000000000000000000000000000000000000000000000
            + (a1 * b4 + a2 * b3 + a3 * b2 + a4 * b1) * 0x100000000000000000000000000000000000000000000000000000000000000000
            + (a2 * b4 + a3 * b3 + a4 * b2) * 0x1000000000000000000000000000000000000000000000000000000000000000000000000000000
            + (a3 * b4 + a4 * b3) * 0x10000000000000000000000000000000000000000000000000000000000000000000000000000000000000000000
            + (a4 * b4) * 0x100000000000000000000000000000000000000000000000000000000000000000000000000000000000000000000000000000000,
{
    let b = b0 + b1 * 0x10000000000000 + b2 * 0x100000000000000000000000000 + b3 * 0x1000000000000000000000000000000000000000 + b4 * 0x10000000000000000000000000000000000000000000000000000;
    lemma_row(b, a0, a1, a2, a3, a4);
    lemma_row(a0, b0, b1, b2, b3, b4);
    lemma_row(a1, b0, b1, b2, b3, b4);
    lemma_row(a2, b0, b1, b2, b3, b4);
    lemma_row(a3, b0, b1, b2, b3, b4);
    lemma_row(a4, b0, b1, b2, b3, b4);
    assert(b * a0 == a0 * b) by (nonlinear_arith);
    assert(b * a1 == a1 * b) by (nonlinear_arith);
    assert(b * a2 == a2 * b) by (nonlinear_arith);
    assert(b * a3 == a3 * b) by (nonlinear_arith);
    assert(b * a4 == a4 * b) by (nonlinear_arith);
}

/// The low 64 bits of a wide word, and its split at bit 52.
proof fn lemma_u128_split52(x: u128)
    by (bit_vector)
    ensures
        x as u64 == x % 0x10000000000000000,
        x >> 52 == x / 0x10000000000000,
{
}

/// The modulus's lowest limb times `LFACTOR` is minus one modulo 2^52.
proof fn lemma_lfactor()
    ensures
        (L0 * LFACTOR + 1) % 0x10000000000000 == 0,
{
}

/// Where `f * l` is minus one modulo `b`, and `p` is congruent to
/// `sum * f`, the sum plus `p * l` is a multiple of `b`.
proof fn lemma_cancel(sum: int, f: int, l: int, b: int, p: int)
    requires
        b > 0,
        (f * l + 1) % b == 0,
        p % b == (sum * f) % b,
    ensures
        (sum + p * l) % b == 0,
{
    lemma_mul_mod_noop_left(p, l, b);
    lemma_mul_mod_noop_left(sum * f, l, b);
    assert(sum + (sum * f) * l == sum * (f * l + 1)) by (nonlinear_arith);
    lemma_mul_mod_noop_right(sum, f * l + 1, b);
    assert(sum * 0 == 0);
    lemma_small_mod(0, b as nat);
    lemma_add_mod_noop_right(sum, p * l, b);
    lemma_add_mod_noop_right(sum, (sum * f) * l, b);
}

/// The coefficient that cancels the low limb of a running sum: with it, the
/// sum plus the coefficient times the modulus's lowest limb is a multiple of
/// 2^52.
proof fn lemma_cancel_low_limb(sum: int, low: int, wrapped: int, p: int)
    requires
        low == sum % 0x10000000000000000,
        wrapped == (low * LFACTOR) % 0x10000000000000000,
        p == wrapped % 0x10000000000000,
    ensures
        (sum + p * L0) % 0x10000000000000 == 0,
{
    let b = 0x10000000000000int;
    let f = LFACTOR as int;
    lemma_mod_mod(sum, b, 0x1000);
    lemma_mod_mod(low * f, b, 0x1000);
    assert(low % b == sum % b);
    assert(p == (low * f) % b);
    lemma_mul_congruent(low, sum, f, b);
    lemma_mod_twice(low * f, b);
    lemma_lfactor();
    assert(f * L0 == L0 * LFACTOR) by (nonlinear_arith)
        requires
            f == LFACTOR,
    ;
    lemma_cancel(sum, f, L0 as int, b, p);
}

/// One cancelling step of the reduction: the coefficient `p` for this limb,
/// and the running sum with `p` times the modulus's lowest limb added,
/// shifted down by 52 bits, which loses nothing.
fn part1(sum: u128) -> (r: (u128, u64))
    requires
        sum <= 0x3fffffffffffffffffffffffffffffff,
    ensures
        r.1 <= MASK52,
        r.0 * 0x10000000000000 == sum + r.1 * L0,
{
    let low: u64 = #[verifier::truncate]
    (sum as u64);
    let p: u64 = low.wrapping_mul(LFACTOR) & MASK52;
    let total: u128 = sum + m(p, L0);
    proof {
        lemma_u128_split52(sum);
        lemma_u128_split52(total);
        lemma_carry_step(low.wrapping_mul(LFACTOR));
        lemma_u64_split52(low.wrapping_mul(LFACTOR));
        lemma_cancel_low_limb(
            sum as int,
            low as int,
            low.wrapping_mul(LFACTOR) as int,
            p as int,
        );
    }
    (total >> 52, p)
}

/// One storing step of the reduction: the low 52 bits of the running sum,
/// and the rest shifted down.
fn part2(sum: u128) -> (r: (u128, u64))
    ensures
        r.1 <= MASK52,
        r.0 * 0x10000000000000 + r.1 == sum,
{
    let low: u64 = #[verifier::truncate]
    (sum as u64);
    let w: u64 = low & MASK52;
    proof {
        lemma_u128_split52(sum);
        lemma_u64_split52(low);
    }
    (sum >> 52, w)
}

/// The first half of a reduction: five cancelling steps. It gives the five
/// coefficients and the carry out of the low half, which is the low half
/// plus the low part of the coefficients times the modulus, divided by 2^260.
pub(crate) fn cancel_low_half(limbs: &[u128; 9]) -> (r: (u128, [u64; 5]))
    requires
        wide_bounded(limbs@),
    ensures
        limbs_bounded(r.1@),
        r.0 <= 0xffffffffffffffff,
        r.0 * 0x100000000000000000000000000000000000000000000000000000000000000000 == limbs[0] + limbs[1] * 0x10000000000000 + limbs[2] * 0x100000000000000000000000000 + limbs[3] * 0x1000000000000000000000000000000000000000 + limbs[4] * 0x10000000000000000000000000000000000000000000000000000
            + r.1[0] * 0x1000000000000000000000000000000014def9dea2f79cd65812631a5cf5d3ed
            + r.1[1] * 0x14def9dea2f79cd65812631a5cf5d3ed0000000000000
            + r.1[2] * 0x14def9dea2f79cd65812631a5cf5d3ed00000000000000000000000000
            + r.1[3] * 0xdea2f79cd65812631a5cf5d3ed000000000000000000000000000000000000000
            + r.1[4] * 0x2631a5cf5d3ed0000000000000000000000000000000000000000000000000000,
{
    let (carry0, n0) = part1(limbs[0]);
    assert(carry0 <= 0xffffffffffffffff);
    let (carry1, n1) = part1(carry0 + limbs[1] + m(n0, L1));
    assert(carry1 <= 0xffffffffffffffff);
    let (carry2, n2) = part1(carry1 + limbs[2] + m(n0, L2) + m(n1, L1));
    assert(carry2 <= 0xffffffffffffffff);
    let (carry3, n3) = part1(carry2 + limbs[3] + m(n1, L2) + m(n2, L1));
    assert(carry3 <= 0xffffffffffffffff);
    let (carry4, n4) = part1(carry3 + limbs[4] + m(n0, L4) + m(n2, L2) + m(n3, L1));
    assert(carry4 <= 0xffffffffffffffff);
    proof {
        lemma_low_half_sum(
            limbs[0] as int, limbs[1] as int, limbs[2] as int, limbs[3] as int, limbs[4] as int,
            n0 as int, n1 as int, n2 as int, n3 as int, n4 as int,
            carry0 as int, carry1 as int, carry2 as int, carry3 as int, carry4 as int,
        );
    }
    (carry4, [n0, n1, n2, n3, n4])
}

/// The five cancelling steps of a reduction, summed.
proof fn lemma_low_half_sum(
    t0: int, t1: int, t2: int, t3: int, t4: int,
    n0: int, n1: int, n2: int, n3: int, n4: int,
    c0: int, c1: int, c2: int, c3: int, c4: int,
)
    requires
        c0 * 0x10000000000000 == t0 + n0 * 0x0002631a5cf5d3ed,
        c1 * 0x10000000000000 == c0 + t1 + n0 * 0x000dea2f79cd6581 + n1 * 0x0002631a5cf5d3ed,
        c2 * 0x10000000000000 == c1 + t2 + n0 * 0x14def9 + n1 * 0x000dea2f79cd6581 + n2 * 0x0002631a5cf5d3ed,
        c3 * 0x10000000000000 == c2 + t3 + n1 * 0x14def9 + n2 * 0x000dea2f79cd6581 + n3 * 0x0002631a5cf5d3ed,
        c4 * 0x10000000000000 == c3 + t4 + n0 * 0x0000100000000000 + n2 * 0x14def9 + n3 * 0x000dea2f79cd6581 + n4 * 0x0002631a5cf5d3ed,
    ensures
        c4 * 0x100000000000000000000000000000000000000000000000000000000000000000 == t0 + t1 * 0x10000000000000 + t2 * 0x100000000000000000000000000 + t3 * 0x1000000000000000000000000000000000000000 + t4 * 0x10000000000000000000000000000000000000000000000000000
            + n0 * 0x1000000000000000000000000000000014def9dea2f79cd65812631a5cf5d3ed
            + n1 * 0x14def9dea2f79cd65812631a5cf5d3ed0000000000000
            + n2 * 0x14def9dea2f79cd65812631a5cf5d3ed00000000000000000000000000
            + n3 * 0xdea2f79cd65812631a5cf5d3ed000000000000000000000000000000000000000
            + n4 * 0x2631a5cf5d3ed0000000000000000000000000000000000000000000000000000,
{
}

/// The second half of a reduction: four storing steps. With the carry out
/// of the first half and the rest of the coefficients times the modulus, the
/// high half is the quotient: four limbs and a last carry.
pub(crate) fn store_high_half(limbs: &[u128; 9], carry: u128, n: &[u64; 5]) -> (r: (
    u128,
    [u64; 4],
))
    requires
        wide_bounded(limbs@),
        limbs_bounded(n@),
        carry <= 0xffffffffffffffff,
    ensures
        r.1[0] <= MASK52,
        r.1[1] <= MASK52,
        r.1[2] <= MASK52,
        r.1[3] <= MASK52,
        (r.1[0] + r.1[1] * 0x10000000000000 + r.1[2] * 0x100000000000000000000000000 + r.1[3] * 0x1000000000000000000000000000000000000000 + r.0 * 0x10000000000000000000000000000000000000000000000000000) * 0x100000000000000000000000000000000000000000000000000000000000000000
            + limbs[0] + limbs[1] * 0x10000000000000 + limbs[2] * 0x100000000000000000000000000 + limbs[3] * 0x1000000000000000000000000000000000000000 + limbs[4] * 0x10000000000000000000000000000000000000000000000000000
            + n[0] * 0x1000000000000000000000000000000014def9dea2f79cd65812631a5cf5d3ed
            + n[1] * 0x14def9dea2f79cd65812631a5cf5d3ed0000000000000
            + n[2] * 0x14def9dea2f79cd65812631a5cf5d3ed00000000000000000000000000
            + n[3] * 0xdea2f79cd65812631a5cf5d3ed000000000000000000000000000000000000000
            + n[4] * 0x2631a5cf5d3ed0000000000000000000000000000000000000000000000000000
            == carry * 0x100000000000000000000000000000000000000000000000000000000000000000 + wide_value(limbs@) + (n[0] + n[1] * 0x10000000000000 + n[2] * 0x100000000000000000000000000 + n[3] * 0x1000000000000000000000000000000000000000 + n[4] * 0x10000000000000000000000000000000000000000000000000000) * 0x1000000000000000000000000000000014def9dea2f79cd65812631a5cf5d3ed,
{
    let (carry5, r0) = part2(carry + limbs[5] + m(n[1], L4) + m(n[3], L2) + m(n[4], L1));
    assert(carry5 <= 0xffffffffffffffff);
    let (carry6, r1) = part2(carry5 + limbs[6] + m(n[2], L4) + m(n[4], L2));
    assert(carry6 <= 0xffffffffffffffff);
    let (carry7, r2) = part2(carry6 + limbs[7] + m(n[3], L4));
    assert(carry7 <= 0xffffffffffffffff);
    let (carry8, r3) = part2(carry7 + limbs[8] + m(n[4], L4));
    proof {
        lemma_high_half_sum(
            limbs[5] as int, limbs[6] as int, limbs[7] as int, limbs[8] as int,
            n[0] as int, n[1] as int, n[2] as int, n[3] as int, n[4] as int,
            carry as int, carry5 as int, carry6 as int, carry7 as int, carry8 as int,
            r0 as int, r1 as int, r2 as int, r3 as int,
        );
    }
    (carry8, [r0, r1, r2, r3])
}

/// The four storing steps of a reduction, summed.
proof fn lemma_high_half_sum(
    t5: int, t6: int, t7: int, t8: int,
    n0: int, n1: int, n2: int, n3: int, n4: int,
    c4: int, c5: int, c6: int, c7: int, c8: int,
    r0: int, r1: int, r2: int, r3: int,
)
    requires
        c5 * 0x10000000000000 + r0 == c4 + t5 + n1 * 0x0000100000000000 + n3 * 0x14def9 + n4 * 0x000dea2f79cd6581,
        c6 * 0x10000000000000 + r1 == c5 + t6 + n2 * 0x0000100000000000 + n4 * 0x14def9,
        c7 * 0x10000000000000 + r2 == c6 + t7 + n3 * 0x0000100000000000,
        c8 * 0x10000000000000 + r3 == c7 + t8 + n4 * 0x0000100000000000,
    ensures
        (r0 + r1 * 0x10000000000000 + r2 * 0x100000000000000000000000000 + r3 * 0x1000000000000000000000000000000000000000 + c8 * 0x10000000000000000000000000000000000000000000000000000) * 0x100000000000000000000000000000000000000000000000000000000000000000
            + n0 * 0x1000000000000000000000000000000014def9dea2f79cd65812631a5cf5d3ed
            + n1 * 0x14def9dea2f79cd65812631a5cf5d3ed0000000000000
            + n2 * 0x14def9dea2f79cd65812631a5cf5d3ed00000000000000000000000000
            + n3 * 0xdea2f79cd65812631a5cf5d3ed000000000000000000000000000000000000000
            + n4 * 0x2631a5cf5d3ed0000000000000000000000000000000000000000000000000000
            == c4 * 0x100000000000000000000000000000000000000000000000000000000000000000 + t5 * 0x100000000000000000000000000000000000000000000000000000000000000000 + t6 * 0x1000000000000000000000000000000000000000000000000000000000000000000000000000000 + t7 * 0x10000000000000000000000000000000000000000000000000000000000000000000000000000000000000000000 + t8 * 0x100000000000000000000000000000000000000000000000000000000000000000000000000000000000000000000000000000000
            + (n0 + n1 * 0x10000000000000 + n2 * 0x100000000000000000000000000 + n3 * 0x1000000000000000000000000000000000000000 + n4 * 0x10000000000000000000000000000000000000000000000000000) * 0x1000000000000000000000000000000014def9dea2f79cd65812631a5cf5d3ed,
{
}

/// The quotient of a reduction is below twice the modulus, and its limbs
/// are bounded.
proof fn lemma_reduction_bound(t: int, n: int, q: int, top: int, rest: int)
    requires
        q * 0x100000000000000000000000000000000000000000000000000000000000000000 == t + n * 0x1000000000000000000000000000000014def9dea2f79cd65812631a5cf5d3ed,
        0 <= t < radix() * modulus(),
        0 <= n < 0x100000000000000000000000000000000000000000000000000000000000000000,
        q == rest + top * 0x10000000000000000000000000000000000000000000000000000,
        0 <= rest,
        0 <= top,
    ensures
        0 <= q < 2 * 0x1000000000000000000000000000000014def9dea2f79cd65812631a5cf5d3ed,
        top <= MASK52,
{
    assert(radix() * modulus() == 0x100000000000000000000000000000000000000000000000000000000000000000 * 0x1000000000000000000000000000000014def9dea2f79cd65812631a5cf5d3ed) by (nonlinear_arith)
        requires
            radix() == 0x100000000000000000000000000000000000000000000000000000000000000000,
            modulus() == 0x1000000000000000000000000000000014def9dea2f79cd65812631a5cf5d3ed,
    ;
}

/// The quotient of a reduction, with the modulus subtracted once where it is
/// the modulus or more, is the input times the inverse of the radix, reduced.
proof fn lemma_reduction_result(t: int, n: int, q: int, v: int)
    requires
        0 <= t,
        q * 0x100000000000000000000000000000000000000000000000000000000000000000 == t + n * 0x1000000000000000000000000000000014def9dea2f79cd65812631a5cf5d3ed,
        0 <= q < 2 * 0x1000000000000000000000000000000014def9dea2f79cd65812631a5cf5d3ed,
        v == if q >= modulus() {
            q - modulus()
        } else {
            q
        },
    ensures
        0 <= v < modulus(),
        v == from_montgomery(t as nat),
{
    let md = modulus() as int;
    assert(n * md == n * 0x1000000000000000000000000000000014def9dea2f79cd65812631a5cf5d3ed) by (nonlinear_arith)
        requires
            md == 0x1000000000000000000000000000000014def9dea2f79cd65812631a5cf5d3ed,
    ;
    assert(q * radix() == q * 0x100000000000000000000000000000000000000000000000000000000000000000) by (nonlinear_arith)
        requires
            radix() == 0x100000000000000000000000000000000000000000000000000000000000000000,
    ;
    lemma_montgomery_quotient(t, n, q);
    if q >= md {
        assert(q == md * 1 + v);
        lemma_mod_multiples_vanish(1, v, md);
    }
    lemma_small_mod(v as nat, md as nat);
}

/// The end of a reduction: the quotient, given by four limbs and the last
/// carry, with the modulus subtracted once where it is the modulus or more.
pub(crate) fn final_subtraction(
    r0: u64,
    r1: u64,
    r2: u64,
    r3: u64,
    carry: u128,
    Ghost(t): Ghost<int>,
    Ghost(n): Ghost<int>,
) -> (r: [u64; 5])
    requires
        r0 <= MASK52,
        r1 <= MASK52,
        r2 <= MASK52,
        r3 <= MASK52,
        0 <= t < radix() * modulus(),
        0 <= n < 0x100000000000000000000000000000000000000000000000000000000000000000,
        (r0 + r1 * 0x10000000000000 + r2 * 0x100000000000000000000000000 + r3 * 0x1000000000000000000000000000000000000000 + carry * 0x10000000000000000000000000000000000000000000000000000) * 0x100000000000000000000000000000000000000000000000000000000000000000 == t + n * 0x1000000000000000000000000000000014def9dea2f79cd65812631a5cf5d3ed,
    ensures
        limbs_bounded(r@),
        limbs_value(r@) < modulus(),
        limbs_value(r@) == from_montgomery(t as nat),
{
    let ghost rest = r0 + r1 * 0x10000000000000 + r2 * 0x100000000000000000000000000 + r3 * 0x1000000000000000000000000000000000000000;
    let ghost q = rest + carry * 0x10000000000000000000000000000000000000000000000000000;
    proof {
        lemma_reduction_bound(t, n, q, carry as int, rest);
    }
    let r4: u64 = carry as u64;
    let quotient = [r0, r1, r2, r3, r4];
    let l = [L0, L1, L2, L3, L4];
    proof {
        assert(limbs_value(l@) == modulus());
        assert(limbs_value(quotient@) == q);
    }
    let r = sub_limbs(&quotient, &l);
    proof {
        lemma_reduction_result(t, n, q, limbs_value(r@) as int);
    }
    r
}

} // verus!
