//! Radix-2^52 limbs: what five or nine of them are worth, and the carry and
//! borrow chains on them.

use crate::modular::modulus;
use vstd::prelude::*;

verus! {

/// The low 52 bits of a word.
pub const MASK52: u64 = 0xfffffffffffff;

/// The limbs of the modulus, least significant first.
pub const L0: u64 = 0x0002631a5cf5d3ed;

pub const L1: u64 = 0x000dea2f79cd6581;

pub const L2: u64 = 0x000000000014def9;

pub const L3: u64 = 0x0000000000000000;

pub const L4: u64 = 0x0000100000000000;

/// Minus the inverse of the modulus, modulo 2^52.
pub const LFACTOR: u64 = 0x51da312547e1b;

/// Five limbs, each below 2^52.
pub open spec fn limbs_bounded(l: Seq<u64>) -> bool {
    &&& l.len() == 5
    &&& l[0] <= MASK52
    &&& l[1] <= MASK52
    &&& l[2] <= MASK52
    &&& l[3] <= MASK52
    &&& l[4] <= MASK52
}

/// The integer that five limbs stand for in radix 2^52.
pub open spec fn limbs_value(l: Seq<u64>) -> nat {
    (l[0] + l[1] * 0x10000000000000 + l[2] * 0x100000000000000000000000000 + l[3] * 0x1000000000000000000000000000000000000000 + l[4] * 0x10000000000000000000000000000000000000000000000000000) as nat
}

/// The integer that nine wide limbs stand for in radix 2^52.
pub open spec fn wide_value(z: Seq<u128>) -> nat {
    (z[0] + z[1] * 0x10000000000000 + z[2] * 0x100000000000000000000000000 + z[3] * 0x1000000000000000000000000000000000000000 + z[4] * 0x10000000000000000000000000000000000000000000000000000 + z[5] * 0x100000000000000000000000000000000000000000000000000000000000000000 + z[6] * 0x1000000000000000000000000000000000000000000000000000000000000000000000000000000
        + z[7] * 0x10000000000000000000000000000000000000000000000000000000000000000000000000000000000000000000 + z[8] * 0x100000000000000000000000000000000000000000000000000000000000000000000000000000000000000000000000000000000) as nat
}

/// Shifting a word right by 52 divides it by 2^52; masking keeps the remainder.
pub proof fn lemma_u64_split52(x: u64)
    by (bit_vector)
    ensures
        x >> 52 == x / 0x10000000000000,
        x & 0xfffffffffffff == x % 0x10000000000000,
{
}

/// The top bit of a word is its quotient by 2^63.
pub proof fn lemma_u64_top_bit(x: u64)
    by (bit_vector)
    ensures
        x >> 63 == x / 0x8000000000000000,
{
}

/// Flipping a bit.
pub proof fn lemma_flip_bit(b: u64)
    by (bit_vector)
    requires
        b <= 1,
    ensures
        b ^ 1 == 1 - b,
{
}

/// Masking with no bits or with all bits.
pub proof fn lemma_mask_none_or_all(x: u64)
    by (bit_vector)
    ensures
        x & 0 == 0,
        x & 0xffffffffffffffff == x,
{
}

/// One step of a borrow chain: the wrapped difference holds the new limb in
/// its low 52 bits and the borrow in its top bit.
pub proof fn lemma_borrow_step(a: u64, b: u64, c: u64, w: u64)
    requires
        a <= MASK52,
        b <= MASK52,
        c <= 1,
        w == a.wrapping_sub((b + c) as u64),
    ensures
        w >> 63 <= 1,
        w & MASK52 <= MASK52,
        a - b - c == (w & MASK52) - (w >> 63) * 0x10000000000000,
        w == (w & MASK52) + (w >> 63) * 0xfff0000000000000,
{
    lemma_u64_split52(w);
    lemma_u64_top_bit(w);
}

/// One step of a carry chain: a word is its low 52 bits plus 2^52 times the
/// rest.
pub proof fn lemma_carry_step(c: u64)
    ensures
        c & MASK52 <= MASK52,
        (c >> 52) * 0x10000000000000 + (c & MASK52) == c,
{
    lemma_u64_split52(c);
}

/// A limb under the mask made from a borrow bit: the limb where the bit is
/// set, zero where it is not.
pub proof fn lemma_masked_limb(borrow: u64, x: u64)
    requires
        borrow <= 1,
    ensures
        x & (borrow ^ 1).wrapping_sub(1) == if borrow == 1 {
            x
        } else {
            0
        },
{
    lemma_flip_bit(borrow);
    lemma_mask_none_or_all(x);
}

/// Five steps of a borrow chain, summed.
proof fn lemma_borrow_sum(
    x0: int, x1: int, x2: int, x3: int, x4: int,
    d0: int, d1: int, d2: int, d3: int, d4: int,
    b0: int, b1: int, b2: int, b3: int, b4: int,
)
    requires
        x0 == d0 - b0 * 0x10000000000000,
        x1 - b0 == d1 - b1 * 0x10000000000000,
        x2 - b1 == d2 - b2 * 0x10000000000000,
        x3 - b2 == d3 - b3 * 0x10000000000000,
        x4 - b3 == d4 - b4 * 0x10000000000000,
    ensures
        x0 + x1 * 0x10000000000000 + x2 * 0x100000000000000000000000000 + x3 * 0x1000000000000000000000000000000000000000 + x4 * 0x10000000000000000000000000000000000000000000000000000
            == d0 + d1 * 0x10000000000000 + d2 * 0x100000000000000000000000000 + d3 * 0x1000000000000000000000000000000000000000 + d4 * 0x10000000000000000000000000000000000000000000000000000 - b4 * 0x100000000000000000000000000000000000000000000000000000000000000000,
{
}

/// Five steps of a carry chain, summed.
proof fn lemma_carry_sum(
    x0: int, x1: int, x2: int, x3: int, x4: int,
    r0: int, r1: int, r2: int, r3: int, r4: int,
    c0: int, c1: int, c2: int, c3: int, c4: int,
)
    requires
        x0 == r0 + c0 * 0x10000000000000,
        x1 + c0 == r1 + c1 * 0x10000000000000,
        x2 + c1 == r2 + c2 * 0x10000000000000,
        x3 + c2 == r3 + c3 * 0x10000000000000,
        x4 + c3 == r4 + c4 * 0x10000000000000,
    ensures
        x0 + x1 * 0x10000000000000 + x2 * 0x100000000000000000000000000 + x3 * 0x1000000000000000000000000000000000000000 + x4 * 0x10000000000000000000000000000000000000000000000000000
            == r0 + r1 * 0x10000000000000 + r2 * 0x100000000000000000000000000 + r3 * 0x1000000000000000000000000000000000000000 + r4 * 0x10000000000000000000000000000000000000000000000000000 + c4 * 0x100000000000000000000000000000000000000000000000000000000000000000,
{
}

/// The end of a borrow chain followed by a masked carry chain: which of the
/// two cases the borrow bit tells, and what comes out in each.
proof fn lemma_borrow_then_carry(
    a: int,
    b: int,
    borrow: int,
    back: int,
    d: int,
    r: int,
    carry: int,
)
    requires
        borrow == 0 && back == 0 || borrow == 1 && back == modulus(),
        0 <= carry,
        a + modulus() >= b,
        0 <= d < 0x100000000000000000000000000000000000000000000000000000000000000000,
        0 <= r < 0x100000000000000000000000000000000000000000000000000000000000000000,
        a - b == d - borrow * 0x100000000000000000000000000000000000000000000000000000000000000000,
        r + carry * 0x100000000000000000000000000000000000000000000000000000000000000000 == d + back,
    ensures
        r == if a >= b {
            a - b
        } else {
            a - b + modulus()
        },
{
}

/// The limb-wise difference of two numbers given by bounded limbs, and the
/// last wrapped word, whose top bit is the borrow that is left: the limbs
/// stand for the difference, plus 2^260 where it is negative. The wrapped
/// word is the top limb, with all the bits above it set where there is a
/// borrow.
pub(crate) fn borrow_chain(a: &[u64; 5], b: &[u64; 5]) -> (r: ([u64; 5], u64))
    requires
        limbs_bounded(a@),
        limbs_bounded(b@),
    ensures
        limbs_bounded(r.0@),
        r.1 >> 63 <= 1,
        r.1 == r.0[4] + (r.1 >> 63) * 0xfff0000000000000,
        limbs_value(a@) - limbs_value(b@) == limbs_value(r.0@) - (r.1 >> 63) * 0x100000000000000000000000000000000000000000000000000000000000000000,
{
    let w0: u64 = a[0].wrapping_sub(b[0]);
    let d0: u64 = w0 & MASK52;
    proof {
        lemma_borrow_step(a[0], b[0], 0, w0);
    }
    let w1: u64 = a[1].wrapping_sub(b[1] + (w0 >> 63));
    let d1: u64 = w1 & MASK52;
    proof {
        lemma_borrow_step(a[1], b[1], w0 >> 63, w1);
    }
    let w2: u64 = a[2].wrapping_sub(b[2] + (w1 >> 63));
    let d2: u64 = w2 & MASK52;
    proof {
        lemma_borrow_step(a[2], b[2], w1 >> 63, w2);
    }
    let w3: u64 = a[3].wrapping_sub(b[3] + (w2 >> 63));
    let d3: u64 = w3 & MASK52;
    proof {
        lemma_borrow_step(a[3], b[3], w2 >> 63, w3);
    }
    let w4: u64 = a[4].wrapping_sub(b[4] + (w3 >> 63));
    let d4: u64 = w4 & MASK52;
    proof {
        lemma_borrow_step(a[4], b[4], w3 >> 63, w4);
        lemma_borrow_sum(
            a[0] - b[0], a[1] - b[1], a[2] - b[2], a[3] - b[3], a[4] - b[4],
            d0 as int, d1 as int, d2 as int, d3 as int, d4 as int,
            (w0 >> 63) as int, (w1 >> 63) as int, (w2 >> 63) as int, (w3 >> 63) as int,
            (w4 >> 63) as int,
        );
    }
    ([d0, d1, d2, d3, d4], w4)
}

/// The modulus added limb-wise, under a mask, to a number given by bounded
/// limbs: the mask is all ones where the top bit of `borrow` is set, and zero
/// where it is not. The carry out of the top limb is dropped.
fn add_modulus_masked(d: &[u64; 5], borrow: u64) -> (r: ([u64; 5], Ghost<int>))
    requires
        limbs_bounded(d@),
        borrow >> 63 <= 1,
    ensures
        limbs_bounded(r.0@),
        0 <= r.1@,
        limbs_value(r.0@) + r.1@ * 0x100000000000000000000000000000000000000000000000000000000000000000 == limbs_value(d@) + if borrow >> 63 == 1 {
            modulus()
        } else {
            0
        },
{
    let underflow_mask: u64 = ((borrow >> 63) ^ 1).wrapping_sub(1);
    let m0: u64 = L0 & underflow_mask;
    let m1: u64 = L1 & underflow_mask;
    let m2: u64 = L2 & underflow_mask;
    let m3: u64 = L3 & underflow_mask;
    let m4: u64 = L4 & underflow_mask;
    proof {
        lemma_masked_limb(borrow >> 63, L0);
        lemma_masked_limb(borrow >> 63, L1);
        lemma_masked_limb(borrow >> 63, L2);
        lemma_masked_limb(borrow >> 63, L3);
        lemma_masked_limb(borrow >> 63, L4);
    }
    let c0: u64 = d[0] + m0;
    let r0: u64 = c0 & MASK52;
    proof {
        lemma_carry_step(c0);
    }
    let c1: u64 = (c0 >> 52) + d[1] + m1;
    let r1: u64 = c1 & MASK52;
    proof {
        lemma_carry_step(c1);
    }
    let c2: u64 = (c1 >> 52) + d[2] + m2;
    let r2: u64 = c2 & MASK52;
    proof {
        lemma_carry_step(c2);
    }
    let c3: u64 = (c2 >> 52) + d[3] + m3;
    let r3: u64 = c3 & MASK52;
    proof {
        lemma_carry_step(c3);
    }
    let c4: u64 = (c3 >> 52) + d[4] + m4;
    let r4: u64 = c4 & MASK52;
    proof {
        lemma_carry_step(c4);
        lemma_carry_sum(
            d[0] + m0, d[1] + m1, d[2] + m2, d[3] + m3, d[4] + m4,
            r0 as int, r1 as int, r2 as int, r3 as int, r4 as int,
            (c0 >> 52) as int, (c1 >> 52) as int, (c2 >> 52) as int, (c3 >> 52) as int,
            (c4 >> 52) as int,
        );
    }
    ([r0, r1, r2, r3, r4], Ghost((c4 >> 52) as int))
}

/// The difference of two numbers given by bounded limbs, with the modulus
/// added back where the difference is negative. The borrow out of the top
/// limb, spread into a mask, decides; no branch does.
pub(crate) fn sub_limbs(a: &[u64; 5], b: &[u64; 5]) -> (r: [u64; 5])
    requires
        limbs_bounded(a@),
        limbs_bounded(b@),
        limbs_value(a@) + modulus() >= limbs_value(b@),
    ensures
        limbs_bounded(r@),
        limbs_value(r@) == if limbs_value(a@) >= limbs_value(b@) {
            limbs_value(a@) - limbs_value(b@)
        } else {
            limbs_value(a@) - limbs_value(b@) + modulus()
        },
{
    let (difference, borrow) = borrow_chain(a, b);
    let (r, Ghost(carry)) = add_modulus_masked(&difference, borrow);
    proof {
        let back: int = if borrow >> 63 == 1 {
            modulus() as int
        } else {
            0
        };
        lemma_borrow_then_carry(
            limbs_value(a@) as int,
            limbs_value(b@) as int,
            (borrow >> 63) as int,
            back,
            limbs_value(difference@) as int,
            limbs_value(r@) as int,
            carry,
        );
    }
    r
}

/// The sum of two numbers given by bounded limbs, where it fits in 260 bits.
pub(crate) fn add_limbs(a: &[u64; 5], b: &[u64; 5]) -> (r: [u64; 5])
    requires
        limbs_bounded(a@),
        limbs_bounded(b@),
        limbs_value(a@) + limbs_value(b@) < 0x100000000000000000000000000000000000000000000000000000000000000000,
    ensures
        limbs_bounded(r@),
        limbs_value(r@) == limbs_value(a@) + limbs_value(b@),
{
    let t0: u64 = a[0] + b[0];
    proof {
        lemma_carry_step(t0);
    }
    let r0: u64 = t0 & MASK52;
    let t1: u64 = a[1] + b[1] + (t0 >> 52);
    proof {
        lemma_carry_step(t1);
    }
    let r1: u64 = t1 & MASK52;
    let t2: u64 = a[2] + b[2] + (t1 >> 52);
    proof {
        lemma_carry_step(t2);
    }
    let r2: u64 = t2 & MASK52;
    let t3: u64 = a[3] + b[3] + (t2 >> 52);
    proof {
        lemma_carry_step(t3);
    }
    let r3: u64 = t3 & MASK52;
    let t4: u64 = a[4] + b[4] + (t3 >> 52);
    proof {
        lemma_carry_step(t4);
    }
    let r4: u64 = t4 & MASK52;
    [r0, r1, r2, r3, r4]
}

} // verus!
