//! Field arithmetic for the doppio curve.
//!
//! The ground field of the doppio curve is the scalar field of the
//! ristretto255 group. An element is kept in Montgomery form, as five limbs
//! of 52 bits. Every conditional correction is done with a mask made from a
//! borrow bit, never with a branch on the operands.

use crate::bytes::{bytes_from_limbs, bytes_value, limbs_from_bytes};
use crate::fermat::{lemma_field_inverse, lemma_field_inverse_of_zero};
use crate::limbs::{
    add_limbs, borrow_chain, limbs_bounded, limbs_value, sub_limbs, wide_value, L0, L1, L2, L3, L4,
    MASK52,
};
use crate::modular::{
    curve_d, field_add, field_inv, field_mul, field_neg, field_pow, field_sub, from_montgomery,
    lemma_field_bounds, lemma_field_pow_add, lemma_field_pow_double, lemma_from_montgomery_add,
    lemma_enter_montgomery, lemma_from_montgomery_injective, lemma_from_montgomery_mul, lemma_from_montgomery_sub,
    lemma_square_and_multiply, modulus, radix, radix_squared,
};
use crate::montgomery::{
    cancel_low_half, final_subtraction, lemma_schoolbook, m, store_high_half, wide_bounded,
};
use vstd::arithmetic::div_mod::*;
use vstd::arithmetic::power::*;
use vstd::arithmetic::power2::*;
use vstd::prelude::*;

verus! {

/// The exponent that inverts, the modulus minus two, without its top bit,
/// which is bit 252.
pub const INVERSION_EXPONENT_LOW: u128 = 0x14def9dea2f79cd65812631a5cf5d3eb;

/// The low bit of a wide word, and the word without it.
proof fn lemma_u128_low_bit(e: u128)
    by (bit_vector)
    ensures
        e & 1 == e % 2,
        e >> 1 == e / 2,
{
}

/// Two pairs of words have no bit of difference exactly where both pairs
/// are equal.
proof fn lemma_no_difference(a: u64, b: u64, c: u64, d: u64)
    by (bit_vector)
    ensures
        ((a ^ b) | (c ^ d) == 0) <==> (a == b && c == d),
        a ^ 0 == a,
        c ^ 0 == c,
{
}

/// The value of 2^252.
proof fn lemma_pow2_252()
    ensures
        pow2(252) == 0x1000000000000000000000000000000000000000000000000000000000000000,
{
    lemma2_to64_rest();
    lemma_pow2_adds(63, 63);
    lemma_pow2_adds(126, 126);
    let a = pow2(63);
    let b = pow2(126);
    assert(a * a == 0x40000000000000000000000000000000) by (nonlinear_arith)
        requires
            a == 0x8000000000000000,
    ;
    assert(b * b == 0x1000000000000000000000000000000000000000000000000000000000000000)
        by (nonlinear_arith)
        requires
            b == 0x40000000000000000000000000000000,
    ;
}

/// What holds in the middle of an inversion, after `i` of the low bits of
/// the exponent: `e` holds the bits that are left, `base` the element to the
/// power 2^i, and `result` times the power of `base` that is still to come
/// is the element to the power of all the low bits.
pub open spec fn inversion_state(a: nat, result: nat, base: nat, e: nat, i: nat) -> bool {
    &&& result < modulus()
    &&& e == INVERSION_EXPONENT_LOW as nat / pow2(i)
    &&& base == field_pow(a, pow2(i))
    &&& field_mul(result, field_pow(base, e)) == field_pow(a, INVERSION_EXPONENT_LOW as nat)
}

/// An inversion starts in the right state.
proof fn lemma_inversion_start(a: nat)
    requires
        a < modulus(),
    ensures
        inversion_state(a, 1, a, INVERSION_EXPONENT_LOW as nat, 0),
{
    lemma2_to64();
    lemma_pow1(a as int);
    lemma_small_mod(a, modulus());
    lemma_field_bounds(a, 0, INVERSION_EXPONENT_LOW as nat);
    lemma_small_mod(field_pow(a, INVERSION_EXPONENT_LOW as nat), modulus());
}

/// One step of an inversion keeps the state.
proof fn lemma_inversion_step(
    a: nat,
    result: nat,
    base: nat,
    e: nat,
    i: nat,
    result2: nat,
    base2: nat,
    e2: nat,
)
    requires
        inversion_state(a, result, base, e, i),
        result2 == if e % 2 == 1 {
            field_mul(result, base)
        } else {
            result
        },
        base2 == field_mul(base, base),
        e2 == e / 2,
    ensures
        inversion_state(a, result2, base2, e2, i + 1),
{
    lemma_square_and_multiply(result, base, e);
    lemma_small_mod(result, modulus());
    lemma_field_bounds(result, base, 0);
    lemma_field_pow_double(a, pow2(i));
    lemma_pow2_unfold(i + 1);
    lemma_pow2_pos(i);
    lemma_div_denominator(INVERSION_EXPONENT_LOW as int, pow2(i) as int, 2);
    assert(pow2(i) * 2 == pow2(i + 1));
}

/// After 252 steps of an inversion, one more multiplication gives the
/// inverting power.
proof fn lemma_inversion_end(a: nat, result: nat, base: nat, e: nat)
    requires
        inversion_state(a, result, base, e, 252),
    ensures
        field_mul(result, base) == field_inv(a),
{
    lemma_pow2_252();
    assert(e == 0);
    lemma_pow0(base as int);
    lemma_small_mod(1, modulus());
    let last = field_pow(base, e);
    assert(last == 1);
    assert(result * last == result) by (nonlinear_arith)
        requires
            last == 1,
    ;
    lemma_small_mod(result, modulus());
    assert(result == field_pow(a, INVERSION_EXPONENT_LOW as nat));
    lemma_field_pow_add(a, INVERSION_EXPONENT_LOW as nat, pow2(252));
    assert(INVERSION_EXPONENT_LOW as nat + pow2(252) == (modulus() - 2) as nat);
}

/// A field element modulo 2^252 + 27742317777372353535851937790883648493,
/// the ground field for the doppio curve and the scalar field for the
/// ristretto255 group.
#[derive(Copy, Clone, Debug)]
pub struct FieldElement([u64; 5]);

impl View for FieldElement {
    type V = nat;

    /// The residue that the element stands for.
    open spec fn view(&self) -> nat {
        from_montgomery(self.raw())
    }
}

impl FieldElement {
    /// The five limbs, least significant first.
    pub closed spec fn limbs(self) -> Seq<u64> {
        self.0@
    }

    /// The stored Montgomery representative.
    pub open spec fn raw(self) -> nat {
        limbs_value(self.limbs())
    }

    /// Every limb is below 2^52, and the representative below the modulus.
    #[verifier::type_invariant]
    pub open spec fn wf(self) -> bool {
        &&& limbs_bounded(self.limbs())
        &&& self.raw() < modulus()
    }

    /// The element that stands for a residue.
    pub open spec fn encode(a: nat) -> FieldElement {
        choose|f: FieldElement| f.wf() && f@ == a
    }

    /// Bounded limbs are determined by what they stand for.
    pub proof fn lemma_limbs_unique(a: Seq<u64>, b: Seq<u64>)
        requires
            limbs_bounded(a),
            limbs_bounded(b),
            limbs_value(a) == limbs_value(b),
        ensures
            a =~= b,
    {
        FieldElement::lemma_split(
            a[0] as int,
            a[1] + a[2] * 0x10000000000000 + a[3] * 0x100000000000000000000000000 + a[4] * 0x1000000000000000000000000000000000000000,
            b[0] as int,
            b[1] + b[2] * 0x10000000000000 + b[3] * 0x100000000000000000000000000 + b[4] * 0x1000000000000000000000000000000000000000,
        );
        FieldElement::lemma_split(
            a[1] as int,
            a[2] + a[3] * 0x10000000000000 + a[4] * 0x100000000000000000000000000,
            b[1] as int,
            b[2] + b[3] * 0x10000000000000 + b[4] * 0x100000000000000000000000000,
        );
        FieldElement::lemma_split(
            a[2] as int,
            a[3] + a[4] * 0x10000000000000,
            b[2] as int,
            b[3] + b[4] * 0x10000000000000,
        );
        FieldElement::lemma_split(a[3] as int, a[4] as int, b[3] as int, b[4] as int);
    }

    /// A number splits in one way into a limb and the rest.
    proof fn lemma_split(x: int, xs: int, y: int, ys: int)
        requires
            0 <= x < 0x10000000000000,
            0 <= y < 0x10000000000000,
            x + xs * 0x10000000000000 == y + ys * 0x10000000000000,
        ensures
            x == y,
            xs == ys,
    {
        lemma_fundamental_div_mod_converse(x + xs * 0x10000000000000, 0x10000000000000, xs, x);
        lemma_fundamental_div_mod_converse(y + ys * 0x10000000000000, 0x10000000000000, ys, y);
    }

    /// A well-formed element is the only one that stands for its residue.
    pub proof fn lemma_encode_view(self)
        requires
            self.wf(),
        ensures
            FieldElement::encode(self@) == self,
    {
        let g = FieldElement::encode(self@);
        lemma_from_montgomery_injective(self.raw(), g.raw());
        FieldElement::lemma_limbs_unique(self.limbs(), g.limbs());
        assert(self.0 == g.0);
    }

    /// The additive identity.
    pub fn zero() -> (r: FieldElement)
        ensures
            r.wf(),
            r@ == 0,
            r.raw() == 0,
    {
        FieldElement([0, 0, 0, 0, 0])
    }

    /// The multiplicative identity: the radix modulo the modulus, which is
    /// the Montgomery form of the integer one.
    pub fn one() -> (r: FieldElement)
        ensures
            r.wf(),
            r@ == 1,
    {
        FieldElement(
            [
                0x000f48bd6721e6ed,
                0x0003bab5ac67e45a,
                0x000fffffeb35e51b,
                0x000fffffffffffff,
                0x00000fffffffffff,
            ],
        )
    }

    /// The parameter `d` of the doppio curve, -86649/86650.
    pub fn edwards_d() -> (r: FieldElement)
        ensures
            r.wf(),
            r@ == curve_d(),
    {
        FieldElement(
            [
                0x0001f73a3a875220,
                0x000d1feea8d87a3a,
                0x0003f0d99f002092,
                0x00044b22fc75eaa5,
                0x000006c5822d6a4e,
            ],
        )
    }

    /// Two well-formed elements stand for one residue exactly where their
    /// limbs are the same.
    pub proof fn lemma_same_limbs(self, other: FieldElement)
        requires
            self.wf(),
            other.wf(),
        ensures
            self@ == other@ <==> self.limbs() == other.limbs(),
    {
        if self@ == other@ {
            lemma_from_montgomery_injective(self.raw(), other.raw());
            FieldElement::lemma_limbs_unique(self.limbs(), other.limbs());
        }
    }

    /// Whether two elements stand for one residue. The limbs are compared
    /// all together, none before another.
    pub fn equals(&self, other: &FieldElement) -> (b: bool)
        ensures
            b == (self@ == other@),
    {
        let d0: u64 = self.0[0] ^ other.0[0];
        let d1: u64 = self.0[1] ^ other.0[1];
        let d2: u64 = self.0[2] ^ other.0[2];
        let d3: u64 = self.0[3] ^ other.0[3];
        let d4: u64 = self.0[4] ^ other.0[4];
        let low: u64 = d0 | d1;
        let high: u64 = d2 | d3;
        let all: u64 = (low | high) | d4;
        proof {
            use_type_invariant(self);
            use_type_invariant(other);
            lemma_no_difference(self.0[0], other.0[0], self.0[1], other.0[1]);
            lemma_no_difference(self.0[2], other.0[2], self.0[3], other.0[3]);
            lemma_no_difference(low, 0, high, 0);
            lemma_no_difference(low | high, 0, self.0[4], other.0[4]);
            assert(low == 0 <==> self.0[0] == other.0[0] && self.0[1] == other.0[1]);
            assert(high == 0 <==> self.0[2] == other.0[2] && self.0[3] == other.0[3]);
            assert((low | high) == 0 <==> low == 0 && high == 0);
            assert(all == 0 <==> (low | high) == 0 && self.0[4] == other.0[4]);
            assert(all == 0 <==> self.limbs() =~= other.limbs());
            self.lemma_same_limbs(*other);
        }
        all == 0
    }

    /// The limbs of the stored Montgomery representative.
    pub fn to_limbs(&self) -> (l: [u64; 5])
        ensures
            l@ == self.limbs(),
    {
        self.0
    }

    /// The element with the given limbs as its Montgomery representative,
    /// where each limb is below 2^52 and the number they stand for is below
    /// the modulus; no element otherwise.
    pub fn from_limbs(limbs: [u64; 5]) -> (r: Option<FieldElement>)
        ensures
            r.is_some() <==> limbs_bounded(limbs@) && limbs_value(limbs@) < modulus(),
            r matches Some(f) ==> f.wf() && f.limbs() == limbs@,
    {
        if limbs[0] <= MASK52 && limbs[1] <= MASK52 && limbs[2] <= MASK52 && limbs[3] <= MASK52
            && limbs[4] <= MASK52 {
            let l = [L0, L1, L2, L3, L4];
            assert(limbs_value(l@) == modulus());
            let (_, borrow) = borrow_chain(&limbs, &l);
            if borrow >> 63 == 1 {
                Some(FieldElement(limbs))
            } else {
                None
            }
        } else {
            None
        }
    }

    /// The element that stands for the number given by 32 bytes, least
    /// significant first, reduced: the bytes are sliced into limbs, and the
    /// Montgomery product with the square of the radix takes them into
    /// Montgomery form.
    pub fn from_bytes(bytes: &[u8; 32]) -> (r: FieldElement)
        ensures
            r.wf(),
            r@ == bytes_value(bytes@) % modulus(),
    {
        let s = limbs_from_bytes(bytes);
        let rr = [
            0x0009d265e952d13b,
            0x000d63c715bea69f,
            0x0005be65cb687604,
            0x0003dceec73d217f,
            0x000009411b7c309a,
        ];
        proof {
            let v = limbs_value(s@) as int;
            let f = limbs_value(rr@) as int;
            assert(f == radix_squared());
            assert(v * f < 0x10000000000000000000000000000000000000000000000000000000000000000 * f)
                by (nonlinear_arith)
                requires
                    0 <= v < 0x10000000000000000000000000000000000000000000000000000000000000000,
                    0 < f,
            ;
            lemma_enter_montgomery(v as nat);
        }
        let wide = FieldElement::mul_internal(&s, &rr);
        FieldElement(FieldElement::montgomery_reduce(&wide))
    }

    /// The 32 bytes, least significant first, of the residue that the
    /// element stands for: one Montgomery reduction of the stored limbs
    /// takes them out of Montgomery form.
    pub fn to_bytes(&self) -> (bytes: [u8; 32])
        ensures
            bytes_value(bytes@) == self@,
    {
        proof {
            use_type_invariant(self);
        }
        let limbs: [u128; 9] = [
            self.0[0] as u128,
            self.0[1] as u128,
            self.0[2] as u128,
            self.0[3] as u128,
            self.0[4] as u128,
            0,
            0,
            0,
            0,
        ];
        assert(wide_value(limbs@) == self.raw());
        let redc = FieldElement::montgomery_reduce(&limbs);
        bytes_from_limbs(&redc)
    }

    /// The multiplicative inverse, as the power with the modulus minus two
    /// for exponent. Zero, which has no inverse, gives zero.
    ///
    /// The chain of squarings and multiplications is fixed by the exponent
    /// alone: it is the same for every element.
    pub fn invert(&self) -> (r: FieldElement)
        ensures
            r.wf(),
            r@ == field_inv(self@),
            self@ != 0 ==> field_mul(self@, r@) == 1,
            self@ == 0 ==> r@ == 0,
    {
        proof {
            use_type_invariant(self);
            lemma_inversion_start(self@);
        }
        let mut result = FieldElement::one();
        let mut base = *self;
        let mut e: u128 = INVERSION_EXPONENT_LOW;
        let mut i: u32 = 0;
        while i < 252
            invariant
                i <= 252,
                result.wf(),
                base.wf(),
                inversion_state(self@, result@, base@, e as nat, i as nat),
            decreases 252 - i,
        {
            let ghost before = (result@, base@, e as nat);
            proof {
                lemma_u128_low_bit(e);
            }
            if e & 1 == 1 {
                result = result * base;
            }
            base = base * base;
            e = e >> 1;
            proof {
                lemma_inversion_step(
                    self@,
                    before.0,
                    before.1,
                    before.2,
                    i as nat,
                    result@,
                    base@,
                    e as nat,
                );
            }
            i = i + 1;
        }
        proof {
            lemma_inversion_end(self@, result@, base@, e as nat);
            lemma_field_bounds(self.raw(), 0, 0);
            if self@ != 0 {
                lemma_field_inverse(self@);
            } else {
                lemma_field_inverse_of_zero();
            }
        }
        // the top bit of the exponent
        result * base
    }

    /// The product of two numbers given by bounded limbs, as nine wide limbs
    /// without any reduction: limb `k` is the sum of the products of the
    /// limbs `a[i]` and `b[j]` with `i + j == k`, so that the nine limbs stand
    /// for the product of the two numbers.
    fn mul_internal(a: &[u64; 5], b: &[u64; 5]) -> (z: [u128; 9])
        requires
            limbs_bounded(a@),
            limbs_bounded(b@),
        ensures
            z[0] == a[0] * b[0],
            z[1] == a[0] * b[1] + a[1] * b[0],
            z[2] == a[0] * b[2] + a[1] * b[1] + a[2] * b[0],
            z[3] == a[0] * b[3] + a[1] * b[2] + a[2] * b[1] + a[3] * b[0],
            z[4] == a[0] * b[4] + a[1] * b[3] + a[2] * b[2] + a[3] * b[1] + a[4] * b[0],
            z[5] == a[1] * b[4] + a[2] * b[3] + a[3] * b[2] + a[4] * b[1],
            z[6] == a[2] * b[4] + a[3] * b[3] + a[4] * b[2],
            z[7] == a[3] * b[4] + a[4] * b[3],
            z[8] == a[4] * b[4],
            wide_bounded(z@),
            wide_value(z@) == limbs_value(a@) * limbs_value(b@),
    {
        let z0: u128 = m(a[0], b[0]);
        let z1: u128 = m(a[0], b[1]) + m(a[1], b[0]);
        let z2: u128 = m(a[0], b[2]) + m(a[1], b[1]) + m(a[2], b[0]);
        let z3: u128 = m(a[0], b[3]) + m(a[1], b[2]) + m(a[2], b[1]) + m(a[3], b[0]);
        let z4: u128 = m(a[0], b[4]) + m(a[1], b[3]) + m(a[2], b[2]) + m(a[3], b[1]) + m(a[4], b[0]);
        let z5: u128 = m(a[1], b[4]) + m(a[2], b[3]) + m(a[3], b[2]) + m(a[4], b[1]);
        let z6: u128 = m(a[2], b[4]) + m(a[3], b[3]) + m(a[4], b[2]);
        let z7: u128 = m(a[3], b[4]) + m(a[4], b[3]);
        let z8: u128 = m(a[4], b[4]);
        let z = [z0, z1, z2, z3, z4, z5, z6, z7, z8];
        proof {
            lemma_schoolbook(
                a[0] as int, a[1] as int, a[2] as int, a[3] as int, a[4] as int,
                b[0] as int, b[1] as int, b[2] as int, b[3] as int, b[4] as int,
            );
        }
        z
    }

    /// The Montgomery reduction of nine wide limbs: the number they stand for
    /// times the inverse of the radix, modulo the modulus, as bounded limbs.
    fn montgomery_reduce(limbs: &[u128; 9]) -> (r: [u64; 5])
        requires
            wide_bounded(limbs@),
            wide_value(limbs@) < radix() * modulus(),
        ensures
            limbs_bounded(r@),
            limbs_value(r@) < modulus(),
            limbs_value(r@) == from_montgomery(wide_value(limbs@)),
    {
        // the first half computes the coefficients n and adds n times the
        // modulus, which makes the low half zero
        let (carry, n) = cancel_low_half(limbs);

        // the sum is now a multiple of the radix: the upper half is the
        // quotient
        let (carry, r) = store_high_half(limbs, carry, &n);
        let ghost nv = n[0] + n[1] * 0x10000000000000 + n[2] * 0x100000000000000000000000000 + n[3] * 0x1000000000000000000000000000000000000000 + n[4] * 0x10000000000000000000000000000000000000000000000000000;
        let ghost t = wide_value(limbs@) as int;

        // the quotient may be the modulus or more: subtract the modulus once
        final_subtraction(r[0], r[1], r[2], r[3], carry, Ghost(t), Ghost(nv))
    }
}

impl vstd::std_specs::ops::AddSpecImpl for FieldElement {
    open spec fn obeys_add_spec() -> bool {
        true
    }

    open spec fn add_req(self, rhs: FieldElement) -> bool {
        true
    }

    open spec fn add_spec(self, rhs: FieldElement) -> FieldElement {
        FieldElement::encode(field_add(self@, rhs@))
    }
}

impl core::ops::Add for FieldElement {
    type Output = FieldElement;

    /// The sum: limb-wise addition with carry, then one subtraction of the
    /// modulus, undone under a mask where the sum was below it.
    fn add(self, rhs: FieldElement) -> (r: FieldElement)
        ensures
            r.wf(),
            r@ == field_add(self@, rhs@),
    {
        proof {
            use_type_invariant(&self);
            use_type_invariant(&rhs);
        }
        let sum = add_limbs(&self.0, &rhs.0);
        let l = [L0, L1, L2, L3, L4];
        assert(limbs_value(l@) == modulus());
        let d = sub_limbs(&sum, &l);
        proof {
            let s = self.raw() + rhs.raw();
            let md = modulus();
            if s >= md {
                assert(s == md * 1 + limbs_value(d@));
                lemma_mod_multiples_vanish(1, limbs_value(d@) as int, md as int);
            }
            lemma_small_mod(limbs_value(d@), md);
            lemma_from_montgomery_add(self.raw(), rhs.raw());
        }
        let r = FieldElement(d);
        proof {
            r.lemma_encode_view();
        }
        r
    }
}

impl vstd::std_specs::ops::SubSpecImpl for FieldElement {
    open spec fn obeys_sub_spec() -> bool {
        true
    }

    open spec fn sub_req(self, rhs: FieldElement) -> bool {
        true
    }

    open spec fn sub_spec(self, rhs: FieldElement) -> FieldElement {
        FieldElement::encode(field_sub(self@, rhs@))
    }
}

impl core::ops::Sub for FieldElement {
    type Output = FieldElement;

    /// The difference: limb-wise subtraction with borrow, then the modulus
    /// added back under a mask made from the last borrow.
    fn sub(self, rhs: FieldElement) -> (r: FieldElement)
        ensures
            r.wf(),
            r@ == field_sub(self@, rhs@),
    {
        proof {
            use_type_invariant(&self);
            use_type_invariant(&rhs);
        }
        let d = sub_limbs(&self.0, &rhs.0);
        proof {
            let s = self.raw() as int - rhs.raw() as int;
            let md = modulus() as int;
            if s < 0 {
                assert(s == md * (-1) + limbs_value(d@));
                lemma_mod_multiples_vanish(-1, limbs_value(d@) as int, md);
            }
            lemma_small_mod(limbs_value(d@), modulus());
            lemma_from_montgomery_sub(self.raw(), rhs.raw());
        }
        let r = FieldElement(d);
        proof {
            r.lemma_encode_view();
        }
        r
    }
}

impl vstd::std_specs::ops::MulSpecImpl for FieldElement {
    open spec fn obeys_mul_spec() -> bool {
        true
    }

    open spec fn mul_req(self, rhs: FieldElement) -> bool {
        true
    }

    open spec fn mul_spec(self, rhs: FieldElement) -> FieldElement {
        FieldElement::encode(field_mul(self@, rhs@))
    }
}

impl core::ops::Mul for FieldElement {
    type Output = FieldElement;

    /// The product: the wide product of the limbs, Montgomery-reduced.
    fn mul(self, rhs: FieldElement) -> (r: FieldElement)
        ensures
            r.wf(),
            r@ == field_mul(self@, rhs@),
    {
        proof {
            use_type_invariant(&self);
            use_type_invariant(&rhs);
            let md = modulus() as int;
            let x = self.raw() as int;
            let y = rhs.raw() as int;
            assert(x * y < md * md) by (nonlinear_arith)
                requires
                    0 <= x < md,
                    0 <= y < md,
            ;
            assert(md * md < radix() * modulus());
        }
        let wide = FieldElement::mul_internal(&self.0, &rhs.0);
        let d = FieldElement::montgomery_reduce(&wide);
        proof {
            lemma_from_montgomery_mul(self.raw(), rhs.raw());
        }
        let r = FieldElement(d);
        proof {
            r.lemma_encode_view();
        }
        r
    }
}

impl vstd::std_specs::ops::NegSpecImpl for FieldElement {
    open spec fn obeys_neg_spec() -> bool {
        true
    }

    open spec fn neg_req(self) -> bool {
        true
    }

    open spec fn neg_spec(self) -> FieldElement {
        FieldElement::encode(field_neg(self@))
    }
}

impl core::ops::Neg for FieldElement {
    type Output = FieldElement;

    /// The additive inverse: zero minus the element.
    fn neg(self) -> (r: FieldElement)
        ensures
            r.wf(),
            r@ == field_neg(self@),
    {
        FieldElement::zero() - self
    }
}

impl Default for FieldElement {
    /// The additive identity.
    fn default() -> (r: FieldElement)
        ensures
            r.wf(),
            r@ == 0,
    {
        FieldElement::zero()
    }
}

} // verus!
