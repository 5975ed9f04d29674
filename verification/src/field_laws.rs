//! The laws of the field, stated of field elements and of their encodings.

use crate::bytes::bytes_value;
use crate::fermat::lemma_field_inverse;
use crate::field::FieldElement;
use crate::modular::{
    field_add, field_inv, field_mul, field_neg, field_sub, lemma_reduce_add, lemma_reduce_mul,
    lemma_reduce_neg, lemma_reduce_small, lemma_reduce_sub, modulus, reduce,
};
use crate::scalar::scalar_bytes;
use curve25519_dalek::scalar::Scalar;
use vstd::arithmetic::div_mod::*;
use vstd::prelude::*;

verus! {

/// Addition commutes: a + b = b + a.
pub proof fn lemma_add_commutative(a: FieldElement, b: FieldElement)
    requires
        a.wf(),
        b.wf(),
    ensures
        field_add(a@, b@) == field_add(b@, a@),
{
}

/// Addition is associative: (a + b) + c = a + (b + c).
pub proof fn lemma_add_associative(a: FieldElement, b: FieldElement, c: FieldElement)
    requires
        a.wf(),
        b.wf(),
        c.wf(),
    ensures
        field_add(field_add(a@, b@), c@) == field_add(a@, field_add(b@, c@)),
{
    let (x, y, z) = (a@ as int, b@ as int, c@ as int);
    lemma_residue(a);
    lemma_residue(b);
    lemma_residue(c);
    lemma_reduce_add(x, y);
    lemma_reduce_add(x + y, z);
    lemma_reduce_add(y, z);
    lemma_reduce_add(x, y + z);
}

/// Zero is neutral for addition: a + 0 = a.
pub proof fn lemma_add_zero(a: FieldElement)
    requires
        a.wf(),
    ensures
        field_add(a@, 0) == a@,
{
    lemma_residue(a);
}

/// The negative is the additive inverse: a + (-a) = 0.
pub proof fn lemma_add_negative(a: FieldElement)
    requires
        a.wf(),
    ensures
        field_add(a@, field_neg(a@)) == 0,
{
    let x = a@ as int;
    lemma_residue(a);
    lemma_reduce_neg(x);
    lemma_reduce_add(x, -x);
}

/// Multiplication distributes over addition: a (b + c) = a b + a c.
pub proof fn lemma_mul_distributive(a: FieldElement, b: FieldElement, c: FieldElement)
    requires
        a.wf(),
        b.wf(),
        c.wf(),
    ensures
        field_mul(a@, field_add(b@, c@)) == field_add(field_mul(a@, b@), field_mul(a@, c@)),
{
    let (x, y, z) = (a@ as int, b@ as int, c@ as int);
    lemma_residue(a);
    lemma_residue(b);
    lemma_residue(c);
    lemma_reduce_add(y, z);
    lemma_reduce_mul(x, y + z);
    lemma_reduce_mul(x, y);
    lemma_reduce_mul(x, z);
    lemma_reduce_add(x * y, x * z);
    assert(x * (y + z) == x * y + x * z) by (nonlinear_arith);
}

/// One is neutral for multiplication: a 1 = a.
pub proof fn lemma_mul_one(a: FieldElement)
    requires
        a.wf(),
    ensures
        field_mul(a@, 1) == a@,
{
    let x = a@ as int;
    lemma_residue(a);
    assert(x * 1 == x);
}

/// The inverse inverts: for a other than zero, a times its inverse is one.
pub proof fn lemma_mul_inverse(a: FieldElement)
    requires
        a.wf(),
        a@ != 0,
    ensures
        field_mul(a@, field_inv(a@)) == 1,
{
    lemma_residue(a);
    lemma_field_inverse(a@);
}

/// Multiplication commutes: a b = b a.
pub proof fn lemma_mul_commutative(a: FieldElement, b: FieldElement)
    requires
        a.wf(),
        b.wf(),
    ensures
        field_mul(a@, b@) == field_mul(b@, a@),
{
    assert(a@ * b@ == b@ * a@) by (nonlinear_arith);
}

/// Multiplication is associative: (a b) c = a (b c).
pub proof fn lemma_mul_associative(a: FieldElement, b: FieldElement, c: FieldElement)
    requires
        a.wf(),
        b.wf(),
        c.wf(),
    ensures
        field_mul(field_mul(a@, b@), c@) == field_mul(a@, field_mul(b@, c@)),
{
    let (x, y, z) = (a@ as int, b@ as int, c@ as int);
    lemma_residue(a);
    lemma_residue(b);
    lemma_residue(c);
    lemma_reduce_mul(x, y);
    lemma_reduce_mul(x * y, z);
    lemma_reduce_mul(y, z);
    lemma_reduce_mul(x, y * z);
    assert((x * y) * z == x * (y * z)) by (nonlinear_arith);
}

/// Subtraction is addition of the negative: a - b = a + (-b).
pub proof fn lemma_sub_is_add_negative(a: FieldElement, b: FieldElement)
    requires
        a.wf(),
        b.wf(),
    ensures
        field_sub(a@, b@) == field_add(a@, field_neg(b@)),
{
    let (x, y) = (a@ as int, b@ as int);
    lemma_residue(a);
    lemma_residue(b);
    lemma_reduce_sub(x, y);
    lemma_reduce_neg(y);
    lemma_reduce_add(x, -y);
}

/// Negation is an involution: -(-a) = a.
pub proof fn lemma_neg_involution(a: FieldElement)
    requires
        a.wf(),
    ensures
        field_neg(field_neg(a@)) == a@,
{
    let x = a@ as int;
    lemma_residue(a);
    lemma_reduce_neg(x);
    lemma_reduce_neg(-x);
}

/// The residue of a well-formed element is below the modulus.
pub proof fn lemma_residue(a: FieldElement)
    requires
        a.wf(),
    ensures
        a@ < modulus(),
        a@ == reduce(a@ as int),
{
    crate::modular::lemma_field_bounds(a.raw(), 0, 0);
    lemma_reduce_small(a@);
}

/// The product of the encodings of two numbers decodes to the product of
/// the numbers, reduced: where `x` and `y` encode the numbers that the bytes
/// `a` and `b` stand for, and `out` are the bytes of the product of `x` and
/// `y`, `out` stands for the product of the two numbers modulo the modulus.
pub proof fn lemma_product_decodes(
    a: Seq<u8>,
    b: Seq<u8>,
    x: FieldElement,
    y: FieldElement,
    product: FieldElement,
    out: Seq<u8>,
)
    requires
        x@ == bytes_value(a) % modulus(),
        y@ == bytes_value(b) % modulus(),
        product@ == field_mul(x@, y@),
        bytes_value(out) == product@,
    ensures
        bytes_value(out) == (bytes_value(a) * bytes_value(b)) % modulus(),
{
    lemma_mul_mod_noop(bytes_value(a) as int, bytes_value(b) as int, modulus() as int);
}

/// A split of a number into a byte and the rest is unique.
proof fn lemma_split_byte(x: int, xs: int, y: int, ys: int)
    requires
        0 <= x < 256,
        0 <= y < 256,
        x + xs * 256 == y + ys * 256,
    ensures
        x == y,
        xs == ys,
{
}

/// The number that the bytes from `i` on stand for.
spec fn tail_value(b: Seq<u8>, i: int) -> int
    decreases 32 - i,
{
    if i >= 32 {
        0
    } else {
        b[i] + 256 * tail_value(b, i + 1)
    }
}

/// Two runs of bytes from `i` on that stand for one number are equal.
proof fn lemma_tails_unique(a: Seq<u8>, b: Seq<u8>, i: int)
    requires
        0 <= i <= 32,
        a.len() == 32,
        b.len() == 32,
        tail_value(a, i) == tail_value(b, i),
    ensures
        forall|j: int| i <= j < 32 ==> a[j] == b[j],
    decreases 32 - i,
{
    if i < 32 {
        lemma_split_byte(
            a[i] as int,
            tail_value(a, i + 1),
            b[i] as int,
            tail_value(b, i + 1),
        );
        lemma_tails_unique(a, b, i + 1);
    }
}

/// The number that 32 bytes stand for, byte by byte from the first.
proof fn lemma_tail_value(b: Seq<u8>)
    requires
        b.len() == 32,
    ensures
        tail_value(b, 0) == bytes_value(b),
{
    reveal_with_fuel(tail_value, 34);
}

/// 32 bytes are determined by the number they stand for.
pub proof fn lemma_bytes_unique(a: Seq<u8>, b: Seq<u8>)
    requires
        a.len() == 32,
        b.len() == 32,
        bytes_value(a) == bytes_value(b),
    ensures
        a == b,
{
    lemma_tail_value(a);
    lemma_tail_value(b);
    lemma_tails_unique(a, b, 0);
    assert(a =~= b);
}

/// Decoding the encoding of a number below the modulus gives its bytes
/// back: where `x` encodes the number that the bytes `a` stand for, and
/// `out` are the bytes of `x`, `out` is `a`.
pub proof fn lemma_bytes_round_trip(a: Seq<u8>, x: FieldElement, out: Seq<u8>)
    requires
        a.len() == 32,
        out.len() == 32,
        bytes_value(a) < modulus(),
        x@ == bytes_value(a) % modulus(),
        bytes_value(out) == x@,
    ensures
        out == a,
{
    lemma_small_mod(bytes_value(a), modulus());
    lemma_bytes_unique(a, out);
}

/// Decoding the encoding of a reduced scalar gives a scalar with the same
/// bytes: where `x` is the element made from the scalar `s`, and `out` the
/// scalar made from `x`, `out` holds the bytes that `s` holds.
pub proof fn lemma_scalar_round_trip(s: Scalar, x: FieldElement, out: Scalar)
    requires
        scalar_bytes(s).len() == 32,
        bytes_value(scalar_bytes(s)) < modulus(),
        x@ == bytes_value(scalar_bytes(s)) % modulus(),
        scalar_bytes(out).len() == 32,
        bytes_value(scalar_bytes(out)) == x@,
    ensures
        scalar_bytes(out) == scalar_bytes(s),
{
    lemma_bytes_round_trip(scalar_bytes(s), x, scalar_bytes(out));
}

} // verus!
