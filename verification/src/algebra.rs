//! Small identities of integer arithmetic, each within reach of the
//! nonlinear solver, from which the larger ones are put together.

use vstd::prelude::*;

verus! {

/// Four factors, paired in every way.
pub proof fn lemma_pairs(a: int, b: int, c: int, d: int)
    by (nonlinear_arith)
    ensures
        (a * b) * (c * d) == (a * c) * (b * d),
        (a * b) * (c * d) == (a * d) * (b * c),
{
}

/// The square of a sum and of a difference.
pub proof fn lemma_binomial(a: int, b: int)
    by (nonlinear_arith)
    ensures
        (a + b) * (a + b) == a * a + 2 * (a * b) + b * b,
        (a - b) * (a - b) == a * a - 2 * (a * b) + b * b,
{
}

/// A product, the other way round.
pub proof fn lemma_commute(a: int, b: int)
    by (nonlinear_arith)
    ensures
        a * b == b * a,
{
}

/// The product of two sums of two terms.
pub proof fn lemma_foil(a: int, b: int, c: int, d: int)
    by (nonlinear_arith)
    ensures
        (a + b) * (c + d) == a * c + a * d + b * c + b * d,
        (a - b) * (c - d) == a * c - a * d - b * c + b * d,
{
}

/// A factor times a sum, term by term.
pub proof fn lemma_distribute(a: int, b: int, c: int)
    by (nonlinear_arith)
    ensures
        a * (b + c) == a * b + a * c,
        (b + c) * a == b * a + c * a,
{
}

/// A number taken out of a product.
pub proof fn lemma_scale(a: int, k: int, b: int)
    by (nonlinear_arith)
    ensures
        a * (k * b) == k * (a * b),
        (k * a) * b == k * (a * b),
{
}

/// Three factors, grouped the other way.
pub proof fn lemma_regroup(a: int, b: int, c: int)
    by (nonlinear_arith)
    ensures
        a * (b * c) == (a * b) * c,
{
}

/// Four factors, paired in another way.
pub proof fn lemma_swap(a: int, b: int, c: int, d: int)
    by (nonlinear_arith)
    ensures
        (a * b) * (c * d) == (a * d) * (c * b),
        (a * b) * (c * d) == (a * d) * (b * c),
{
}

/// A factor that changes by a multiple of the modulus changes the product
/// by a multiple of the modulus.
pub proof fn lemma_shift(a: int, b: int, c: int, w: int, m: int)
    by (nonlinear_arith)
    requires
        a == b + c * m,
    ensures
        a * w == b * w + (c * w) * m,
        w * a == w * b + (c * w) * m,
{
}

/// Two products of three factors, multiplied factor by factor.
pub proof fn lemma_tensor(a1: int, a2: int, a3: int, b1: int, b2: int, b3: int)
    by (nonlinear_arith)
    ensures
        (a1 * (a2 * a3)) * (b1 * (b2 * b3)) == (a1 * b1) * ((a2 * b2) * (a3 * b3)),
{
}

/// Two terms with their coefficients, multiplied.
pub proof fn lemma_coefficients(c1: int, a1: int, c2: int, a2: int)
    by (nonlinear_arith)
    ensures
        (c1 * a1) * (c2 * a2) == (c1 * c2) * (a1 * a2),
{
}

/// A product of three factors, in the opposite order.
pub proof fn lemma_mirror(a: int, b: int, c: int)
    by (nonlinear_arith)
    ensures
        a * (b * c) == c * (b * a),
{
}

/// A factor times y - x - d t, term by term.
pub proof fn lemma_spread_scaled(w: int, y: int, x: int, t: int, d: int)
    by (nonlinear_arith)
    ensures
        w * ((y - x) - d * t) == (w * y - w * x) - d * (w * t),
{
}

/// A factor times a difference, term by term.
pub proof fn lemma_distribute_sub(a: int, b: int, c: int)
    by (nonlinear_arith)
    ensures
        a * (b - c) == a * b - a * c,
        (b - c) * a == b * a - c * a,
{
}

/// Three factors, in other orders.
pub proof fn lemma_rotate(a: int, b: int, c: int)
    by (nonlinear_arith)
    ensures
        a * (b * c) == b * (c * a),
        a * (b * c) == b * (a * c),
        a * (b * c) == (a * b) * c,
{
}

} // verus!
