//! Completeness: the formulas of the sum and of the double never give a
//! point with Z zero, because the curve's parameter d is no square.

use crate::algebra::{
    lemma_binomial, lemma_commute, lemma_distribute, lemma_pairs, lemma_regroup, lemma_rotate,
    lemma_scale,
};
use crate::closure::{lemma_products_of_z_and_t, lemma_twice_products};
use crate::fermat::{lemma_field_inverse, lemma_no_zero_divisors};
use crate::closure::lemma_neg_on_curve;
use crate::edwards::{
    coordinates_wf, lemma_neg_wf, on_curve, point_add, point_double, point_neg, point_sub,
    Coordinates,
};
use crate::edwards_laws::lemma_sub_is_add_negative_coordinates;
use crate::lift::{
    lemma_lift_add, lemma_lift_double, lemma_lift_self, lemma_on_curve_lift, lift_add, lift_double,
    lifts, Lift,
};
use crate::modular::{
    congruent, curve_d, field_inv, field_mul, lemma_congruent_add, lemma_congruent_mul,
    lemma_congruent_sub, lemma_field_bounds, lemma_reduce_congruent, lemma_reduce_mul,
    lemma_reduce_small, modulus, reduce,
};
use crate::nonsquare::lemma_d_not_square;
use vstd::prelude::*;

verus! {

/// A square root of minus one in the field.
pub open spec fn imaginary() -> int {
    0x94a7310e07981e77d3d6d60abc1c27a0ef0565342ce83febe8775dfebbe07d4int
}

/// The square of the imaginary unit is minus one.
pub proof fn lemma_imaginary()
    ensures
        congruent(imaginary() * imaginary(), -1),
        !congruent(imaginary(), 0),
{
    assert((0x94a7310e07981e77d3d6d60abc1c27a0ef0565342ce83febe8775dfebbe07d4int
        * 0x94a7310e07981e77d3d6d60abc1c27a0ef0565342ce83febe8775dfebbe07d4int)
        % 0x1000000000000000000000000000000014def9dea2f79cd65812631a5cf5d3edint
        == 0x1000000000000000000000000000000014def9dea2f79cd65812631a5cf5d3ecint);
}

/// A product is congruent to zero only where a factor is.
pub proof fn lemma_zero_product(a: int, b: int)
    requires
        congruent(a * b, 0),
    ensures
        congruent(a, 0) || congruent(b, 0),
{
    lemma_reduce_mul(a, b);
    lemma_reduce_small(0);
    lemma_no_zero_divisors(reduce(a), reduce(b));
}

/// What is not congruent to zero has an inverse.
pub proof fn lemma_inverse(b: int) -> (inv: int)
    requires
        !congruent(b, 0),
    ensures
        congruent(b * inv, 1),
{
    lemma_reduce_small(0);
    lemma_reduce_small(1);
    let r = reduce(b);
    lemma_field_inverse(r);
    let inv = field_inv(r) as int;
    lemma_field_bounds(r, 0, (modulus() - 2) as nat);
    lemma_reduce_small(field_inv(r));
    lemma_reduce_mul(b, inv);
    inv
}

/// Twice a number is congruent to zero only where the number is.
pub proof fn lemma_halve(a: int)
    requires
        congruent(2 * a, 0),
    ensures
        congruent(a, 0),
{
    let half = 0x80000000000000000000000000000000a6f7cef517bce6b2c09318d2e7ae9f7int;
    lemma_congruent_mul(half, half, 2 * a, 0);
    lemma_reduce_congruent(half * (2 * a), a, a);
}

/// Where the square of `a` is d times the square of `b`, `b` is congruent
/// to zero: else d would be the square of their quotient.
pub proof fn lemma_square_witness(a: int, b: int)
    requires
        congruent(a * a, curve_d() * (b * b)),
    ensures
        congruent(b, 0),
{
    if !congruent(b, 0) {
        let d = curve_d() as int;
        let inv = lemma_inverse(b);
        let s = reduce(a * inv);
        lemma_reduce_mul(a * inv, a * inv);
        // the square of a / b is d (b / b)^2
        lemma_pairs(a, inv, a, inv);
        lemma_congruent_mul(a * a, d * (b * b), inv * inv, inv * inv);
        lemma_pairs(b, inv, b, inv);
        lemma_regroup(d, b * b, inv * inv);
        lemma_congruent_mul(b * inv, 1, b * inv, 1);
        lemma_congruent_mul(d, d, (b * inv) * (b * inv), 1);
        lemma_reduce_small(curve_d());
        assert(congruent((a * inv) * (a * inv), d));
        lemma_field_bounds(0, 0, 0);
        lemma_d_not_square(s);
    }
}

/// Four integers satisfy the curve's equation and X Y = Z T up to
/// multiples of the modulus.
pub open spec fn lift_on_curve(p: Lift) -> bool {
    &&& congruent(p.y * p.y - p.x * p.x, p.z * p.z + curve_d() * (p.t * p.t))
    &&& congruent(p.x * p.y, p.z * p.t)
}

/// A sign squared is one.
proof fn lemma_sign(eps: int, x: int)
    by (nonlinear_arith)
    requires
        eps == 1 || eps == -1,
    ensures
        eps * (eps * x) == x,
        (eps * x) * (eps * x) == x * x,
        eps * eps == 1,
{
}

/// The monomials Z2^2 Z1 T1 and d T1^2 Z2 T2, as multiples of T1 Z2.
proof fn lemma_cross_monomials(z1: int, z2: int, t1: int, t2: int, d: int)
    by (nonlinear_arith)
    ensures
        (z2 * z2) * (z1 * t1) == (t1 * z2) * (z1 * z2),
        (d * (t1 * t1)) * (z2 * t2) == (t1 * z2) * ((d * t1) * t2),
{
}

/// The square of y + c x, where the square of c is minus one and x y is
/// congruent to n: it is congruent to y^2 - x^2 + 2 c n.
proof fn lemma_twisted_binomial(x: int, y: int, n: int, c: int)
    requires
        congruent(c * c, -1),
        congruent(x * y, n),
    ensures
        congruent((y + c * x) * (y + c * x), (y * y - x * x) + 2 * (c * n)),
{
    let xx = x * x;
    let w = x * y;
    lemma_binomial(y, c * x);
    lemma_pairs(c, x, c, x);
    lemma_rotate(y, c, x);
    assert((y + c * x) * (y + c * x) == (y * y + 2 * (c * w)) + (c * c) * xx);
    lemma_congruent_mul(c * c, -1, xx, xx);
    lemma_congruent_mul(c, c, w, n);
    lemma_congruent_mul(2, 2, c * w, c * n);
    lemma_congruent_add(y * y, y * y, 2 * (c * w), 2 * (c * n));
    lemma_congruent_add(y * y + 2 * (c * w), y * y + 2 * (c * n), (c * c) * xx, (-1) * xx);
}

/// Where Z1 Z2 is plus or minus d T1 T2: d T1^2 (Y2^2 - X2^2) and
/// Z2^2 (Y1^2 - X1^2) are congruent.
proof fn lemma_equal_norms(p: Lift, q: Lift, eps: int)
    requires
        lift_on_curve(p),
        lift_on_curve(q),
        eps == 1 || eps == -1,
        congruent(p.z * q.z, eps * ((curve_d() * p.t) * q.t)),
    ensures
        congruent(
            (q.z * q.z) * (p.y * p.y - p.x * p.x),
            (curve_d() * (p.t * p.t)) * (q.y * q.y - q.x * q.x),
        ),
        congruent((curve_d() * p.t) * q.t, eps * (p.z * q.z)),
{
    let d = curve_d() as int;
    let (z1, t1, z2, t2) = (p.z, p.t, q.z, q.t);
    let u = z1 * z2;
    let v = (d * t1) * t2;
    let zz1 = z1 * z1;
    let zz2 = z2 * z2;
    let a1 = d * (t1 * t1);
    let a2 = d * (t2 * t2);
    let d1 = p.y * p.y - p.x * p.x;
    let d2 = q.y * q.y - q.x * q.x;
    // d T1 T2 is the sign times Z1 Z2
    lemma_congruent_mul(eps, eps, u, eps * v);
    lemma_sign(eps, v);
    assert(congruent(v, eps * u));
    // the norms
    lemma_congruent_mul(a1, a1, d2, zz2 + a2);
    lemma_distribute(a1, zz2, a2);
    lemma_products_of_z_and_t(z1, z2, t1, t2, d);
    assert(a1 * a2 == v * v);
    lemma_congruent_mul(v, eps * u, v, eps * u);
    lemma_sign(eps, u);
    assert(u * u == zz1 * zz2);
    lemma_congruent_add(a1 * zz2, a1 * zz2, v * v, zz1 * zz2);
    lemma_distribute(zz2, zz1, a1);
    lemma_commute(a1, zz2);
    lemma_commute(zz1, zz2);
    assert(a1 * zz2 + zz1 * zz2 == zz2 * (zz1 + a1));
    lemma_congruent_mul(zz2, zz2, zz1 + a1, d1);
}

/// Where Z1 Z2 is plus or minus d T1 T2: the square of Z2 (Y1 + c X1) is d
/// times the square of T1 (Y2 + k X2), for k a square root of minus one and
/// c the same with the sign.
proof fn lemma_twisted_squares(p: Lift, q: Lift, eps: int, k: int)
    requires
        lift_on_curve(p),
        lift_on_curve(q),
        eps == 1 || eps == -1,
        congruent(k * k, -1),
        congruent(p.z * q.z, eps * ((curve_d() * p.t) * q.t)),
    ensures
        congruent(
            (q.z * (p.y + (k * eps) * p.x)) * (q.z * (p.y + (k * eps) * p.x)),
            curve_d() * ((p.t * (q.y + k * q.x)) * (p.t * (q.y + k * q.x))),
        ),
{
    let d = curve_d() as int;
    let (x1, y1, z1, t1) = (p.x, p.y, p.z, p.t);
    let (x2, y2, z2, t2) = (q.x, q.y, q.z, q.t);
    let c = k * eps;
    let u = z1 * z2;
    let v = (d * t1) * t2;
    let zz2 = z2 * z2;
    let tt1 = t1 * t1;
    let a1 = d * tt1;
    let d1 = y1 * y1 - x1 * x1;
    let d2 = y2 * y2 - x2 * x2;
    let n1 = z1 * t1;
    let n2 = z2 * t2;
    let pv = y1 + c * x1;
    let qv = y2 + k * x2;
    lemma_equal_norms(p, q, eps);
    // the square of c is the square of k
    lemma_pairs(k, eps, k, eps);
    lemma_sign(eps, 1);
    let kk = k * k;
    assert(kk * (eps * eps) == kk) by (nonlinear_arith)
        requires
            eps * eps == 1,
    ;
    assert(c * c == k * k);
    // the two squares
    lemma_twisted_binomial(x1, y1, n1, c);
    lemma_twisted_binomial(x2, y2, n2, k);
    let pp = d1 + 2 * (c * n1);
    let qq = d2 + 2 * (k * n2);
    lemma_pairs(z2, pv, z2, pv);
    lemma_pairs(t1, qv, t1, qv);
    lemma_congruent_mul(zz2, zz2, pv * pv, pp);
    lemma_congruent_mul(tt1, tt1, qv * qv, qq);
    lemma_congruent_mul(d, d, tt1 * (qv * qv), tt1 * qq);
    lemma_rotate(d, tt1, qq);
    assert(congruent((z2 * pv) * (z2 * pv), zz2 * pp));
    assert(congruent(d * ((t1 * qv) * (t1 * qv)), a1 * qq));
    // both, term by term
    lemma_distribute(zz2, d1, 2 * (c * n1));
    lemma_scale(zz2, 2, c * n1);
    lemma_rotate(zz2, c, n1);
    assert(zz2 * pp == zz2 * d1 + 2 * (c * (zz2 * n1)));
    lemma_distribute(a1, d2, 2 * (k * n2));
    lemma_scale(a1, 2, k * n2);
    lemma_rotate(a1, k, n2);
    assert(a1 * qq == a1 * d2 + 2 * (k * (a1 * n2)));
    // the cross terms
    let m = t1 * z2;
    lemma_cross_monomials(z1, z2, t1, t2, d);
    assert(zz2 * n1 == m * u);
    assert(a1 * n2 == m * v);
    lemma_congruent_mul(m, m, v, eps * u);
    lemma_rotate(m, eps, u);
    assert(congruent(a1 * n2, eps * (zz2 * n1)));
    lemma_congruent_mul(k, k, a1 * n2, eps * (zz2 * n1));
    lemma_rotate(k, eps, zz2 * n1);
    assert(k * (eps * (zz2 * n1)) == c * (zz2 * n1));
    lemma_congruent_mul(2, 2, k * (a1 * n2), c * (zz2 * n1));
    lemma_congruent_add(zz2 * d1, a1 * d2, 2 * (c * (zz2 * n1)), 2 * (k * (a1 * n2)));
}

/// The heart of completeness: for two sets of integers that satisfy the
/// curve's equation and X Y = Z T up to multiples of the modulus, with Z not
/// congruent to zero, Z1 Z2 is congruent neither to d T1 T2 nor to its
/// negative.
pub proof fn lemma_denominator(p: Lift, q: Lift, eps: int)
    requires
        lift_on_curve(p),
        lift_on_curve(q),
        eps == 1 || eps == -1,
        !congruent(p.z, 0),
        !congruent(q.z, 0),
    ensures
        !congruent(p.z * q.z, eps * ((curve_d() * p.t) * q.t)),
{
    let d = curve_d() as int;
    let (x1, y1, z1, t1) = (p.x, p.y, p.z, p.t);
    let (x2, y2, z2, t2) = (q.x, q.y, q.z, q.t);
    let u = z1 * z2;
    let v = (d * t1) * t2;
    if congruent(u, eps * v) {
        let i = imaginary();
        lemma_imaginary();
        // T1 is not zero, as Z1 Z2 is not
        if congruent(t1, 0) {
            lemma_congruent_mul(d, d, t1, 0);
            lemma_congruent_mul(d * t1, 0, t2, t2);
            lemma_congruent_mul(eps, eps, v, 0);
            lemma_zero_product(z1, z2);
            assert(false);
        }
        // with either square root of minus one, Y2 + k X2 is zero
        lemma_twisted_squares(p, q, eps, i);
        lemma_square_witness(z2 * (y1 + (i * eps) * x1), t1 * (y2 + i * x2));
        lemma_zero_product(t1, y2 + i * x2);
        assert((-i) * (-i) == i * i) by (nonlinear_arith);
        lemma_twisted_squares(p, q, eps, -i);
        lemma_square_witness(z2 * (y1 + ((-i) * eps) * x1), t1 * (y2 + (-i) * x2));
        lemma_zero_product(t1, y2 + (-i) * x2);
        assert((-i) * x2 == -(i * x2)) by (nonlinear_arith);
        // so X2 and Y2 are zero
        lemma_congruent_add(y2 + i * x2, 0, y2 + (-i) * x2, 0);
        lemma_halve(y2);
        lemma_congruent_sub(y2 + i * x2, 0, y2 + (-i) * x2, 0);
        lemma_halve(i * x2);
        lemma_zero_product(i, x2);
        // so T2 is zero, and then Z2
        lemma_congruent_mul(x2, 0, y2, 0);
        lemma_zero_product(z2, t2);
        lemma_congruent_mul(y2, 0, y2, 0);
        lemma_congruent_mul(x2, 0, x2, 0);
        lemma_congruent_sub(y2 * y2, 0, x2 * x2, 0);
        lemma_congruent_mul(t2, 0, t2, 0);
        lemma_congruent_mul(d, d, t2 * t2, 0);
        lemma_congruent_sub(z2 * z2 + d * (t2 * t2), 0, d * (t2 * t2), 0);
        lemma_zero_product(z2, z2);
        assert(false);
    }
}

/// The integers of the coordinates of a point of the curve with Z not zero.
pub proof fn lemma_lift_point(p: Coordinates) -> (l: Lift)
    requires
        coordinates_wf(p),
        on_curve(p),
        p.z != 0,
    ensures
        l == (Lift { x: p.x as int, y: p.y as int, z: p.z as int, t: p.t as int }),
        lifts(p, l),
        lift_on_curve(l),
        !congruent(l.z, 0),
{
    let l = Lift { x: p.x as int, y: p.y as int, z: p.z as int, t: p.t as int };
    lemma_lift_self(p);
    lemma_on_curve_lift(p, l);
    lemma_reduce_mul(l.x, l.y);
    lemma_reduce_mul(l.z, l.t);
    lemma_reduce_small(0);
    l
}

/// The product of two numbers, neither of which is congruent to zero where
/// twice it is not, is not congruent to zero.
proof fn lemma_nonzero_product(f: int, g: int, a: int, b: int)
    requires
        f == 2 * a,
        g == 2 * b,
        !congruent(a, 0),
        !congruent(b, 0),
    ensures
        !congruent(f * g, 0),
{
    if congruent(f * g, 0) {
        lemma_zero_product(f, g);
        if congruent(f, 0) {
            lemma_halve(a);
        } else {
            lemma_halve(b);
        }
    }
}

/// The Z that the formula of the sum gives, on integers, is not congruent
/// to zero.
proof fn lemma_add_denominators(p: Lift, q: Lift)
    requires
        lift_on_curve(p),
        lift_on_curve(q),
        !congruent(p.z, 0),
        !congruent(q.z, 0),
    ensures
        !congruent(lift_add(p, q).z, 0),
{
    let d = curve_d() as int;
    let u = p.z * q.z;
    let v = (d * p.t) * q.t;
    lemma_twice_products(p.z, q.z, p.t, q.t, d);
    let f = (2 * p.z) * q.z - ((d * 2) * p.t) * q.t;
    let g = (2 * p.z) * q.z + ((d * 2) * p.t) * q.t;
    assert(lift_add(p, q).z == f * g);
    lemma_denominator(p, q, 1);
    lemma_denominator(p, q, -1);
    if congruent(u - v, 0) {
        lemma_congruent_add(u - v, 0, v, v);
    }
    if congruent(u + v, 0) {
        lemma_congruent_sub(u + v, 0, v, v);
    }
    lemma_nonzero_product(f, g, u - v, u + v);
}

/// The formula of the sum is complete: the sum of two points of the curve
/// with Z not zero has Z not zero.
pub proof fn lemma_add_complete(p: Coordinates, q: Coordinates)
    requires
        coordinates_wf(p),
        on_curve(p),
        p.z != 0,
        coordinates_wf(q),
        on_curve(q),
        q.z != 0,
    ensures
        point_add(p, q).z != 0,
{
    let pl = lemma_lift_point(p);
    let ql = lemma_lift_point(q);
    lemma_lift_add(p, pl, q, ql);
    lemma_add_denominators(pl, ql);
    lemma_reduce_small(0);
}

/// The formula of the double is complete: the double of a point of the
/// curve with Z not zero has Z not zero.
pub proof fn lemma_double_complete(p: Coordinates)
    requires
        coordinates_wf(p),
        on_curve(p),
        p.z != 0,
    ensures
        point_double(p).z != 0,
{
    let pl = lemma_lift_point(p);
    let d = curve_d() as int;
    let (x, y, z, t) = (pl.x, pl.y, pl.z, pl.t);
    let u = z * z;
    let v = (d * t) * t;
    lemma_lift_double(p, pl);
    lemma_reduce_small(0);
    let g = -(x * x) + y * y;
    let c = (2 * z) * z;
    let f = g - c;
    assert(lift_double(pl).z == f * g);
    lemma_rotate(d, t, t);
    assert(c == 2 * u) by (nonlinear_arith)
        requires
            c == (2 * z) * z,
            u == z * z,
    ;
    // by the curve's equation, g is u + v, and f is v - u
    assert(congruent(g, u + v));
    lemma_congruent_sub(g, u + v, c, c);
    if point_double(p).z == 0 {
        lemma_zero_product(f, g);
        if congruent(f, 0) {
            lemma_congruent_sub(v, v, v - u, 0);
            lemma_denominator(pl, pl, 1);
        } else {
            lemma_congruent_sub(u + v, 0, v, v);
            lemma_denominator(pl, pl, -1);
        }
        assert(false);
    }
}

/// The formula of the difference is complete: the difference of two points
/// of the curve with Z not zero has Z not zero.
pub proof fn lemma_sub_complete(p: Coordinates, q: Coordinates)
    requires
        coordinates_wf(p),
        on_curve(p),
        p.z != 0,
        coordinates_wf(q),
        on_curve(q),
        q.z != 0,
    ensures
        point_sub(p, q).z != 0,
{
    lemma_sub_is_add_negative_coordinates(p, q);
    lemma_neg_wf(q);
    lemma_neg_on_curve(q);
    lemma_add_complete(p, point_neg(q));
}

} // verus!
