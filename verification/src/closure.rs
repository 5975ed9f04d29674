//! Closure: the sum, the difference, the double and the negative of points
//! of the curve are points of the curve.

use crate::algebra::{
    lemma_binomial, lemma_commute, lemma_distribute, lemma_foil, lemma_pairs, lemma_regroup,
    lemma_scale,
};
use crate::edwards::{
    coordinates_wf, lemma_neg_wf, on_curve, point_add, point_double, point_neg, point_sub,
    Coordinates,
};
use crate::edwards_laws::lemma_sub_is_add_negative_coordinates;
use crate::lift::{
    lemma_lift_add, lemma_lift_double, lemma_lift_self, lemma_on_curve_lift, lift_add,
    lift_completed, lift_double, Lift,
};
use crate::modular::{
    congruent, curve_d, lemma_congruent_add, lemma_congruent_mul, lemma_congruent_sub,
    lemma_reduce_mul, lemma_reduce_neg, lemma_reduce_small,
};
use vstd::prelude::*;

verus! {

/// The curve's equation of the four completed products, with the common
/// factor sixteen taken out: where E, F, G, H are twice e, f, g, h.
proof fn lemma_completed_equation(e: int, f: int, g: int, h: int, d: int)
    by (nonlinear_arith)
    ensures
        ((2 * g) * (2 * h)) * ((2 * g) * (2 * h)) - ((2 * e) * (2 * f)) * ((2 * e) * (2 * f)) == 16
            * ((g * h) * (g * h) - (e * f) * (e * f)),
        ((2 * f) * (2 * g)) * ((2 * f) * (2 * g)) + d * (((2 * e) * (2 * h)) * ((2 * e) * (2 * h)))
            == 16 * ((f * g) * (f * g) + d * ((e * h) * (e * h))),
{
}

/// The two bilinear forms of the sum, e = x1 y2 + y1 x2 and
/// h = y1 y2 + x1 x2, in the squares and products of the coordinates.
proof fn lemma_bilinear_forms(x1: int, y1: int, x2: int, y2: int)
    ensures
        ({
            let e = x1 * y2 + y1 * x2;
            let h = y1 * y2 + x1 * x2;
            let d1 = y1 * y1 - x1 * x1;
            let d2 = y2 * y2 - x2 * x2;
            let s1 = y1 * y1 + x1 * x1;
            let s2 = y2 * y2 + x2 * x2;
            let w1 = x1 * y1;
            let w2 = x2 * y2;
            &&& h * h - e * e == d1 * d2
            &&& h * h + e * e == s1 * s2 + 4 * (w1 * w2)
            &&& e * h == w1 * s2 + w2 * s1
        }),
{
    let a = y1 * y2;
    let b = x1 * x2;
    let c = x1 * y2;
    let d = y1 * x2;
    let (xx1, yy1, xx2, yy2) = (x1 * x1, y1 * y1, x2 * x2, y2 * y2);
    let w1 = x1 * y1;
    let w2 = x2 * y2;
    let ww = w1 * w2;
    lemma_commute(y1, x1);
    lemma_commute(y2, x2);
    // the squares of the four products, by pairs
    lemma_pairs(y1, y2, y1, y2);
    lemma_pairs(x1, x2, x1, x2);
    lemma_pairs(x1, y2, x1, y2);
    lemma_pairs(y1, x2, y1, x2);
    assert(a * a == yy1 * yy2);
    assert(b * b == xx1 * xx2);
    assert(c * c == xx1 * yy2);
    assert(d * d == yy1 * xx2);
    // the mixed products
    lemma_pairs(y1, y2, x1, x2);
    lemma_pairs(x1, y2, y1, x2);
    assert(a * b == ww);
    assert(c * d == ww);
    lemma_binomial(a, b);
    lemma_binomial(c, d);
    lemma_foil(yy1, xx1, yy2, xx2);
    // e h, term by term
    lemma_foil(c, d, a, b);
    lemma_pairs(x1, y2, y1, y2);
    lemma_pairs(x1, y2, x1, x2);
    lemma_pairs(y1, x2, y1, y2);
    lemma_pairs(y1, x2, x1, x2);
    assert(c * a == w1 * yy2);
    assert(c * b == xx1 * w2);
    assert(d * a == yy1 * w2);
    assert(d * b == w1 * xx2);
    lemma_commute(xx1, w2);
    lemma_commute(yy1, w2);
    lemma_foil(w1, 0, yy2, xx2);
    lemma_foil(w2, 0, yy1, xx1);
}

/// The left side of the sum's equation, in the squares of the two bilinear
/// forms.
proof fn lemma_sum_left(u: int, v: int, e: int, h: int)
    ensures
        ((u + v) * h) * ((u + v) * h) - (e * (u - v)) * (e * (u - v)) == (h * h - e * e) * (u * u
            + v * v) + ((u * v) * 2) * (h * h + e * e),
{
    let hh = h * h;
    let ee = e * e;
    let p = u * u + v * v;
    let q = u * v;
    lemma_pairs(u + v, h, u + v, h);
    lemma_pairs(e, u - v, e, u - v);
    lemma_binomial(u, v);
    assert((p + 2 * q) * hh - ee * (p - 2 * q) == (hh - ee) * p + (q * 2) * (hh + ee))
        by (nonlinear_arith);
}

/// Twice the two bilinear forms, as the formula of the sum computes them.
pub proof fn lemma_twice_forms(x1: int, y1: int, x2: int, y2: int)
    by (nonlinear_arith)
    ensures
        (y1 + x1) * (y2 + x2) - (y1 - x1) * (y2 - x2) == 2 * (x1 * y2 + y1 * x2),
        (y1 + x1) * (y2 + x2) + (y1 - x1) * (y2 - x2) == 2 * (y1 * y2 + x1 * x2),
{
}

/// Twice the two products of Z and of T, as the formula of the sum computes
/// them.
pub proof fn lemma_twice_products(z1: int, z2: int, t1: int, t2: int, d: int)
    by (nonlinear_arith)
    ensures
        (2 * z1) * z2 == 2 * (z1 * z2),
        ((d * 2) * t1) * t2 == 2 * ((d * t1) * t2),
{
}

/// The square of w1 s2 + w2 s1.
proof fn lemma_square_of_form(w1: int, w2: int, s1: int, s2: int)
    ensures
        (w1 * s2 + w2 * s1) * (w1 * s2 + w2 * s1) == (w1 * w1) * (s2 * s2) + 2 * ((w1 * w2) * (s1
            * s2)) + (w2 * w2) * (s1 * s1),
{
    lemma_binomial(w1 * s2, w2 * s1);
    lemma_pairs(w1, s2, w1, s2);
    lemma_pairs(w1, s2, w2, s1);
    lemma_pairs(w2, s1, w2, s1);
    lemma_commute(s2, s1);
}

/// The square of y^2 + x^2 is the square of y^2 - x^2 plus four times the
/// square of x y.
proof fn lemma_square_of_sum(x: int, y: int)
    by (nonlinear_arith)
    ensures
        (y * y + x * x) * (y * y + x * x) == (y * y - x * x) * (y * y - x * x) + 4 * ((x * y) * (x
            * y)),
{
}

/// The products of the Z and T coordinates of two points, in their squares.
pub proof fn lemma_products_of_z_and_t(z1: int, z2: int, t1: int, t2: int, d: int)
    by (nonlinear_arith)
    ensures
        (z1 * z2) * (z1 * z2) == (z1 * z1) * (z2 * z2),
        ((d * t1) * t2) * ((d * t1) * t2) == (d * (t1 * t1)) * (d * (t2 * t2)),
        (z1 * z2) * ((d * t1) * t2) == d * ((z1 * t1) * (z2 * t2)),
        d * ((z1 * t1) * (z1 * t1)) == (z1 * z1) * (d * (t1 * t1)),
        d * ((z2 * t2) * (z2 * t2)) == (z2 * z2) * (d * (t2 * t2)),
        ((z1 * t1) * (z2 * t2)) * ((z1 * t1) * (z2 * t2)) == ((z1 * t1) * (z1 * t1)) * ((z2 * t2)
            * (z2 * t2)),
{
}

/// The heart of closure under addition, in the squares of Z and d times
/// the squares of T.
proof fn lemma_closure_core(z1: int, z2: int, a1: int, a2: int)
    ensures
        ((z1 + a1) * (z2 + a2)) * (z1 * z2 + a1 * a2) == (z1 * z2 - a1 * a2) * (z1 * z2 - a1 * a2)
            + (z1 * a1) * ((z2 + a2) * (z2 + a2)) + (z2 * a2) * ((z1 + a1) * (z1 + a1)),
{
    let a = z1 * z2;
    let b = a1 * a2;
    let c = z1 * a2;
    let d = a1 * z2;
    let m = a + b;
    // the left side
    lemma_foil(z1, a1, z2, a2);
    assert((z1 + a1) * (z2 + a2) == ((a + c) + d) + b);
    lemma_distribute(m, (a + c) + d, b);
    lemma_distribute(m, a + c, d);
    lemma_distribute(m, a, c);
    lemma_distribute(a, a, b);
    lemma_distribute(c, a, b);
    lemma_distribute(d, a, b);
    lemma_distribute(b, a, b);
    lemma_commute(c, a);
    lemma_commute(d, a);
    lemma_commute(b, a);
    let left = ((z1 + a1) * (z2 + a2)) * m;
    assert(left == a * a + 2 * (a * b) + b * b + a * c + c * b + a * d + d * b);
    // the square
    lemma_binomial(a, b);
    // the two products with squares of sums
    lemma_binomial(z2, a2);
    lemma_binomial(z1, a1);
    let k1 = z1 * a1;
    let k2 = z2 * a2;
    lemma_distribute(k1, z2 * z2 + 2 * (z2 * a2), a2 * a2);
    lemma_distribute(k1, z2 * z2, 2 * (z2 * a2));
    lemma_scale(k1, 2, z2 * a2);
    lemma_distribute(k2, z1 * z1 + 2 * (z1 * a1), a1 * a1);
    lemma_distribute(k2, z1 * z1, 2 * (z1 * a1));
    lemma_scale(k2, 2, z1 * a1);
    lemma_pairs(z1, a1, z2, z2);
    lemma_pairs(z1, a1, z2, a2);
    lemma_pairs(z1, a1, a2, a2);
    assert(k1 * (z2 * z2) == a * d);
    assert(k1 * k2 == a * b);
    assert(k1 * (a2 * a2) == c * b);
    lemma_pairs(z2, a2, z1, z1);
    lemma_pairs(z2, a2, z1, a1);
    lemma_pairs(z2, a2, a1, a1);
    lemma_commute(z2, z1);
    lemma_commute(a2, z1);
    lemma_commute(a2, a1);
    lemma_commute(z2, a1);
    assert(k2 * (z1 * z1) == a * c);
    assert(k2 * k1 == a * b);
    assert(k2 * (a1 * a1) == d * b);
}

/// The product of d with the three terms of the square of e h.
proof fn lemma_distribute_d(d: int, al: int, be: int, p1: int, p2: int, n: int, s: int)
    ensures
        d * ((al * (p2 + 4 * be) + 2 * (n * s)) + be * (p1 + 4 * al)) == (((d * al) * p2 + (d
            * be) * p1) + 8 * (d * (al * be))) + 2 * (d * (n * s)),
{
    let x = al * (p2 + 4 * be);
    let y = 2 * (n * s);
    let w = be * (p1 + 4 * al);
    lemma_distribute(d, x + y, w);
    lemma_distribute(d, x, y);
    lemma_scale(d, 2, n * s);
    lemma_distribute(al, p2, 4 * be);
    lemma_scale(al, 4, be);
    lemma_distribute(be, p1, 4 * al);
    lemma_scale(be, 4, al);
    lemma_commute(be, al);
    lemma_distribute(d, al * p2, 4 * (al * be));
    lemma_scale(d, 4, al * be);
    lemma_distribute(d, be * p1, 4 * (al * be));
    lemma_regroup(d, al, p2);
    lemma_regroup(d, be, p1);
}

/// The cross terms of the sum's equation.
proof fn lemma_cross_terms(uv: int, s: int, w: int, d: int, n: int)
    by (nonlinear_arith)
    ensures
        (uv * 2) * (s + 4 * w) == (uv * 2) * s + (uv * 8) * w,
        ((d * n) * 2) * s == 2 * (d * (n * s)),
        ((d * n) * 8) * n == 8 * (d * (n * n)),
{
}

/// The difference of two squares.
proof fn lemma_difference_of_squares(u: int, v: int)
    by (nonlinear_arith)
    ensures
        (u - v) * (u + v) == u * u - v * v,
{
}

/// Closure under addition, on integers: where two sets of four integers
/// satisfy the curve's equation and X Y = Z T up to multiples of the
/// modulus, so does the formula of the sum.
pub proof fn lemma_add_equation(p: Lift, q: Lift)
    requires
        congruent(p.y * p.y - p.x * p.x, p.z * p.z + curve_d() * (p.t * p.t)),
        congruent(p.x * p.y, p.z * p.t),
        congruent(q.y * q.y - q.x * q.x, q.z * q.z + curve_d() * (q.t * q.t)),
        congruent(q.x * q.y, q.z * q.t),
    ensures
        ({
            let s = lift_add(p, q);
            congruent(s.y * s.y - s.x * s.x, s.z * s.z + curve_d() * (s.t * s.t))
        }),
{
    let (x1, y1, z1, t1) = (p.x, p.y, p.z, p.t);
    let (x2, y2, z2, t2) = (q.x, q.y, q.z, q.t);
    let d = curve_d() as int;
    let e = x1 * y2 + y1 * x2;
    let h = y1 * y2 + x1 * x2;
    let u = z1 * z2;
    let v = (d * t1) * t2;
    let f = u - v;
    let g = u + v;
    let s = lift_add(p, q);
    lemma_twice_forms(x1, y1, x2, y2);
    lemma_twice_products(z1, z2, t1, t2, d);
    assert(s == lift_completed(2 * e, 2 * f, 2 * g, 2 * h));
    lemma_completed_equation(e, f, g, h, d);
    let left = (g * h) * (g * h) - (e * f) * (e * f);
    let right = (f * g) * (f * g) + d * ((e * h) * (e * h));
    assert(s.y * s.y - s.x * s.x == 16 * left);
    assert(s.z * s.z + d * (s.t * s.t) == 16 * right);

    // the squares and products that the two sides are made of
    let d1 = y1 * y1 - x1 * x1;
    let d2 = y2 * y2 - x2 * x2;
    let s1 = y1 * y1 + x1 * x1;
    let s2 = y2 * y2 + x2 * x2;
    let w1 = x1 * y1;
    let w2 = x2 * y2;
    let n1 = z1 * t1;
    let n2 = z2 * t2;
    let zz1 = z1 * z1;
    let zz2 = z2 * z2;
    let a1 = d * (t1 * t1);
    let a2 = d * (t2 * t2);
    let p1 = zz1 + a1;
    let p2 = zz2 + a2;
    let ss = s1 * s2;
    let nn = n1 * n2;
    let uv = u * v;
    let sq = u * u + v * v;

    // the left side, exactly
    lemma_sum_left(u, v, e, h);
    lemma_bilinear_forms(x1, y1, x2, y2);
    lemma_cross_terms(uv, ss, w1 * w2, d, nn);
    assert(left == ((d1 * d2) * sq + (uv * 2) * ss) + (uv * 8) * (w1 * w2));

    // the right side, exactly
    lemma_square_of_form(w1, w2, s1, s2);
    lemma_square_of_sum(x1, y1);
    lemma_square_of_sum(x2, y2);
    let r1 = (w1 * w1) * (d2 * d2 + 4 * (w2 * w2));
    let r2 = 2 * ((w1 * w2) * ss);
    let r3 = (w2 * w2) * (d1 * d1 + 4 * (w1 * w1));
    assert((e * h) * (e * h) == (r1 + r2) + r3);
    let fg = (f * g) * (f * g);
    assert(right == fg + d * ((r1 + r2) + r3));

    // the left side, with the curve's equation and X Y = Z T put in
    lemma_congruent_mul(d1, p1, d2, p2);
    lemma_congruent_mul(d1 * d2, p1 * p2, sq, sq);
    lemma_congruent_mul(w1, n1, w2, n2);
    lemma_congruent_mul(uv * 8, uv * 8, w1 * w2, nn);
    lemma_congruent_add((d1 * d2) * sq, (p1 * p2) * sq, (uv * 2) * ss, (uv * 2) * ss);
    lemma_congruent_add(
        (d1 * d2) * sq + (uv * 2) * ss,
        (p1 * p2) * sq + (uv * 2) * ss,
        (uv * 8) * (w1 * w2),
        (uv * 8) * nn,
    );
    let left2 = ((p1 * p2) * sq + (uv * 2) * ss) + (uv * 8) * nn;
    assert(congruent(left, left2));

    // the right side, with the same put in
    lemma_congruent_mul(w1, n1, w1, n1);
    lemma_congruent_mul(w2, n2, w2, n2);
    lemma_congruent_mul(d1, p1, d1, p1);
    lemma_congruent_mul(d2, p2, d2, p2);
    lemma_congruent_mul(4, 4, w1 * w1, n1 * n1);
    lemma_congruent_mul(4, 4, w2 * w2, n2 * n2);
    lemma_congruent_add(d2 * d2, p2 * p2, 4 * (w2 * w2), 4 * (n2 * n2));
    lemma_congruent_add(d1 * d1, p1 * p1, 4 * (w1 * w1), 4 * (n1 * n1));
    lemma_congruent_mul(w1 * w1, n1 * n1, d2 * d2 + 4 * (w2 * w2), p2 * p2 + 4 * (n2 * n2));
    lemma_congruent_mul(w2 * w2, n2 * n2, d1 * d1 + 4 * (w1 * w1), p1 * p1 + 4 * (n1 * n1));
    lemma_congruent_mul(w1 * w2, nn, ss, ss);
    lemma_congruent_mul(2, 2, (w1 * w2) * ss, nn * ss);
    let q1 = (n1 * n1) * (p2 * p2 + 4 * (n2 * n2));
    let q2 = 2 * (nn * ss);
    let q3 = (n2 * n2) * (p1 * p1 + 4 * (n1 * n1));
    lemma_congruent_add(r1, q1, r2, q2);
    lemma_congruent_add(r1 + r2, q1 + q2, r3, q3);
    lemma_congruent_mul(d, d, (r1 + r2) + r3, (q1 + q2) + q3);
    lemma_congruent_add(fg, fg, d * ((r1 + r2) + r3), d * ((q1 + q2) + q3));
    let right2 = fg + d * ((q1 + q2) + q3);
    assert(congruent(right, right2));

    // the two are one polynomial
    lemma_products_of_z_and_t(z1, z2, t1, t2, d);
    lemma_difference_of_squares(u, v);
    lemma_commute(u - v, u + v);
    lemma_distribute_d(d, n1 * n1, n2 * n2, p1 * p1, p2 * p2, nn, ss);
    lemma_closure_core(zz1, zz2, a1, a2);
    assert(u * u == zz1 * zz2);
    assert(v * v == a1 * a2);
    assert(uv == d * nn);
    assert(d * (n1 * n1) == zz1 * a1);
    assert(d * (n2 * n2) == zz2 * a2);
    assert(nn * nn == (n1 * n1) * (n2 * n2));
    assert(fg == (zz1 * zz2 - a1 * a2) * (zz1 * zz2 - a1 * a2));
    assert(left2 == right2);

    lemma_congruent_mul(16, 16, left, right);
}

/// The values of the double's formula, in x y, the squares, and the sum
/// and difference of the squares.
proof fn lemma_double_values(x: int, y: int, z: int)
    by (nonlinear_arith)
    ensures
        ((x + y) * (x + y) - x * x) - y * y == 2 * (x * y),
        (2 * z) * z == 2 * (z * z),
{
}

/// The squares of the four products of the double's formula.
proof fn lemma_double_squares(w: int, f: int, g: int, s: int)
    ensures
        (g * (-s)) * (g * (-s)) == (g * g) * (s * s),
        ((2 * w) * f) * ((2 * w) * f) == 4 * ((w * w) * (f * f)),
        (f * g) * (f * g) == (f * f) * (g * g),
        ((2 * w) * (-s)) * ((2 * w) * (-s)) == 4 * ((w * w) * (s * s)),
{
    lemma_pairs(g, -s, g, -s);
    lemma_pairs(2 * w, f, 2 * w, f);
    lemma_pairs(f, g, f, g);
    lemma_pairs(2 * w, -s, 2 * w, -s);
    assert((-s) * (-s) == s * s) by (nonlinear_arith);
    assert((2 * w) * (2 * w) == 4 * (w * w)) by (nonlinear_arith);
    lemma_scale(1, 4, w * w);
    let ww = w * w;
    let ff = f * f;
    let ss = s * s;
    assert((4 * ww) * ff == 4 * (ww * ff)) by (nonlinear_arith);
    assert((4 * ww) * ss == 4 * (ww * ss)) by (nonlinear_arith);
}

/// The heart of closure under doubling.
proof fn lemma_double_core(pp: int, nq: int, za: int)
    by (nonlinear_arith)
    ensures
        pp * (pp + 4 * nq) - 4 * (nq * (pp - 4 * za)) == (pp - 4 * za) * pp + (4 * za) * (pp + 4
            * nq),
{
}

/// The squares of Z + a and of a - Z differ by four times Z a.
proof fn lemma_double_difference(z: int, a: int)
    by (nonlinear_arith)
    ensures
        (z + a) * (z + a) - ((z + a) - 2 * z) * ((z + a) - 2 * z) == 4 * (z * a),
{
}

/// Closure under doubling, on integers: where four integers satisfy the
/// curve's equation and X Y = Z T up to multiples of the modulus, so does
/// the formula of the double.
pub proof fn lemma_double_equation(p: Lift)
    requires
        congruent(p.y * p.y - p.x * p.x, p.z * p.z + curve_d() * (p.t * p.t)),
        congruent(p.x * p.y, p.z * p.t),
    ensures
        ({
            let s = lift_double(p);
            congruent(s.y * s.y - s.x * s.x, s.z * s.z + curve_d() * (s.t * s.t))
        }),
{
    let (x, y, z, t) = (p.x, p.y, p.z, p.t);
    let d = curve_d() as int;
    let r = lift_double(p);
    let w = x * y;
    let dl = y * y - x * x;
    let s = y * y + x * x;
    let zz = z * z;
    let f = dl - 2 * zz;
    lemma_double_values(x, y, z);
    assert(r == lift_completed(2 * w, f, dl, -s));
    lemma_double_squares(w, f, dl, s);
    lemma_square_of_sum(x, y);
    let ww = w * w;
    let dd = dl * dl;
    let ff = f * f;
    let left = dd * (dd + 4 * ww) - 4 * (ww * ff);
    let right = ff * dd + d * (4 * (ww * (dd + 4 * ww)));
    assert(r.y * r.y - r.x * r.x == left);
    assert(r.z * r.z + d * (r.t * r.t) == right);

    // with the curve's equation and X Y = Z T put in
    let a = d * (t * t);
    let n = z * t;
    let pv = zz + a;
    let qv = pv - 2 * zz;
    let pp = pv * pv;
    let qq = qv * qv;
    let nq = n * n;
    lemma_congruent_mul(dl, pv, dl, pv);
    lemma_congruent_mul(w, n, w, n);
    lemma_congruent_sub(dl, pv, 2 * zz, 2 * zz);
    lemma_congruent_mul(f, qv, f, qv);
    lemma_congruent_mul(4, 4, ww, nq);
    lemma_congruent_add(dd, pp, 4 * ww, 4 * nq);
    lemma_congruent_mul(dd, pp, dd + 4 * ww, pp + 4 * nq);
    lemma_congruent_mul(ww, nq, ff, qq);
    lemma_congruent_mul(4, 4, ww * ff, nq * qq);
    lemma_congruent_sub(dd * (dd + 4 * ww), pp * (pp + 4 * nq), 4 * (ww * ff), 4 * (nq * qq));
    let left2 = pp * (pp + 4 * nq) - 4 * (nq * qq);
    assert(congruent(left, left2));
    lemma_congruent_mul(ff, qq, dd, pp);
    lemma_congruent_mul(ww, nq, dd + 4 * ww, pp + 4 * nq);
    lemma_congruent_mul(4, 4, ww * (dd + 4 * ww), nq * (pp + 4 * nq));
    lemma_congruent_mul(d, d, 4 * (ww * (dd + 4 * ww)), 4 * (nq * (pp + 4 * nq)));
    lemma_congruent_add(ff * dd, qq * pp, d * (4 * (ww * (dd + 4 * ww))), d * (4 * (nq * (pp + 4 * nq))));
    let right2 = qq * pp + d * (4 * (nq * (pp + 4 * nq)));
    assert(congruent(right, right2));

    // the two are one polynomial
    let za = zz * a;
    lemma_products_of_z_and_t(z, z, t, t, d);
    assert(d * nq == za);
    lemma_double_difference(zz, a);
    assert(qq == pp - 4 * za);
    let m = pp + 4 * nq;
    lemma_scale(d, 4, nq * m);
    lemma_regroup(d, nq, m);
    lemma_scale(1, 4, za * m);
    assert((4 * za) * m == 4 * (za * m)) by (nonlinear_arith);
    assert(d * (4 * (nq * m)) == (4 * za) * m);
    lemma_double_core(pp, nq, za);
    assert(left2 == right2);
}

/// The sum of two points of the curve is a point of the curve.
pub proof fn lemma_add_on_curve(p: Coordinates, q: Coordinates)
    requires
        coordinates_wf(p),
        on_curve(p),
        coordinates_wf(q),
        on_curve(q),
    ensures
        on_curve(point_add(p, q)),
{
    let pl = Lift { x: p.x as int, y: p.y as int, z: p.z as int, t: p.t as int };
    let ql = Lift { x: q.x as int, y: q.y as int, z: q.z as int, t: q.t as int };
    lemma_lift_self(p);
    lemma_lift_self(q);
    lemma_on_curve_lift(p, pl);
    lemma_on_curve_lift(q, ql);
    lemma_reduce_mul(pl.x, pl.y);
    lemma_reduce_mul(pl.z, pl.t);
    lemma_reduce_mul(ql.x, ql.y);
    lemma_reduce_mul(ql.z, ql.t);
    lemma_add_equation(pl, ql);
    lemma_lift_add(p, pl, q, ql);
    lemma_on_curve_lift(point_add(p, q), lift_add(pl, ql));
}

/// The double of a point of the curve is a point of the curve.
pub proof fn lemma_double_on_curve(p: Coordinates)
    requires
        coordinates_wf(p),
        on_curve(p),
    ensures
        on_curve(point_double(p)),
{
    let pl = Lift { x: p.x as int, y: p.y as int, z: p.z as int, t: p.t as int };
    lemma_lift_self(p);
    lemma_on_curve_lift(p, pl);
    lemma_reduce_mul(pl.x, pl.y);
    lemma_reduce_mul(pl.z, pl.t);
    lemma_double_equation(pl);
    lemma_lift_double(p, pl);
    lemma_on_curve_lift(point_double(p), lift_double(pl));
}

/// The difference of two points of the curve is a point of the curve.
pub proof fn lemma_sub_on_curve(p: Coordinates, q: Coordinates)
    requires
        coordinates_wf(p),
        on_curve(p),
        coordinates_wf(q),
        on_curve(q),
    ensures
        on_curve(point_sub(p, q)),
{
    lemma_sub_is_add_negative_coordinates(p, q);
    lemma_neg_wf(q);
    lemma_neg_on_curve(q);
    lemma_add_on_curve(p, point_neg(q));
}

/// The negative of a point of the curve is a point of the curve.
pub proof fn lemma_neg_on_curve(p: Coordinates)
    requires
        coordinates_wf(p),
        on_curve(p),
    ensures
        on_curve(point_neg(p)),
{
    let (x, t) = (p.x as int, p.t as int);
    lemma_reduce_small(p.x);
    lemma_reduce_small(p.t);
    lemma_reduce_neg(x);
    lemma_reduce_neg(t);
    lemma_reduce_mul(-x, -x);
    lemma_reduce_mul(x, x);
    lemma_reduce_mul(-t, -t);
    lemma_reduce_mul(t, t);
    assert((-x) * (-x) == x * x) by (nonlinear_arith);
    assert((-t) * (-t) == t * t) by (nonlinear_arith);
}

} // verus!
