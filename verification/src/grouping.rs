//! The two groupings of a sum of three points, compared: the ratios X/Z
//! and Y/Z of (P + Q) + R and of P + (Q + R) agree.

use crate::algebra::{
    lemma_commute, lemma_distribute_sub, lemma_pairs, lemma_regroup, lemma_scale,
};
use crate::associativity::{
    cross, form_e, form_f, form_g, form_h, lemma_normal, lemma_normal_mirror, normal, reducible,
    sum_of,
};
use crate::closure::{lemma_twice_forms, lemma_twice_products};
use crate::complete::{imaginary, lemma_imaginary, lift_on_curve};
use crate::lift::{lift_add, Lift};
use crate::modular::{
    congruent, curve_d, lemma_congruent_add, lemma_congruent_mul, lemma_congruent_sub,
};
use vstd::prelude::*;

verus! {

/// The two rules of reduction hold of the integers of a point of the curve.
pub proof fn lemma_reducible(p: Lift)
    requires
        lift_on_curve(p),
    ensures
        reducible(p, curve_d() as int),
{
    let d = curve_d() as int;
    let tt = p.t * p.t;
    lemma_congruent_sub(p.z * p.z + d * tt, p.y * p.y - p.x * p.x, d * tt, d * tt);
}

/// The formula of the sum, on integers, gives twice the four forms for its
/// values E, F, G, H.
pub proof fn lemma_sum_of(p: Lift, q: Lift)
    ensures
        lift_add(p, q) == sum_of(p, q, curve_d() as int),
{
    let d = curve_d() as int;
    lemma_twice_forms(p.x, p.y, q.x, q.y);
    lemma_twice_products(p.z, q.z, p.t, q.t, d);
    lemma_regroup(d, p.t, q.t);
    let a = (p.y - p.x) * (q.y - q.x);
    let b = (p.y + p.x) * (q.y + q.x);
    let c = ((d * 2) * p.t) * q.t;
    let z = (2 * p.z) * q.z;
    assert(b - a == 2 * form_e(p, q));
    assert(b + a == 2 * form_h(p, q));
    assert(z - c == 2 * form_f(p, q, d));
    assert(z + c == 2 * form_g(p, q, d));
}

/// The four forms, and with them the sum, do not change where the two
/// points are exchanged.
pub proof fn lemma_forms_symmetric(p: Lift, q: Lift, d: int)
    ensures
        form_e(p, q) == form_e(q, p),
        form_h(p, q) == form_h(q, p),
        form_f(p, q, d) == form_f(q, p, d),
        form_g(p, q, d) == form_g(q, p, d),
        sum_of(p, q, d) == sum_of(q, p, d),
{
    lemma_commute(p.x, q.y);
    lemma_commute(p.y, q.x);
    lemma_commute(p.y, q.y);
    lemma_commute(p.x, q.x);
    lemma_commute(p.z, q.z);
    lemma_commute(p.t, q.t);
}

/// The ratio X/Z is the same for both groupings: the cross products of the
/// forms E and G are congruent.
pub proof fn lemma_ratio_x(d: int, p: Lift, q: Lift, r: Lift)
    requires
        reducible(p, d),
        reducible(q, d),
        reducible(r, d),
    ensures
        congruent(
            form_e(sum_of(p, q, d), r) * form_g(p, sum_of(q, r, d), d),
            form_e(p, sum_of(q, r, d)) * form_g(sum_of(p, q, d), r, d),
        ),
{
    lemma_normal(d, p, q, r);
    lemma_normal(d, r, q, p);
    lemma_normal_mirror(d, p, q, r);
    // the cross product with the first and the last point exchanged
    lemma_forms_symmetric(r, q, d);
    lemma_forms_symmetric(q, p, d);
    lemma_forms_symmetric(sum_of(q, r, d), p, d);
    lemma_forms_symmetric(r, sum_of(p, q, d), d);
    assert(cross(d, r, q, p) == form_e(p, sum_of(q, r, d)) * form_g(sum_of(p, q, d), r, d));
}

/// A point with X and Y exchanged, Z multiplied by a square root of minus
/// one, and T by its negative.
pub open spec fn twisted(r: Lift) -> Lift {
    Lift { x: r.y, y: r.x, z: imaginary() * r.z, t: 0 - imaginary() * r.t }
}

/// Products with the square root of minus one and its negative.
proof fn lemma_twist_squares(i: int, z: int, t: int)
    by (nonlinear_arith)
    ensures
        (i * z) * (0 - i * t) == 0 - (i * i) * (z * t),
        (i * z) * (i * z) == (i * i) * (z * z),
        (0 - i * t) * (0 - i * t) == (i * i) * (t * t),
{
}

/// The forms F and G with a twisted point are the square root of minus
/// one times the forms G and F.
proof fn lemma_twist_forms(a: int, b: int, c: int, e: int, d: int, i: int)
    by (nonlinear_arith)
    ensures
        a * (i * b) + d * (c * (0 - i * e)) == i * (a * b - d * (c * e)),
        a * (i * b) - d * (c * (0 - i * e)) == i * (a * b + d * (c * e)),
{
}

/// The products that make the coordinates of a sum with a twisted point.
proof fn lemma_twist_products(e: int, f: int, g: int, h: int, i: int)
    by (nonlinear_arith)
    ensures
        (2 * h) * (2 * (i * g)) == i * ((2 * g) * (2 * h)),
        (2 * (i * f)) * (2 * e) == i * ((2 * e) * (2 * f)),
        (2 * (i * g)) * (2 * (i * f)) == (i * i) * ((2 * f) * (2 * g)),
        (2 * h) * (2 * e) == (2 * e) * (2 * h),
{
}

/// The form E with coordinates multiplied by the square root of minus one.
proof fn lemma_twist_e(a: int, b: int, c: int, e: int, i: int)
    by (nonlinear_arith)
    ensures
        a * (i * b) + c * (i * e) == i * (c * e + a * b),
{
}

/// A twisted point obeys the two rules of reduction where the point does.
proof fn lemma_twisted_reducible(r: Lift, d: int)
    requires
        reducible(r, d),
    ensures
        reducible(twisted(r), d),
{
    let i = imaginary();
    let (x, y, z, t) = (r.x, r.y, r.z, r.t);
    let ii = i * i;
    lemma_imaginary();
    lemma_twist_squares(i, z, t);
    // X Y is Z T
    lemma_commute(y, x);
    lemma_congruent_mul(ii, -1, z * t, z * t);
    lemma_congruent_sub(0, 0, ii * (z * t), (-1) * (z * t));
    // Z^2 is Y^2 - X^2 - d T^2
    lemma_congruent_mul(ii, -1, z * z, z * z);
    lemma_congruent_mul(ii, -1, t * t, t * t);
    lemma_congruent_mul(d, d, ii * (t * t), (-1) * (t * t));
    lemma_scale(d, -1, t * t);
    lemma_congruent_sub(x * x - y * y, x * x - y * y, d * (ii * (t * t)), d * ((-1) * (t * t)));
    lemma_congruent_sub(0, 0, z * z, (y * y - x * x) - d * (t * t));
}

/// The ratio Y/Z is the same for both groupings: the cross products of the
/// forms H and F are congruent. This is the agreement of the ratios X/Z
/// for the same points with the third one twisted.
pub proof fn lemma_ratio_y(d: int, p: Lift, q: Lift, r: Lift)
    requires
        reducible(p, d),
        reducible(q, d),
        reducible(r, d),
    ensures
        congruent(
            form_h(sum_of(p, q, d), r) * form_f(p, sum_of(q, r, d), d),
            form_h(p, sum_of(q, r, d)) * form_f(sum_of(p, q, d), r, d),
        ),
{
    let i = imaginary();
    let ii = i * i;
    let r2 = twisted(r);
    let s = sum_of(p, q, d);
    let u = sum_of(q, r, d);
    let u2 = sum_of(q, r2, d);
    lemma_imaginary();
    lemma_twisted_reducible(r, d);
    lemma_ratio_x(d, p, q, r2);
    // the forms with the twisted point
    let hl = form_h(s, r);
    let fl = form_f(s, r, d);
    let hr = form_h(p, u);
    let fr = form_f(p, u, d);
    assert(form_e(s, r2) == hl);
    lemma_twist_forms(s.z, r.z, s.t, r.t, d, i);
    assert(form_g(s, r2, d) == i * fl);
    let (e, f, g, h) = (form_e(q, r), form_f(q, r, d), form_g(q, r, d), form_h(q, r));
    lemma_twist_forms(q.z, r.z, q.t, r.t, d, i);
    assert(form_e(q, r2) == h);
    assert(form_h(q, r2) == e);
    assert(form_f(q, r2, d) == i * g);
    assert(form_g(q, r2, d) == i * f);
    lemma_twist_products(e, f, g, h, i);
    assert(u2.x == i * u.y);
    assert(u2.y == i * u.x);
    assert(u2.z == ii * u.z);
    assert(u2.t == u.t);
    lemma_twist_e(p.x, u.x, p.y, u.y, i);
    assert(form_e(p, u2) == i * hr);
    // G for the right grouping is minus F
    lemma_congruent_mul(ii, -1, u.z, u.z);
    lemma_congruent_mul(p.z, p.z, ii * u.z, (-1) * u.z);
    lemma_congruent_add(p.z * (ii * u.z), p.z * ((-1) * u.z), d * (p.t * u.t), d * (p.t * u.t));
    lemma_scale(p.z, -1, u.z);
    assert(congruent(form_g(p, u2, d), 0 - fr));
    // the two cross products
    lemma_congruent_mul(hl, hl, form_g(p, u2, d), 0 - fr);
    lemma_distribute_sub(hl, 0, fr);
    lemma_pairs(i, hr, i, fl);
    lemma_congruent_mul(ii, -1, hr * fl, hr * fl);
    assert(congruent(0 - hl * fr, (-1) * (hr * fl)));
    lemma_congruent_sub(0, 0, 0 - hl * fr, (-1) * (hr * fl));
}

/// The cross products of the coordinates of two sums, in the cross products
/// of their forms.
proof fn lemma_cross_coordinates(
    el: int, fl: int, gl: int, hl: int,
    er: int, fr: int, gr: int, hr: int,
)
    by (nonlinear_arith)
    ensures
        ((2 * el) * (2 * fl)) * ((2 * fr) * (2 * gr)) == (16 * (fl * fr)) * (el * gr),
        ((2 * er) * (2 * fr)) * ((2 * fl) * (2 * gl)) == (16 * (fl * fr)) * (er * gl),
        ((2 * gl) * (2 * hl)) * ((2 * fr) * (2 * gr)) == (16 * (gl * gr)) * (hl * fr),
        ((2 * gr) * (2 * hr)) * ((2 * fl) * (2 * gl)) == (16 * (gl * gr)) * (hr * fl),
        ((2 * el) * (2 * hl)) * ((2 * fr) * (2 * gr)) == 16 * ((el * gr) * (hl * fr)),
        ((2 * er) * (2 * hr)) * ((2 * fl) * (2 * gl)) == 16 * ((er * gl) * (hr * fl)),
{
}

/// The two groupings of a sum of three points of the curve, by the formula
/// on integers, have congruent cross products of X, Y and T with Z.
pub proof fn lemma_groupings(p: Lift, q: Lift, r: Lift)
    requires
        lift_on_curve(p),
        lift_on_curve(q),
        lift_on_curve(r),
    ensures
        ({
            let l = lift_add(lift_add(p, q), r);
            let m = lift_add(p, lift_add(q, r));
            &&& congruent(l.x * m.z, m.x * l.z)
            &&& congruent(l.y * m.z, m.y * l.z)
            &&& congruent(l.t * m.z, m.t * l.z)
        }),
{
    let d = curve_d() as int;
    lemma_reducible(p);
    lemma_reducible(q);
    lemma_reducible(r);
    lemma_sum_of(p, q);
    lemma_sum_of(q, r);
    let s = sum_of(p, q, d);
    let u = sum_of(q, r, d);
    lemma_sum_of(s, r);
    lemma_sum_of(p, u);
    let (el, fl, gl, hl) = (form_e(s, r), form_f(s, r, d), form_g(s, r, d), form_h(s, r));
    let (er, fr, gr, hr) = (form_e(p, u), form_f(p, u, d), form_g(p, u, d), form_h(p, u));
    lemma_ratio_x(d, p, q, r);
    lemma_ratio_y(d, p, q, r);
    lemma_cross_coordinates(el, fl, gl, hl, er, fr, gr, hr);
    lemma_congruent_mul(16 * (fl * fr), 16 * (fl * fr), el * gr, er * gl);
    lemma_congruent_mul(16 * (gl * gr), 16 * (gl * gr), hl * fr, hr * fl);
    lemma_congruent_mul(el * gr, er * gl, hl * fr, hr * fl);
    lemma_congruent_mul(16, 16, (el * gr) * (hl * fr), (er * gl) * (hr * fl));
}

} // verus!
