//! The laws of the group of points.
//!
//! Two sets of extended coordinates stand for one point where their ratios
//! X/Z, Y/Z and T/Z agree; `same_ratios` says so without a division. The
//! laws that hold of the coordinates themselves are stated of them; the
//! others of their ratios.

use crate::algebra::{lemma_commute, lemma_distribute_sub, lemma_rotate, lemma_shift, lemma_swap};
use crate::edwards::{
    coordinates_wf, curve_k, identity, on_curve, point_add, point_double, point_neg, point_sub,
    same_ratios, Coordinates, EdwardsPoint,
};
use crate::complete::{lemma_lift_point, lemma_zero_product};
use crate::grouping::lemma_groupings;
use crate::lift::{
    lemma_curve_difference, lemma_invariant_difference, lemma_lift_add, lemma_lift_double,
    lemma_lift_neg, lemma_lift_self, lemma_same_ratios, lemma_same_ratios_congruent, lift_add,
    lift_completed, lift_double, Lift,
};
use crate::modular::{
    congruent, lemma_congruent_mul, lemma_congruent_sub, lemma_reduce_mul, curve_d, field_mul, lemma_add_negative, lemma_mul_negative, lemma_reduce_congruent,
    lemma_reduce_neg, lemma_reduce_small, lemma_sub_negative, modulus,
};
use vstd::prelude::*;

verus! {

/// The identity is neutral: P + O stands for the point P.
pub proof fn lemma_add_identity(p: EdwardsPoint)
    requires
        p.wf(),
    ensures
        same_ratios(point_add(p@, identity()), p@),
{
    p.lemma_wf();
    let p = p@;
    let pl = Lift { x: p.x as int, y: p.y as int, z: p.z as int, t: p.t as int };
    let ol = Lift { x: 0, y: 1, z: 1, t: 0 };
    lemma_lift_self(p);
    lemma_reduce_small(0);
    lemma_reduce_small(1);
    lemma_lift_add(p, pl, identity(), ol);
    let s = lift_add(pl, ol);
    let k = lemma_invariant_difference(p);
    let (x, y, z, t) = (pl.x, pl.y, pl.z, pl.t);
    let m = modulus() as int;
    let dd = curve_d() as int;
    assert(s.x == 4 * (x * z) && s.y == 4 * (y * z) && s.z == 4 * (z * z) && s.t == 4 * (x * y))
        by (nonlinear_arith)
        requires
            s == lift_add(pl, ol),
            pl == (Lift { x, y, z, t }),
            ol == (Lift { x: 0, y: 1, z: 1, t: 0 }),
    ;
    assert(s.x * z == x * s.z + 0 * m) by (nonlinear_arith)
        requires
            s.x == 4 * (x * z),
            s.z == 4 * (z * z),
    ;
    assert(s.y * z == y * s.z + 0 * m) by (nonlinear_arith)
        requires
            s.y == 4 * (y * z),
            s.z == 4 * (z * z),
    ;
    assert(s.t * z == t * s.z + (4 * z * k) * m) by (nonlinear_arith)
        requires
            s.t == 4 * (x * y),
            s.z == 4 * (z * z),
            x * y - z * t == k * m,
    ;
    lemma_same_ratios(point_add(p, identity()), s, p, pl, 0, 0, 4 * z * k);
}

/// Addition commutes: P + Q and Q + P have the same coordinates.
pub proof fn lemma_add_commutative(p: EdwardsPoint, q: EdwardsPoint)
    requires
        p.wf(),
        q.wf(),
    ensures
        point_add(p@, q@) == point_add(q@, p@),
{
    p.lemma_wf();
    q.lemma_wf();
    let p = p@;
    let q = q@;
    let pl = Lift { x: p.x as int, y: p.y as int, z: p.z as int, t: p.t as int };
    let ql = Lift { x: q.x as int, y: q.y as int, z: q.z as int, t: q.t as int };
    lemma_lift_self(p);
    lemma_lift_self(q);
    lemma_lift_add(p, pl, q, ql);
    lemma_lift_add(q, ql, p, pl);
    let s = lift_add(pl, ql);
    let r = lift_add(ql, pl);
    assert(s == r) by (nonlinear_arith)
        requires
            s == lift_add(pl, ql),
            r == lift_add(ql, pl),
    ;
}

/// The formula of the difference gives what the formula of the sum gives
/// of the negative.
pub proof fn lemma_sub_is_add_negative_coordinates(p: Coordinates, q: Coordinates)
    requires
        coordinates_wf(p),
        coordinates_wf(q),
    ensures
        point_sub(p, q) == point_add(p, point_neg(q)),
{
    lemma_sub_negative(q.y, q.x);
    lemma_add_negative(q.y, q.x);
    let c = field_mul(field_mul(curve_k(), p.t), q.t);
    let d = field_mul(field_mul(2, p.z), q.z);
    lemma_mul_negative(field_mul(curve_k(), p.t), q.t);
    lemma_sub_negative(d, c);
    lemma_add_negative(d, c);
}

/// Negation is an involution: -(-P) has the coordinates of P.
pub proof fn lemma_neg_involution(p: EdwardsPoint)
    requires
        p.wf(),
    ensures
        point_neg(point_neg(p@)) == p@,
{
    p.lemma_wf();
    let p = p@;
    lemma_reduce_small(p.x);
    lemma_reduce_small(p.t);
    lemma_reduce_neg(p.x as int);
    lemma_reduce_neg(-(p.x as int));
    lemma_reduce_neg(p.t as int);
    lemma_reduce_neg(-(p.t as int));
}

/// The negative is the inverse: for a point of the curve, P + (-P) stands
/// for the identity.
pub proof fn lemma_add_negative_is_identity(p: EdwardsPoint)
    requires
        p.wf(),
    ensures
        same_ratios(point_add(p@, point_neg(p@)), identity()),
        point_add(p@, point_neg(p@)).x == 0,
        point_add(p@, point_neg(p@)).t == 0,
        point_add(p@, point_neg(p@)).y == point_add(p@, point_neg(p@)).z,
{
    p.lemma_wf();
    let p = p@;
    let (x, y, z, t) = (p.x as int, p.y as int, p.z as int, p.t as int);
    let pl = Lift { x, y, z, t };
    let nl = Lift { x: -x, y, z, t: -t };
    let ol = Lift { x: 0, y: 1, z: 1, t: 0 };
    lemma_lift_self(p);
    lemma_lift_neg(p, pl);
    lemma_lift_add(p, pl, point_neg(p), nl);
    lemma_reduce_small(0);
    lemma_reduce_small(1);
    let s = lift_add(pl, nl);
    let sum = point_add(p, point_neg(p));
    let k = lemma_curve_difference(p);
    let m = modulus() as int;
    let dd = curve_d() as int;
    // the formula's values: E is zero, and H is F plus a multiple of the modulus
    let f = (2 * z) * z + ((dd * 2) * t) * t;
    let g = (2 * z) * z - ((dd * 2) * t) * t;
    let h = 2 * (y * y - x * x);
    assert(s.x == 0 && s.t == 0 && s.y == g * h && s.z == f * g) by (nonlinear_arith)
        requires
            s == lift_add(pl, nl),
            pl == (Lift { x, y, z, t }),
            nl == (Lift { x: -x, y, z, t: -t }),
            dd == curve_d(),
            f == (2 * z) * z + ((dd * 2) * t) * t,
            g == (2 * z) * z - ((dd * 2) * t) * t,
            h == 2 * (y * y - x * x),
    ;
    assert(h - f == (2 * k) * m) by (nonlinear_arith)
        requires
            (y * y - x * x) - (z * z + dd * (t * t)) == k * m,
            f == (2 * z) * z + ((dd * 2) * t) * t,
            h == 2 * (y * y - x * x),
    ;
    assert(s.y == s.z + (2 * k * g) * m) by (nonlinear_arith)
        requires
            s.y == g * h,
            s.z == f * g,
            h - f == (2 * k) * m,
    ;
    lemma_reduce_congruent(s.y, s.z, 2 * k * g);
    assert(s.x * 1 == 0 * s.z + 0 * m);
    assert(s.y * 1 == 1 * s.z + (2 * k * g) * m);
    assert(s.t * 1 == 0 * s.z + 0 * m);
    lemma_same_ratios(sum, s, identity(), ol, 0, 2 * k * g, 0);
}

/// The dedicated formula doubles: for a point of the curve, double(P)
/// stands for the point P + P.
pub proof fn lemma_double_is_add(p: EdwardsPoint)
    requires
        p.wf(),
    ensures
        same_ratios(point_double(p@), point_add(p@, p@)),
{
    p.lemma_wf();
    let p = p@;
    let (x, y, z, t) = (p.x as int, p.y as int, p.z as int, p.t as int);
    let pl = Lift { x, y, z, t };
    lemma_lift_self(p);
    lemma_lift_add(p, pl, p, pl);
    lemma_lift_double(p, pl);
    let s = lift_add(pl, pl);
    let r = lift_double(pl);
    let k = lemma_curve_difference(p);
    let m = modulus() as int;
    let dd = curve_d() as int;
    // the double's four values
    let e = ((x + y) * (x + y) - x * x) - y * y;
    let g = -(x * x) + y * y;
    let f = g - (2 * z) * z;
    let h = -(x * x) - y * y;
    // the sum's four values
    let e2 = (y + x) * (y + x) - (y - x) * (y - x);
    let f2 = (2 * z) * z - ((dd * 2) * t) * t;
    let g2 = (2 * z) * z + ((dd * 2) * t) * t;
    let h2 = (y + x) * (y + x) + (y - x) * (y - x);
    assert(r == lift_completed(e, f, g, h));
    assert(s == lift_completed(e2, f2, g2, h2));
    assert(e2 == 2 * e && h2 == -2 * h) by (nonlinear_arith)
        requires
            e == ((x + y) * (x + y) - x * x) - y * y,
            h == -(x * x) - y * y,
            e2 == (y + x) * (y + x) - (y - x) * (y - x),
            h2 == (y + x) * (y + x) + (y - x) * (y - x),
    ;
    assert(g2 == 2 * g - (2 * k) * m && f2 == -2 * f + (2 * k) * m) by (nonlinear_arith)
        requires
            (y * y - x * x) - (z * z + dd * (t * t)) == k * m,
            g == -(x * x) + y * y,
            f == g - (2 * z) * z,
            f2 == (2 * z) * z - ((dd * 2) * t) * t,
            g2 == (2 * z) * z + ((dd * 2) * t) * t,
    ;
    // X: both cross products hold f f2, times e g2 and e2 g
    lemma_swap(e, f, f2, g2);
    lemma_swap(e2, f2, f, g);
    assert(e * g2 == e2 * g + (-2 * k * e) * m) by (nonlinear_arith)
        requires
            e2 == 2 * e,
            g2 == 2 * g - (2 * k) * m,
    ;
    lemma_shift(e * g2, e2 * g, -2 * k * e, f2 * f, m);
    let kx = (-2 * k * e) * (f2 * f);
    // Y: both cross products hold g g2, times h f2 and h2 f
    lemma_swap(h, g, g2, f2);
    lemma_swap(h2, g2, g, f);
    assert(g * h == h * g && f2 * g2 == g2 * f2 && g2 * h2 == h2 * g2 && f * g == g * f)
        by (nonlinear_arith);
    assert(h * f2 == h2 * f + (2 * k * h) * m) by (nonlinear_arith)
        requires
            h2 == -2 * h,
            f2 == -2 * f + (2 * k) * m,
    ;
    lemma_shift(h * f2, h2 * f, 2 * k * h, g * g2, m);
    let ky = (2 * k * h) * (g * g2);
    // T: e2 h2 is -4 e h, and f2 g2 is -4 f g plus a multiple of the modulus
    let c = 4 * k * (f + g - k * m);
    assert(f2 * g2 == -4 * (f * g) + c * m) by (nonlinear_arith)
        requires
            g2 == 2 * g - (2 * k) * m,
            f2 == -2 * f + (2 * k) * m,
            c == 4 * k * (f + g - k * m),
    ;
    lemma_shift(f2 * g2, -4 * (f * g), c, e * h, m);
    assert((e2 * h2) * (f * g) == (e * h) * (-4 * (f * g))) by (nonlinear_arith)
        requires
            e2 == 2 * e,
            h2 == -2 * h,
    ;
    let kt = c * (e * h);
    lemma_same_ratios(point_double(p), r, point_add(p, p), s, kx, ky, kt);
}

/// Subtraction is addition of the negative: P - Q and P + (-Q) have the
/// same coordinates.
pub proof fn lemma_sub_is_add_negative(p: EdwardsPoint, q: EdwardsPoint)
    requires
        p.wf(),
        q.wf(),
    ensures
        point_sub(p@, q@) == point_add(p@, point_neg(q@)),
{
    p.lemma_wf();
    q.lemma_wf();
    lemma_sub_is_add_negative_coordinates(p@, q@);
}


/// Addition is associative: (P + Q) + R stands for the point P + (Q + R).
pub proof fn lemma_add_associative(p: EdwardsPoint, q: EdwardsPoint, r: EdwardsPoint)
    requires
        p.wf(),
        q.wf(),
        r.wf(),
    ensures
        same_ratios(point_add(point_add(p@, q@), r@), point_add(p@, point_add(q@, r@))),
{
    p.lemma_wf();
    q.lemma_wf();
    r.lemma_wf();
    let pl = lemma_lift_point(p@);
    let ql = lemma_lift_point(q@);
    let rl = lemma_lift_point(r@);
    lemma_lift_add(p@, pl, q@, ql);
    lemma_lift_add(point_add(p@, q@), lift_add(pl, ql), r@, rl);
    lemma_lift_add(q@, ql, r@, rl);
    lemma_lift_add(p@, pl, point_add(q@, r@), lift_add(ql, rl));
    lemma_groupings(pl, ql, rl);
    lemma_same_ratios_congruent(
        point_add(point_add(p@, q@), r@),
        lift_add(lift_add(pl, ql), rl),
        point_add(p@, point_add(q@, r@)),
        lift_add(pl, lift_add(ql, rl)),
    );
}

/// A cross product of two ratios, cancelled: where a c and b c are
/// congruent and c is not congruent to zero, a and b are congruent.
proof fn lemma_cancel(a: int, b: int, c: int)
    requires
        congruent(a * c, b * c),
        !congruent(c, 0),
    ensures
        congruent(a, b),
{
    lemma_congruent_sub(a * c, b * c, b * c, b * c);
    lemma_distribute_sub(c, a, b);
    lemma_zero_product(a - b, c);
    lemma_congruent_sub(a - b, 0, 0 - b, 0 - b);
}

/// Two sets of coordinates that both stand for the point that a third set,
/// with Z not zero, stands for, stand for one point: to agree in the ratios
/// is transitive.
pub proof fn lemma_same_ratios_transitive(p: Coordinates, q: Coordinates, r: Coordinates)
    requires
        coordinates_wf(p),
        coordinates_wf(q),
        coordinates_wf(r),
        q.z != 0,
        same_ratios(p, q),
        same_ratios(q, r),
    ensures
        same_ratios(p, r),
{
    lemma_lift_self(p);
    lemma_lift_self(q);
    lemma_lift_self(r);
    lemma_reduce_small(0);
    let qz = q.z as int;
    lemma_ratio_transitive(p.x as int, p.z as int, q.x as int, qz, r.x as int, r.z as int);
    lemma_ratio_transitive(p.y as int, p.z as int, q.y as int, qz, r.y as int, r.z as int);
    lemma_ratio_transitive(p.t as int, p.z as int, q.t as int, qz, r.t as int, r.z as int);
}

/// One ratio of three: where a / u is b / v, and b / v is c / w, with v not
/// zero, a / u is c / w.
proof fn lemma_ratio_transitive(a: int, u: int, b: int, v: int, c: int, w: int)
    requires
        field_mul(crate::modular::reduce(a), crate::modular::reduce(v)) == field_mul(crate::modular::reduce(b), crate::modular::reduce(u)),
        field_mul(crate::modular::reduce(b), crate::modular::reduce(w)) == field_mul(crate::modular::reduce(c), crate::modular::reduce(v)),
        !congruent(v, 0),
    ensures
        field_mul(crate::modular::reduce(a), crate::modular::reduce(w)) == field_mul(crate::modular::reduce(c), crate::modular::reduce(u)),
{
    lemma_reduce_mul(a, v);
    lemma_reduce_mul(b, u);
    lemma_reduce_mul(b, w);
    lemma_reduce_mul(c, v);
    lemma_reduce_mul(a, w);
    lemma_reduce_mul(c, u);
    // (a w) v is (a v) w, which is (b u) w, which is (b w) u, which is (c v) u
    lemma_congruent_mul(a * v, b * u, w, w);
    lemma_congruent_mul(b * w, c * v, u, u);
    lemma_rotate(a, w, v);
    lemma_rotate(b, u, w);
    lemma_rotate(c, u, v);
    lemma_commute(v, a);
    lemma_commute(w, b);
    lemma_commute(a * w, v);
    lemma_commute(c * u, v);
    assert((a * w) * v == (a * v) * w) by (nonlinear_arith);
    assert((b * u) * w == (b * w) * u) by (nonlinear_arith);
    assert((c * v) * u == (c * u) * v) by (nonlinear_arith);
    lemma_cancel(a * w, c * u, v);
}

/// To agree in the ratios is symmetric, and holds of every set of
/// coordinates with itself.
pub proof fn lemma_same_ratios_symmetric(p: Coordinates, q: Coordinates)
    ensures
        same_ratios(p, p),
        same_ratios(p, q) == same_ratios(q, p),
{
}

} // verus!
