//! Integers behind the coordinates: every coordinate that a formula gives
//! is the residue of an integer polynomial in the coordinates it was given,
//! so that a law of the group is a congruence of integer polynomials.

use crate::edwards::{
    completed, coordinates_wf, on_curve, point_add, point_double, point_neg, same_ratios,
    Coordinates,
};
use crate::modular::{
    congruent, curve_d, lemma_reduce_add, lemma_reduce_congruent, lemma_reduce_difference,
    lemma_reduce_mul, lemma_reduce_neg, lemma_reduce_small, lemma_reduce_sub, modulus, reduce,
};
use vstd::prelude::*;

verus! {

/// Four integers that the coordinates of a point are the residues of.
pub struct Lift {
    pub x: int,
    pub y: int,
    pub z: int,
    pub t: int,
}

/// The coordinates are the residues of the four integers.
pub open spec fn lifts(p: Coordinates, l: Lift) -> bool {
    &&& p.x == reduce(l.x)
    &&& p.y == reduce(l.y)
    &&& p.z == reduce(l.z)
    &&& p.t == reduce(l.t)
}

/// The four products that end every formula, on integers.
pub open spec fn lift_completed(e: int, f: int, g: int, h: int) -> Lift {
    Lift { x: e * f, y: g * h, z: f * g, t: e * h }
}

/// The formula of the sum, on integers.
pub open spec fn lift_add(p: Lift, q: Lift) -> Lift {
    let a = (p.y - p.x) * (q.y - q.x);
    let b = (p.y + p.x) * (q.y + q.x);
    let c = ((curve_d() as int * 2) * p.t) * q.t;
    let d = (2 * p.z) * q.z;
    lift_completed(b - a, d - c, d + c, b + a)
}

/// The formula of the double, on integers.
pub open spec fn lift_double(p: Lift) -> Lift {
    let a = p.x * p.x;
    let b = p.y * p.y;
    let c = (2 * p.z) * p.z;
    let e = ((p.x + p.y) * (p.x + p.y) - a) - b;
    let g = -a + b;
    lift_completed(e, g - c, g, -a - b)
}

/// Well-formed coordinates are the residues of themselves.
pub proof fn lemma_lift_self(p: Coordinates)
    requires
        coordinates_wf(p),
    ensures
        lifts(p, Lift { x: p.x as int, y: p.y as int, z: p.z as int, t: p.t as int }),
{
    lemma_reduce_small(p.x);
    lemma_reduce_small(p.y);
    lemma_reduce_small(p.z);
    lemma_reduce_small(p.t);
}

/// The four products of residues are the residues of the four products.
proof fn lemma_lift_completed(e: int, f: int, g: int, h: int)
    ensures
        lifts(completed(reduce(e), reduce(f), reduce(g), reduce(h)), lift_completed(e, f, g, h)),
{
    lemma_reduce_mul(e, f);
    lemma_reduce_mul(g, h);
    lemma_reduce_mul(f, g);
    lemma_reduce_mul(e, h);
}

/// The sum of residues is the residue of the sum on integers.
pub proof fn lemma_lift_add(p: Coordinates, pl: Lift, q: Coordinates, ql: Lift)
    requires
        lifts(p, pl),
        lifts(q, ql),
    ensures
        lifts(point_add(p, q), lift_add(pl, ql)),
{
    lemma_reduce_sub(pl.y, pl.x);
    lemma_reduce_sub(ql.y, ql.x);
    lemma_reduce_mul(pl.y - pl.x, ql.y - ql.x);
    lemma_reduce_add(pl.y, pl.x);
    lemma_reduce_add(ql.y, ql.x);
    lemma_reduce_mul(pl.y + pl.x, ql.y + ql.x);
    let a = (pl.y - pl.x) * (ql.y - ql.x);
    let b = (pl.y + pl.x) * (ql.y + ql.x);
    lemma_reduce_small(2);
    lemma_reduce_small(curve_d());
    lemma_reduce_mul(curve_d() as int, 2);
    lemma_reduce_mul(curve_d() as int * 2, pl.t);
    lemma_reduce_mul((curve_d() as int * 2) * pl.t, ql.t);
    let c = ((curve_d() as int * 2) * pl.t) * ql.t;
    lemma_reduce_mul(2, pl.z);
    lemma_reduce_mul(2 * pl.z, ql.z);
    let d = (2 * pl.z) * ql.z;
    lemma_reduce_sub(b, a);
    lemma_reduce_sub(d, c);
    lemma_reduce_add(d, c);
    lemma_reduce_add(b, a);
    lemma_lift_completed(b - a, d - c, d + c, b + a);
}

/// The double of residues is the residue of the double on integers.
pub proof fn lemma_lift_double(p: Coordinates, pl: Lift)
    requires
        lifts(p, pl),
    ensures
        lifts(point_double(p), lift_double(pl)),
{
    lemma_reduce_mul(pl.x, pl.x);
    lemma_reduce_mul(pl.y, pl.y);
    let a = pl.x * pl.x;
    let b = pl.y * pl.y;
    lemma_reduce_small(2);
    lemma_reduce_mul(2, pl.z);
    lemma_reduce_mul(2 * pl.z, pl.z);
    let c = (2 * pl.z) * pl.z;
    lemma_reduce_neg(a);
    lemma_reduce_add(pl.x, pl.y);
    lemma_reduce_mul(pl.x + pl.y, pl.x + pl.y);
    lemma_reduce_sub((pl.x + pl.y) * (pl.x + pl.y), a);
    lemma_reduce_sub((pl.x + pl.y) * (pl.x + pl.y) - a, b);
    lemma_reduce_add(-a, b);
    lemma_reduce_sub(-a + b, c);
    lemma_reduce_sub(-a, b);
    lemma_lift_completed(((pl.x + pl.y) * (pl.x + pl.y) - a) - b, (-a + b) - c, -a + b, -a - b);
}

/// The negative of residues is the residue of the negative.
pub proof fn lemma_lift_neg(p: Coordinates, pl: Lift)
    requires
        lifts(p, pl),
    ensures
        lifts(point_neg(p), Lift { x: -pl.x, y: pl.y, z: pl.z, t: -pl.t }),
{
    lemma_reduce_neg(pl.x);
    lemma_reduce_neg(pl.t);
}

/// The ratios of two sets of coordinates agree where the cross products of
/// the integers that they are residues of differ by multiples of the
/// modulus.
pub proof fn lemma_same_ratios(p: Coordinates, pl: Lift, q: Coordinates, ql: Lift, kx: int, ky: int, kt: int)
    requires
        lifts(p, pl),
        lifts(q, ql),
        pl.x * ql.z == ql.x * pl.z + kx * modulus(),
        pl.y * ql.z == ql.y * pl.z + ky * modulus(),
        pl.t * ql.z == ql.t * pl.z + kt * modulus(),
    ensures
        same_ratios(p, q),
{
    lemma_reduce_mul(pl.x, ql.z);
    lemma_reduce_mul(ql.x, pl.z);
    lemma_reduce_congruent(pl.x * ql.z, ql.x * pl.z, kx);
    lemma_reduce_mul(pl.y, ql.z);
    lemma_reduce_mul(ql.y, pl.z);
    lemma_reduce_congruent(pl.y * ql.z, ql.y * pl.z, ky);
    lemma_reduce_mul(pl.t, ql.z);
    lemma_reduce_mul(ql.t, pl.z);
    lemma_reduce_congruent(pl.t * ql.z, ql.t * pl.z, kt);
}

/// The invariant X Y = Z T, on the integers of well-formed coordinates.
pub proof fn lemma_invariant_difference(p: Coordinates) -> (k: int)
    requires
        coordinates_wf(p),
    ensures
        p.x * p.y - p.z * p.t == k * modulus(),
{
    lemma_reduce_difference((p.x * p.y) as int, (p.z * p.t) as int)
}

/// The curve's equation, on the integers of well-formed coordinates.
pub proof fn lemma_curve_difference(p: Coordinates) -> (k: int)
    requires
        coordinates_wf(p),
        on_curve(p),
    ensures
        (p.y * p.y - p.x * p.x) - (p.z * p.z + curve_d() * (p.t * p.t)) == k * modulus(),
{
    let (x, y, z, t) = (p.x as int, p.y as int, p.z as int, p.t as int);
    lemma_reduce_mul(y, y);
    lemma_reduce_mul(x, x);
    lemma_reduce_sub(y * y, x * x);
    lemma_reduce_mul(z, z);
    lemma_reduce_mul(t, t);
    lemma_reduce_small(curve_d());
    lemma_reduce_mul(curve_d() as int, t * t);
    lemma_reduce_add(z * z, curve_d() * (t * t));
    lemma_reduce_small(p.x);
    lemma_reduce_small(p.y);
    lemma_reduce_small(p.z);
    lemma_reduce_small(p.t);
    lemma_reduce_difference(y * y - x * x, z * z + curve_d() * (t * t))
}

/// The curve's equation, of coordinates that are the residues of four
/// integers, is a congruence of those integers.
pub proof fn lemma_on_curve_lift(p: Coordinates, l: Lift)
    requires
        lifts(p, l),
    ensures
        on_curve(p) <==> congruent(
            l.y * l.y - l.x * l.x,
            l.z * l.z + curve_d() * (l.t * l.t),
        ),
{
    lemma_reduce_mul(l.y, l.y);
    lemma_reduce_mul(l.x, l.x);
    lemma_reduce_sub(l.y * l.y, l.x * l.x);
    lemma_reduce_mul(l.z, l.z);
    lemma_reduce_mul(l.t, l.t);
    lemma_reduce_small(curve_d());
    lemma_reduce_mul(curve_d() as int, l.t * l.t);
    lemma_reduce_add(l.z * l.z, curve_d() * (l.t * l.t));
}

/// The ratios of two sets of coordinates agree where the cross products of
/// the integers that they are residues of are congruent.
pub proof fn lemma_same_ratios_congruent(p: Coordinates, pl: Lift, q: Coordinates, ql: Lift)
    requires
        lifts(p, pl),
        lifts(q, ql),
        congruent(pl.x * ql.z, ql.x * pl.z),
        congruent(pl.y * ql.z, ql.y * pl.z),
        congruent(pl.t * ql.z, ql.t * pl.z),
    ensures
        same_ratios(p, q),
{
    lemma_reduce_mul(pl.x, ql.z);
    lemma_reduce_mul(ql.x, pl.z);
    lemma_reduce_mul(pl.y, ql.z);
    lemma_reduce_mul(ql.y, pl.z);
    lemma_reduce_mul(pl.t, ql.z);
    lemma_reduce_mul(ql.t, pl.z);
}

} // verus!
