//! The heart of associativity. With the values E, F, G, H of the formula
//! of the sum as polynomials in the coordinates of three points, the cross
//! product of E for (P + Q) + R and G for P + (Q + R) is expanded here term
//! by term, and every term is reduced, point by point, by X Y = Z T and by
//! the curve's equation, to a normal form. The normal form does not change
//! where P and R are exchanged.

use crate::algebra::{
    lemma_coefficients, lemma_commute, lemma_distribute, lemma_distribute_sub, lemma_mirror,
    lemma_pairs, lemma_spread_scaled, lemma_tensor,
};
use crate::lift::{lift_completed, Lift};
use crate::modular::{congruent, lemma_congruent_add, lemma_congruent_mul, lemma_congruent_sub};
use vstd::prelude::*;

verus! {

/// The form X1 Y2 + Y1 X2 of the coordinates of two points.
pub open spec fn form_e(p: Lift, q: Lift) -> int {
    p.x * q.y + p.y * q.x
}

/// The form Y1 Y2 + X1 X2 of the coordinates of two points.
pub open spec fn form_h(p: Lift, q: Lift) -> int {
    p.y * q.y + p.x * q.x
}

/// The form Z1 Z2 - d T1 T2 of the coordinates of two points.
pub open spec fn form_f(p: Lift, q: Lift, d: int) -> int {
    p.z * q.z - d * (p.t * q.t)
}

/// The form Z1 Z2 + d T1 T2 of the coordinates of two points.
pub open spec fn form_g(p: Lift, q: Lift, d: int) -> int {
    p.z * q.z + d * (p.t * q.t)
}

/// The sum of two points, by the formula: its values E, F, G, H are twice
/// the four forms.
pub open spec fn sum_of(p: Lift, q: Lift, d: int) -> Lift {
    lift_completed(2 * form_e(p, q), 2 * form_f(p, q, d), 2 * form_g(p, q, d), 2 * form_h(p, q))
}

/// The two rules of reduction hold of a point: X Y is Z T, and Z^2 is
/// Y^2 - X^2 - d T^2.
pub open spec fn reducible(p: Lift, d: int) -> bool {
    &&& congruent(p.x * p.y, p.z * p.t)
    &&& congruent(p.z * p.z, (p.y * p.y - p.x * p.x) - d * (p.t * p.t))
}

/// The cross product of the form E for (P + Q) + R and the form G for
/// P + (Q + R).
pub open spec fn cross(d: int, p: Lift, q: Lift, r: Lift) -> int {
    form_e(sum_of(p, q, d), r) * form_g(p, sum_of(q, r, d), d)
}

/// A part of the normal form of the cross product.
pub open spec fn normal_part_1(d: int, p: Lift, q: Lift, r: Lift) -> int {
    (((((((((((((((((16 * (((d * d) * d) * (((p.x * p.t) * p.t) * ((((q.x * q.t) * q.t) * q.t) * ((r.y * r.t) * r.t)))) - 16 * (((d * d) * d) * (((p.x * p.t) * p.t) * ((((q.y * q.t) * q.t) * q.t) * ((r.x * r.t) * r.t))))) + 16 * (((d * d) * d) * (((p.y * p.t) * p.t) * ((((q.x * q.t) * q.t) * q.t) * ((r.x * r.t) * r.t))))) - 16 * (((d * d) * d) * (((p.y * p.t) * p.t) * ((((q.y * q.t) * q.t) * q.t) * ((r.y * r.t) * r.t))))) + 16 * ((d * d) * (((p.x * p.x) * p.x) * ((((q.x * q.t) * q.t) * q.t) * ((r.y * r.t) * r.t))))) - 16 * ((d * d) * (((p.x * p.x) * p.x) * ((((q.y * q.t) * q.t) * q.t) * ((r.x * r.t) * r.t))))) + 16 * ((d * d) * (((p.x * p.z) * p.t) * ((((q.x * q.x) * q.x) * q.t) * ((r.x * r.t) * r.t))))) - 16 * ((d * d) * (((p.x * p.z) * p.t) * ((((q.x * q.z) * q.t) * q.t) * ((r.y * r.t) * r.t))))) + 16 * ((d * d) * (((p.x * p.z) * p.t) * ((((q.x * q.t) * q.t) * q.t) * ((r.x * r.t) * r.t))))) - 48 * ((d * d) * (((p.x * p.z) * p.t) * ((((q.x * q.t) * q.t) * q.t) * ((r.y * r.z) * r.t))))) + 16 * ((d * d) * (((p.x * p.z) * p.t) * ((((q.y * q.y) * q.y) * q.t) * ((r.y * r.t) * r.t))))) + 16 * ((d * d) * (((p.x * p.t) * p.t) * ((((q.x * q.x) * q.x) * q.t) * ((r.x * r.z) * r.t))))) + 16 * ((d * d) * (((p.x * p.t) * p.t) * ((((q.x * q.t) * q.t) * q.t) * ((r.x * r.z) * r.t))))) - 16 * ((d * d) * (((p.x * p.t) * p.t) * ((((q.y * q.t) * q.t) * q.t) * ((r.x * r.x) * r.x))))) - 48 * ((d * d) * (((p.y * p.z) * p.t) * ((((q.x * q.t) * q.t) * q.t) * ((r.x * r.z) * r.t))))) - 16 * ((d * d) * (((p.y * p.t) * p.t) * ((((q.x * q.z) * q.t) * q.t) * ((r.x * r.z) * r.t))))) + 16 * ((d * d) * (((p.y * p.t) * p.t) * ((((q.x * q.t) * q.t) * q.t) * ((r.x * r.x) * r.x))))) + 16 * ((d * d) * (((p.y * p.t) * p.t) * ((((q.y * q.y) * q.y) * q.t) * ((r.x * r.z) * r.t)))))
}

/// A part of the normal form of the cross product.
pub open spec fn normal_part_2(d: int, p: Lift, q: Lift, r: Lift) -> int {
    ((((((((((((((((0 - 16 * ((d * d) * (((p.x * p.z) * p.t) * ((((q.y * q.z) * q.t) * q.t) * ((r.x * r.t) * r.t))))) - 48 * ((d * d) * (((p.x * p.z) * p.t) * ((((q.y * q.t) * q.t) * q.t) * ((r.x * r.z) * r.t))))) - 16 * ((d * d) * (((p.x * p.z) * p.t) * ((((q.y * q.t) * q.t) * q.t) * ((r.y * r.t) * r.t))))) - 16 * ((d * d) * (((p.x * p.t) * p.t) * ((((q.x * q.x) * q.x) * q.z) * ((r.x * r.t) * r.t))))) + 16 * ((d * d) * (((p.x * p.t) * p.t) * ((((q.x * q.x) * q.x) * q.t) * ((r.y * r.t) * r.t))))) - 16 * ((d * d) * (((p.x * p.t) * p.t) * ((((q.x * q.z) * q.t) * q.t) * ((r.x * r.t) * r.t))))) + 16 * ((d * d) * (((p.x * p.t) * p.t) * ((((q.x * q.z) * q.t) * q.t) * ((r.y * r.z) * r.t))))) - 16 * ((d * d) * (((p.x * p.t) * p.t) * ((((q.x * q.t) * q.t) * q.t) * ((r.y * r.y) * r.y))))) + 16 * ((d * d) * (((p.x * p.t) * p.t) * ((((q.y * q.y) * q.y) * q.z) * ((r.y * r.t) * r.t))))) + 16 * ((d * d) * (((p.x * p.t) * p.t) * ((((q.y * q.y) * q.y) * q.t) * ((r.x * r.t) * r.t))))) - 16 * ((d * d) * (((p.x * p.t) * p.t) * ((((q.y * q.z) * q.t) * q.t) * ((r.x * r.z) * r.t))))) - 16 * ((d * d) * (((p.y * p.y) * p.y) * ((((q.x * q.t) * q.t) * q.t) * ((r.x * r.t) * r.t))))) + 16 * ((d * d) * (((p.y * p.z) * p.t) * ((((q.x * q.z) * q.t) * q.t) * ((r.x * r.t) * r.t))))) + 16 * ((d * d) * (((p.y * p.t) * p.t) * ((((q.x * q.x) * q.x) * q.t) * ((r.x * r.t) * r.t))))) + 16 * ((d * d) * (((p.y * p.t) * p.t) * ((((q.y * q.y) * q.y) * q.z) * ((r.x * r.t) * r.t))))) - 16 * ((d * d) * (((p.y * p.t) * p.t) * ((((q.y * q.t) * q.t) * q.t) * ((r.x * r.z) * r.t)))))
}

/// A part of the normal form of the cross product.
pub open spec fn normal_part_3(d: int, p: Lift, q: Lift, r: Lift) -> int {
    (((((((((((((((((0 - 16 * ((d * d) * (((p.x * p.t) * p.t) * ((((q.y * q.y) * q.y) * q.t) * ((r.y * r.z) * r.t))))) - 16 * ((d * d) * (((p.x * p.t) * p.t) * ((((q.y * q.z) * q.t) * q.t) * ((r.y * r.t) * r.t))))) + 16 * ((d * d) * (((p.x * p.t) * p.t) * ((((q.y * q.t) * q.t) * q.t) * ((r.y * r.z) * r.t))))) + 16 * ((d * d) * (((p.y * p.y) * p.y) * ((((q.y * q.t) * q.t) * q.t) * ((r.y * r.t) * r.t))))) - 16 * ((d * d) * (((p.y * p.z) * p.t) * ((((q.x * q.x) * q.x) * q.t) * ((r.y * r.t) * r.t))))) - 16 * ((d * d) * (((p.y * p.z) * p.t) * ((((q.x * q.t) * q.t) * q.t) * ((r.y * r.t) * r.t))))) - 16 * ((d * d) * (((p.y * p.z) * p.t) * ((((q.y * q.y) * q.y) * q.t) * ((r.x * r.t) * r.t))))) + 16 * ((d * d) * (((p.y * p.z) * p.t) * ((((q.y * q.z) * q.t) * q.t) * ((r.y * r.t) * r.t))))) + 16 * ((d * d) * (((p.y * p.z) * p.t) * ((((q.y * q.t) * q.t) * q.t) * ((r.x * r.t) * r.t))))) - 48 * ((d * d) * (((p.y * p.z) * p.t) * ((((q.y * q.t) * q.t) * q.t) * ((r.y * r.z) * r.t))))) - 16 * ((d * d) * (((p.y * p.t) * p.t) * ((((q.x * q.x) * q.x) * q.z) * ((r.y * r.t) * r.t))))) - 16 * ((d * d) * (((p.y * p.t) * p.t) * ((((q.x * q.x) * q.x) * q.t) * ((r.y * r.z) * r.t))))) - 16 * ((d * d) * (((p.y * p.t) * p.t) * ((((q.x * q.z) * q.t) * q.t) * ((r.y * r.t) * r.t))))) - 16 * ((d * d) * (((p.y * p.t) * p.t) * ((((q.x * q.t) * q.t) * q.t) * ((r.y * r.z) * r.t))))) - 16 * ((d * d) * (((p.y * p.t) * p.t) * ((((q.y * q.z) * q.t) * q.t) * ((r.x * r.t) * r.t))))) + 16 * ((d * d) * (((p.y * p.t) * p.t) * ((((q.y * q.z) * q.t) * q.t) * ((r.y * r.z) * r.t))))) + 16 * ((d * d) * (((p.y * p.t) * p.t) * ((((q.y * q.t) * q.t) * q.t) * ((r.y * r.y) * r.y)))))
}

/// A part of the normal form of the cross product.
pub open spec fn normal_part_4(d: int, p: Lift, q: Lift, r: Lift) -> int {
    (((((((((((((((((16 * ((d * d) * (((p.y * p.t) * p.t) * ((((q.y * q.y) * q.y) * q.t) * ((r.y * r.t) * r.t)))) - 16 * (d * (((p.x * p.x) * p.x) * ((((q.x * q.x) * q.x) * q.z) * ((r.x * r.t) * r.t))))) + 16 * (d * (((p.x * p.x) * p.x) * ((((q.x * q.x) * q.x) * q.t) * ((r.y * r.t) * r.t))))) - 16 * (d * (((p.x * p.x) * p.x) * ((((q.x * q.z) * q.t) * q.t) * ((r.x * r.x) * r.x))))) - 16 * (d * (((p.x * p.x) * p.x) * ((((q.x * q.z) * q.t) * q.t) * ((r.x * r.t) * r.t))))) + 16 * (d * (((p.x * p.x) * p.x) * ((((q.x * q.z) * q.t) * q.t) * ((r.y * r.z) * r.t))))) + 16 * (d * (((p.x * p.x) * p.x) * ((((q.x * q.t) * q.t) * q.t) * ((r.x * r.z) * r.t))))) - 16 * (d * (((p.x * p.x) * p.x) * ((((q.x * q.t) * q.t) * q.t) * ((r.y * r.y) * r.y))))) + 16 * (d * (((p.x * p.x) * p.x) * ((((q.y * q.y) * q.y) * q.z) * ((r.y * r.t) * r.t))))) + 16 * (d * (((p.x * p.x) * p.x) * ((((q.y * q.y) * q.y) * q.t) * ((r.x * r.t) * r.t))))) + 16 * (d * (((p.x * p.z) * p.t) * ((((q.x * q.t) * q.t) * q.t) * ((r.x * r.x) * r.x))))) - 16 * (d * (((p.x * p.t) * p.t) * ((((q.x * q.x) * q.x) * q.z) * ((r.x * r.x) * r.x))))) - 16 * (d * (((p.x * p.t) * p.t) * ((((q.x * q.z) * q.t) * q.t) * ((r.x * r.x) * r.x))))) + 16 * (d * (((p.x * p.t) * p.t) * ((((q.y * q.y) * q.y) * q.t) * ((r.x * r.x) * r.x))))) - 16 * (d * (((p.y * p.y) * p.y) * ((((q.x * q.t) * q.t) * q.t) * ((r.x * r.x) * r.x))))) + 16 * (d * (((p.y * p.z) * p.t) * ((((q.x * q.z) * q.t) * q.t) * ((r.x * r.x) * r.x))))) + 16 * (d * (((p.y * p.t) * p.t) * ((((q.x * q.x) * q.x) * q.t) * ((r.x * r.x) * r.x))))) + 16 * (d * (((p.y * p.t) * p.t) * ((((q.y * q.y) * q.y) * q.z) * ((r.x * r.x) * r.x)))))
}

/// A part of the normal form of the cross product.
pub open spec fn normal_part_5(d: int, p: Lift, q: Lift, r: Lift) -> int {
    (((((((((((((((((0 - 16 * (d * (((p.x * p.x) * p.x) * ((((q.y * q.z) * q.t) * q.t) * ((r.x * r.z) * r.t))))) + 16 * (d * (((p.x * p.x) * p.x) * ((((q.y * q.z) * q.t) * q.t) * ((r.y * r.y) * r.y))))) - 16 * (d * (((p.x * p.x) * p.x) * ((((q.y * q.z) * q.t) * q.t) * ((r.y * r.t) * r.t))))) - 16 * (d * (((p.x * p.x) * p.x) * ((((q.y * q.t) * q.t) * q.t) * ((r.x * r.x) * r.x))))) + 16 * (d * (((p.x * p.x) * p.x) * ((((q.y * q.t) * q.t) * q.t) * ((r.y * r.z) * r.t))))) + 16 * (d * (((p.x * p.z) * p.t) * ((((q.x * q.x) * q.x) * q.z) * ((r.x * r.z) * r.t))))) - 16 * (d * (((p.x * p.z) * p.t) * ((((q.x * q.x) * q.x) * q.z) * ((r.y * r.t) * r.t))))) + 16 * (d * (((p.x * p.z) * p.t) * ((((q.x * q.x) * q.x) * q.t) * ((r.x * r.t) * r.t))))) - 48 * (d * (((p.x * p.z) * p.t) * ((((q.x * q.x) * q.x) * q.t) * ((r.y * r.z) * r.t))))) - 64 * (d * (((p.x * p.z) * p.t) * ((((q.x * q.z) * q.t) * q.t) * ((r.x * r.z) * r.t))))) - 16 * (d * (((p.x * p.z) * p.t) * ((((q.y * q.z) * q.t) * q.t) * ((r.x * r.x) * r.x))))) + 16 * (d * (((p.x * p.t) * p.t) * ((((q.x * q.x) * q.x) * q.t) * ((r.x * r.z) * r.t))))) + 16 * (d * (((p.y * p.y) * p.y) * ((((q.y * q.z) * q.t) * q.t) * ((r.x * r.x) * r.x))))) - 48 * (d * (((p.y * p.z) * p.t) * ((((q.x * q.x) * q.x) * q.t) * ((r.x * r.z) * r.t))))) + 16 * (d * (((p.y * p.z) * p.t) * ((((q.y * q.t) * q.t) * q.t) * ((r.x * r.x) * r.x))))) - 16 * (d * (((p.y * p.t) * p.t) * ((((q.x * q.x) * q.x) * q.z) * ((r.x * r.z) * r.t))))) - 16 * (d * (((p.y * p.t) * p.t) * ((((q.y * q.z) * q.t) * q.t) * ((r.x * r.x) * r.x)))))
}

/// A part of the normal form of the cross product.
pub open spec fn normal_part_6(d: int, p: Lift, q: Lift, r: Lift) -> int {
    (((((((((((((((((16 * (d * (((p.x * p.z) * p.t) * ((((q.x * q.z) * q.t) * q.t) * ((r.y * r.y) * r.y)))) - 16 * (d * (((p.x * p.z) * p.t) * ((((q.x * q.z) * q.t) * q.t) * ((r.y * r.t) * r.t))))) - 16 * (d * (((p.x * p.z) * p.t) * ((((q.x * q.t) * q.t) * q.t) * ((r.y * r.z) * r.t))))) + 16 * (d * (((p.x * p.z) * p.t) * ((((q.y * q.y) * q.y) * q.z) * ((r.x * r.t) * r.t))))) + 16 * (d * (((p.x * p.z) * p.t) * ((((q.y * q.y) * q.y) * q.z) * ((r.y * r.z) * r.t))))) + 48 * (d * (((p.x * p.z) * p.t) * ((((q.y * q.y) * q.y) * q.t) * ((r.x * r.z) * r.t))))) + 16 * (d * (((p.x * p.z) * p.t) * ((((q.y * q.y) * q.y) * q.t) * ((r.y * r.t) * r.t))))) - 16 * (d * (((p.x * p.z) * p.t) * ((((q.y * q.z) * q.t) * q.t) * ((r.x * r.t) * r.t))))) + 64 * (d * (((p.x * p.z) * p.t) * ((((q.y * q.z) * q.t) * q.t) * ((r.y * r.z) * r.t))))) - 16 * (d * (((p.x * p.z) * p.t) * ((((q.y * q.t) * q.t) * q.t) * ((r.x * r.z) * r.t))))) + 16 * (d * (((p.x * p.t) * p.t) * ((((q.y * q.y) * q.y) * q.z) * ((r.x * r.z) * r.t))))) - 16 * (d * (((p.x * p.t) * p.t) * ((((q.y * q.z) * q.t) * q.t) * ((r.x * r.z) * r.t))))) + 16 * (d * (((p.y * p.y) * p.y) * ((((q.x * q.z) * q.t) * q.t) * ((r.x * r.z) * r.t))))) - 16 * (d * (((p.y * p.z) * p.t) * ((((q.x * q.t) * q.t) * q.t) * ((r.x * r.z) * r.t))))) + 16 * (d * (((p.y * p.z) * p.t) * ((((q.y * q.y) * q.y) * q.z) * ((r.x * r.z) * r.t))))) + 64 * (d * (((p.y * p.z) * p.t) * ((((q.y * q.z) * q.t) * q.t) * ((r.x * r.z) * r.t))))) - 16 * (d * (((p.y * p.t) * p.t) * ((((q.x * q.z) * q.t) * q.t) * ((r.x * r.z) * r.t))))) + 16 * (d * (((p.y * p.t) * p.t) * ((((q.y * q.y) * q.y) * q.t) * ((r.x * r.z) * r.t)))))
}

/// A part of the normal form of the cross product.
pub open spec fn normal_part_7(d: int, p: Lift, q: Lift, r: Lift) -> int {
    ((((((((((((((((((16 * (d * (((p.x * p.z) * p.t) * ((((q.y * q.t) * q.t) * q.t) * ((r.y * r.y) * r.y)))) + 16 * (d * (((p.x * p.t) * p.t) * ((((q.x * q.x) * q.x) * q.z) * ((r.y * r.z) * r.t))))) - 16 * (d * (((p.x * p.t) * p.t) * ((((q.x * q.x) * q.x) * q.t) * ((r.y * r.y) * r.y))))) + 16 * (d * (((p.x * p.t) * p.t) * ((((q.x * q.z) * q.t) * q.t) * ((r.y * r.z) * r.t))))) - 16 * (d * (((p.x * p.t) * p.t) * ((((q.y * q.y) * q.y) * q.z) * ((r.y * r.y) * r.y))))) - 16 * (d * (((p.x * p.t) * p.t) * ((((q.y * q.y) * q.y) * q.t) * ((r.y * r.z) * r.t))))) + 16 * (d * (((p.x * p.t) * p.t) * ((((q.y * q.z) * q.t) * q.t) * ((r.y * r.y) * r.y))))) + 16 * (d * (((p.y * p.y) * p.y) * ((((q.x * q.x) * q.x) * q.z) * ((r.y * r.t) * r.t))))) - 16 * (d * (((p.y * p.y) * p.y) * ((((q.x * q.x) * q.x) * q.t) * ((r.x * r.t) * r.t))))) - 16 * (d * (((p.y * p.y) * p.y) * ((((q.x * q.z) * q.t) * q.t) * ((r.y * r.y) * r.y))))) + 16 * (d * (((p.y * p.y) * p.y) * ((((q.x * q.z) * q.t) * q.t) * ((r.y * r.t) * r.t))))) - 16 * (d * (((p.y * p.y) * p.y) * ((((q.y * q.y) * q.y) * q.z) * ((r.x * r.t) * r.t))))) + 16 * (d * (((p.y * p.y) * p.y) * ((((q.y * q.z) * q.t) * q.t) * ((r.x * r.t) * r.t))))) + 16 * (d * (((p.y * p.y) * p.y) * ((((q.y * q.t) * q.t) * q.t) * ((r.x * r.z) * r.t))))) + 16 * (d * (((p.y * p.z) * p.t) * ((((q.x * q.x) * q.x) * q.z) * ((r.x * r.t) * r.t))))) + 16 * (d * (((p.y * p.z) * p.t) * ((((q.x * q.z) * q.t) * q.t) * ((r.x * r.t) * r.t))))) - 16 * (d * (((p.y * p.z) * p.t) * ((((q.y * q.y) * q.y) * q.t) * ((r.x * r.t) * r.t))))) + 16 * (d * (((p.y * p.t) * p.t) * ((((q.x * q.x) * q.x) * q.z) * ((r.y * r.y) * r.y))))) + 16 * (d * (((p.y * p.t) * p.t) * ((((q.x * q.z) * q.t) * q.t) * ((r.y * r.y) * r.y)))))
}

/// A part of the normal form of the cross product.
pub open spec fn normal_part_8(d: int, p: Lift, q: Lift, r: Lift) -> int {
    (((((((((((((((16 * (d * (((p.y * p.y) * p.y) * ((((q.x * q.t) * q.t) * q.t) * ((r.y * r.z) * r.t)))) - 16 * (d * (((p.y * p.y) * p.y) * ((((q.y * q.y) * q.y) * q.t) * ((r.y * r.t) * r.t))))) - 16 * (d * (((p.y * p.y) * p.y) * ((((q.y * q.z) * q.t) * q.t) * ((r.y * r.z) * r.t))))) - 16 * (d * (((p.y * p.y) * p.y) * ((((q.y * q.t) * q.t) * q.t) * ((r.y * r.y) * r.y))))) + 16 * (d * (((p.y * p.z) * p.t) * ((((q.x * q.x) * q.x) * q.z) * ((r.y * r.z) * r.t))))) - 16 * (d * (((p.y * p.z) * p.t) * ((((q.x * q.x) * q.x) * q.t) * ((r.y * r.t) * r.t))))) - 64 * (d * (((p.y * p.z) * p.t) * ((((q.x * q.z) * q.t) * q.t) * ((r.y * r.z) * r.t))))) + 16 * (d * (((p.y * p.z) * p.t) * ((((q.x * q.t) * q.t) * q.t) * ((r.y * r.y) * r.y))))) - 16 * (d * (((p.y * p.z) * p.t) * ((((q.y * q.y) * q.y) * q.z) * ((r.y * r.t) * r.t))))) + 48 * (d * (((p.y * p.z) * p.t) * ((((q.y * q.y) * q.y) * q.t) * ((r.y * r.z) * r.t))))) - 16 * (d * (((p.y * p.z) * p.t) * ((((q.y * q.z) * q.t) * q.t) * ((r.y * r.y) * r.y))))) + 16 * (d * (((p.y * p.z) * p.t) * ((((q.y * q.z) * q.t) * q.t) * ((r.y * r.t) * r.t))))) - 16 * (d * (((p.y * p.t) * p.t) * ((((q.x * q.x) * q.x) * q.t) * ((r.y * r.z) * r.t))))) - 16 * (d * (((p.y * p.t) * p.t) * ((((q.y * q.y) * q.y) * q.z) * ((r.y * r.z) * r.t))))) - 16 * (d * (((p.y * p.t) * p.t) * ((((q.y * q.y) * q.y) * q.t) * ((r.y * r.y) * r.y))))) + 16 * (d * (((p.y * p.t) * p.t) * ((((q.y * q.z) * q.t) * q.t) * ((r.y * r.z) * r.t)))))
}

/// A part of the normal form of the cross product.
pub open spec fn normal_part_9(d: int, p: Lift, q: Lift, r: Lift) -> int {
    ((((((((((((((((0 - 16 * (d * (((p.y * p.z) * p.t) * ((((q.y * q.t) * q.t) * q.t) * ((r.y * r.z) * r.t))))) - 16 * (((p.x * p.x) * p.x) * ((((q.x * q.x) * q.x) * q.z) * ((r.x * r.x) * r.x)))) + 16 * (((p.x * p.x) * p.x) * ((((q.x * q.x) * q.x) * q.z) * ((r.y * r.z) * r.t)))) + 16 * (((p.x * p.x) * p.x) * ((((q.x * q.x) * q.x) * q.t) * ((r.x * r.z) * r.t)))) - 16 * (((p.x * p.x) * p.x) * ((((q.x * q.x) * q.x) * q.t) * ((r.y * r.y) * r.y)))) - 16 * (((p.x * p.x) * p.x) * ((((q.x * q.z) * q.t) * q.t) * ((r.x * r.x) * r.x)))) + 16 * (((p.x * p.x) * p.x) * ((((q.x * q.z) * q.t) * q.t) * ((r.y * r.z) * r.t)))) + 16 * (((p.x * p.x) * p.x) * ((((q.y * q.y) * q.y) * q.z) * ((r.x * r.z) * r.t)))) - 16 * (((p.x * p.x) * p.x) * ((((q.y * q.y) * q.y) * q.z) * ((r.y * r.y) * r.y)))) + 16 * (((p.x * p.x) * p.x) * ((((q.y * q.y) * q.y) * q.t) * ((r.x * r.x) * r.x)))) + 16 * (((p.x * p.z) * p.t) * ((((q.x * q.x) * q.x) * q.t) * ((r.x * r.x) * r.x)))) + 16 * (((p.x * p.z) * p.t) * ((((q.y * q.y) * q.y) * q.z) * ((r.x * r.x) * r.x)))) - 16 * (((p.y * p.y) * p.y) * ((((q.x * q.x) * q.x) * q.t) * ((r.x * r.x) * r.x)))) - 16 * (((p.y * p.y) * p.y) * ((((q.y * q.y) * q.y) * q.z) * ((r.x * r.x) * r.x)))) + 16 * (((p.y * p.z) * p.t) * ((((q.x * q.x) * q.x) * q.z) * ((r.x * r.x) * r.x)))) + 16 * (((p.y * p.z) * p.t) * ((((q.x * q.z) * q.t) * q.t) * ((r.x * r.x) * r.x))))
}

/// A part of the normal form of the cross product.
pub open spec fn normal_part_10(d: int, p: Lift, q: Lift, r: Lift) -> int {
    (((((((((((((((((0 - 16 * (((p.x * p.x) * p.x) * ((((q.y * q.y) * q.y) * q.t) * ((r.y * r.z) * r.t)))) - 16 * (((p.x * p.x) * p.x) * ((((q.y * q.z) * q.t) * q.t) * ((r.x * r.z) * r.t)))) + 16 * (((p.x * p.x) * p.x) * ((((q.y * q.z) * q.t) * q.t) * ((r.y * r.y) * r.y)))) - 16 * (((p.x * p.z) * p.t) * ((((q.x * q.x) * q.x) * q.z) * ((r.x * r.z) * r.t)))) + 16 * (((p.x * p.z) * p.t) * ((((q.x * q.x) * q.x) * q.z) * ((r.y * r.y) * r.y)))) - 16 * (((p.x * p.z) * p.t) * ((((q.x * q.x) * q.x) * q.t) * ((r.y * r.z) * r.t)))) - 16 * (((p.x * p.z) * p.t) * ((((q.x * q.z) * q.t) * q.t) * ((r.x * r.z) * r.t)))) + 16 * (((p.x * p.z) * p.t) * ((((q.x * q.z) * q.t) * q.t) * ((r.y * r.y) * r.y)))) - 16 * (((p.x * p.z) * p.t) * ((((q.y * q.y) * q.y) * q.z) * ((r.y * r.z) * r.t)))) + 16 * (((p.x * p.z) * p.t) * ((((q.y * q.y) * q.y) * q.t) * ((r.x * r.z) * r.t)))) - 16 * (((p.x * p.z) * p.t) * ((((q.y * q.z) * q.t) * q.t) * ((r.x * r.x) * r.x)))) + 16 * (((p.y * p.y) * p.y) * ((((q.x * q.x) * q.x) * q.z) * ((r.x * r.z) * r.t)))) + 16 * (((p.y * p.y) * p.y) * ((((q.x * q.z) * q.t) * q.t) * ((r.x * r.z) * r.t)))) + 16 * (((p.y * p.y) * p.y) * ((((q.y * q.z) * q.t) * q.t) * ((r.x * r.x) * r.x)))) - 16 * (((p.y * p.z) * p.t) * ((((q.x * q.x) * q.x) * q.t) * ((r.x * r.z) * r.t)))) - 16 * (((p.y * p.z) * p.t) * ((((q.y * q.y) * q.y) * q.z) * ((r.x * r.z) * r.t)))) - 16 * (((p.y * p.z) * p.t) * ((((q.y * q.y) * q.y) * q.t) * ((r.x * r.x) * r.x))))
}

/// A part of the normal form of the cross product.
pub open spec fn normal_part_11(d: int, p: Lift, q: Lift, r: Lift) -> int {
    (((((((((((((((0 - 16 * (((p.x * p.z) * p.t) * ((((q.y * q.y) * q.y) * q.t) * ((r.y * r.y) * r.y)))) + 16 * (((p.x * p.z) * p.t) * ((((q.y * q.z) * q.t) * q.t) * ((r.y * r.z) * r.t)))) - 16 * (((p.y * p.y) * p.y) * ((((q.x * q.x) * q.x) * q.z) * ((r.y * r.y) * r.y)))) + 16 * (((p.y * p.y) * p.y) * ((((q.x * q.x) * q.x) * q.t) * ((r.y * r.z) * r.t)))) - 16 * (((p.y * p.y) * p.y) * ((((q.x * q.z) * q.t) * q.t) * ((r.y * r.y) * r.y)))) + 16 * (((p.y * p.y) * p.y) * ((((q.y * q.y) * q.y) * q.z) * ((r.y * r.z) * r.t)))) - 16 * (((p.y * p.y) * p.y) * ((((q.y * q.y) * q.y) * q.t) * ((r.x * r.z) * r.t)))) + 16 * (((p.y * p.y) * p.y) * ((((q.y * q.y) * q.y) * q.t) * ((r.y * r.y) * r.y)))) - 16 * (((p.y * p.y) * p.y) * ((((q.y * q.z) * q.t) * q.t) * ((r.y * r.z) * r.t)))) - 16 * (((p.y * p.z) * p.t) * ((((q.x * q.x) * q.x) * q.z) * ((r.y * r.z) * r.t)))) + 16 * (((p.y * p.z) * p.t) * ((((q.x * q.x) * q.x) * q.t) * ((r.y * r.y) * r.y)))) - 16 * (((p.y * p.z) * p.t) * ((((q.x * q.z) * q.t) * q.t) * ((r.y * r.z) * r.t)))) + 16 * (((p.y * p.z) * p.t) * ((((q.y * q.y) * q.y) * q.z) * ((r.y * r.y) * r.y)))) + 16 * (((p.y * p.z) * p.t) * ((((q.y * q.z) * q.t) * q.t) * ((r.x * r.z) * r.t)))) - 16 * (((p.y * p.z) * p.t) * ((((q.y * q.z) * q.t) * q.t) * ((r.y * r.y) * r.y))))
}

/// A part of the normal form of the cross product.
pub open spec fn normal_part_12(d: int, p: Lift, q: Lift, r: Lift) -> int {
    16 * (((p.y * p.z) * p.t) * ((((q.y * q.y) * q.y) * q.t) * ((r.y * r.z) * r.t)))
}

/// The normal form of the cross product.
pub open spec fn normal(d: int, p: Lift, q: Lift, r: Lift) -> int {
    normal_part_1(d, p, q, r) + normal_part_2(d, p, q, r) + normal_part_3(d, p, q, r) + normal_part_4(d, p, q, r) + normal_part_5(d, p, q, r) + normal_part_6(d, p, q, r) + normal_part_7(d, p, q, r) + normal_part_8(d, p, q, r) + normal_part_9(d, p, q, r) + normal_part_10(d, p, q, r) + normal_part_11(d, p, q, r) + normal_part_12(d, p, q, r)
}

/// The coordinates of the sum of the first two points, term by term.
proof fn lemma_expand_first(d: int, p: Lift, q: Lift)
    ensures
        sum_of(p, q, d).x == ((((0 - 4 * (d * ((p.x * p.t) * (q.y * q.t)))) - 4 * (d * ((p.y * p.t) * (q.x * q.t)))) + 4 * ((p.x * p.z) * (q.y * q.z))) + 4 * ((p.y * p.z) * (q.x * q.z))),
        sum_of(p, q, d).y == (((4 * (d * ((p.x * p.t) * (q.x * q.t))) + 4 * (d * ((p.y * p.t) * (q.y * q.t)))) + 4 * ((p.x * p.z) * (q.x * q.z))) + 4 * ((p.y * p.z) * (q.y * q.z))),
        sum_of(p, q, d).z == ((0 - 4 * ((d * d) * ((p.t * p.t) * (q.t * q.t)))) + 4 * ((p.z * p.z) * (q.z * q.z))),
        sum_of(p, q, d).t == (((4 * ((p.x * p.x) * (q.x * q.y)) + 4 * ((p.x * p.y) * (q.x * q.x))) + 4 * ((p.x * p.y) * (q.y * q.y))) + 4 * ((p.y * p.y) * (q.x * q.y))),
{
    assert(form_e(p, q) == ((p.x * q.y) + (p.y * q.x)));
    assert(form_f(p, q, d) == ((0 - (d * (p.t * q.t))) + (p.z * q.z)));
    assert(form_g(p, q, d) == ((d * (p.t * q.t)) + (p.z * q.z)));
    assert(form_h(p, q) == ((p.x * q.x) + (p.y * q.y)));
    assert((2 * form_e(p, q)) == (2 * (p.x * q.y) + 2 * (p.y * q.x)));
    assert((2 * form_f(p, q, d)) == ((0 - 2 * (d * (p.t * q.t))) + 2 * (p.z * q.z)));
    assert((2 * form_g(p, q, d)) == (2 * (d * (p.t * q.t)) + 2 * (p.z * q.z)));
    assert((2 * form_h(p, q)) == (2 * (p.x * q.x) + 2 * (p.y * q.y)));
    let v1 = 2 * (p.x * q.y);
    let v3 = 2 * (p.y * q.x);
    let v4 = v1 + v3;
    let v5 = 2 * (d * (p.t * q.t));
    let v6 = 0 - v5;
    let v7 = 2 * (p.z * q.z);
    let v8 = v6 + v7;
    lemma_distribute(v8, v1, v3);
    lemma_distribute(v1, v6, v7);
    lemma_distribute_sub(v1, 0, v5);
    lemma_tensor(p.x, q.y, 1, p.t, q.t, 1);
    lemma_pairs(1, (p.x * q.y), d, (p.t * q.t));
    lemma_coefficients(2, (p.x * q.y), 2, (d * (p.t * q.t)));
    lemma_tensor(p.x, q.y, 1, p.z, q.z, 1);
    lemma_coefficients(2, (p.x * q.y), 2, (p.z * q.z));
    lemma_distribute(v3, v6, v7);
    lemma_distribute_sub(v3, 0, v5);
    lemma_tensor(p.y, q.x, 1, p.t, q.t, 1);
    lemma_pairs(1, (p.y * q.x), d, (p.t * q.t));
    lemma_coefficients(2, (p.y * q.x), 2, (d * (p.t * q.t)));
    lemma_tensor(p.y, q.x, 1, p.z, q.z, 1);
    lemma_coefficients(2, (p.y * q.x), 2, (p.z * q.z));
    assert(((2 * form_e(p, q)) * (2 * form_f(p, q, d))) == ((((0 - 4 * (d * ((p.x * p.t) * (q.y * q.t)))) - 4 * (d * ((p.y * p.t) * (q.x * q.t)))) + 4 * ((p.x * p.z) * (q.y * q.z))) + 4 * ((p.y * p.z) * (q.x * q.z))));
    assert(sum_of(p, q, d).x == ((((0 - 4 * (d * ((p.x * p.t) * (q.y * q.t)))) - 4 * (d * ((p.y * p.t) * (q.x * q.t)))) + 4 * ((p.x * p.z) * (q.y * q.z))) + 4 * ((p.y * p.z) * (q.x * q.z))));
    let v9 = 2 * (d * (p.t * q.t));
    let v11 = 2 * (p.z * q.z);
    let v12 = v9 + v11;
    let v13 = 2 * (p.x * q.x);
    let v15 = 2 * (p.y * q.y);
    let v16 = v13 + v15;
    lemma_distribute(v16, v9, v11);
    lemma_distribute(v9, v13, v15);
    assert(p.t * p.x == (p.x * p.t)) by (nonlinear_arith);
    assert(q.t * q.x == (q.x * q.t)) by (nonlinear_arith);
    lemma_tensor(p.t, q.t, 1, p.x, q.x, 1);
    lemma_pairs(d, (p.t * q.t), 1, (p.x * q.x));
    lemma_coefficients(2, (d * (p.t * q.t)), 2, (p.x * q.x));
    assert(p.t * p.y == (p.y * p.t)) by (nonlinear_arith);
    assert(q.t * q.y == (q.y * q.t)) by (nonlinear_arith);
    lemma_tensor(p.t, q.t, 1, p.y, q.y, 1);
    lemma_pairs(d, (p.t * q.t), 1, (p.y * q.y));
    lemma_coefficients(2, (d * (p.t * q.t)), 2, (p.y * q.y));
    lemma_distribute(v11, v13, v15);
    assert(p.z * p.x == (p.x * p.z)) by (nonlinear_arith);
    assert(q.z * q.x == (q.x * q.z)) by (nonlinear_arith);
    lemma_tensor(p.z, q.z, 1, p.x, q.x, 1);
    lemma_coefficients(2, (p.z * q.z), 2, (p.x * q.x));
    assert(p.z * p.y == (p.y * p.z)) by (nonlinear_arith);
    assert(q.z * q.y == (q.y * q.z)) by (nonlinear_arith);
    lemma_tensor(p.z, q.z, 1, p.y, q.y, 1);
    lemma_coefficients(2, (p.z * q.z), 2, (p.y * q.y));
    assert(((2 * form_g(p, q, d)) * (2 * form_h(p, q))) == (((4 * (d * ((p.x * p.t) * (q.x * q.t))) + 4 * (d * ((p.y * p.t) * (q.y * q.t)))) + 4 * ((p.x * p.z) * (q.x * q.z))) + 4 * ((p.y * p.z) * (q.y * q.z))));
    assert(sum_of(p, q, d).y == (((4 * (d * ((p.x * p.t) * (q.x * q.t))) + 4 * (d * ((p.y * p.t) * (q.y * q.t)))) + 4 * ((p.x * p.z) * (q.x * q.z))) + 4 * ((p.y * p.z) * (q.y * q.z))));
    let v17 = 2 * (d * (p.t * q.t));
    let v18 = 0 - v17;
    let v19 = 2 * (p.z * q.z);
    let v20 = v18 + v19;
    let v21 = 2 * (d * (p.t * q.t));
    let v23 = 2 * (p.z * q.z);
    let v24 = v21 + v23;
    lemma_distribute(v24, v18, v19);
    lemma_distribute_sub(v24, 0, v17);
    lemma_distribute(v17, v21, v23);
    lemma_tensor(p.t, q.t, 1, p.t, q.t, 1);
    lemma_pairs(d, (p.t * q.t), d, (p.t * q.t));
    lemma_coefficients(2, (d * (p.t * q.t)), 2, (d * (p.t * q.t)));
    assert(p.t * p.z == (p.z * p.t)) by (nonlinear_arith);
    assert(q.t * q.z == (q.z * q.t)) by (nonlinear_arith);
    lemma_tensor(p.t, q.t, 1, p.z, q.z, 1);
    lemma_pairs(d, (p.t * q.t), 1, (p.z * q.z));
    lemma_coefficients(2, (d * (p.t * q.t)), 2, (p.z * q.z));
    lemma_distribute(v19, v21, v23);
    lemma_tensor(p.z, q.z, 1, p.t, q.t, 1);
    lemma_pairs(1, (p.z * q.z), d, (p.t * q.t));
    lemma_coefficients(2, (p.z * q.z), 2, (d * (p.t * q.t)));
    lemma_tensor(p.z, q.z, 1, p.z, q.z, 1);
    lemma_coefficients(2, (p.z * q.z), 2, (p.z * q.z));
    assert(((2 * form_f(p, q, d)) * (2 * form_g(p, q, d))) == ((0 - 4 * ((d * d) * ((p.t * p.t) * (q.t * q.t)))) + 4 * ((p.z * p.z) * (q.z * q.z))));
    assert(sum_of(p, q, d).z == ((0 - 4 * ((d * d) * ((p.t * p.t) * (q.t * q.t)))) + 4 * ((p.z * p.z) * (q.z * q.z))));
    let v25 = 2 * (p.x * q.y);
    let v27 = 2 * (p.y * q.x);
    let v28 = v25 + v27;
    let v29 = 2 * (p.x * q.x);
    let v31 = 2 * (p.y * q.y);
    let v32 = v29 + v31;
    lemma_distribute(v32, v25, v27);
    lemma_distribute(v25, v29, v31);
    assert(q.y * q.x == (q.x * q.y)) by (nonlinear_arith);
    lemma_tensor(p.x, q.y, 1, p.x, q.x, 1);
    lemma_coefficients(2, (p.x * q.y), 2, (p.x * q.x));
    lemma_tensor(p.x, q.y, 1, p.y, q.y, 1);
    lemma_coefficients(2, (p.x * q.y), 2, (p.y * q.y));
    lemma_distribute(v27, v29, v31);
    assert(p.y * p.x == (p.x * p.y)) by (nonlinear_arith);
    lemma_tensor(p.y, q.x, 1, p.x, q.x, 1);
    lemma_coefficients(2, (p.y * q.x), 2, (p.x * q.x));
    lemma_tensor(p.y, q.x, 1, p.y, q.y, 1);
    lemma_coefficients(2, (p.y * q.x), 2, (p.y * q.y));
    assert(((2 * form_e(p, q)) * (2 * form_h(p, q))) == (((4 * ((p.x * p.x) * (q.x * q.y)) + 4 * ((p.x * p.y) * (q.x * q.x))) + 4 * ((p.x * p.y) * (q.y * q.y))) + 4 * ((p.y * p.y) * (q.x * q.y))));
    assert(sum_of(p, q, d).t == (((4 * ((p.x * p.x) * (q.x * q.y)) + 4 * ((p.x * p.y) * (q.x * q.x))) + 4 * ((p.x * p.y) * (q.y * q.y))) + 4 * ((p.y * p.y) * (q.x * q.y))));
}

/// The coordinates of the sum of the last two points, term by term.
proof fn lemma_expand_last(d: int, q: Lift, r: Lift)
    ensures
        sum_of(q, r, d).x == ((((0 - 4 * (d * ((q.x * q.t) * (r.y * r.t)))) - 4 * (d * ((q.y * q.t) * (r.x * r.t)))) + 4 * ((q.x * q.z) * (r.y * r.z))) + 4 * ((q.y * q.z) * (r.x * r.z))),
        sum_of(q, r, d).y == (((4 * (d * ((q.x * q.t) * (r.x * r.t))) + 4 * (d * ((q.y * q.t) * (r.y * r.t)))) + 4 * ((q.x * q.z) * (r.x * r.z))) + 4 * ((q.y * q.z) * (r.y * r.z))),
        sum_of(q, r, d).z == ((0 - 4 * ((d * d) * ((q.t * q.t) * (r.t * r.t)))) + 4 * ((q.z * q.z) * (r.z * r.z))),
        sum_of(q, r, d).t == (((4 * ((q.x * q.x) * (r.x * r.y)) + 4 * ((q.x * q.y) * (r.x * r.x))) + 4 * ((q.x * q.y) * (r.y * r.y))) + 4 * ((q.y * q.y) * (r.x * r.y))),
{
    assert(form_e(q, r) == ((q.x * r.y) + (q.y * r.x)));
    assert(form_f(q, r, d) == ((0 - (d * (q.t * r.t))) + (q.z * r.z)));
    assert(form_g(q, r, d) == ((d * (q.t * r.t)) + (q.z * r.z)));
    assert(form_h(q, r) == ((q.x * r.x) + (q.y * r.y)));
    assert((2 * form_e(q, r)) == (2 * (q.x * r.y) + 2 * (q.y * r.x)));
    assert((2 * form_f(q, r, d)) == ((0 - 2 * (d * (q.t * r.t))) + 2 * (q.z * r.z)));
    assert((2 * form_g(q, r, d)) == (2 * (d * (q.t * r.t)) + 2 * (q.z * r.z)));
    assert((2 * form_h(q, r)) == (2 * (q.x * r.x) + 2 * (q.y * r.y)));
    let v33 = 2 * (q.x * r.y);
    let v35 = 2 * (q.y * r.x);
    let v36 = v33 + v35;
    let v37 = 2 * (d * (q.t * r.t));
    let v38 = 0 - v37;
    let v39 = 2 * (q.z * r.z);
    let v40 = v38 + v39;
    lemma_distribute(v40, v33, v35);
    lemma_distribute(v33, v38, v39);
    lemma_distribute_sub(v33, 0, v37);
    lemma_tensor(1, q.x, r.y, 1, q.t, r.t);
    lemma_pairs(1, (q.x * r.y), d, (q.t * r.t));
    lemma_coefficients(2, (q.x * r.y), 2, (d * (q.t * r.t)));
    lemma_tensor(1, q.x, r.y, 1, q.z, r.z);
    lemma_coefficients(2, (q.x * r.y), 2, (q.z * r.z));
    lemma_distribute(v35, v38, v39);
    lemma_distribute_sub(v35, 0, v37);
    lemma_tensor(1, q.y, r.x, 1, q.t, r.t);
    lemma_pairs(1, (q.y * r.x), d, (q.t * r.t));
    lemma_coefficients(2, (q.y * r.x), 2, (d * (q.t * r.t)));
    lemma_tensor(1, q.y, r.x, 1, q.z, r.z);
    lemma_coefficients(2, (q.y * r.x), 2, (q.z * r.z));
    assert(((2 * form_e(q, r)) * (2 * form_f(q, r, d))) == ((((0 - 4 * (d * ((q.x * q.t) * (r.y * r.t)))) - 4 * (d * ((q.y * q.t) * (r.x * r.t)))) + 4 * ((q.x * q.z) * (r.y * r.z))) + 4 * ((q.y * q.z) * (r.x * r.z))));
    assert(sum_of(q, r, d).x == ((((0 - 4 * (d * ((q.x * q.t) * (r.y * r.t)))) - 4 * (d * ((q.y * q.t) * (r.x * r.t)))) + 4 * ((q.x * q.z) * (r.y * r.z))) + 4 * ((q.y * q.z) * (r.x * r.z))));
    let v41 = 2 * (d * (q.t * r.t));
    let v43 = 2 * (q.z * r.z);
    let v44 = v41 + v43;
    let v45 = 2 * (q.x * r.x);
    let v47 = 2 * (q.y * r.y);
    let v48 = v45 + v47;
    lemma_distribute(v48, v41, v43);
    lemma_distribute(v41, v45, v47);
    assert(q.t * q.x == (q.x * q.t)) by (nonlinear_arith);
    assert(r.t * r.x == (r.x * r.t)) by (nonlinear_arith);
    lemma_tensor(1, q.t, r.t, 1, q.x, r.x);
    lemma_pairs(d, (q.t * r.t), 1, (q.x * r.x));
    lemma_coefficients(2, (d * (q.t * r.t)), 2, (q.x * r.x));
    assert(q.t * q.y == (q.y * q.t)) by (nonlinear_arith);
    assert(r.t * r.y == (r.y * r.t)) by (nonlinear_arith);
    lemma_tensor(1, q.t, r.t, 1, q.y, r.y);
    lemma_pairs(d, (q.t * r.t), 1, (q.y * r.y));
    lemma_coefficients(2, (d * (q.t * r.t)), 2, (q.y * r.y));
    lemma_distribute(v43, v45, v47);
    assert(q.z * q.x == (q.x * q.z)) by (nonlinear_arith);
    assert(r.z * r.x == (r.x * r.z)) by (nonlinear_arith);
    lemma_tensor(1, q.z, r.z, 1, q.x, r.x);
    lemma_coefficients(2, (q.z * r.z), 2, (q.x * r.x));
    assert(q.z * q.y == (q.y * q.z)) by (nonlinear_arith);
    assert(r.z * r.y == (r.y * r.z)) by (nonlinear_arith);
    lemma_tensor(1, q.z, r.z, 1, q.y, r.y);
    lemma_coefficients(2, (q.z * r.z), 2, (q.y * r.y));
    assert(((2 * form_g(q, r, d)) * (2 * form_h(q, r))) == (((4 * (d * ((q.x * q.t) * (r.x * r.t))) + 4 * (d * ((q.y * q.t) * (r.y * r.t)))) + 4 * ((q.x * q.z) * (r.x * r.z))) + 4 * ((q.y * q.z) * (r.y * r.z))));
    assert(sum_of(q, r, d).y == (((4 * (d * ((q.x * q.t) * (r.x * r.t))) + 4 * (d * ((q.y * q.t) * (r.y * r.t)))) + 4 * ((q.x * q.z) * (r.x * r.z))) + 4 * ((q.y * q.z) * (r.y * r.z))));
    let v49 = 2 * (d * (q.t * r.t));
    let v50 = 0 - v49;
    let v51 = 2 * (q.z * r.z);
    let v52 = v50 + v51;
    let v53 = 2 * (d * (q.t * r.t));
    let v55 = 2 * (q.z * r.z);
    let v56 = v53 + v55;
    lemma_distribute(v56, v50, v51);
    lemma_distribute_sub(v56, 0, v49);
    lemma_distribute(v49, v53, v55);
    lemma_tensor(1, q.t, r.t, 1, q.t, r.t);
    lemma_pairs(d, (q.t * r.t), d, (q.t * r.t));
    lemma_coefficients(2, (d * (q.t * r.t)), 2, (d * (q.t * r.t)));
    assert(q.t * q.z == (q.z * q.t)) by (nonlinear_arith);
    assert(r.t * r.z == (r.z * r.t)) by (nonlinear_arith);
    lemma_tensor(1, q.t, r.t, 1, q.z, r.z);
    lemma_pairs(d, (q.t * r.t), 1, (q.z * r.z));
    lemma_coefficients(2, (d * (q.t * r.t)), 2, (q.z * r.z));
    lemma_distribute(v51, v53, v55);
    lemma_tensor(1, q.z, r.z, 1, q.t, r.t);
    lemma_pairs(1, (q.z * r.z), d, (q.t * r.t));
    lemma_coefficients(2, (q.z * r.z), 2, (d * (q.t * r.t)));
    lemma_tensor(1, q.z, r.z, 1, q.z, r.z);
    lemma_coefficients(2, (q.z * r.z), 2, (q.z * r.z));
    assert(((2 * form_f(q, r, d)) * (2 * form_g(q, r, d))) == ((0 - 4 * ((d * d) * ((q.t * q.t) * (r.t * r.t)))) + 4 * ((q.z * q.z) * (r.z * r.z))));
    assert(sum_of(q, r, d).z == ((0 - 4 * ((d * d) * ((q.t * q.t) * (r.t * r.t)))) + 4 * ((q.z * q.z) * (r.z * r.z))));
    let v57 = 2 * (q.x * r.y);
    let v59 = 2 * (q.y * r.x);
    let v60 = v57 + v59;
    let v61 = 2 * (q.x * r.x);
    let v63 = 2 * (q.y * r.y);
    let v64 = v61 + v63;
    lemma_distribute(v64, v57, v59);
    lemma_distribute(v57, v61, v63);
    assert(r.y * r.x == (r.x * r.y)) by (nonlinear_arith);
    lemma_tensor(1, q.x, r.y, 1, q.x, r.x);
    lemma_coefficients(2, (q.x * r.y), 2, (q.x * r.x));
    lemma_tensor(1, q.x, r.y, 1, q.y, r.y);
    lemma_coefficients(2, (q.x * r.y), 2, (q.y * r.y));
    lemma_distribute(v59, v61, v63);
    assert(q.y * q.x == (q.x * q.y)) by (nonlinear_arith);
    lemma_tensor(1, q.y, r.x, 1, q.x, r.x);
    lemma_coefficients(2, (q.y * r.x), 2, (q.x * r.x));
    lemma_tensor(1, q.y, r.x, 1, q.y, r.y);
    lemma_coefficients(2, (q.y * r.x), 2, (q.y * r.y));
    assert(((2 * form_e(q, r)) * (2 * form_h(q, r))) == (((4 * ((q.x * q.x) * (r.x * r.y)) + 4 * ((q.x * q.y) * (r.x * r.x))) + 4 * ((q.x * q.y) * (r.y * r.y))) + 4 * ((q.y * q.y) * (r.x * r.y))));
    assert(sum_of(q, r, d).t == (((4 * ((q.x * q.x) * (r.x * r.y)) + 4 * ((q.x * q.y) * (r.x * r.x))) + 4 * ((q.x * q.y) * (r.y * r.y))) + 4 * ((q.y * q.y) * (r.x * r.y))));
}

/// The form E for the sum of the first two points and the third, and the
/// form G for the first point and the sum of the last two, term by term.
proof fn lemma_expand_forms(d: int, p: Lift, q: Lift, r: Lift)
    ensures
        form_e(sum_of(p, q, d), r) == (((((((4 * (d * ((p.x * p.t) * ((q.x * q.t) * r.x))) - 4 * (d * ((p.x * p.t) * ((q.y * q.t) * r.y)))) - 4 * (d * ((p.y * p.t) * ((q.x * q.t) * r.y)))) + 4 * (d * ((p.y * p.t) * ((q.y * q.t) * r.x)))) + 4 * ((p.x * p.z) * ((q.x * q.z) * r.x))) + 4 * ((p.x * p.z) * ((q.y * q.z) * r.y))) + 4 * ((p.y * p.z) * ((q.x * q.z) * r.y))) + 4 * ((p.y * p.z) * ((q.y * q.z) * r.x))),
        form_g(p, sum_of(q, r, d), d) == ((((((0 - 4 * ((d * d) * (p.z * ((q.t * q.t) * (r.t * r.t))))) + 4 * (d * (p.t * ((q.x * q.x) * (r.x * r.y))))) + 4 * (d * (p.t * ((q.x * q.y) * (r.x * r.x))))) + 4 * (d * (p.t * ((q.x * q.y) * (r.y * r.y))))) + 4 * (d * (p.t * ((q.y * q.y) * (r.x * r.y))))) + 4 * (p.z * ((q.z * q.z) * (r.z * r.z)))),
{
    lemma_expand_first(d, p, q);
    lemma_expand_last(d, q, r);
    let v65 = 4 * (d * ((p.x * p.t) * (q.y * q.t)));
    let v66 = 0 - v65;
    let v67 = 4 * (d * ((p.y * p.t) * (q.x * q.t)));
    let v68 = v66 - v67;
    let v69 = 4 * ((p.x * p.z) * (q.y * q.z));
    let v70 = v68 + v69;
    let v71 = 4 * ((p.y * p.z) * (q.x * q.z));
    let v72 = v70 + v71;
    let v73 = r.y;
    lemma_distribute(v73, v70, v71);
    lemma_distribute(v73, v68, v69);
    lemma_distribute_sub(v73, v66, v67);
    lemma_distribute_sub(v73, 0, v65);
    lemma_tensor((p.x * p.t), (q.y * q.t), 1, 1, 1, r.y);
    lemma_pairs(d, ((p.x * p.t) * (q.y * q.t)), 1, r.y);
    lemma_coefficients(4, (d * ((p.x * p.t) * (q.y * q.t))), 1, r.y);
    lemma_tensor((p.y * p.t), (q.x * q.t), 1, 1, 1, r.y);
    lemma_pairs(d, ((p.y * p.t) * (q.x * q.t)), 1, r.y);
    lemma_coefficients(4, (d * ((p.y * p.t) * (q.x * q.t))), 1, r.y);
    lemma_tensor((p.x * p.z), (q.y * q.z), 1, 1, 1, r.y);
    lemma_coefficients(4, ((p.x * p.z) * (q.y * q.z)), 1, r.y);
    lemma_tensor((p.y * p.z), (q.x * q.z), 1, 1, 1, r.y);
    lemma_coefficients(4, ((p.y * p.z) * (q.x * q.z)), 1, r.y);
    assert((sum_of(p, q, d).x * r.y) == ((((0 - 4 * (d * ((p.x * p.t) * ((q.y * q.t) * r.y)))) - 4 * (d * ((p.y * p.t) * ((q.x * q.t) * r.y)))) + 4 * ((p.x * p.z) * ((q.y * q.z) * r.y))) + 4 * ((p.y * p.z) * ((q.x * q.z) * r.y))));
    let v75 = 4 * (d * ((p.x * p.t) * (q.x * q.t)));
    let v77 = 4 * (d * ((p.y * p.t) * (q.y * q.t)));
    let v78 = v75 + v77;
    let v79 = 4 * ((p.x * p.z) * (q.x * q.z));
    let v80 = v78 + v79;
    let v81 = 4 * ((p.y * p.z) * (q.y * q.z));
    let v82 = v80 + v81;
    let v83 = r.x;
    lemma_distribute(v83, v80, v81);
    lemma_distribute(v83, v78, v79);
    lemma_distribute(v83, v75, v77);
    lemma_tensor((p.x * p.t), (q.x * q.t), 1, 1, 1, r.x);
    lemma_pairs(d, ((p.x * p.t) * (q.x * q.t)), 1, r.x);
    lemma_coefficients(4, (d * ((p.x * p.t) * (q.x * q.t))), 1, r.x);
    lemma_tensor((p.y * p.t), (q.y * q.t), 1, 1, 1, r.x);
    lemma_pairs(d, ((p.y * p.t) * (q.y * q.t)), 1, r.x);
    lemma_coefficients(4, (d * ((p.y * p.t) * (q.y * q.t))), 1, r.x);
    lemma_tensor((p.x * p.z), (q.x * q.z), 1, 1, 1, r.x);
    lemma_coefficients(4, ((p.x * p.z) * (q.x * q.z)), 1, r.x);
    lemma_tensor((p.y * p.z), (q.y * q.z), 1, 1, 1, r.x);
    lemma_coefficients(4, ((p.y * p.z) * (q.y * q.z)), 1, r.x);
    assert((sum_of(p, q, d).y * r.x) == (((4 * (d * ((p.x * p.t) * ((q.x * q.t) * r.x))) + 4 * (d * ((p.y * p.t) * ((q.y * q.t) * r.x)))) + 4 * ((p.x * p.z) * ((q.x * q.z) * r.x))) + 4 * ((p.y * p.z) * ((q.y * q.z) * r.x))));
    assert(form_e(sum_of(p, q, d), r) == (((((((4 * (d * ((p.x * p.t) * ((q.x * q.t) * r.x))) - 4 * (d * ((p.x * p.t) * ((q.y * q.t) * r.y)))) - 4 * (d * ((p.y * p.t) * ((q.x * q.t) * r.y)))) + 4 * (d * ((p.y * p.t) * ((q.y * q.t) * r.x)))) + 4 * ((p.x * p.z) * ((q.x * q.z) * r.x))) + 4 * ((p.x * p.z) * ((q.y * q.z) * r.y))) + 4 * ((p.y * p.z) * ((q.x * q.z) * r.y))) + 4 * ((p.y * p.z) * ((q.y * q.z) * r.x))));
    let v85 = p.z;
    let v87 = 4 * ((d * d) * ((q.t * q.t) * (r.t * r.t)));
    let v88 = 0 - v87;
    let v89 = 4 * ((q.z * q.z) * (r.z * r.z));
    let v90 = v88 + v89;
    lemma_distribute(v85, v88, v89);
    lemma_distribute_sub(v85, 0, v87);
    lemma_tensor(p.z, 1, 1, 1, (q.t * q.t), (r.t * r.t));
    lemma_pairs(1, p.z, (d * d), ((q.t * q.t) * (r.t * r.t)));
    lemma_coefficients(1, p.z, 4, ((d * d) * ((q.t * q.t) * (r.t * r.t))));
    lemma_tensor(p.z, 1, 1, 1, (q.z * q.z), (r.z * r.z));
    lemma_coefficients(1, p.z, 4, ((q.z * q.z) * (r.z * r.z)));
    assert((p.z * sum_of(q, r, d).z) == ((0 - 4 * ((d * d) * (p.z * ((q.t * q.t) * (r.t * r.t))))) + 4 * (p.z * ((q.z * q.z) * (r.z * r.z)))));
    let v91 = p.t;
    let v93 = 4 * ((q.x * q.x) * (r.x * r.y));
    let v95 = 4 * ((q.x * q.y) * (r.x * r.x));
    let v96 = v93 + v95;
    let v97 = 4 * ((q.x * q.y) * (r.y * r.y));
    let v98 = v96 + v97;
    let v99 = 4 * ((q.y * q.y) * (r.x * r.y));
    let v100 = v98 + v99;
    lemma_distribute(v91, v98, v99);
    lemma_distribute(v91, v96, v97);
    lemma_distribute(v91, v93, v95);
    lemma_tensor(p.t, 1, 1, 1, (q.x * q.x), (r.x * r.y));
    lemma_coefficients(1, p.t, 4, ((q.x * q.x) * (r.x * r.y)));
    lemma_tensor(p.t, 1, 1, 1, (q.x * q.y), (r.x * r.x));
    lemma_coefficients(1, p.t, 4, ((q.x * q.y) * (r.x * r.x)));
    lemma_tensor(p.t, 1, 1, 1, (q.x * q.y), (r.y * r.y));
    lemma_coefficients(1, p.t, 4, ((q.x * q.y) * (r.y * r.y)));
    lemma_tensor(p.t, 1, 1, 1, (q.y * q.y), (r.x * r.y));
    lemma_coefficients(1, p.t, 4, ((q.y * q.y) * (r.x * r.y)));
    assert((p.t * sum_of(q, r, d).t) == (((4 * (p.t * ((q.x * q.x) * (r.x * r.y))) + 4 * (p.t * ((q.x * q.y) * (r.x * r.x)))) + 4 * (p.t * ((q.x * q.y) * (r.y * r.y)))) + 4 * (p.t * ((q.y * q.y) * (r.x * r.y)))));
    let v101 = d;
    let v103 = 4 * (p.t * ((q.x * q.x) * (r.x * r.y)));
    let v105 = 4 * (p.t * ((q.x * q.y) * (r.x * r.x)));
    let v106 = v103 + v105;
    let v107 = 4 * (p.t * ((q.x * q.y) * (r.y * r.y)));
    let v108 = v106 + v107;
    let v109 = 4 * (p.t * ((q.y * q.y) * (r.x * r.y)));
    let v110 = v108 + v109;
    lemma_distribute(v101, v108, v109);
    lemma_distribute(v101, v106, v107);
    lemma_distribute(v101, v103, v105);
    lemma_pairs(d, 1, 1, (p.t * ((q.x * q.x) * (r.x * r.y))));
    lemma_coefficients(1, d, 4, (p.t * ((q.x * q.x) * (r.x * r.y))));
    lemma_pairs(d, 1, 1, (p.t * ((q.x * q.y) * (r.x * r.x))));
    lemma_coefficients(1, d, 4, (p.t * ((q.x * q.y) * (r.x * r.x))));
    lemma_pairs(d, 1, 1, (p.t * ((q.x * q.y) * (r.y * r.y))));
    lemma_coefficients(1, d, 4, (p.t * ((q.x * q.y) * (r.y * r.y))));
    lemma_pairs(d, 1, 1, (p.t * ((q.y * q.y) * (r.x * r.y))));
    lemma_coefficients(1, d, 4, (p.t * ((q.y * q.y) * (r.x * r.y))));
    assert((d * (p.t * sum_of(q, r, d).t)) == (((4 * (d * (p.t * ((q.x * q.x) * (r.x * r.y)))) + 4 * (d * (p.t * ((q.x * q.y) * (r.x * r.x))))) + 4 * (d * (p.t * ((q.x * q.y) * (r.y * r.y))))) + 4 * (d * (p.t * ((q.y * q.y) * (r.x * r.y))))));
    assert(form_g(p, sum_of(q, r, d), d) == ((((((0 - 4 * ((d * d) * (p.z * ((q.t * q.t) * (r.t * r.t))))) + 4 * (d * (p.t * ((q.x * q.x) * (r.x * r.y))))) + 4 * (d * (p.t * ((q.x * q.y) * (r.x * r.x))))) + 4 * (d * (p.t * ((q.x * q.y) * (r.y * r.y))))) + 4 * (d * (p.t * ((q.y * q.y) * (r.x * r.y))))) + 4 * (p.z * ((q.z * q.z) * (r.z * r.z)))));
}

/// The monomial X * Y * Y of the coordinates of a point, reduced.
proof fn lemma_point_1200(d: int, p: Lift)
    requires
        reducible(p, d),
    ensures
        congruent(((p.x * p.y) * p.y), ((p.y * p.z) * p.t)),
{
    assert(((p.x * p.y) * p.y) == p.y * (p.x * p.y)) by (nonlinear_arith);
    lemma_congruent_mul(p.y, p.y, p.x * p.y, p.z * p.t);
    assert(p.y * (p.z * p.t) == ((p.y * p.z) * p.t)) by (nonlinear_arith);
}

/// The monomial X * Z * Z of the coordinates of a point, reduced.
proof fn lemma_point_1020(d: int, p: Lift)
    requires
        reducible(p, d),
    ensures
        congruent(((p.x * p.z) * p.z), (((0 - (d * ((p.x * p.t) * p.t))) - ((p.x * p.x) * p.x)) + ((p.y * p.z) * p.t))),
{
    assert(((p.x * p.z) * p.z) == p.x * (p.z * p.z)) by (nonlinear_arith);
    lemma_congruent_mul(p.x, p.x, p.z * p.z, ((p.y * p.y - p.x * p.x) - d * (p.t * p.t)));
    lemma_spread_scaled(p.x, p.y * p.y, p.x * p.x, p.t * p.t, d);
    assert(p.x * (p.y * p.y) == ((p.x * p.y) * p.y)) by (nonlinear_arith);
    lemma_point_1200(d, p);
    assert(p.x * (p.x * p.x) == ((p.x * p.x) * p.x)) by (nonlinear_arith);
    assert(p.x * (p.t * p.t) == ((p.x * p.t) * p.t)) by (nonlinear_arith);
    lemma_congruent_sub(((p.x * p.y) * p.y), ((p.y * p.z) * p.t), ((p.x * p.x) * p.x), ((p.x * p.x) * p.x));
    lemma_congruent_mul(d, d, ((p.x * p.t) * p.t), ((p.x * p.t) * p.t));
    lemma_congruent_sub(((p.x * p.y) * p.y) - ((p.x * p.x) * p.x), ((p.y * p.z) * p.t) - ((p.x * p.x) * p.x), d * ((p.x * p.t) * p.t), d * ((p.x * p.t) * p.t));
    let v139 = d;
    let v141 = ((p.x * p.t) * p.t);
    lemma_pairs(d, 1, 1, ((p.x * p.t) * p.t));
    assert((d * ((p.x * p.t) * p.t)) == (d * ((p.x * p.t) * p.t)));
}

/// The monomial X * X * Y of the coordinates of a point, reduced.
proof fn lemma_point_2100(d: int, p: Lift)
    requires
        reducible(p, d),
    ensures
        congruent(((p.x * p.x) * p.y), ((p.x * p.z) * p.t)),
{
    assert(((p.x * p.x) * p.y) == p.x * (p.x * p.y)) by (nonlinear_arith);
    lemma_congruent_mul(p.x, p.x, p.x * p.y, p.z * p.t);
    assert(p.x * (p.z * p.t) == ((p.x * p.z) * p.t)) by (nonlinear_arith);
}

/// The monomial X * X * Y * T of the coordinates of a point, reduced.
proof fn lemma_point_2101(d: int, p: Lift)
    requires
        reducible(p, d),
    ensures
        congruent((((p.x * p.x) * p.y) * p.t), (((p.x * p.z) * p.t) * p.t)),
{
    assert((((p.x * p.x) * p.y) * p.t) == (p.x * p.t) * (p.x * p.y)) by (nonlinear_arith);
    lemma_congruent_mul((p.x * p.t), (p.x * p.t), p.x * p.y, p.z * p.t);
    assert((p.x * p.t) * (p.z * p.t) == (((p.x * p.z) * p.t) * p.t)) by (nonlinear_arith);
}

/// The monomial X * Y * Y * T of the coordinates of a point, reduced.
proof fn lemma_point_1201(d: int, p: Lift)
    requires
        reducible(p, d),
    ensures
        congruent((((p.x * p.y) * p.y) * p.t), (((p.y * p.z) * p.t) * p.t)),
{
    assert((((p.x * p.y) * p.y) * p.t) == (p.y * p.t) * (p.x * p.y)) by (nonlinear_arith);
    lemma_congruent_mul((p.y * p.t), (p.y * p.t), p.x * p.y, p.z * p.t);
    assert((p.y * p.t) * (p.z * p.t) == (((p.y * p.z) * p.t) * p.t)) by (nonlinear_arith);
}

/// The monomial Y * Z * Z of the coordinates of a point, reduced.
proof fn lemma_point_0120(d: int, p: Lift)
    requires
        reducible(p, d),
    ensures
        congruent(((p.y * p.z) * p.z), (((0 - (d * ((p.y * p.t) * p.t))) - ((p.x * p.z) * p.t)) + ((p.y * p.y) * p.y))),
{
    assert(((p.y * p.z) * p.z) == p.y * (p.z * p.z)) by (nonlinear_arith);
    lemma_congruent_mul(p.y, p.y, p.z * p.z, ((p.y * p.y - p.x * p.x) - d * (p.t * p.t)));
    lemma_spread_scaled(p.y, p.y * p.y, p.x * p.x, p.t * p.t, d);
    assert(p.y * (p.y * p.y) == ((p.y * p.y) * p.y)) by (nonlinear_arith);
    assert(p.y * (p.x * p.x) == ((p.x * p.x) * p.y)) by (nonlinear_arith);
    lemma_point_2100(d, p);
    assert(p.y * (p.t * p.t) == ((p.y * p.t) * p.t)) by (nonlinear_arith);
    lemma_congruent_sub(((p.y * p.y) * p.y), ((p.y * p.y) * p.y), ((p.x * p.x) * p.y), ((p.x * p.z) * p.t));
    lemma_congruent_mul(d, d, ((p.y * p.t) * p.t), ((p.y * p.t) * p.t));
    lemma_congruent_sub(((p.y * p.y) * p.y) - ((p.x * p.x) * p.y), ((p.y * p.y) * p.y) - ((p.x * p.z) * p.t), d * ((p.y * p.t) * p.t), d * ((p.y * p.t) * p.t));
    let v207 = d;
    let v209 = ((p.y * p.t) * p.t);
    lemma_pairs(d, 1, 1, ((p.y * p.t) * p.t));
    assert((d * ((p.y * p.t) * p.t)) == (d * ((p.y * p.t) * p.t)));
}

/// The monomial X * Z * Z * T of the coordinates of a point, reduced.
proof fn lemma_point_1021(d: int, p: Lift)
    requires
        reducible(p, d),
    ensures
        congruent((((p.x * p.z) * p.z) * p.t), (((0 - (d * (((p.x * p.t) * p.t) * p.t))) - (((p.x * p.x) * p.x) * p.t)) + (((p.y * p.z) * p.t) * p.t))),
{
    assert((((p.x * p.z) * p.z) * p.t) == (p.x * p.t) * (p.z * p.z)) by (nonlinear_arith);
    lemma_congruent_mul((p.x * p.t), (p.x * p.t), p.z * p.z, ((p.y * p.y - p.x * p.x) - d * (p.t * p.t)));
    lemma_spread_scaled((p.x * p.t), p.y * p.y, p.x * p.x, p.t * p.t, d);
    assert((p.x * p.t) * (p.y * p.y) == (((p.x * p.y) * p.y) * p.t)) by (nonlinear_arith);
    lemma_point_1201(d, p);
    assert((p.x * p.t) * (p.x * p.x) == (((p.x * p.x) * p.x) * p.t)) by (nonlinear_arith);
    assert((p.x * p.t) * (p.t * p.t) == (((p.x * p.t) * p.t) * p.t)) by (nonlinear_arith);
    lemma_congruent_sub((((p.x * p.y) * p.y) * p.t), (((p.y * p.z) * p.t) * p.t), (((p.x * p.x) * p.x) * p.t), (((p.x * p.x) * p.x) * p.t));
    lemma_congruent_mul(d, d, (((p.x * p.t) * p.t) * p.t), (((p.x * p.t) * p.t) * p.t));
    lemma_congruent_sub((((p.x * p.y) * p.y) * p.t) - (((p.x * p.x) * p.x) * p.t), (((p.y * p.z) * p.t) * p.t) - (((p.x * p.x) * p.x) * p.t), d * (((p.x * p.t) * p.t) * p.t), d * (((p.x * p.t) * p.t) * p.t));
    let v283 = d;
    let v285 = (((p.x * p.t) * p.t) * p.t);
    lemma_pairs(d, 1, 1, (((p.x * p.t) * p.t) * p.t));
    assert((d * (((p.x * p.t) * p.t) * p.t)) == (d * (((p.x * p.t) * p.t) * p.t)));
}

/// The monomial X * X * Y * Z of the coordinates of a point, reduced.
proof fn lemma_point_2110(d: int, p: Lift)
    requires
        reducible(p, d),
    ensures
        congruent((((p.x * p.x) * p.y) * p.z), (((0 - (d * (((p.x * p.t) * p.t) * p.t))) - (((p.x * p.x) * p.x) * p.t)) + (((p.y * p.z) * p.t) * p.t))),
{
    assert((((p.x * p.x) * p.y) * p.z) == (p.x * p.z) * (p.x * p.y)) by (nonlinear_arith);
    lemma_congruent_mul((p.x * p.z), (p.x * p.z), p.x * p.y, p.z * p.t);
    assert((p.x * p.z) * (p.z * p.t) == (((p.x * p.z) * p.z) * p.t)) by (nonlinear_arith);
    lemma_point_1021(d, p);
}

/// The monomial Y * Z * Z * T of the coordinates of a point, reduced.
proof fn lemma_point_0121(d: int, p: Lift)
    requires
        reducible(p, d),
    ensures
        congruent((((p.y * p.z) * p.z) * p.t), (((0 - (d * (((p.y * p.t) * p.t) * p.t))) - (((p.x * p.z) * p.t) * p.t)) + (((p.y * p.y) * p.y) * p.t))),
{
    assert((((p.y * p.z) * p.z) * p.t) == (p.y * p.t) * (p.z * p.z)) by (nonlinear_arith);
    lemma_congruent_mul((p.y * p.t), (p.y * p.t), p.z * p.z, ((p.y * p.y - p.x * p.x) - d * (p.t * p.t)));
    lemma_spread_scaled((p.y * p.t), p.y * p.y, p.x * p.x, p.t * p.t, d);
    assert((p.y * p.t) * (p.y * p.y) == (((p.y * p.y) * p.y) * p.t)) by (nonlinear_arith);
    assert((p.y * p.t) * (p.x * p.x) == (((p.x * p.x) * p.y) * p.t)) by (nonlinear_arith);
    lemma_point_2101(d, p);
    assert((p.y * p.t) * (p.t * p.t) == (((p.y * p.t) * p.t) * p.t)) by (nonlinear_arith);
    lemma_congruent_sub((((p.y * p.y) * p.y) * p.t), (((p.y * p.y) * p.y) * p.t), (((p.x * p.x) * p.y) * p.t), (((p.x * p.z) * p.t) * p.t));
    lemma_congruent_mul(d, d, (((p.y * p.t) * p.t) * p.t), (((p.y * p.t) * p.t) * p.t));
    lemma_congruent_sub((((p.y * p.y) * p.y) * p.t) - (((p.x * p.x) * p.y) * p.t), (((p.y * p.y) * p.y) * p.t) - (((p.x * p.z) * p.t) * p.t), d * (((p.y * p.t) * p.t) * p.t), d * (((p.y * p.t) * p.t) * p.t));
    let v335 = d;
    let v337 = (((p.y * p.t) * p.t) * p.t);
    lemma_pairs(d, 1, 1, (((p.y * p.t) * p.t) * p.t));
    assert((d * (((p.y * p.t) * p.t) * p.t)) == (d * (((p.y * p.t) * p.t) * p.t)));
}

/// The monomial X * Y * Y * Z of the coordinates of a point, reduced.
proof fn lemma_point_1210(d: int, p: Lift)
    requires
        reducible(p, d),
    ensures
        congruent((((p.x * p.y) * p.y) * p.z), (((0 - (d * (((p.y * p.t) * p.t) * p.t))) - (((p.x * p.z) * p.t) * p.t)) + (((p.y * p.y) * p.y) * p.t))),
{
    assert((((p.x * p.y) * p.y) * p.z) == (p.y * p.z) * (p.x * p.y)) by (nonlinear_arith);
    lemma_congruent_mul((p.y * p.z), (p.y * p.z), p.x * p.y, p.z * p.t);
    assert((p.y * p.z) * (p.z * p.t) == (((p.y * p.z) * p.z) * p.t)) by (nonlinear_arith);
    lemma_point_0121(d, p);
}

/// The monomial X * Z * Z * Z of the coordinates of a point, reduced.
proof fn lemma_point_1030(d: int, p: Lift)
    requires
        reducible(p, d),
    ensures
        congruent((((p.x * p.z) * p.z) * p.z), (((((0 - (d * (((p.x * p.z) * p.t) * p.t))) - (d * (((p.y * p.t) * p.t) * p.t))) - (((p.x * p.x) * p.x) * p.z)) - (((p.x * p.z) * p.t) * p.t)) + (((p.y * p.y) * p.y) * p.t))),
{
    assert((((p.x * p.z) * p.z) * p.z) == (p.x * p.z) * (p.z * p.z)) by (nonlinear_arith);
    lemma_congruent_mul((p.x * p.z), (p.x * p.z), p.z * p.z, ((p.y * p.y - p.x * p.x) - d * (p.t * p.t)));
    lemma_spread_scaled((p.x * p.z), p.y * p.y, p.x * p.x, p.t * p.t, d);
    assert((p.x * p.z) * (p.y * p.y) == (((p.x * p.y) * p.y) * p.z)) by (nonlinear_arith);
    lemma_point_1210(d, p);
    assert((p.x * p.z) * (p.x * p.x) == (((p.x * p.x) * p.x) * p.z)) by (nonlinear_arith);
    assert((p.x * p.z) * (p.t * p.t) == (((p.x * p.z) * p.t) * p.t)) by (nonlinear_arith);
    lemma_congruent_sub((((p.x * p.y) * p.y) * p.z), (((0 - (d * (((p.y * p.t) * p.t) * p.t))) - (((p.x * p.z) * p.t) * p.t)) + (((p.y * p.y) * p.y) * p.t)), (((p.x * p.x) * p.x) * p.z), (((p.x * p.x) * p.x) * p.z));
    lemma_congruent_mul(d, d, (((p.x * p.z) * p.t) * p.t), (((p.x * p.z) * p.t) * p.t));
    lemma_congruent_sub((((p.x * p.y) * p.y) * p.z) - (((p.x * p.x) * p.x) * p.z), (((0 - (d * (((p.y * p.t) * p.t) * p.t))) - (((p.x * p.z) * p.t) * p.t)) + (((p.y * p.y) * p.y) * p.t)) - (((p.x * p.x) * p.x) * p.z), d * (((p.x * p.z) * p.t) * p.t), d * (((p.x * p.z) * p.t) * p.t));
    let v715 = d;
    let v717 = (((p.x * p.z) * p.t) * p.t);
    lemma_pairs(d, 1, 1, (((p.x * p.z) * p.t) * p.t));
    assert((d * (((p.x * p.z) * p.t) * p.t)) == (d * (((p.x * p.z) * p.t) * p.t)));
}

/// The monomial Y * Z * Z * Z of the coordinates of a point, reduced.
proof fn lemma_point_0130(d: int, p: Lift)
    requires
        reducible(p, d),
    ensures
        congruent((((p.y * p.z) * p.z) * p.z), (((((d * (((p.x * p.t) * p.t) * p.t)) - (d * (((p.y * p.z) * p.t) * p.t))) + (((p.x * p.x) * p.x) * p.t)) + (((p.y * p.y) * p.y) * p.z)) - (((p.y * p.z) * p.t) * p.t))),
{
    assert((((p.y * p.z) * p.z) * p.z) == (p.y * p.z) * (p.z * p.z)) by (nonlinear_arith);
    lemma_congruent_mul((p.y * p.z), (p.y * p.z), p.z * p.z, ((p.y * p.y - p.x * p.x) - d * (p.t * p.t)));
    lemma_spread_scaled((p.y * p.z), p.y * p.y, p.x * p.x, p.t * p.t, d);
    assert((p.y * p.z) * (p.y * p.y) == (((p.y * p.y) * p.y) * p.z)) by (nonlinear_arith);
    assert((p.y * p.z) * (p.x * p.x) == (((p.x * p.x) * p.y) * p.z)) by (nonlinear_arith);
    lemma_point_2110(d, p);
    assert((p.y * p.z) * (p.t * p.t) == (((p.y * p.z) * p.t) * p.t)) by (nonlinear_arith);
    lemma_congruent_sub((((p.y * p.y) * p.y) * p.z), (((p.y * p.y) * p.y) * p.z), (((p.x * p.x) * p.y) * p.z), (((0 - (d * (((p.x * p.t) * p.t) * p.t))) - (((p.x * p.x) * p.x) * p.t)) + (((p.y * p.z) * p.t) * p.t)));
    lemma_congruent_mul(d, d, (((p.y * p.z) * p.t) * p.t), (((p.y * p.z) * p.t) * p.t));
    lemma_congruent_sub((((p.y * p.y) * p.y) * p.z) - (((p.x * p.x) * p.y) * p.z), (((p.y * p.y) * p.y) * p.z) - (((0 - (d * (((p.x * p.t) * p.t) * p.t))) - (((p.x * p.x) * p.x) * p.t)) + (((p.y * p.z) * p.t) * p.t)), d * (((p.y * p.z) * p.t) * p.t), d * (((p.y * p.z) * p.t) * p.t));
    let v771 = d;
    let v773 = (((p.y * p.z) * p.t) * p.t);
    lemma_pairs(d, 1, 1, (((p.y * p.z) * p.t) * p.t));
    assert((d * (((p.y * p.z) * p.t) * p.t)) == (d * (((p.y * p.z) * p.t) * p.t)));
}

/// A term of the cross product, reduced.
proof fn lemma_term_5(d: int, p: Lift, q: Lift, r: Lift)
    requires
        reducible(p, d),
        reducible(q, d),
        reducible(r, d),
    ensures
        congruent(((d * d) * (((p.x * p.z) * p.z) * ((((q.x * q.z) * q.t) * q.t) * ((r.x * r.t) * r.t)))), (((0 - (((d * d) * d) * (((p.x * p.t) * p.t) * ((((q.x * q.z) * q.t) * q.t) * ((r.x * r.t) * r.t))))) - ((d * d) * (((p.x * p.x) * p.x) * ((((q.x * q.z) * q.t) * q.t) * ((r.x * r.t) * r.t))))) + ((d * d) * (((p.y * p.z) * p.t) * ((((q.x * q.z) * q.t) * q.t) * ((r.x * r.t) * r.t)))))),
{
    lemma_point_1020(d, p);
    lemma_congruent_mul((((q.x * q.z) * q.t) * q.t), (((q.x * q.z) * q.t) * q.t), ((r.x * r.t) * r.t), ((r.x * r.t) * r.t));
    lemma_congruent_mul(((p.x * p.z) * p.z), (((0 - (d * ((p.x * p.t) * p.t))) - ((p.x * p.x) * p.x)) + ((p.y * p.z) * p.t)), ((((q.x * q.z) * q.t) * q.t) * ((r.x * r.t) * r.t)), ((((q.x * q.z) * q.t) * q.t) * ((r.x * r.t) * r.t)));
    let v143 = (d * ((p.x * p.t) * p.t));
    let v144 = 0 - v143;
    let v145 = ((p.x * p.x) * p.x);
    let v146 = v144 - v145;
    let v147 = ((p.y * p.z) * p.t);
    let v148 = v146 + v147;
    let v149 = ((((q.x * q.z) * q.t) * q.t) * ((r.x * r.t) * r.t));
    lemma_distribute(v149, v146, v147);
    lemma_distribute_sub(v149, v144, v145);
    lemma_distribute_sub(v149, 0, v143);
    lemma_tensor(((p.x * p.t) * p.t), 1, 1, 1, (((q.x * q.z) * q.t) * q.t), ((r.x * r.t) * r.t));
    lemma_pairs(d, ((p.x * p.t) * p.t), 1, ((((q.x * q.z) * q.t) * q.t) * ((r.x * r.t) * r.t)));
    lemma_tensor(((p.x * p.x) * p.x), 1, 1, 1, (((q.x * q.z) * q.t) * q.t), ((r.x * r.t) * r.t));
    lemma_tensor(((p.y * p.z) * p.t), 1, 1, 1, (((q.x * q.z) * q.t) * q.t), ((r.x * r.t) * r.t));
    assert(((((0 - (d * ((p.x * p.t) * p.t))) - ((p.x * p.x) * p.x)) + ((p.y * p.z) * p.t)) * ((((q.x * q.z) * q.t) * q.t) * ((r.x * r.t) * r.t))) == (((0 - (d * (((p.x * p.t) * p.t) * ((((q.x * q.z) * q.t) * q.t) * ((r.x * r.t) * r.t))))) - (((p.x * p.x) * p.x) * ((((q.x * q.z) * q.t) * q.t) * ((r.x * r.t) * r.t)))) + (((p.y * p.z) * p.t) * ((((q.x * q.z) * q.t) * q.t) * ((r.x * r.t) * r.t)))));
    lemma_congruent_mul((d * d), (d * d), (((p.x * p.z) * p.z) * ((((q.x * q.z) * q.t) * q.t) * ((r.x * r.t) * r.t))), ((((0 - (d * ((p.x * p.t) * p.t))) - ((p.x * p.x) * p.x)) + ((p.y * p.z) * p.t)) * ((((q.x * q.z) * q.t) * q.t) * ((r.x * r.t) * r.t))));
    let v151 = (d * d);
    let v153 = (d * (((p.x * p.t) * p.t) * ((((q.x * q.z) * q.t) * q.t) * ((r.x * r.t) * r.t))));
    let v154 = 0 - v153;
    let v155 = (((p.x * p.x) * p.x) * ((((q.x * q.z) * q.t) * q.t) * ((r.x * r.t) * r.t)));
    let v156 = v154 - v155;
    let v157 = (((p.y * p.z) * p.t) * ((((q.x * q.z) * q.t) * q.t) * ((r.x * r.t) * r.t)));
    let v158 = v156 + v157;
    lemma_distribute(v151, v156, v157);
    lemma_distribute_sub(v151, v154, v155);
    lemma_distribute_sub(v151, 0, v153);
    lemma_pairs((d * d), 1, d, (((p.x * p.t) * p.t) * ((((q.x * q.z) * q.t) * q.t) * ((r.x * r.t) * r.t))));
    lemma_pairs((d * d), 1, 1, (((p.x * p.x) * p.x) * ((((q.x * q.z) * q.t) * q.t) * ((r.x * r.t) * r.t))));
    lemma_pairs((d * d), 1, 1, (((p.y * p.z) * p.t) * ((((q.x * q.z) * q.t) * q.t) * ((r.x * r.t) * r.t))));
    assert(((d * d) * ((((0 - (d * ((p.x * p.t) * p.t))) - ((p.x * p.x) * p.x)) + ((p.y * p.z) * p.t)) * ((((q.x * q.z) * q.t) * q.t) * ((r.x * r.t) * r.t)))) == (((0 - (((d * d) * d) * (((p.x * p.t) * p.t) * ((((q.x * q.z) * q.t) * q.t) * ((r.x * r.t) * r.t))))) - ((d * d) * (((p.x * p.x) * p.x) * ((((q.x * q.z) * q.t) * q.t) * ((r.x * r.t) * r.t))))) + ((d * d) * (((p.y * p.z) * p.t) * ((((q.x * q.z) * q.t) * q.t) * ((r.x * r.t) * r.t))))));
}

/// A term of the cross product, reduced.
proof fn lemma_term_6(d: int, p: Lift, q: Lift, r: Lift)
    requires
        reducible(p, d),
        reducible(q, d),
        reducible(r, d),
    ensures
        congruent(((d * d) * (((p.x * p.z) * p.z) * ((((q.y * q.z) * q.t) * q.t) * ((r.y * r.t) * r.t)))), (((0 - (((d * d) * d) * (((p.x * p.t) * p.t) * ((((q.y * q.z) * q.t) * q.t) * ((r.y * r.t) * r.t))))) - ((d * d) * (((p.x * p.x) * p.x) * ((((q.y * q.z) * q.t) * q.t) * ((r.y * r.t) * r.t))))) + ((d * d) * (((p.y * p.z) * p.t) * ((((q.y * q.z) * q.t) * q.t) * ((r.y * r.t) * r.t)))))),
{
    lemma_point_1020(d, p);
    lemma_congruent_mul((((q.y * q.z) * q.t) * q.t), (((q.y * q.z) * q.t) * q.t), ((r.y * r.t) * r.t), ((r.y * r.t) * r.t));
    lemma_congruent_mul(((p.x * p.z) * p.z), (((0 - (d * ((p.x * p.t) * p.t))) - ((p.x * p.x) * p.x)) + ((p.y * p.z) * p.t)), ((((q.y * q.z) * q.t) * q.t) * ((r.y * r.t) * r.t)), ((((q.y * q.z) * q.t) * q.t) * ((r.y * r.t) * r.t)));
    let v159 = (d * ((p.x * p.t) * p.t));
    let v160 = 0 - v159;
    let v161 = ((p.x * p.x) * p.x);
    let v162 = v160 - v161;
    let v163 = ((p.y * p.z) * p.t);
    let v164 = v162 + v163;
    let v165 = ((((q.y * q.z) * q.t) * q.t) * ((r.y * r.t) * r.t));
    lemma_distribute(v165, v162, v163);
    lemma_distribute_sub(v165, v160, v161);
    lemma_distribute_sub(v165, 0, v159);
    lemma_tensor(((p.x * p.t) * p.t), 1, 1, 1, (((q.y * q.z) * q.t) * q.t), ((r.y * r.t) * r.t));
    lemma_pairs(d, ((p.x * p.t) * p.t), 1, ((((q.y * q.z) * q.t) * q.t) * ((r.y * r.t) * r.t)));
    lemma_tensor(((p.x * p.x) * p.x), 1, 1, 1, (((q.y * q.z) * q.t) * q.t), ((r.y * r.t) * r.t));
    lemma_tensor(((p.y * p.z) * p.t), 1, 1, 1, (((q.y * q.z) * q.t) * q.t), ((r.y * r.t) * r.t));
    assert(((((0 - (d * ((p.x * p.t) * p.t))) - ((p.x * p.x) * p.x)) + ((p.y * p.z) * p.t)) * ((((q.y * q.z) * q.t) * q.t) * ((r.y * r.t) * r.t))) == (((0 - (d * (((p.x * p.t) * p.t) * ((((q.y * q.z) * q.t) * q.t) * ((r.y * r.t) * r.t))))) - (((p.x * p.x) * p.x) * ((((q.y * q.z) * q.t) * q.t) * ((r.y * r.t) * r.t)))) + (((p.y * p.z) * p.t) * ((((q.y * q.z) * q.t) * q.t) * ((r.y * r.t) * r.t)))));
    lemma_congruent_mul((d * d), (d * d), (((p.x * p.z) * p.z) * ((((q.y * q.z) * q.t) * q.t) * ((r.y * r.t) * r.t))), ((((0 - (d * ((p.x * p.t) * p.t))) - ((p.x * p.x) * p.x)) + ((p.y * p.z) * p.t)) * ((((q.y * q.z) * q.t) * q.t) * ((r.y * r.t) * r.t))));
    let v167 = (d * d);
    let v169 = (d * (((p.x * p.t) * p.t) * ((((q.y * q.z) * q.t) * q.t) * ((r.y * r.t) * r.t))));
    let v170 = 0 - v169;
    let v171 = (((p.x * p.x) * p.x) * ((((q.y * q.z) * q.t) * q.t) * ((r.y * r.t) * r.t)));
    let v172 = v170 - v171;
    let v173 = (((p.y * p.z) * p.t) * ((((q.y * q.z) * q.t) * q.t) * ((r.y * r.t) * r.t)));
    let v174 = v172 + v173;
    lemma_distribute(v167, v172, v173);
    lemma_distribute_sub(v167, v170, v171);
    lemma_distribute_sub(v167, 0, v169);
    lemma_pairs((d * d), 1, d, (((p.x * p.t) * p.t) * ((((q.y * q.z) * q.t) * q.t) * ((r.y * r.t) * r.t))));
    lemma_pairs((d * d), 1, 1, (((p.x * p.x) * p.x) * ((((q.y * q.z) * q.t) * q.t) * ((r.y * r.t) * r.t))));
    lemma_pairs((d * d), 1, 1, (((p.y * p.z) * p.t) * ((((q.y * q.z) * q.t) * q.t) * ((r.y * r.t) * r.t))));
    assert(((d * d) * ((((0 - (d * ((p.x * p.t) * p.t))) - ((p.x * p.x) * p.x)) + ((p.y * p.z) * p.t)) * ((((q.y * q.z) * q.t) * q.t) * ((r.y * r.t) * r.t)))) == (((0 - (((d * d) * d) * (((p.x * p.t) * p.t) * ((((q.y * q.z) * q.t) * q.t) * ((r.y * r.t) * r.t))))) - ((d * d) * (((p.x * p.x) * p.x) * ((((q.y * q.z) * q.t) * q.t) * ((r.y * r.t) * r.t))))) + ((d * d) * (((p.y * p.z) * p.t) * ((((q.y * q.z) * q.t) * q.t) * ((r.y * r.t) * r.t))))));
}

/// A term of the cross product, reduced.
proof fn lemma_term_7(d: int, p: Lift, q: Lift, r: Lift)
    requires
        reducible(p, d),
        reducible(q, d),
        reducible(r, d),
    ensures
        congruent(((d * d) * (((p.x * p.t) * p.t) * ((((q.x * q.x) * q.x) * q.t) * ((r.x * r.x) * r.y)))), ((d * d) * (((p.x * p.t) * p.t) * ((((q.x * q.x) * q.x) * q.t) * ((r.x * r.z) * r.t))))),
{
    lemma_point_2100(d, r);
    lemma_congruent_mul((((q.x * q.x) * q.x) * q.t), (((q.x * q.x) * q.x) * q.t), ((r.x * r.x) * r.y), ((r.x * r.z) * r.t));
    lemma_congruent_mul(((p.x * p.t) * p.t), ((p.x * p.t) * p.t), ((((q.x * q.x) * q.x) * q.t) * ((r.x * r.x) * r.y)), ((((q.x * q.x) * q.x) * q.t) * ((r.x * r.z) * r.t)));
    let v175 = ((p.x * p.t) * p.t);
    let v177 = ((((q.x * q.x) * q.x) * q.t) * ((r.x * r.z) * r.t));
    lemma_tensor(((p.x * p.t) * p.t), 1, 1, 1, (((q.x * q.x) * q.x) * q.t), ((r.x * r.z) * r.t));
    assert((((p.x * p.t) * p.t) * ((((q.x * q.x) * q.x) * q.t) * ((r.x * r.z) * r.t))) == (((p.x * p.t) * p.t) * ((((q.x * q.x) * q.x) * q.t) * ((r.x * r.z) * r.t))));
    lemma_congruent_mul((d * d), (d * d), (((p.x * p.t) * p.t) * ((((q.x * q.x) * q.x) * q.t) * ((r.x * r.x) * r.y))), (((p.x * p.t) * p.t) * ((((q.x * q.x) * q.x) * q.t) * ((r.x * r.z) * r.t))));
    let v179 = (d * d);
    let v181 = (((p.x * p.t) * p.t) * ((((q.x * q.x) * q.x) * q.t) * ((r.x * r.z) * r.t)));
    lemma_pairs((d * d), 1, 1, (((p.x * p.t) * p.t) * ((((q.x * q.x) * q.x) * q.t) * ((r.x * r.z) * r.t))));
    assert(((d * d) * (((p.x * p.t) * p.t) * ((((q.x * q.x) * q.x) * q.t) * ((r.x * r.z) * r.t)))) == ((d * d) * (((p.x * p.t) * p.t) * ((((q.x * q.x) * q.x) * q.t) * ((r.x * r.z) * r.t)))));
}

/// A term of the cross product, reduced.
proof fn lemma_term_8(d: int, p: Lift, q: Lift, r: Lift)
    requires
        reducible(p, d),
        reducible(q, d),
        reducible(r, d),
    ensures
        congruent(((d * d) * (((p.x * p.t) * p.t) * ((((q.x * q.x) * q.y) * q.t) * ((r.x * r.x) * r.x)))), ((d * d) * (((p.x * p.t) * p.t) * ((((q.x * q.z) * q.t) * q.t) * ((r.x * r.x) * r.x))))),
{
    lemma_point_2101(d, q);
    lemma_congruent_mul((((q.x * q.x) * q.y) * q.t), (((q.x * q.z) * q.t) * q.t), ((r.x * r.x) * r.x), ((r.x * r.x) * r.x));
    lemma_congruent_mul(((p.x * p.t) * p.t), ((p.x * p.t) * p.t), ((((q.x * q.x) * q.y) * q.t) * ((r.x * r.x) * r.x)), ((((q.x * q.z) * q.t) * q.t) * ((r.x * r.x) * r.x)));
    let v183 = ((p.x * p.t) * p.t);
    let v185 = ((((q.x * q.z) * q.t) * q.t) * ((r.x * r.x) * r.x));
    lemma_tensor(((p.x * p.t) * p.t), 1, 1, 1, (((q.x * q.z) * q.t) * q.t), ((r.x * r.x) * r.x));
    assert((((p.x * p.t) * p.t) * ((((q.x * q.z) * q.t) * q.t) * ((r.x * r.x) * r.x))) == (((p.x * p.t) * p.t) * ((((q.x * q.z) * q.t) * q.t) * ((r.x * r.x) * r.x))));
    lemma_congruent_mul((d * d), (d * d), (((p.x * p.t) * p.t) * ((((q.x * q.x) * q.y) * q.t) * ((r.x * r.x) * r.x))), (((p.x * p.t) * p.t) * ((((q.x * q.z) * q.t) * q.t) * ((r.x * r.x) * r.x))));
    let v187 = (d * d);
    let v189 = (((p.x * p.t) * p.t) * ((((q.x * q.z) * q.t) * q.t) * ((r.x * r.x) * r.x)));
    lemma_pairs((d * d), 1, 1, (((p.x * p.t) * p.t) * ((((q.x * q.z) * q.t) * q.t) * ((r.x * r.x) * r.x))));
    assert(((d * d) * (((p.x * p.t) * p.t) * ((((q.x * q.z) * q.t) * q.t) * ((r.x * r.x) * r.x)))) == ((d * d) * (((p.x * p.t) * p.t) * ((((q.x * q.z) * q.t) * q.t) * ((r.x * r.x) * r.x)))));
}

/// A term of the cross product, reduced.
proof fn lemma_term_9(d: int, p: Lift, q: Lift, r: Lift)
    requires
        reducible(p, d),
        reducible(q, d),
        reducible(r, d),
    ensures
        congruent(((d * d) * (((p.x * p.t) * p.t) * ((((q.x * q.y) * q.y) * q.t) * ((r.y * r.y) * r.y)))), ((d * d) * (((p.x * p.t) * p.t) * ((((q.y * q.z) * q.t) * q.t) * ((r.y * r.y) * r.y))))),
{
    lemma_point_1201(d, q);
    lemma_congruent_mul((((q.x * q.y) * q.y) * q.t), (((q.y * q.z) * q.t) * q.t), ((r.y * r.y) * r.y), ((r.y * r.y) * r.y));
    lemma_congruent_mul(((p.x * p.t) * p.t), ((p.x * p.t) * p.t), ((((q.x * q.y) * q.y) * q.t) * ((r.y * r.y) * r.y)), ((((q.y * q.z) * q.t) * q.t) * ((r.y * r.y) * r.y)));
    let v191 = ((p.x * p.t) * p.t);
    let v193 = ((((q.y * q.z) * q.t) * q.t) * ((r.y * r.y) * r.y));
    lemma_tensor(((p.x * p.t) * p.t), 1, 1, 1, (((q.y * q.z) * q.t) * q.t), ((r.y * r.y) * r.y));
    assert((((p.x * p.t) * p.t) * ((((q.y * q.z) * q.t) * q.t) * ((r.y * r.y) * r.y))) == (((p.x * p.t) * p.t) * ((((q.y * q.z) * q.t) * q.t) * ((r.y * r.y) * r.y))));
    lemma_congruent_mul((d * d), (d * d), (((p.x * p.t) * p.t) * ((((q.x * q.y) * q.y) * q.t) * ((r.y * r.y) * r.y))), (((p.x * p.t) * p.t) * ((((q.y * q.z) * q.t) * q.t) * ((r.y * r.y) * r.y))));
    let v195 = (d * d);
    let v197 = (((p.x * p.t) * p.t) * ((((q.y * q.z) * q.t) * q.t) * ((r.y * r.y) * r.y)));
    lemma_pairs((d * d), 1, 1, (((p.x * p.t) * p.t) * ((((q.y * q.z) * q.t) * q.t) * ((r.y * r.y) * r.y))));
    assert(((d * d) * (((p.x * p.t) * p.t) * ((((q.y * q.z) * q.t) * q.t) * ((r.y * r.y) * r.y)))) == ((d * d) * (((p.x * p.t) * p.t) * ((((q.y * q.z) * q.t) * q.t) * ((r.y * r.y) * r.y)))));
}

/// A term of the cross product, reduced.
proof fn lemma_term_10(d: int, p: Lift, q: Lift, r: Lift)
    requires
        reducible(p, d),
        reducible(q, d),
        reducible(r, d),
    ensures
        congruent(((d * d) * (((p.x * p.t) * p.t) * ((((q.y * q.y) * q.y) * q.t) * ((r.x * r.y) * r.y)))), ((d * d) * (((p.x * p.t) * p.t) * ((((q.y * q.y) * q.y) * q.t) * ((r.y * r.z) * r.t))))),
{
    lemma_point_1200(d, r);
    lemma_congruent_mul((((q.y * q.y) * q.y) * q.t), (((q.y * q.y) * q.y) * q.t), ((r.x * r.y) * r.y), ((r.y * r.z) * r.t));
    lemma_congruent_mul(((p.x * p.t) * p.t), ((p.x * p.t) * p.t), ((((q.y * q.y) * q.y) * q.t) * ((r.x * r.y) * r.y)), ((((q.y * q.y) * q.y) * q.t) * ((r.y * r.z) * r.t)));
    let v199 = ((p.x * p.t) * p.t);
    let v201 = ((((q.y * q.y) * q.y) * q.t) * ((r.y * r.z) * r.t));
    lemma_tensor(((p.x * p.t) * p.t), 1, 1, 1, (((q.y * q.y) * q.y) * q.t), ((r.y * r.z) * r.t));
    assert((((p.x * p.t) * p.t) * ((((q.y * q.y) * q.y) * q.t) * ((r.y * r.z) * r.t))) == (((p.x * p.t) * p.t) * ((((q.y * q.y) * q.y) * q.t) * ((r.y * r.z) * r.t))));
    lemma_congruent_mul((d * d), (d * d), (((p.x * p.t) * p.t) * ((((q.y * q.y) * q.y) * q.t) * ((r.x * r.y) * r.y))), (((p.x * p.t) * p.t) * ((((q.y * q.y) * q.y) * q.t) * ((r.y * r.z) * r.t))));
    let v203 = (d * d);
    let v205 = (((p.x * p.t) * p.t) * ((((q.y * q.y) * q.y) * q.t) * ((r.y * r.z) * r.t)));
    lemma_pairs((d * d), 1, 1, (((p.x * p.t) * p.t) * ((((q.y * q.y) * q.y) * q.t) * ((r.y * r.z) * r.t))));
    assert(((d * d) * (((p.x * p.t) * p.t) * ((((q.y * q.y) * q.y) * q.t) * ((r.y * r.z) * r.t)))) == ((d * d) * (((p.x * p.t) * p.t) * ((((q.y * q.y) * q.y) * q.t) * ((r.y * r.z) * r.t)))));
}

/// A term of the cross product, reduced.
proof fn lemma_term_11(d: int, p: Lift, q: Lift, r: Lift)
    requires
        reducible(p, d),
        reducible(q, d),
        reducible(r, d),
    ensures
        congruent(((d * d) * (((p.y * p.z) * p.z) * ((((q.x * q.z) * q.t) * q.t) * ((r.y * r.t) * r.t)))), (((0 - (((d * d) * d) * (((p.y * p.t) * p.t) * ((((q.x * q.z) * q.t) * q.t) * ((r.y * r.t) * r.t))))) - ((d * d) * (((p.x * p.z) * p.t) * ((((q.x * q.z) * q.t) * q.t) * ((r.y * r.t) * r.t))))) + ((d * d) * (((p.y * p.y) * p.y) * ((((q.x * q.z) * q.t) * q.t) * ((r.y * r.t) * r.t)))))),
{
    lemma_point_0120(d, p);
    lemma_congruent_mul((((q.x * q.z) * q.t) * q.t), (((q.x * q.z) * q.t) * q.t), ((r.y * r.t) * r.t), ((r.y * r.t) * r.t));
    lemma_congruent_mul(((p.y * p.z) * p.z), (((0 - (d * ((p.y * p.t) * p.t))) - ((p.x * p.z) * p.t)) + ((p.y * p.y) * p.y)), ((((q.x * q.z) * q.t) * q.t) * ((r.y * r.t) * r.t)), ((((q.x * q.z) * q.t) * q.t) * ((r.y * r.t) * r.t)));
    let v211 = (d * ((p.y * p.t) * p.t));
    let v212 = 0 - v211;
    let v213 = ((p.x * p.z) * p.t);
    let v214 = v212 - v213;
    let v215 = ((p.y * p.y) * p.y);
    let v216 = v214 + v215;
    let v217 = ((((q.x * q.z) * q.t) * q.t) * ((r.y * r.t) * r.t));
    lemma_distribute(v217, v214, v215);
    lemma_distribute_sub(v217, v212, v213);
    lemma_distribute_sub(v217, 0, v211);
    lemma_tensor(((p.y * p.t) * p.t), 1, 1, 1, (((q.x * q.z) * q.t) * q.t), ((r.y * r.t) * r.t));
    lemma_pairs(d, ((p.y * p.t) * p.t), 1, ((((q.x * q.z) * q.t) * q.t) * ((r.y * r.t) * r.t)));
    lemma_tensor(((p.x * p.z) * p.t), 1, 1, 1, (((q.x * q.z) * q.t) * q.t), ((r.y * r.t) * r.t));
    lemma_tensor(((p.y * p.y) * p.y), 1, 1, 1, (((q.x * q.z) * q.t) * q.t), ((r.y * r.t) * r.t));
    assert(((((0 - (d * ((p.y * p.t) * p.t))) - ((p.x * p.z) * p.t)) + ((p.y * p.y) * p.y)) * ((((q.x * q.z) * q.t) * q.t) * ((r.y * r.t) * r.t))) == (((0 - (d * (((p.y * p.t) * p.t) * ((((q.x * q.z) * q.t) * q.t) * ((r.y * r.t) * r.t))))) - (((p.x * p.z) * p.t) * ((((q.x * q.z) * q.t) * q.t) * ((r.y * r.t) * r.t)))) + (((p.y * p.y) * p.y) * ((((q.x * q.z) * q.t) * q.t) * ((r.y * r.t) * r.t)))));
    lemma_congruent_mul((d * d), (d * d), (((p.y * p.z) * p.z) * ((((q.x * q.z) * q.t) * q.t) * ((r.y * r.t) * r.t))), ((((0 - (d * ((p.y * p.t) * p.t))) - ((p.x * p.z) * p.t)) + ((p.y * p.y) * p.y)) * ((((q.x * q.z) * q.t) * q.t) * ((r.y * r.t) * r.t))));
    let v219 = (d * d);
    let v221 = (d * (((p.y * p.t) * p.t) * ((((q.x * q.z) * q.t) * q.t) * ((r.y * r.t) * r.t))));
    let v222 = 0 - v221;
    let v223 = (((p.x * p.z) * p.t) * ((((q.x * q.z) * q.t) * q.t) * ((r.y * r.t) * r.t)));
    let v224 = v222 - v223;
    let v225 = (((p.y * p.y) * p.y) * ((((q.x * q.z) * q.t) * q.t) * ((r.y * r.t) * r.t)));
    let v226 = v224 + v225;
    lemma_distribute(v219, v224, v225);
    lemma_distribute_sub(v219, v222, v223);
    lemma_distribute_sub(v219, 0, v221);
    lemma_pairs((d * d), 1, d, (((p.y * p.t) * p.t) * ((((q.x * q.z) * q.t) * q.t) * ((r.y * r.t) * r.t))));
    lemma_pairs((d * d), 1, 1, (((p.x * p.z) * p.t) * ((((q.x * q.z) * q.t) * q.t) * ((r.y * r.t) * r.t))));
    lemma_pairs((d * d), 1, 1, (((p.y * p.y) * p.y) * ((((q.x * q.z) * q.t) * q.t) * ((r.y * r.t) * r.t))));
    assert(((d * d) * ((((0 - (d * ((p.y * p.t) * p.t))) - ((p.x * p.z) * p.t)) + ((p.y * p.y) * p.y)) * ((((q.x * q.z) * q.t) * q.t) * ((r.y * r.t) * r.t)))) == (((0 - (((d * d) * d) * (((p.y * p.t) * p.t) * ((((q.x * q.z) * q.t) * q.t) * ((r.y * r.t) * r.t))))) - ((d * d) * (((p.x * p.z) * p.t) * ((((q.x * q.z) * q.t) * q.t) * ((r.y * r.t) * r.t))))) + ((d * d) * (((p.y * p.y) * p.y) * ((((q.x * q.z) * q.t) * q.t) * ((r.y * r.t) * r.t))))));
}

/// A term of the cross product, reduced.
proof fn lemma_term_12(d: int, p: Lift, q: Lift, r: Lift)
    requires
        reducible(p, d),
        reducible(q, d),
        reducible(r, d),
    ensures
        congruent(((d * d) * (((p.y * p.z) * p.z) * ((((q.y * q.z) * q.t) * q.t) * ((r.x * r.t) * r.t)))), (((0 - (((d * d) * d) * (((p.y * p.t) * p.t) * ((((q.y * q.z) * q.t) * q.t) * ((r.x * r.t) * r.t))))) - ((d * d) * (((p.x * p.z) * p.t) * ((((q.y * q.z) * q.t) * q.t) * ((r.x * r.t) * r.t))))) + ((d * d) * (((p.y * p.y) * p.y) * ((((q.y * q.z) * q.t) * q.t) * ((r.x * r.t) * r.t)))))),
{
    lemma_point_0120(d, p);
    lemma_congruent_mul((((q.y * q.z) * q.t) * q.t), (((q.y * q.z) * q.t) * q.t), ((r.x * r.t) * r.t), ((r.x * r.t) * r.t));
    lemma_congruent_mul(((p.y * p.z) * p.z), (((0 - (d * ((p.y * p.t) * p.t))) - ((p.x * p.z) * p.t)) + ((p.y * p.y) * p.y)), ((((q.y * q.z) * q.t) * q.t) * ((r.x * r.t) * r.t)), ((((q.y * q.z) * q.t) * q.t) * ((r.x * r.t) * r.t)));
    let v227 = (d * ((p.y * p.t) * p.t));
    let v228 = 0 - v227;
    let v229 = ((p.x * p.z) * p.t);
    let v230 = v228 - v229;
    let v231 = ((p.y * p.y) * p.y);
    let v232 = v230 + v231;
    let v233 = ((((q.y * q.z) * q.t) * q.t) * ((r.x * r.t) * r.t));
    lemma_distribute(v233, v230, v231);
    lemma_distribute_sub(v233, v228, v229);
    lemma_distribute_sub(v233, 0, v227);
    lemma_tensor(((p.y * p.t) * p.t), 1, 1, 1, (((q.y * q.z) * q.t) * q.t), ((r.x * r.t) * r.t));
    lemma_pairs(d, ((p.y * p.t) * p.t), 1, ((((q.y * q.z) * q.t) * q.t) * ((r.x * r.t) * r.t)));
    lemma_tensor(((p.x * p.z) * p.t), 1, 1, 1, (((q.y * q.z) * q.t) * q.t), ((r.x * r.t) * r.t));
    lemma_tensor(((p.y * p.y) * p.y), 1, 1, 1, (((q.y * q.z) * q.t) * q.t), ((r.x * r.t) * r.t));
    assert(((((0 - (d * ((p.y * p.t) * p.t))) - ((p.x * p.z) * p.t)) + ((p.y * p.y) * p.y)) * ((((q.y * q.z) * q.t) * q.t) * ((r.x * r.t) * r.t))) == (((0 - (d * (((p.y * p.t) * p.t) * ((((q.y * q.z) * q.t) * q.t) * ((r.x * r.t) * r.t))))) - (((p.x * p.z) * p.t) * ((((q.y * q.z) * q.t) * q.t) * ((r.x * r.t) * r.t)))) + (((p.y * p.y) * p.y) * ((((q.y * q.z) * q.t) * q.t) * ((r.x * r.t) * r.t)))));
    lemma_congruent_mul((d * d), (d * d), (((p.y * p.z) * p.z) * ((((q.y * q.z) * q.t) * q.t) * ((r.x * r.t) * r.t))), ((((0 - (d * ((p.y * p.t) * p.t))) - ((p.x * p.z) * p.t)) + ((p.y * p.y) * p.y)) * ((((q.y * q.z) * q.t) * q.t) * ((r.x * r.t) * r.t))));
    let v235 = (d * d);
    let v237 = (d * (((p.y * p.t) * p.t) * ((((q.y * q.z) * q.t) * q.t) * ((r.x * r.t) * r.t))));
    let v238 = 0 - v237;
    let v239 = (((p.x * p.z) * p.t) * ((((q.y * q.z) * q.t) * q.t) * ((r.x * r.t) * r.t)));
    let v240 = v238 - v239;
    let v241 = (((p.y * p.y) * p.y) * ((((q.y * q.z) * q.t) * q.t) * ((r.x * r.t) * r.t)));
    let v242 = v240 + v241;
    lemma_distribute(v235, v240, v241);
    lemma_distribute_sub(v235, v238, v239);
    lemma_distribute_sub(v235, 0, v237);
    lemma_pairs((d * d), 1, d, (((p.y * p.t) * p.t) * ((((q.y * q.z) * q.t) * q.t) * ((r.x * r.t) * r.t))));
    lemma_pairs((d * d), 1, 1, (((p.x * p.z) * p.t) * ((((q.y * q.z) * q.t) * q.t) * ((r.x * r.t) * r.t))));
    lemma_pairs((d * d), 1, 1, (((p.y * p.y) * p.y) * ((((q.y * q.z) * q.t) * q.t) * ((r.x * r.t) * r.t))));
    assert(((d * d) * ((((0 - (d * ((p.y * p.t) * p.t))) - ((p.x * p.z) * p.t)) + ((p.y * p.y) * p.y)) * ((((q.y * q.z) * q.t) * q.t) * ((r.x * r.t) * r.t)))) == (((0 - (((d * d) * d) * (((p.y * p.t) * p.t) * ((((q.y * q.z) * q.t) * q.t) * ((r.x * r.t) * r.t))))) - ((d * d) * (((p.x * p.z) * p.t) * ((((q.y * q.z) * q.t) * q.t) * ((r.x * r.t) * r.t))))) + ((d * d) * (((p.y * p.y) * p.y) * ((((q.y * q.z) * q.t) * q.t) * ((r.x * r.t) * r.t))))));
}

/// A term of the cross product, reduced.
proof fn lemma_term_13(d: int, p: Lift, q: Lift, r: Lift)
    requires
        reducible(p, d),
        reducible(q, d),
        reducible(r, d),
    ensures
        congruent(((d * d) * (((p.y * p.t) * p.t) * ((((q.x * q.x) * q.x) * q.t) * ((r.x * r.y) * r.y)))), ((d * d) * (((p.y * p.t) * p.t) * ((((q.x * q.x) * q.x) * q.t) * ((r.y * r.z) * r.t))))),
{
    lemma_point_1200(d, r);
    lemma_congruent_mul((((q.x * q.x) * q.x) * q.t), (((q.x * q.x) * q.x) * q.t), ((r.x * r.y) * r.y), ((r.y * r.z) * r.t));
    lemma_congruent_mul(((p.y * p.t) * p.t), ((p.y * p.t) * p.t), ((((q.x * q.x) * q.x) * q.t) * ((r.x * r.y) * r.y)), ((((q.x * q.x) * q.x) * q.t) * ((r.y * r.z) * r.t)));
    let v243 = ((p.y * p.t) * p.t);
    let v245 = ((((q.x * q.x) * q.x) * q.t) * ((r.y * r.z) * r.t));
    lemma_tensor(((p.y * p.t) * p.t), 1, 1, 1, (((q.x * q.x) * q.x) * q.t), ((r.y * r.z) * r.t));
    assert((((p.y * p.t) * p.t) * ((((q.x * q.x) * q.x) * q.t) * ((r.y * r.z) * r.t))) == (((p.y * p.t) * p.t) * ((((q.x * q.x) * q.x) * q.t) * ((r.y * r.z) * r.t))));
    lemma_congruent_mul((d * d), (d * d), (((p.y * p.t) * p.t) * ((((q.x * q.x) * q.x) * q.t) * ((r.x * r.y) * r.y))), (((p.y * p.t) * p.t) * ((((q.x * q.x) * q.x) * q.t) * ((r.y * r.z) * r.t))));
    let v247 = (d * d);
    let v249 = (((p.y * p.t) * p.t) * ((((q.x * q.x) * q.x) * q.t) * ((r.y * r.z) * r.t)));
    lemma_pairs((d * d), 1, 1, (((p.y * p.t) * p.t) * ((((q.x * q.x) * q.x) * q.t) * ((r.y * r.z) * r.t))));
    assert(((d * d) * (((p.y * p.t) * p.t) * ((((q.x * q.x) * q.x) * q.t) * ((r.y * r.z) * r.t)))) == ((d * d) * (((p.y * p.t) * p.t) * ((((q.x * q.x) * q.x) * q.t) * ((r.y * r.z) * r.t)))));
}

/// A term of the cross product, reduced.
proof fn lemma_term_14(d: int, p: Lift, q: Lift, r: Lift)
    requires
        reducible(p, d),
        reducible(q, d),
        reducible(r, d),
    ensures
        congruent(((d * d) * (((p.y * p.t) * p.t) * ((((q.x * q.x) * q.y) * q.t) * ((r.y * r.y) * r.y)))), ((d * d) * (((p.y * p.t) * p.t) * ((((q.x * q.z) * q.t) * q.t) * ((r.y * r.y) * r.y))))),
{
    lemma_point_2101(d, q);
    lemma_congruent_mul((((q.x * q.x) * q.y) * q.t), (((q.x * q.z) * q.t) * q.t), ((r.y * r.y) * r.y), ((r.y * r.y) * r.y));
    lemma_congruent_mul(((p.y * p.t) * p.t), ((p.y * p.t) * p.t), ((((q.x * q.x) * q.y) * q.t) * ((r.y * r.y) * r.y)), ((((q.x * q.z) * q.t) * q.t) * ((r.y * r.y) * r.y)));
    let v251 = ((p.y * p.t) * p.t);
    let v253 = ((((q.x * q.z) * q.t) * q.t) * ((r.y * r.y) * r.y));
    lemma_tensor(((p.y * p.t) * p.t), 1, 1, 1, (((q.x * q.z) * q.t) * q.t), ((r.y * r.y) * r.y));
    assert((((p.y * p.t) * p.t) * ((((q.x * q.z) * q.t) * q.t) * ((r.y * r.y) * r.y))) == (((p.y * p.t) * p.t) * ((((q.x * q.z) * q.t) * q.t) * ((r.y * r.y) * r.y))));
    lemma_congruent_mul((d * d), (d * d), (((p.y * p.t) * p.t) * ((((q.x * q.x) * q.y) * q.t) * ((r.y * r.y) * r.y))), (((p.y * p.t) * p.t) * ((((q.x * q.z) * q.t) * q.t) * ((r.y * r.y) * r.y))));
    let v255 = (d * d);
    let v257 = (((p.y * p.t) * p.t) * ((((q.x * q.z) * q.t) * q.t) * ((r.y * r.y) * r.y)));
    lemma_pairs((d * d), 1, 1, (((p.y * p.t) * p.t) * ((((q.x * q.z) * q.t) * q.t) * ((r.y * r.y) * r.y))));
    assert(((d * d) * (((p.y * p.t) * p.t) * ((((q.x * q.z) * q.t) * q.t) * ((r.y * r.y) * r.y)))) == ((d * d) * (((p.y * p.t) * p.t) * ((((q.x * q.z) * q.t) * q.t) * ((r.y * r.y) * r.y)))));
}

/// A term of the cross product, reduced.
proof fn lemma_term_15(d: int, p: Lift, q: Lift, r: Lift)
    requires
        reducible(p, d),
        reducible(q, d),
        reducible(r, d),
    ensures
        congruent(((d * d) * (((p.y * p.t) * p.t) * ((((q.x * q.y) * q.y) * q.t) * ((r.x * r.x) * r.x)))), ((d * d) * (((p.y * p.t) * p.t) * ((((q.y * q.z) * q.t) * q.t) * ((r.x * r.x) * r.x))))),
{
    lemma_point_1201(d, q);
    lemma_congruent_mul((((q.x * q.y) * q.y) * q.t), (((q.y * q.z) * q.t) * q.t), ((r.x * r.x) * r.x), ((r.x * r.x) * r.x));
    lemma_congruent_mul(((p.y * p.t) * p.t), ((p.y * p.t) * p.t), ((((q.x * q.y) * q.y) * q.t) * ((r.x * r.x) * r.x)), ((((q.y * q.z) * q.t) * q.t) * ((r.x * r.x) * r.x)));
    let v259 = ((p.y * p.t) * p.t);
    let v261 = ((((q.y * q.z) * q.t) * q.t) * ((r.x * r.x) * r.x));
    lemma_tensor(((p.y * p.t) * p.t), 1, 1, 1, (((q.y * q.z) * q.t) * q.t), ((r.x * r.x) * r.x));
    assert((((p.y * p.t) * p.t) * ((((q.y * q.z) * q.t) * q.t) * ((r.x * r.x) * r.x))) == (((p.y * p.t) * p.t) * ((((q.y * q.z) * q.t) * q.t) * ((r.x * r.x) * r.x))));
    lemma_congruent_mul((d * d), (d * d), (((p.y * p.t) * p.t) * ((((q.x * q.y) * q.y) * q.t) * ((r.x * r.x) * r.x))), (((p.y * p.t) * p.t) * ((((q.y * q.z) * q.t) * q.t) * ((r.x * r.x) * r.x))));
    let v263 = (d * d);
    let v265 = (((p.y * p.t) * p.t) * ((((q.y * q.z) * q.t) * q.t) * ((r.x * r.x) * r.x)));
    lemma_pairs((d * d), 1, 1, (((p.y * p.t) * p.t) * ((((q.y * q.z) * q.t) * q.t) * ((r.x * r.x) * r.x))));
    assert(((d * d) * (((p.y * p.t) * p.t) * ((((q.y * q.z) * q.t) * q.t) * ((r.x * r.x) * r.x)))) == ((d * d) * (((p.y * p.t) * p.t) * ((((q.y * q.z) * q.t) * q.t) * ((r.x * r.x) * r.x)))));
}

/// A term of the cross product, reduced.
proof fn lemma_term_16(d: int, p: Lift, q: Lift, r: Lift)
    requires
        reducible(p, d),
        reducible(q, d),
        reducible(r, d),
    ensures
        congruent(((d * d) * (((p.y * p.t) * p.t) * ((((q.y * q.y) * q.y) * q.t) * ((r.x * r.x) * r.y)))), ((d * d) * (((p.y * p.t) * p.t) * ((((q.y * q.y) * q.y) * q.t) * ((r.x * r.z) * r.t))))),
{
    lemma_point_2100(d, r);
    lemma_congruent_mul((((q.y * q.y) * q.y) * q.t), (((q.y * q.y) * q.y) * q.t), ((r.x * r.x) * r.y), ((r.x * r.z) * r.t));
    lemma_congruent_mul(((p.y * p.t) * p.t), ((p.y * p.t) * p.t), ((((q.y * q.y) * q.y) * q.t) * ((r.x * r.x) * r.y)), ((((q.y * q.y) * q.y) * q.t) * ((r.x * r.z) * r.t)));
    let v267 = ((p.y * p.t) * p.t);
    let v269 = ((((q.y * q.y) * q.y) * q.t) * ((r.x * r.z) * r.t));
    lemma_tensor(((p.y * p.t) * p.t), 1, 1, 1, (((q.y * q.y) * q.y) * q.t), ((r.x * r.z) * r.t));
    assert((((p.y * p.t) * p.t) * ((((q.y * q.y) * q.y) * q.t) * ((r.x * r.z) * r.t))) == (((p.y * p.t) * p.t) * ((((q.y * q.y) * q.y) * q.t) * ((r.x * r.z) * r.t))));
    lemma_congruent_mul((d * d), (d * d), (((p.y * p.t) * p.t) * ((((q.y * q.y) * q.y) * q.t) * ((r.x * r.x) * r.y))), (((p.y * p.t) * p.t) * ((((q.y * q.y) * q.y) * q.t) * ((r.x * r.z) * r.t))));
    let v271 = (d * d);
    let v273 = (((p.y * p.t) * p.t) * ((((q.y * q.y) * q.y) * q.t) * ((r.x * r.z) * r.t)));
    lemma_pairs((d * d), 1, 1, (((p.y * p.t) * p.t) * ((((q.y * q.y) * q.y) * q.t) * ((r.x * r.z) * r.t))));
    assert(((d * d) * (((p.y * p.t) * p.t) * ((((q.y * q.y) * q.y) * q.t) * ((r.x * r.z) * r.t)))) == ((d * d) * (((p.y * p.t) * p.t) * ((((q.y * q.y) * q.y) * q.t) * ((r.x * r.z) * r.t)))));
}

/// A term of the cross product, reduced.
proof fn lemma_term_17(d: int, p: Lift, q: Lift, r: Lift)
    requires
        reducible(p, d),
        reducible(q, d),
        reducible(r, d),
    ensures
        congruent((d * (((p.x * p.z) * p.t) * ((((q.x * q.x) * q.x) * q.z) * ((r.x * r.x) * r.y)))), (d * (((p.x * p.z) * p.t) * ((((q.x * q.x) * q.x) * q.z) * ((r.x * r.z) * r.t))))),
{
    lemma_point_2100(d, r);
    lemma_congruent_mul((((q.x * q.x) * q.x) * q.z), (((q.x * q.x) * q.x) * q.z), ((r.x * r.x) * r.y), ((r.x * r.z) * r.t));
    lemma_congruent_mul(((p.x * p.z) * p.t), ((p.x * p.z) * p.t), ((((q.x * q.x) * q.x) * q.z) * ((r.x * r.x) * r.y)), ((((q.x * q.x) * q.x) * q.z) * ((r.x * r.z) * r.t)));
    let v275 = ((p.x * p.z) * p.t);
    let v277 = ((((q.x * q.x) * q.x) * q.z) * ((r.x * r.z) * r.t));
    lemma_tensor(((p.x * p.z) * p.t), 1, 1, 1, (((q.x * q.x) * q.x) * q.z), ((r.x * r.z) * r.t));
    assert((((p.x * p.z) * p.t) * ((((q.x * q.x) * q.x) * q.z) * ((r.x * r.z) * r.t))) == (((p.x * p.z) * p.t) * ((((q.x * q.x) * q.x) * q.z) * ((r.x * r.z) * r.t))));
    lemma_congruent_mul(d, d, (((p.x * p.z) * p.t) * ((((q.x * q.x) * q.x) * q.z) * ((r.x * r.x) * r.y))), (((p.x * p.z) * p.t) * ((((q.x * q.x) * q.x) * q.z) * ((r.x * r.z) * r.t))));
    let v279 = d;
    let v281 = (((p.x * p.z) * p.t) * ((((q.x * q.x) * q.x) * q.z) * ((r.x * r.z) * r.t)));
    lemma_pairs(d, 1, 1, (((p.x * p.z) * p.t) * ((((q.x * q.x) * q.x) * q.z) * ((r.x * r.z) * r.t))));
    assert((d * (((p.x * p.z) * p.t) * ((((q.x * q.x) * q.x) * q.z) * ((r.x * r.z) * r.t)))) == (d * (((p.x * p.z) * p.t) * ((((q.x * q.x) * q.x) * q.z) * ((r.x * r.z) * r.t)))));
}

/// The product of the reduced monomials of the second and the third point,
/// term by term.
proof fn lemma_pair_14(d: int, q: Lift, r: Lift)
    ensures
        ((((0 - (d * (((q.x * q.t) * q.t) * q.t))) - (((q.x * q.x) * q.x) * q.t)) + (((q.y * q.z) * q.t) * q.t)) * ((r.x * r.x) * r.x)) == (((0 - (d * ((((q.x * q.t) * q.t) * q.t) * ((r.x * r.x) * r.x)))) - ((((q.x * q.x) * q.x) * q.t) * ((r.x * r.x) * r.x))) + ((((q.y * q.z) * q.t) * q.t) * ((r.x * r.x) * r.x))),
{
    let v287 = (d * (((q.x * q.t) * q.t) * q.t));
    let v288 = 0 - v287;
    let v289 = (((q.x * q.x) * q.x) * q.t);
    let v290 = v288 - v289;
    let v291 = (((q.y * q.z) * q.t) * q.t);
    let v292 = v290 + v291;
    let v293 = ((r.x * r.x) * r.x);
    lemma_distribute(v293, v290, v291);
    lemma_distribute_sub(v293, v288, v289);
    lemma_distribute_sub(v293, 0, v287);
    lemma_tensor(1, (((q.x * q.t) * q.t) * q.t), 1, 1, 1, ((r.x * r.x) * r.x));
    lemma_pairs(d, (((q.x * q.t) * q.t) * q.t), 1, ((r.x * r.x) * r.x));
    lemma_tensor(1, (((q.x * q.x) * q.x) * q.t), 1, 1, 1, ((r.x * r.x) * r.x));
    lemma_tensor(1, (((q.y * q.z) * q.t) * q.t), 1, 1, 1, ((r.x * r.x) * r.x));
    assert(((((0 - (d * (((q.x * q.t) * q.t) * q.t))) - (((q.x * q.x) * q.x) * q.t)) + (((q.y * q.z) * q.t) * q.t)) * ((r.x * r.x) * r.x)) == (((0 - (d * ((((q.x * q.t) * q.t) * q.t) * ((r.x * r.x) * r.x)))) - ((((q.x * q.x) * q.x) * q.t) * ((r.x * r.x) * r.x))) + ((((q.y * q.z) * q.t) * q.t) * ((r.x * r.x) * r.x))));
}

/// A term of the cross product, reduced.
proof fn lemma_term_18(d: int, p: Lift, q: Lift, r: Lift)
    requires
        reducible(p, d),
        reducible(q, d),
        reducible(r, d),
    ensures
        congruent((d * (((p.x * p.z) * p.t) * ((((q.x * q.x) * q.y) * q.z) * ((r.x * r.x) * r.x)))), (((0 - ((d * d) * (((p.x * p.z) * p.t) * ((((q.x * q.t) * q.t) * q.t) * ((r.x * r.x) * r.x))))) - (d * (((p.x * p.z) * p.t) * ((((q.x * q.x) * q.x) * q.t) * ((r.x * r.x) * r.x))))) + (d * (((p.x * p.z) * p.t) * ((((q.y * q.z) * q.t) * q.t) * ((r.x * r.x) * r.x)))))),
{
    lemma_point_2110(d, q);
    lemma_congruent_mul((((q.x * q.x) * q.y) * q.z), (((0 - (d * (((q.x * q.t) * q.t) * q.t))) - (((q.x * q.x) * q.x) * q.t)) + (((q.y * q.z) * q.t) * q.t)), ((r.x * r.x) * r.x), ((r.x * r.x) * r.x));
    lemma_congruent_mul(((p.x * p.z) * p.t), ((p.x * p.z) * p.t), ((((q.x * q.x) * q.y) * q.z) * ((r.x * r.x) * r.x)), ((((0 - (d * (((q.x * q.t) * q.t) * q.t))) - (((q.x * q.x) * q.x) * q.t)) + (((q.y * q.z) * q.t) * q.t)) * ((r.x * r.x) * r.x)));
    lemma_pair_14(d, q, r);
    let v295 = ((p.x * p.z) * p.t);
    let v297 = (d * ((((q.x * q.t) * q.t) * q.t) * ((r.x * r.x) * r.x)));
    let v298 = 0 - v297;
    let v299 = ((((q.x * q.x) * q.x) * q.t) * ((r.x * r.x) * r.x));
    let v300 = v298 - v299;
    let v301 = ((((q.y * q.z) * q.t) * q.t) * ((r.x * r.x) * r.x));
    let v302 = v300 + v301;
    lemma_distribute(v295, v300, v301);
    lemma_distribute_sub(v295, v298, v299);
    lemma_distribute_sub(v295, 0, v297);
    lemma_tensor(((p.x * p.z) * p.t), 1, 1, 1, (((q.x * q.t) * q.t) * q.t), ((r.x * r.x) * r.x));
    lemma_pairs(1, ((p.x * p.z) * p.t), d, ((((q.x * q.t) * q.t) * q.t) * ((r.x * r.x) * r.x)));
    lemma_tensor(((p.x * p.z) * p.t), 1, 1, 1, (((q.x * q.x) * q.x) * q.t), ((r.x * r.x) * r.x));
    lemma_tensor(((p.x * p.z) * p.t), 1, 1, 1, (((q.y * q.z) * q.t) * q.t), ((r.x * r.x) * r.x));
    assert((((p.x * p.z) * p.t) * ((((0 - (d * (((q.x * q.t) * q.t) * q.t))) - (((q.x * q.x) * q.x) * q.t)) + (((q.y * q.z) * q.t) * q.t)) * ((r.x * r.x) * r.x))) == (((0 - (d * (((p.x * p.z) * p.t) * ((((q.x * q.t) * q.t) * q.t) * ((r.x * r.x) * r.x))))) - (((p.x * p.z) * p.t) * ((((q.x * q.x) * q.x) * q.t) * ((r.x * r.x) * r.x)))) + (((p.x * p.z) * p.t) * ((((q.y * q.z) * q.t) * q.t) * ((r.x * r.x) * r.x)))));
    lemma_congruent_mul(d, d, (((p.x * p.z) * p.t) * ((((q.x * q.x) * q.y) * q.z) * ((r.x * r.x) * r.x))), (((p.x * p.z) * p.t) * ((((0 - (d * (((q.x * q.t) * q.t) * q.t))) - (((q.x * q.x) * q.x) * q.t)) + (((q.y * q.z) * q.t) * q.t)) * ((r.x * r.x) * r.x))));
    let v303 = d;
    let v305 = (d * (((p.x * p.z) * p.t) * ((((q.x * q.t) * q.t) * q.t) * ((r.x * r.x) * r.x))));
    let v306 = 0 - v305;
    let v307 = (((p.x * p.z) * p.t) * ((((q.x * q.x) * q.x) * q.t) * ((r.x * r.x) * r.x)));
    let v308 = v306 - v307;
    let v309 = (((p.x * p.z) * p.t) * ((((q.y * q.z) * q.t) * q.t) * ((r.x * r.x) * r.x)));
    let v310 = v308 + v309;
    lemma_distribute(v303, v308, v309);
    lemma_distribute_sub(v303, v306, v307);
    lemma_distribute_sub(v303, 0, v305);
    lemma_pairs(d, 1, d, (((p.x * p.z) * p.t) * ((((q.x * q.t) * q.t) * q.t) * ((r.x * r.x) * r.x))));
    lemma_pairs(d, 1, 1, (((p.x * p.z) * p.t) * ((((q.x * q.x) * q.x) * q.t) * ((r.x * r.x) * r.x))));
    lemma_pairs(d, 1, 1, (((p.x * p.z) * p.t) * ((((q.y * q.z) * q.t) * q.t) * ((r.x * r.x) * r.x))));
    assert((d * (((p.x * p.z) * p.t) * ((((0 - (d * (((q.x * q.t) * q.t) * q.t))) - (((q.x * q.x) * q.x) * q.t)) + (((q.y * q.z) * q.t) * q.t)) * ((r.x * r.x) * r.x)))) == (((0 - ((d * d) * (((p.x * p.z) * p.t) * ((((q.x * q.t) * q.t) * q.t) * ((r.x * r.x) * r.x))))) - (d * (((p.x * p.z) * p.t) * ((((q.x * q.x) * q.x) * q.t) * ((r.x * r.x) * r.x))))) + (d * (((p.x * p.z) * p.t) * ((((q.y * q.z) * q.t) * q.t) * ((r.x * r.x) * r.x))))));
}

/// The product of the reduced monomials of the second and the third point,
/// term by term.
proof fn lemma_pair_15(d: int, q: Lift, r: Lift)
    ensures
        ((((0 - (d * (((q.x * q.t) * q.t) * q.t))) - (((q.x * q.x) * q.x) * q.t)) + (((q.y * q.z) * q.t) * q.t)) * ((r.y * r.z) * r.t)) == (((0 - (d * ((((q.x * q.t) * q.t) * q.t) * ((r.y * r.z) * r.t)))) - ((((q.x * q.x) * q.x) * q.t) * ((r.y * r.z) * r.t))) + ((((q.y * q.z) * q.t) * q.t) * ((r.y * r.z) * r.t))),
{
    let v311 = (d * (((q.x * q.t) * q.t) * q.t));
    let v312 = 0 - v311;
    let v313 = (((q.x * q.x) * q.x) * q.t);
    let v314 = v312 - v313;
    let v315 = (((q.y * q.z) * q.t) * q.t);
    let v316 = v314 + v315;
    let v317 = ((r.y * r.z) * r.t);
    lemma_distribute(v317, v314, v315);
    lemma_distribute_sub(v317, v312, v313);
    lemma_distribute_sub(v317, 0, v311);
    lemma_tensor(1, (((q.x * q.t) * q.t) * q.t), 1, 1, 1, ((r.y * r.z) * r.t));
    lemma_pairs(d, (((q.x * q.t) * q.t) * q.t), 1, ((r.y * r.z) * r.t));
    lemma_tensor(1, (((q.x * q.x) * q.x) * q.t), 1, 1, 1, ((r.y * r.z) * r.t));
    lemma_tensor(1, (((q.y * q.z) * q.t) * q.t), 1, 1, 1, ((r.y * r.z) * r.t));
    assert(((((0 - (d * (((q.x * q.t) * q.t) * q.t))) - (((q.x * q.x) * q.x) * q.t)) + (((q.y * q.z) * q.t) * q.t)) * ((r.y * r.z) * r.t)) == (((0 - (d * ((((q.x * q.t) * q.t) * q.t) * ((r.y * r.z) * r.t)))) - ((((q.x * q.x) * q.x) * q.t) * ((r.y * r.z) * r.t))) + ((((q.y * q.z) * q.t) * q.t) * ((r.y * r.z) * r.t))));
}

/// A term of the cross product, reduced.
proof fn lemma_term_19(d: int, p: Lift, q: Lift, r: Lift)
    requires
        reducible(p, d),
        reducible(q, d),
        reducible(r, d),
    ensures
        congruent((d * (((p.x * p.z) * p.t) * ((((q.x * q.x) * q.y) * q.z) * ((r.x * r.y) * r.y)))), (((0 - ((d * d) * (((p.x * p.z) * p.t) * ((((q.x * q.t) * q.t) * q.t) * ((r.y * r.z) * r.t))))) - (d * (((p.x * p.z) * p.t) * ((((q.x * q.x) * q.x) * q.t) * ((r.y * r.z) * r.t))))) + (d * (((p.x * p.z) * p.t) * ((((q.y * q.z) * q.t) * q.t) * ((r.y * r.z) * r.t)))))),
{
    lemma_point_2110(d, q);
    lemma_point_1200(d, r);
    lemma_congruent_mul((((q.x * q.x) * q.y) * q.z), (((0 - (d * (((q.x * q.t) * q.t) * q.t))) - (((q.x * q.x) * q.x) * q.t)) + (((q.y * q.z) * q.t) * q.t)), ((r.x * r.y) * r.y), ((r.y * r.z) * r.t));
    lemma_congruent_mul(((p.x * p.z) * p.t), ((p.x * p.z) * p.t), ((((q.x * q.x) * q.y) * q.z) * ((r.x * r.y) * r.y)), ((((0 - (d * (((q.x * q.t) * q.t) * q.t))) - (((q.x * q.x) * q.x) * q.t)) + (((q.y * q.z) * q.t) * q.t)) * ((r.y * r.z) * r.t)));
    lemma_pair_15(d, q, r);
    let v319 = ((p.x * p.z) * p.t);
    let v321 = (d * ((((q.x * q.t) * q.t) * q.t) * ((r.y * r.z) * r.t)));
    let v322 = 0 - v321;
    let v323 = ((((q.x * q.x) * q.x) * q.t) * ((r.y * r.z) * r.t));
    let v324 = v322 - v323;
    let v325 = ((((q.y * q.z) * q.t) * q.t) * ((r.y * r.z) * r.t));
    let v326 = v324 + v325;
    lemma_distribute(v319, v324, v325);
    lemma_distribute_sub(v319, v322, v323);
    lemma_distribute_sub(v319, 0, v321);
    lemma_tensor(((p.x * p.z) * p.t), 1, 1, 1, (((q.x * q.t) * q.t) * q.t), ((r.y * r.z) * r.t));
    lemma_pairs(1, ((p.x * p.z) * p.t), d, ((((q.x * q.t) * q.t) * q.t) * ((r.y * r.z) * r.t)));
    lemma_tensor(((p.x * p.z) * p.t), 1, 1, 1, (((q.x * q.x) * q.x) * q.t), ((r.y * r.z) * r.t));
    lemma_tensor(((p.x * p.z) * p.t), 1, 1, 1, (((q.y * q.z) * q.t) * q.t), ((r.y * r.z) * r.t));
    assert((((p.x * p.z) * p.t) * ((((0 - (d * (((q.x * q.t) * q.t) * q.t))) - (((q.x * q.x) * q.x) * q.t)) + (((q.y * q.z) * q.t) * q.t)) * ((r.y * r.z) * r.t))) == (((0 - (d * (((p.x * p.z) * p.t) * ((((q.x * q.t) * q.t) * q.t) * ((r.y * r.z) * r.t))))) - (((p.x * p.z) * p.t) * ((((q.x * q.x) * q.x) * q.t) * ((r.y * r.z) * r.t)))) + (((p.x * p.z) * p.t) * ((((q.y * q.z) * q.t) * q.t) * ((r.y * r.z) * r.t)))));
    lemma_congruent_mul(d, d, (((p.x * p.z) * p.t) * ((((q.x * q.x) * q.y) * q.z) * ((r.x * r.y) * r.y))), (((p.x * p.z) * p.t) * ((((0 - (d * (((q.x * q.t) * q.t) * q.t))) - (((q.x * q.x) * q.x) * q.t)) + (((q.y * q.z) * q.t) * q.t)) * ((r.y * r.z) * r.t))));
    let v327 = d;
    let v329 = (d * (((p.x * p.z) * p.t) * ((((q.x * q.t) * q.t) * q.t) * ((r.y * r.z) * r.t))));
    let v330 = 0 - v329;
    let v331 = (((p.x * p.z) * p.t) * ((((q.x * q.x) * q.x) * q.t) * ((r.y * r.z) * r.t)));
    let v332 = v330 - v331;
    let v333 = (((p.x * p.z) * p.t) * ((((q.y * q.z) * q.t) * q.t) * ((r.y * r.z) * r.t)));
    let v334 = v332 + v333;
    lemma_distribute(v327, v332, v333);
    lemma_distribute_sub(v327, v330, v331);
    lemma_distribute_sub(v327, 0, v329);
    lemma_pairs(d, 1, d, (((p.x * p.z) * p.t) * ((((q.x * q.t) * q.t) * q.t) * ((r.y * r.z) * r.t))));
    lemma_pairs(d, 1, 1, (((p.x * p.z) * p.t) * ((((q.x * q.x) * q.x) * q.t) * ((r.y * r.z) * r.t))));
    lemma_pairs(d, 1, 1, (((p.x * p.z) * p.t) * ((((q.y * q.z) * q.t) * q.t) * ((r.y * r.z) * r.t))));
    assert((d * (((p.x * p.z) * p.t) * ((((0 - (d * (((q.x * q.t) * q.t) * q.t))) - (((q.x * q.x) * q.x) * q.t)) + (((q.y * q.z) * q.t) * q.t)) * ((r.y * r.z) * r.t)))) == (((0 - ((d * d) * (((p.x * p.z) * p.t) * ((((q.x * q.t) * q.t) * q.t) * ((r.y * r.z) * r.t))))) - (d * (((p.x * p.z) * p.t) * ((((q.x * q.x) * q.x) * q.t) * ((r.y * r.z) * r.t))))) + (d * (((p.x * p.z) * p.t) * ((((q.y * q.z) * q.t) * q.t) * ((r.y * r.z) * r.t))))));
}

/// The product of the reduced monomials of the second and the third point,
/// term by term.
proof fn lemma_pair_16(d: int, q: Lift, r: Lift)
    ensures
        ((((0 - (d * (((q.y * q.t) * q.t) * q.t))) - (((q.x * q.z) * q.t) * q.t)) + (((q.y * q.y) * q.y) * q.t)) * ((r.x * r.z) * r.t)) == (((0 - (d * ((((q.y * q.t) * q.t) * q.t) * ((r.x * r.z) * r.t)))) - ((((q.x * q.z) * q.t) * q.t) * ((r.x * r.z) * r.t))) + ((((q.y * q.y) * q.y) * q.t) * ((r.x * r.z) * r.t))),
{
    let v339 = (d * (((q.y * q.t) * q.t) * q.t));
    let v340 = 0 - v339;
    let v341 = (((q.x * q.z) * q.t) * q.t);
    let v342 = v340 - v341;
    let v343 = (((q.y * q.y) * q.y) * q.t);
    let v344 = v342 + v343;
    let v345 = ((r.x * r.z) * r.t);
    lemma_distribute(v345, v342, v343);
    lemma_distribute_sub(v345, v340, v341);
    lemma_distribute_sub(v345, 0, v339);
    lemma_tensor(1, (((q.y * q.t) * q.t) * q.t), 1, 1, 1, ((r.x * r.z) * r.t));
    lemma_pairs(d, (((q.y * q.t) * q.t) * q.t), 1, ((r.x * r.z) * r.t));
    lemma_tensor(1, (((q.x * q.z) * q.t) * q.t), 1, 1, 1, ((r.x * r.z) * r.t));
    lemma_tensor(1, (((q.y * q.y) * q.y) * q.t), 1, 1, 1, ((r.x * r.z) * r.t));
    assert(((((0 - (d * (((q.y * q.t) * q.t) * q.t))) - (((q.x * q.z) * q.t) * q.t)) + (((q.y * q.y) * q.y) * q.t)) * ((r.x * r.z) * r.t)) == (((0 - (d * ((((q.y * q.t) * q.t) * q.t) * ((r.x * r.z) * r.t)))) - ((((q.x * q.z) * q.t) * q.t) * ((r.x * r.z) * r.t))) + ((((q.y * q.y) * q.y) * q.t) * ((r.x * r.z) * r.t))));
}

/// A term of the cross product, reduced.
proof fn lemma_term_20(d: int, p: Lift, q: Lift, r: Lift)
    requires
        reducible(p, d),
        reducible(q, d),
        reducible(r, d),
    ensures
        congruent((d * (((p.x * p.z) * p.t) * ((((q.x * q.y) * q.y) * q.z) * ((r.x * r.x) * r.y)))), (((0 - ((d * d) * (((p.x * p.z) * p.t) * ((((q.y * q.t) * q.t) * q.t) * ((r.x * r.z) * r.t))))) - (d * (((p.x * p.z) * p.t) * ((((q.x * q.z) * q.t) * q.t) * ((r.x * r.z) * r.t))))) + (d * (((p.x * p.z) * p.t) * ((((q.y * q.y) * q.y) * q.t) * ((r.x * r.z) * r.t)))))),
{
    lemma_point_1210(d, q);
    lemma_point_2100(d, r);
    lemma_congruent_mul((((q.x * q.y) * q.y) * q.z), (((0 - (d * (((q.y * q.t) * q.t) * q.t))) - (((q.x * q.z) * q.t) * q.t)) + (((q.y * q.y) * q.y) * q.t)), ((r.x * r.x) * r.y), ((r.x * r.z) * r.t));
    lemma_congruent_mul(((p.x * p.z) * p.t), ((p.x * p.z) * p.t), ((((q.x * q.y) * q.y) * q.z) * ((r.x * r.x) * r.y)), ((((0 - (d * (((q.y * q.t) * q.t) * q.t))) - (((q.x * q.z) * q.t) * q.t)) + (((q.y * q.y) * q.y) * q.t)) * ((r.x * r.z) * r.t)));
    lemma_pair_16(d, q, r);
    let v347 = ((p.x * p.z) * p.t);
    let v349 = (d * ((((q.y * q.t) * q.t) * q.t) * ((r.x * r.z) * r.t)));
    let v350 = 0 - v349;
    let v351 = ((((q.x * q.z) * q.t) * q.t) * ((r.x * r.z) * r.t));
    let v352 = v350 - v351;
    let v353 = ((((q.y * q.y) * q.y) * q.t) * ((r.x * r.z) * r.t));
    let v354 = v352 + v353;
    lemma_distribute(v347, v352, v353);
    lemma_distribute_sub(v347, v350, v351);
    lemma_distribute_sub(v347, 0, v349);
    lemma_tensor(((p.x * p.z) * p.t), 1, 1, 1, (((q.y * q.t) * q.t) * q.t), ((r.x * r.z) * r.t));
    lemma_pairs(1, ((p.x * p.z) * p.t), d, ((((q.y * q.t) * q.t) * q.t) * ((r.x * r.z) * r.t)));
    lemma_tensor(((p.x * p.z) * p.t), 1, 1, 1, (((q.x * q.z) * q.t) * q.t), ((r.x * r.z) * r.t));
    lemma_tensor(((p.x * p.z) * p.t), 1, 1, 1, (((q.y * q.y) * q.y) * q.t), ((r.x * r.z) * r.t));
    assert((((p.x * p.z) * p.t) * ((((0 - (d * (((q.y * q.t) * q.t) * q.t))) - (((q.x * q.z) * q.t) * q.t)) + (((q.y * q.y) * q.y) * q.t)) * ((r.x * r.z) * r.t))) == (((0 - (d * (((p.x * p.z) * p.t) * ((((q.y * q.t) * q.t) * q.t) * ((r.x * r.z) * r.t))))) - (((p.x * p.z) * p.t) * ((((q.x * q.z) * q.t) * q.t) * ((r.x * r.z) * r.t)))) + (((p.x * p.z) * p.t) * ((((q.y * q.y) * q.y) * q.t) * ((r.x * r.z) * r.t)))));
    lemma_congruent_mul(d, d, (((p.x * p.z) * p.t) * ((((q.x * q.y) * q.y) * q.z) * ((r.x * r.x) * r.y))), (((p.x * p.z) * p.t) * ((((0 - (d * (((q.y * q.t) * q.t) * q.t))) - (((q.x * q.z) * q.t) * q.t)) + (((q.y * q.y) * q.y) * q.t)) * ((r.x * r.z) * r.t))));
    let v355 = d;
    let v357 = (d * (((p.x * p.z) * p.t) * ((((q.y * q.t) * q.t) * q.t) * ((r.x * r.z) * r.t))));
    let v358 = 0 - v357;
    let v359 = (((p.x * p.z) * p.t) * ((((q.x * q.z) * q.t) * q.t) * ((r.x * r.z) * r.t)));
    let v360 = v358 - v359;
    let v361 = (((p.x * p.z) * p.t) * ((((q.y * q.y) * q.y) * q.t) * ((r.x * r.z) * r.t)));
    let v362 = v360 + v361;
    lemma_distribute(v355, v360, v361);
    lemma_distribute_sub(v355, v358, v359);
    lemma_distribute_sub(v355, 0, v357);
    lemma_pairs(d, 1, d, (((p.x * p.z) * p.t) * ((((q.y * q.t) * q.t) * q.t) * ((r.x * r.z) * r.t))));
    lemma_pairs(d, 1, 1, (((p.x * p.z) * p.t) * ((((q.x * q.z) * q.t) * q.t) * ((r.x * r.z) * r.t))));
    lemma_pairs(d, 1, 1, (((p.x * p.z) * p.t) * ((((q.y * q.y) * q.y) * q.t) * ((r.x * r.z) * r.t))));
    assert((d * (((p.x * p.z) * p.t) * ((((0 - (d * (((q.y * q.t) * q.t) * q.t))) - (((q.x * q.z) * q.t) * q.t)) + (((q.y * q.y) * q.y) * q.t)) * ((r.x * r.z) * r.t)))) == (((0 - ((d * d) * (((p.x * p.z) * p.t) * ((((q.y * q.t) * q.t) * q.t) * ((r.x * r.z) * r.t))))) - (d * (((p.x * p.z) * p.t) * ((((q.x * q.z) * q.t) * q.t) * ((r.x * r.z) * r.t))))) + (d * (((p.x * p.z) * p.t) * ((((q.y * q.y) * q.y) * q.t) * ((r.x * r.z) * r.t))))));
}

/// The product of the reduced monomials of the second and the third point,
/// term by term.
proof fn lemma_pair_17(d: int, q: Lift, r: Lift)
    ensures
        ((((0 - (d * (((q.y * q.t) * q.t) * q.t))) - (((q.x * q.z) * q.t) * q.t)) + (((q.y * q.y) * q.y) * q.t)) * ((r.y * r.y) * r.y)) == (((0 - (d * ((((q.y * q.t) * q.t) * q.t) * ((r.y * r.y) * r.y)))) - ((((q.x * q.z) * q.t) * q.t) * ((r.y * r.y) * r.y))) + ((((q.y * q.y) * q.y) * q.t) * ((r.y * r.y) * r.y))),
{
    let v363 = (d * (((q.y * q.t) * q.t) * q.t));
    let v364 = 0 - v363;
    let v365 = (((q.x * q.z) * q.t) * q.t);
    let v366 = v364 - v365;
    let v367 = (((q.y * q.y) * q.y) * q.t);
    let v368 = v366 + v367;
    let v369 = ((r.y * r.y) * r.y);
    lemma_distribute(v369, v366, v367);
    lemma_distribute_sub(v369, v364, v365);
    lemma_distribute_sub(v369, 0, v363);
    lemma_tensor(1, (((q.y * q.t) * q.t) * q.t), 1, 1, 1, ((r.y * r.y) * r.y));
    lemma_pairs(d, (((q.y * q.t) * q.t) * q.t), 1, ((r.y * r.y) * r.y));
    lemma_tensor(1, (((q.x * q.z) * q.t) * q.t), 1, 1, 1, ((r.y * r.y) * r.y));
    lemma_tensor(1, (((q.y * q.y) * q.y) * q.t), 1, 1, 1, ((r.y * r.y) * r.y));
    assert(((((0 - (d * (((q.y * q.t) * q.t) * q.t))) - (((q.x * q.z) * q.t) * q.t)) + (((q.y * q.y) * q.y) * q.t)) * ((r.y * r.y) * r.y)) == (((0 - (d * ((((q.y * q.t) * q.t) * q.t) * ((r.y * r.y) * r.y)))) - ((((q.x * q.z) * q.t) * q.t) * ((r.y * r.y) * r.y))) + ((((q.y * q.y) * q.y) * q.t) * ((r.y * r.y) * r.y))));
}

/// A term of the cross product, reduced.
proof fn lemma_term_21(d: int, p: Lift, q: Lift, r: Lift)
    requires
        reducible(p, d),
        reducible(q, d),
        reducible(r, d),
    ensures
        congruent((d * (((p.x * p.z) * p.t) * ((((q.x * q.y) * q.y) * q.z) * ((r.y * r.y) * r.y)))), (((0 - ((d * d) * (((p.x * p.z) * p.t) * ((((q.y * q.t) * q.t) * q.t) * ((r.y * r.y) * r.y))))) - (d * (((p.x * p.z) * p.t) * ((((q.x * q.z) * q.t) * q.t) * ((r.y * r.y) * r.y))))) + (d * (((p.x * p.z) * p.t) * ((((q.y * q.y) * q.y) * q.t) * ((r.y * r.y) * r.y)))))),
{
    lemma_point_1210(d, q);
    lemma_congruent_mul((((q.x * q.y) * q.y) * q.z), (((0 - (d * (((q.y * q.t) * q.t) * q.t))) - (((q.x * q.z) * q.t) * q.t)) + (((q.y * q.y) * q.y) * q.t)), ((r.y * r.y) * r.y), ((r.y * r.y) * r.y));
    lemma_congruent_mul(((p.x * p.z) * p.t), ((p.x * p.z) * p.t), ((((q.x * q.y) * q.y) * q.z) * ((r.y * r.y) * r.y)), ((((0 - (d * (((q.y * q.t) * q.t) * q.t))) - (((q.x * q.z) * q.t) * q.t)) + (((q.y * q.y) * q.y) * q.t)) * ((r.y * r.y) * r.y)));
    lemma_pair_17(d, q, r);
    let v371 = ((p.x * p.z) * p.t);
    let v373 = (d * ((((q.y * q.t) * q.t) * q.t) * ((r.y * r.y) * r.y)));
    let v374 = 0 - v373;
    let v375 = ((((q.x * q.z) * q.t) * q.t) * ((r.y * r.y) * r.y));
    let v376 = v374 - v375;
    let v377 = ((((q.y * q.y) * q.y) * q.t) * ((r.y * r.y) * r.y));
    let v378 = v376 + v377;
    lemma_distribute(v371, v376, v377);
    lemma_distribute_sub(v371, v374, v375);
    lemma_distribute_sub(v371, 0, v373);
    lemma_tensor(((p.x * p.z) * p.t), 1, 1, 1, (((q.y * q.t) * q.t) * q.t), ((r.y * r.y) * r.y));
    lemma_pairs(1, ((p.x * p.z) * p.t), d, ((((q.y * q.t) * q.t) * q.t) * ((r.y * r.y) * r.y)));
    lemma_tensor(((p.x * p.z) * p.t), 1, 1, 1, (((q.x * q.z) * q.t) * q.t), ((r.y * r.y) * r.y));
    lemma_tensor(((p.x * p.z) * p.t), 1, 1, 1, (((q.y * q.y) * q.y) * q.t), ((r.y * r.y) * r.y));
    assert((((p.x * p.z) * p.t) * ((((0 - (d * (((q.y * q.t) * q.t) * q.t))) - (((q.x * q.z) * q.t) * q.t)) + (((q.y * q.y) * q.y) * q.t)) * ((r.y * r.y) * r.y))) == (((0 - (d * (((p.x * p.z) * p.t) * ((((q.y * q.t) * q.t) * q.t) * ((r.y * r.y) * r.y))))) - (((p.x * p.z) * p.t) * ((((q.x * q.z) * q.t) * q.t) * ((r.y * r.y) * r.y)))) + (((p.x * p.z) * p.t) * ((((q.y * q.y) * q.y) * q.t) * ((r.y * r.y) * r.y)))));
    lemma_congruent_mul(d, d, (((p.x * p.z) * p.t) * ((((q.x * q.y) * q.y) * q.z) * ((r.y * r.y) * r.y))), (((p.x * p.z) * p.t) * ((((0 - (d * (((q.y * q.t) * q.t) * q.t))) - (((q.x * q.z) * q.t) * q.t)) + (((q.y * q.y) * q.y) * q.t)) * ((r.y * r.y) * r.y))));
    let v379 = d;
    let v381 = (d * (((p.x * p.z) * p.t) * ((((q.y * q.t) * q.t) * q.t) * ((r.y * r.y) * r.y))));
    let v382 = 0 - v381;
    let v383 = (((p.x * p.z) * p.t) * ((((q.x * q.z) * q.t) * q.t) * ((r.y * r.y) * r.y)));
    let v384 = v382 - v383;
    let v385 = (((p.x * p.z) * p.t) * ((((q.y * q.y) * q.y) * q.t) * ((r.y * r.y) * r.y)));
    let v386 = v384 + v385;
    lemma_distribute(v379, v384, v385);
    lemma_distribute_sub(v379, v382, v383);
    lemma_distribute_sub(v379, 0, v381);
    lemma_pairs(d, 1, d, (((p.x * p.z) * p.t) * ((((q.y * q.t) * q.t) * q.t) * ((r.y * r.y) * r.y))));
    lemma_pairs(d, 1, 1, (((p.x * p.z) * p.t) * ((((q.x * q.z) * q.t) * q.t) * ((r.y * r.y) * r.y))));
    lemma_pairs(d, 1, 1, (((p.x * p.z) * p.t) * ((((q.y * q.y) * q.y) * q.t) * ((r.y * r.y) * r.y))));
    assert((d * (((p.x * p.z) * p.t) * ((((0 - (d * (((q.y * q.t) * q.t) * q.t))) - (((q.x * q.z) * q.t) * q.t)) + (((q.y * q.y) * q.y) * q.t)) * ((r.y * r.y) * r.y)))) == (((0 - ((d * d) * (((p.x * p.z) * p.t) * ((((q.y * q.t) * q.t) * q.t) * ((r.y * r.y) * r.y))))) - (d * (((p.x * p.z) * p.t) * ((((q.x * q.z) * q.t) * q.t) * ((r.y * r.y) * r.y))))) + (d * (((p.x * p.z) * p.t) * ((((q.y * q.y) * q.y) * q.t) * ((r.y * r.y) * r.y))))));
}

/// The product of the reduced monomials of the second and the third point,
/// term by term.
proof fn lemma_pair_18(d: int, q: Lift, r: Lift)
    ensures
        ((((0 - (d * (((q.x * q.t) * q.t) * q.t))) - (((q.x * q.x) * q.x) * q.t)) + (((q.y * q.z) * q.t) * q.t)) * (((0 - (d * ((r.x * r.t) * r.t))) - ((r.x * r.x) * r.x)) + ((r.y * r.z) * r.t))) == ((((((((((d * d) * ((((q.x * q.t) * q.t) * q.t) * ((r.x * r.t) * r.t))) + (d * ((((q.x * q.x) * q.x) * q.t) * ((r.x * r.t) * r.t)))) + (d * ((((q.x * q.t) * q.t) * q.t) * ((r.x * r.x) * r.x)))) - (d * ((((q.x * q.t) * q.t) * q.t) * ((r.y * r.z) * r.t)))) - (d * ((((q.y * q.z) * q.t) * q.t) * ((r.x * r.t) * r.t)))) + ((((q.x * q.x) * q.x) * q.t) * ((r.x * r.x) * r.x))) - ((((q.x * q.x) * q.x) * q.t) * ((r.y * r.z) * r.t))) - ((((q.y * q.z) * q.t) * q.t) * ((r.x * r.x) * r.x))) + ((((q.y * q.z) * q.t) * q.t) * ((r.y * r.z) * r.t))),
{
    let v387 = (d * (((q.x * q.t) * q.t) * q.t));
    let v388 = 0 - v387;
    let v389 = (((q.x * q.x) * q.x) * q.t);
    let v390 = v388 - v389;
    let v391 = (((q.y * q.z) * q.t) * q.t);
    let v392 = v390 + v391;
    let v393 = (d * ((r.x * r.t) * r.t));
    let v394 = 0 - v393;
    let v395 = ((r.x * r.x) * r.x);
    let v396 = v394 - v395;
    let v397 = ((r.y * r.z) * r.t);
    let v398 = v396 + v397;
    lemma_distribute(v398, v390, v391);
    lemma_distribute_sub(v398, v388, v389);
    lemma_distribute_sub(v398, 0, v387);
    lemma_distribute(v387, v396, v397);
    lemma_distribute_sub(v387, v394, v395);
    lemma_distribute_sub(v387, 0, v393);
    lemma_tensor(1, (((q.x * q.t) * q.t) * q.t), 1, 1, 1, ((r.x * r.t) * r.t));
    lemma_pairs(d, (((q.x * q.t) * q.t) * q.t), d, ((r.x * r.t) * r.t));
    lemma_tensor(1, (((q.x * q.t) * q.t) * q.t), 1, 1, 1, ((r.x * r.x) * r.x));
    lemma_pairs(d, (((q.x * q.t) * q.t) * q.t), 1, ((r.x * r.x) * r.x));
    lemma_tensor(1, (((q.x * q.t) * q.t) * q.t), 1, 1, 1, ((r.y * r.z) * r.t));
    lemma_pairs(d, (((q.x * q.t) * q.t) * q.t), 1, ((r.y * r.z) * r.t));
    lemma_distribute(v389, v396, v397);
    lemma_distribute_sub(v389, v394, v395);
    lemma_distribute_sub(v389, 0, v393);
    lemma_tensor(1, (((q.x * q.x) * q.x) * q.t), 1, 1, 1, ((r.x * r.t) * r.t));
    lemma_pairs(1, (((q.x * q.x) * q.x) * q.t), d, ((r.x * r.t) * r.t));
    lemma_tensor(1, (((q.x * q.x) * q.x) * q.t), 1, 1, 1, ((r.x * r.x) * r.x));
    lemma_tensor(1, (((q.x * q.x) * q.x) * q.t), 1, 1, 1, ((r.y * r.z) * r.t));
    lemma_distribute(v391, v396, v397);
    lemma_distribute_sub(v391, v394, v395);
    lemma_distribute_sub(v391, 0, v393);
    lemma_tensor(1, (((q.y * q.z) * q.t) * q.t), 1, 1, 1, ((r.x * r.t) * r.t));
    lemma_pairs(1, (((q.y * q.z) * q.t) * q.t), d, ((r.x * r.t) * r.t));
    lemma_tensor(1, (((q.y * q.z) * q.t) * q.t), 1, 1, 1, ((r.x * r.x) * r.x));
    lemma_tensor(1, (((q.y * q.z) * q.t) * q.t), 1, 1, 1, ((r.y * r.z) * r.t));
    assert(((((0 - (d * (((q.x * q.t) * q.t) * q.t))) - (((q.x * q.x) * q.x) * q.t)) + (((q.y * q.z) * q.t) * q.t)) * (((0 - (d * ((r.x * r.t) * r.t))) - ((r.x * r.x) * r.x)) + ((r.y * r.z) * r.t))) == ((((((((((d * d) * ((((q.x * q.t) * q.t) * q.t) * ((r.x * r.t) * r.t))) + (d * ((((q.x * q.x) * q.x) * q.t) * ((r.x * r.t) * r.t)))) + (d * ((((q.x * q.t) * q.t) * q.t) * ((r.x * r.x) * r.x)))) - (d * ((((q.x * q.t) * q.t) * q.t) * ((r.y * r.z) * r.t)))) - (d * ((((q.y * q.z) * q.t) * q.t) * ((r.x * r.t) * r.t)))) + ((((q.x * q.x) * q.x) * q.t) * ((r.x * r.x) * r.x))) - ((((q.x * q.x) * q.x) * q.t) * ((r.y * r.z) * r.t))) - ((((q.y * q.z) * q.t) * q.t) * ((r.x * r.x) * r.x))) + ((((q.y * q.z) * q.t) * q.t) * ((r.y * r.z) * r.t))));
}

/// A term of the cross product, reduced.
proof fn lemma_term_22(d: int, p: Lift, q: Lift, r: Lift)
    requires
        reducible(p, d),
        reducible(q, d),
        reducible(r, d),
    ensures
        congruent((d * (((p.x * p.z) * p.t) * ((((q.x * q.z) * q.z) * q.t) * ((r.x * r.z) * r.z)))), (((((((((((d * d) * d) * (((p.x * p.z) * p.t) * ((((q.x * q.t) * q.t) * q.t) * ((r.x * r.t) * r.t)))) + ((d * d) * (((p.x * p.z) * p.t) * ((((q.x * q.x) * q.x) * q.t) * ((r.x * r.t) * r.t))))) + ((d * d) * (((p.x * p.z) * p.t) * ((((q.x * q.t) * q.t) * q.t) * ((r.x * r.x) * r.x))))) - ((d * d) * (((p.x * p.z) * p.t) * ((((q.x * q.t) * q.t) * q.t) * ((r.y * r.z) * r.t))))) - ((d * d) * (((p.x * p.z) * p.t) * ((((q.y * q.z) * q.t) * q.t) * ((r.x * r.t) * r.t))))) + (d * (((p.x * p.z) * p.t) * ((((q.x * q.x) * q.x) * q.t) * ((r.x * r.x) * r.x))))) - (d * (((p.x * p.z) * p.t) * ((((q.x * q.x) * q.x) * q.t) * ((r.y * r.z) * r.t))))) - (d * (((p.x * p.z) * p.t) * ((((q.y * q.z) * q.t) * q.t) * ((r.x * r.x) * r.x))))) + (d * (((p.x * p.z) * p.t) * ((((q.y * q.z) * q.t) * q.t) * ((r.y * r.z) * r.t)))))),
{
    lemma_point_1021(d, q);
    lemma_point_1020(d, r);
    lemma_congruent_mul((((q.x * q.z) * q.z) * q.t), (((0 - (d * (((q.x * q.t) * q.t) * q.t))) - (((q.x * q.x) * q.x) * q.t)) + (((q.y * q.z) * q.t) * q.t)), ((r.x * r.z) * r.z), (((0 - (d * ((r.x * r.t) * r.t))) - ((r.x * r.x) * r.x)) + ((r.y * r.z) * r.t)));
    lemma_congruent_mul(((p.x * p.z) * p.t), ((p.x * p.z) * p.t), ((((q.x * q.z) * q.z) * q.t) * ((r.x * r.z) * r.z)), ((((0 - (d * (((q.x * q.t) * q.t) * q.t))) - (((q.x * q.x) * q.x) * q.t)) + (((q.y * q.z) * q.t) * q.t)) * (((0 - (d * ((r.x * r.t) * r.t))) - ((r.x * r.x) * r.x)) + ((r.y * r.z) * r.t))));
    lemma_pair_18(d, q, r);
    let v399 = ((p.x * p.z) * p.t);
    let v401 = ((d * d) * ((((q.x * q.t) * q.t) * q.t) * ((r.x * r.t) * r.t)));
    let v403 = (d * ((((q.x * q.x) * q.x) * q.t) * ((r.x * r.t) * r.t)));
    let v404 = v401 + v403;
    let v405 = (d * ((((q.x * q.t) * q.t) * q.t) * ((r.x * r.x) * r.x)));
    let v406 = v404 + v405;
    let v407 = (d * ((((q.x * q.t) * q.t) * q.t) * ((r.y * r.z) * r.t)));
    let v408 = v406 - v407;
    let v409 = (d * ((((q.y * q.z) * q.t) * q.t) * ((r.x * r.t) * r.t)));
    let v410 = v408 - v409;
    let v411 = ((((q.x * q.x) * q.x) * q.t) * ((r.x * r.x) * r.x));
    let v412 = v410 + v411;
    let v413 = ((((q.x * q.x) * q.x) * q.t) * ((r.y * r.z) * r.t));
    let v414 = v412 - v413;
    let v415 = ((((q.y * q.z) * q.t) * q.t) * ((r.x * r.x) * r.x));
    let v416 = v414 - v415;
    let v417 = ((((q.y * q.z) * q.t) * q.t) * ((r.y * r.z) * r.t));
    let v418 = v416 + v417;
    lemma_distribute(v399, v416, v417);
    lemma_distribute_sub(v399, v414, v415);
    lemma_distribute_sub(v399, v412, v413);
    lemma_distribute(v399, v410, v411);
    lemma_distribute_sub(v399, v408, v409);
    lemma_distribute_sub(v399, v406, v407);
    lemma_distribute(v399, v404, v405);
    lemma_distribute(v399, v401, v403);
    lemma_tensor(((p.x * p.z) * p.t), 1, 1, 1, (((q.x * q.t) * q.t) * q.t), ((r.x * r.t) * r.t));
    lemma_pairs(1, ((p.x * p.z) * p.t), (d * d), ((((q.x * q.t) * q.t) * q.t) * ((r.x * r.t) * r.t)));
    lemma_tensor(((p.x * p.z) * p.t), 1, 1, 1, (((q.x * q.x) * q.x) * q.t), ((r.x * r.t) * r.t));
    lemma_pairs(1, ((p.x * p.z) * p.t), d, ((((q.x * q.x) * q.x) * q.t) * ((r.x * r.t) * r.t)));
    lemma_tensor(((p.x * p.z) * p.t), 1, 1, 1, (((q.x * q.t) * q.t) * q.t), ((r.x * r.x) * r.x));
    lemma_pairs(1, ((p.x * p.z) * p.t), d, ((((q.x * q.t) * q.t) * q.t) * ((r.x * r.x) * r.x)));
    lemma_tensor(((p.x * p.z) * p.t), 1, 1, 1, (((q.x * q.t) * q.t) * q.t), ((r.y * r.z) * r.t));
    lemma_pairs(1, ((p.x * p.z) * p.t), d, ((((q.x * q.t) * q.t) * q.t) * ((r.y * r.z) * r.t)));
    lemma_tensor(((p.x * p.z) * p.t), 1, 1, 1, (((q.y * q.z) * q.t) * q.t), ((r.x * r.t) * r.t));
    lemma_pairs(1, ((p.x * p.z) * p.t), d, ((((q.y * q.z) * q.t) * q.t) * ((r.x * r.t) * r.t)));
    lemma_tensor(((p.x * p.z) * p.t), 1, 1, 1, (((q.x * q.x) * q.x) * q.t), ((r.x * r.x) * r.x));
    lemma_tensor(((p.x * p.z) * p.t), 1, 1, 1, (((q.x * q.x) * q.x) * q.t), ((r.y * r.z) * r.t));
    lemma_tensor(((p.x * p.z) * p.t), 1, 1, 1, (((q.y * q.z) * q.t) * q.t), ((r.x * r.x) * r.x));
    lemma_tensor(((p.x * p.z) * p.t), 1, 1, 1, (((q.y * q.z) * q.t) * q.t), ((r.y * r.z) * r.t));
    assert((((p.x * p.z) * p.t) * ((((0 - (d * (((q.x * q.t) * q.t) * q.t))) - (((q.x * q.x) * q.x) * q.t)) + (((q.y * q.z) * q.t) * q.t)) * (((0 - (d * ((r.x * r.t) * r.t))) - ((r.x * r.x) * r.x)) + ((r.y * r.z) * r.t)))) == ((((((((((d * d) * (((p.x * p.z) * p.t) * ((((q.x * q.t) * q.t) * q.t) * ((r.x * r.t) * r.t)))) + (d * (((p.x * p.z) * p.t) * ((((q.x * q.x) * q.x) * q.t) * ((r.x * r.t) * r.t))))) + (d * (((p.x * p.z) * p.t) * ((((q.x * q.t) * q.t) * q.t) * ((r.x * r.x) * r.x))))) - (d * (((p.x * p.z) * p.t) * ((((q.x * q.t) * q.t) * q.t) * ((r.y * r.z) * r.t))))) - (d * (((p.x * p.z) * p.t) * ((((q.y * q.z) * q.t) * q.t) * ((r.x * r.t) * r.t))))) + (((p.x * p.z) * p.t) * ((((q.x * q.x) * q.x) * q.t) * ((r.x * r.x) * r.x)))) - (((p.x * p.z) * p.t) * ((((q.x * q.x) * q.x) * q.t) * ((r.y * r.z) * r.t)))) - (((p.x * p.z) * p.t) * ((((q.y * q.z) * q.t) * q.t) * ((r.x * r.x) * r.x)))) + (((p.x * p.z) * p.t) * ((((q.y * q.z) * q.t) * q.t) * ((r.y * r.z) * r.t)))));
    lemma_congruent_mul(d, d, (((p.x * p.z) * p.t) * ((((q.x * q.z) * q.z) * q.t) * ((r.x * r.z) * r.z))), (((p.x * p.z) * p.t) * ((((0 - (d * (((q.x * q.t) * q.t) * q.t))) - (((q.x * q.x) * q.x) * q.t)) + (((q.y * q.z) * q.t) * q.t)) * (((0 - (d * ((r.x * r.t) * r.t))) - ((r.x * r.x) * r.x)) + ((r.y * r.z) * r.t)))));
    let v419 = d;
    let v421 = ((d * d) * (((p.x * p.z) * p.t) * ((((q.x * q.t) * q.t) * q.t) * ((r.x * r.t) * r.t))));
    let v423 = (d * (((p.x * p.z) * p.t) * ((((q.x * q.x) * q.x) * q.t) * ((r.x * r.t) * r.t))));
    let v424 = v421 + v423;
    let v425 = (d * (((p.x * p.z) * p.t) * ((((q.x * q.t) * q.t) * q.t) * ((r.x * r.x) * r.x))));
    let v426 = v424 + v425;
    let v427 = (d * (((p.x * p.z) * p.t) * ((((q.x * q.t) * q.t) * q.t) * ((r.y * r.z) * r.t))));
    let v428 = v426 - v427;
    let v429 = (d * (((p.x * p.z) * p.t) * ((((q.y * q.z) * q.t) * q.t) * ((r.x * r.t) * r.t))));
    let v430 = v428 - v429;
    let v431 = (((p.x * p.z) * p.t) * ((((q.x * q.x) * q.x) * q.t) * ((r.x * r.x) * r.x)));
    let v432 = v430 + v431;
    let v433 = (((p.x * p.z) * p.t) * ((((q.x * q.x) * q.x) * q.t) * ((r.y * r.z) * r.t)));
    let v434 = v432 - v433;
    let v435 = (((p.x * p.z) * p.t) * ((((q.y * q.z) * q.t) * q.t) * ((r.x * r.x) * r.x)));
    let v436 = v434 - v435;
    let v437 = (((p.x * p.z) * p.t) * ((((q.y * q.z) * q.t) * q.t) * ((r.y * r.z) * r.t)));
    let v438 = v436 + v437;
    lemma_distribute(v419, v436, v437);
    lemma_distribute_sub(v419, v434, v435);
    lemma_distribute_sub(v419, v432, v433);
    lemma_distribute(v419, v430, v431);
    lemma_distribute_sub(v419, v428, v429);
    lemma_distribute_sub(v419, v426, v427);
    lemma_distribute(v419, v424, v425);
    lemma_distribute(v419, v421, v423);
    assert(d * (d * d) == ((d * d) * d)) by (nonlinear_arith);
    lemma_pairs(d, 1, (d * d), (((p.x * p.z) * p.t) * ((((q.x * q.t) * q.t) * q.t) * ((r.x * r.t) * r.t))));
    lemma_pairs(d, 1, d, (((p.x * p.z) * p.t) * ((((q.x * q.x) * q.x) * q.t) * ((r.x * r.t) * r.t))));
    lemma_pairs(d, 1, d, (((p.x * p.z) * p.t) * ((((q.x * q.t) * q.t) * q.t) * ((r.x * r.x) * r.x))));
    lemma_pairs(d, 1, d, (((p.x * p.z) * p.t) * ((((q.x * q.t) * q.t) * q.t) * ((r.y * r.z) * r.t))));
    lemma_pairs(d, 1, d, (((p.x * p.z) * p.t) * ((((q.y * q.z) * q.t) * q.t) * ((r.x * r.t) * r.t))));
    lemma_pairs(d, 1, 1, (((p.x * p.z) * p.t) * ((((q.x * q.x) * q.x) * q.t) * ((r.x * r.x) * r.x))));
    lemma_pairs(d, 1, 1, (((p.x * p.z) * p.t) * ((((q.x * q.x) * q.x) * q.t) * ((r.y * r.z) * r.t))));
    lemma_pairs(d, 1, 1, (((p.x * p.z) * p.t) * ((((q.y * q.z) * q.t) * q.t) * ((r.x * r.x) * r.x))));
    lemma_pairs(d, 1, 1, (((p.x * p.z) * p.t) * ((((q.y * q.z) * q.t) * q.t) * ((r.y * r.z) * r.t))));
    assert((d * (((p.x * p.z) * p.t) * ((((0 - (d * (((q.x * q.t) * q.t) * q.t))) - (((q.x * q.x) * q.x) * q.t)) + (((q.y * q.z) * q.t) * q.t)) * (((0 - (d * ((r.x * r.t) * r.t))) - ((r.x * r.x) * r.x)) + ((r.y * r.z) * r.t))))) == (((((((((((d * d) * d) * (((p.x * p.z) * p.t) * ((((q.x * q.t) * q.t) * q.t) * ((r.x * r.t) * r.t)))) + ((d * d) * (((p.x * p.z) * p.t) * ((((q.x * q.x) * q.x) * q.t) * ((r.x * r.t) * r.t))))) + ((d * d) * (((p.x * p.z) * p.t) * ((((q.x * q.t) * q.t) * q.t) * ((r.x * r.x) * r.x))))) - ((d * d) * (((p.x * p.z) * p.t) * ((((q.x * q.t) * q.t) * q.t) * ((r.y * r.z) * r.t))))) - ((d * d) * (((p.x * p.z) * p.t) * ((((q.y * q.z) * q.t) * q.t) * ((r.x * r.t) * r.t))))) + (d * (((p.x * p.z) * p.t) * ((((q.x * q.x) * q.x) * q.t) * ((r.x * r.x) * r.x))))) - (d * (((p.x * p.z) * p.t) * ((((q.x * q.x) * q.x) * q.t) * ((r.y * r.z) * r.t))))) - (d * (((p.x * p.z) * p.t) * ((((q.y * q.z) * q.t) * q.t) * ((r.x * r.x) * r.x))))) + (d * (((p.x * p.z) * p.t) * ((((q.y * q.z) * q.t) * q.t) * ((r.y * r.z) * r.t))))));
}

/// A term of the cross product, reduced.
proof fn lemma_term_23(d: int, p: Lift, q: Lift, r: Lift)
    requires
        reducible(p, d),
        reducible(q, d),
        reducible(r, d),
    ensures
        congruent((d * (((p.x * p.z) * p.t) * ((((q.y * q.y) * q.y) * q.z) * ((r.x * r.y) * r.y)))), (d * (((p.x * p.z) * p.t) * ((((q.y * q.y) * q.y) * q.z) * ((r.y * r.z) * r.t))))),
{
    lemma_point_1200(d, r);
    lemma_congruent_mul((((q.y * q.y) * q.y) * q.z), (((q.y * q.y) * q.y) * q.z), ((r.x * r.y) * r.y), ((r.y * r.z) * r.t));
    lemma_congruent_mul(((p.x * p.z) * p.t), ((p.x * p.z) * p.t), ((((q.y * q.y) * q.y) * q.z) * ((r.x * r.y) * r.y)), ((((q.y * q.y) * q.y) * q.z) * ((r.y * r.z) * r.t)));
    let v439 = ((p.x * p.z) * p.t);
    let v441 = ((((q.y * q.y) * q.y) * q.z) * ((r.y * r.z) * r.t));
    lemma_tensor(((p.x * p.z) * p.t), 1, 1, 1, (((q.y * q.y) * q.y) * q.z), ((r.y * r.z) * r.t));
    assert((((p.x * p.z) * p.t) * ((((q.y * q.y) * q.y) * q.z) * ((r.y * r.z) * r.t))) == (((p.x * p.z) * p.t) * ((((q.y * q.y) * q.y) * q.z) * ((r.y * r.z) * r.t))));
    lemma_congruent_mul(d, d, (((p.x * p.z) * p.t) * ((((q.y * q.y) * q.y) * q.z) * ((r.x * r.y) * r.y))), (((p.x * p.z) * p.t) * ((((q.y * q.y) * q.y) * q.z) * ((r.y * r.z) * r.t))));
    let v443 = d;
    let v445 = (((p.x * p.z) * p.t) * ((((q.y * q.y) * q.y) * q.z) * ((r.y * r.z) * r.t)));
    lemma_pairs(d, 1, 1, (((p.x * p.z) * p.t) * ((((q.y * q.y) * q.y) * q.z) * ((r.y * r.z) * r.t))));
    assert((d * (((p.x * p.z) * p.t) * ((((q.y * q.y) * q.y) * q.z) * ((r.y * r.z) * r.t)))) == (d * (((p.x * p.z) * p.t) * ((((q.y * q.y) * q.y) * q.z) * ((r.y * r.z) * r.t)))));
}

/// The product of the reduced monomials of the second and the third point,
/// term by term.
proof fn lemma_pair_20(d: int, q: Lift, r: Lift)
    ensures
        ((((0 - (d * (((q.y * q.t) * q.t) * q.t))) - (((q.x * q.z) * q.t) * q.t)) + (((q.y * q.y) * q.y) * q.t)) * (((0 - (d * ((r.y * r.t) * r.t))) - ((r.x * r.z) * r.t)) + ((r.y * r.y) * r.y))) == ((((((((((d * d) * ((((q.y * q.t) * q.t) * q.t) * ((r.y * r.t) * r.t))) + (d * ((((q.x * q.z) * q.t) * q.t) * ((r.y * r.t) * r.t)))) - (d * ((((q.y * q.y) * q.y) * q.t) * ((r.y * r.t) * r.t)))) + (d * ((((q.y * q.t) * q.t) * q.t) * ((r.x * r.z) * r.t)))) - (d * ((((q.y * q.t) * q.t) * q.t) * ((r.y * r.y) * r.y)))) + ((((q.x * q.z) * q.t) * q.t) * ((r.x * r.z) * r.t))) - ((((q.x * q.z) * q.t) * q.t) * ((r.y * r.y) * r.y))) - ((((q.y * q.y) * q.y) * q.t) * ((r.x * r.z) * r.t))) + ((((q.y * q.y) * q.y) * q.t) * ((r.y * r.y) * r.y))),
{
    let v447 = (d * (((q.y * q.t) * q.t) * q.t));
    let v448 = 0 - v447;
    let v449 = (((q.x * q.z) * q.t) * q.t);
    let v450 = v448 - v449;
    let v451 = (((q.y * q.y) * q.y) * q.t);
    let v452 = v450 + v451;
    let v453 = (d * ((r.y * r.t) * r.t));
    let v454 = 0 - v453;
    let v455 = ((r.x * r.z) * r.t);
    let v456 = v454 - v455;
    let v457 = ((r.y * r.y) * r.y);
    let v458 = v456 + v457;
    lemma_distribute(v458, v450, v451);
    lemma_distribute_sub(v458, v448, v449);
    lemma_distribute_sub(v458, 0, v447);
    lemma_distribute(v447, v456, v457);
    lemma_distribute_sub(v447, v454, v455);
    lemma_distribute_sub(v447, 0, v453);
    lemma_tensor(1, (((q.y * q.t) * q.t) * q.t), 1, 1, 1, ((r.y * r.t) * r.t));
    lemma_pairs(d, (((q.y * q.t) * q.t) * q.t), d, ((r.y * r.t) * r.t));
    lemma_tensor(1, (((q.y * q.t) * q.t) * q.t), 1, 1, 1, ((r.x * r.z) * r.t));
    lemma_pairs(d, (((q.y * q.t) * q.t) * q.t), 1, ((r.x * r.z) * r.t));
    lemma_tensor(1, (((q.y * q.t) * q.t) * q.t), 1, 1, 1, ((r.y * r.y) * r.y));
    lemma_pairs(d, (((q.y * q.t) * q.t) * q.t), 1, ((r.y * r.y) * r.y));
    lemma_distribute(v449, v456, v457);
    lemma_distribute_sub(v449, v454, v455);
    lemma_distribute_sub(v449, 0, v453);
    lemma_tensor(1, (((q.x * q.z) * q.t) * q.t), 1, 1, 1, ((r.y * r.t) * r.t));
    lemma_pairs(1, (((q.x * q.z) * q.t) * q.t), d, ((r.y * r.t) * r.t));
    lemma_tensor(1, (((q.x * q.z) * q.t) * q.t), 1, 1, 1, ((r.x * r.z) * r.t));
    lemma_tensor(1, (((q.x * q.z) * q.t) * q.t), 1, 1, 1, ((r.y * r.y) * r.y));
    lemma_distribute(v451, v456, v457);
    lemma_distribute_sub(v451, v454, v455);
    lemma_distribute_sub(v451, 0, v453);
    lemma_tensor(1, (((q.y * q.y) * q.y) * q.t), 1, 1, 1, ((r.y * r.t) * r.t));
    lemma_pairs(1, (((q.y * q.y) * q.y) * q.t), d, ((r.y * r.t) * r.t));
    lemma_tensor(1, (((q.y * q.y) * q.y) * q.t), 1, 1, 1, ((r.x * r.z) * r.t));
    lemma_tensor(1, (((q.y * q.y) * q.y) * q.t), 1, 1, 1, ((r.y * r.y) * r.y));
    assert(((((0 - (d * (((q.y * q.t) * q.t) * q.t))) - (((q.x * q.z) * q.t) * q.t)) + (((q.y * q.y) * q.y) * q.t)) * (((0 - (d * ((r.y * r.t) * r.t))) - ((r.x * r.z) * r.t)) + ((r.y * r.y) * r.y))) == ((((((((((d * d) * ((((q.y * q.t) * q.t) * q.t) * ((r.y * r.t) * r.t))) + (d * ((((q.x * q.z) * q.t) * q.t) * ((r.y * r.t) * r.t)))) - (d * ((((q.y * q.y) * q.y) * q.t) * ((r.y * r.t) * r.t)))) + (d * ((((q.y * q.t) * q.t) * q.t) * ((r.x * r.z) * r.t)))) - (d * ((((q.y * q.t) * q.t) * q.t) * ((r.y * r.y) * r.y)))) + ((((q.x * q.z) * q.t) * q.t) * ((r.x * r.z) * r.t))) - ((((q.x * q.z) * q.t) * q.t) * ((r.y * r.y) * r.y))) - ((((q.y * q.y) * q.y) * q.t) * ((r.x * r.z) * r.t))) + ((((q.y * q.y) * q.y) * q.t) * ((r.y * r.y) * r.y))));
}

/// A term of the cross product, reduced.
proof fn lemma_term_24(d: int, p: Lift, q: Lift, r: Lift)
    requires
        reducible(p, d),
        reducible(q, d),
        reducible(r, d),
    ensures
        congruent((d * (((p.x * p.z) * p.t) * ((((q.y * q.z) * q.z) * q.t) * ((r.y * r.z) * r.z)))), (((((((((((d * d) * d) * (((p.x * p.z) * p.t) * ((((q.y * q.t) * q.t) * q.t) * ((r.y * r.t) * r.t)))) + ((d * d) * (((p.x * p.z) * p.t) * ((((q.x * q.z) * q.t) * q.t) * ((r.y * r.t) * r.t))))) - ((d * d) * (((p.x * p.z) * p.t) * ((((q.y * q.y) * q.y) * q.t) * ((r.y * r.t) * r.t))))) + ((d * d) * (((p.x * p.z) * p.t) * ((((q.y * q.t) * q.t) * q.t) * ((r.x * r.z) * r.t))))) - ((d * d) * (((p.x * p.z) * p.t) * ((((q.y * q.t) * q.t) * q.t) * ((r.y * r.y) * r.y))))) + (d * (((p.x * p.z) * p.t) * ((((q.x * q.z) * q.t) * q.t) * ((r.x * r.z) * r.t))))) - (d * (((p.x * p.z) * p.t) * ((((q.x * q.z) * q.t) * q.t) * ((r.y * r.y) * r.y))))) - (d * (((p.x * p.z) * p.t) * ((((q.y * q.y) * q.y) * q.t) * ((r.x * r.z) * r.t))))) + (d * (((p.x * p.z) * p.t) * ((((q.y * q.y) * q.y) * q.t) * ((r.y * r.y) * r.y)))))),
{
    lemma_point_0121(d, q);
    lemma_point_0120(d, r);
    lemma_congruent_mul((((q.y * q.z) * q.z) * q.t), (((0 - (d * (((q.y * q.t) * q.t) * q.t))) - (((q.x * q.z) * q.t) * q.t)) + (((q.y * q.y) * q.y) * q.t)), ((r.y * r.z) * r.z), (((0 - (d * ((r.y * r.t) * r.t))) - ((r.x * r.z) * r.t)) + ((r.y * r.y) * r.y)));
    lemma_congruent_mul(((p.x * p.z) * p.t), ((p.x * p.z) * p.t), ((((q.y * q.z) * q.z) * q.t) * ((r.y * r.z) * r.z)), ((((0 - (d * (((q.y * q.t) * q.t) * q.t))) - (((q.x * q.z) * q.t) * q.t)) + (((q.y * q.y) * q.y) * q.t)) * (((0 - (d * ((r.y * r.t) * r.t))) - ((r.x * r.z) * r.t)) + ((r.y * r.y) * r.y))));
    lemma_pair_20(d, q, r);
    let v459 = ((p.x * p.z) * p.t);
    let v461 = ((d * d) * ((((q.y * q.t) * q.t) * q.t) * ((r.y * r.t) * r.t)));
    let v463 = (d * ((((q.x * q.z) * q.t) * q.t) * ((r.y * r.t) * r.t)));
    let v464 = v461 + v463;
    let v465 = (d * ((((q.y * q.y) * q.y) * q.t) * ((r.y * r.t) * r.t)));
    let v466 = v464 - v465;
    let v467 = (d * ((((q.y * q.t) * q.t) * q.t) * ((r.x * r.z) * r.t)));
    let v468 = v466 + v467;
    let v469 = (d * ((((q.y * q.t) * q.t) * q.t) * ((r.y * r.y) * r.y)));
    let v470 = v468 - v469;
    let v471 = ((((q.x * q.z) * q.t) * q.t) * ((r.x * r.z) * r.t));
    let v472 = v470 + v471;
    let v473 = ((((q.x * q.z) * q.t) * q.t) * ((r.y * r.y) * r.y));
    let v474 = v472 - v473;
    let v475 = ((((q.y * q.y) * q.y) * q.t) * ((r.x * r.z) * r.t));
    let v476 = v474 - v475;
    let v477 = ((((q.y * q.y) * q.y) * q.t) * ((r.y * r.y) * r.y));
    let v478 = v476 + v477;
    lemma_distribute(v459, v476, v477);
    lemma_distribute_sub(v459, v474, v475);
    lemma_distribute_sub(v459, v472, v473);
    lemma_distribute(v459, v470, v471);
    lemma_distribute_sub(v459, v468, v469);
    lemma_distribute(v459, v466, v467);
    lemma_distribute_sub(v459, v464, v465);
    lemma_distribute(v459, v461, v463);
    lemma_tensor(((p.x * p.z) * p.t), 1, 1, 1, (((q.y * q.t) * q.t) * q.t), ((r.y * r.t) * r.t));
    lemma_pairs(1, ((p.x * p.z) * p.t), (d * d), ((((q.y * q.t) * q.t) * q.t) * ((r.y * r.t) * r.t)));
    lemma_tensor(((p.x * p.z) * p.t), 1, 1, 1, (((q.x * q.z) * q.t) * q.t), ((r.y * r.t) * r.t));
    lemma_pairs(1, ((p.x * p.z) * p.t), d, ((((q.x * q.z) * q.t) * q.t) * ((r.y * r.t) * r.t)));
    lemma_tensor(((p.x * p.z) * p.t), 1, 1, 1, (((q.y * q.y) * q.y) * q.t), ((r.y * r.t) * r.t));
    lemma_pairs(1, ((p.x * p.z) * p.t), d, ((((q.y * q.y) * q.y) * q.t) * ((r.y * r.t) * r.t)));
    lemma_tensor(((p.x * p.z) * p.t), 1, 1, 1, (((q.y * q.t) * q.t) * q.t), ((r.x * r.z) * r.t));
    lemma_pairs(1, ((p.x * p.z) * p.t), d, ((((q.y * q.t) * q.t) * q.t) * ((r.x * r.z) * r.t)));
    lemma_tensor(((p.x * p.z) * p.t), 1, 1, 1, (((q.y * q.t) * q.t) * q.t), ((r.y * r.y) * r.y));
    lemma_pairs(1, ((p.x * p.z) * p.t), d, ((((q.y * q.t) * q.t) * q.t) * ((r.y * r.y) * r.y)));
    lemma_tensor(((p.x * p.z) * p.t), 1, 1, 1, (((q.x * q.z) * q.t) * q.t), ((r.x * r.z) * r.t));
    lemma_tensor(((p.x * p.z) * p.t), 1, 1, 1, (((q.x * q.z) * q.t) * q.t), ((r.y * r.y) * r.y));
    lemma_tensor(((p.x * p.z) * p.t), 1, 1, 1, (((q.y * q.y) * q.y) * q.t), ((r.x * r.z) * r.t));
    lemma_tensor(((p.x * p.z) * p.t), 1, 1, 1, (((q.y * q.y) * q.y) * q.t), ((r.y * r.y) * r.y));
    assert((((p.x * p.z) * p.t) * ((((0 - (d * (((q.y * q.t) * q.t) * q.t))) - (((q.x * q.z) * q.t) * q.t)) + (((q.y * q.y) * q.y) * q.t)) * (((0 - (d * ((r.y * r.t) * r.t))) - ((r.x * r.z) * r.t)) + ((r.y * r.y) * r.y)))) == ((((((((((d * d) * (((p.x * p.z) * p.t) * ((((q.y * q.t) * q.t) * q.t) * ((r.y * r.t) * r.t)))) + (d * (((p.x * p.z) * p.t) * ((((q.x * q.z) * q.t) * q.t) * ((r.y * r.t) * r.t))))) - (d * (((p.x * p.z) * p.t) * ((((q.y * q.y) * q.y) * q.t) * ((r.y * r.t) * r.t))))) + (d * (((p.x * p.z) * p.t) * ((((q.y * q.t) * q.t) * q.t) * ((r.x * r.z) * r.t))))) - (d * (((p.x * p.z) * p.t) * ((((q.y * q.t) * q.t) * q.t) * ((r.y * r.y) * r.y))))) + (((p.x * p.z) * p.t) * ((((q.x * q.z) * q.t) * q.t) * ((r.x * r.z) * r.t)))) - (((p.x * p.z) * p.t) * ((((q.x * q.z) * q.t) * q.t) * ((r.y * r.y) * r.y)))) - (((p.x * p.z) * p.t) * ((((q.y * q.y) * q.y) * q.t) * ((r.x * r.z) * r.t)))) + (((p.x * p.z) * p.t) * ((((q.y * q.y) * q.y) * q.t) * ((r.y * r.y) * r.y)))));
    lemma_congruent_mul(d, d, (((p.x * p.z) * p.t) * ((((q.y * q.z) * q.z) * q.t) * ((r.y * r.z) * r.z))), (((p.x * p.z) * p.t) * ((((0 - (d * (((q.y * q.t) * q.t) * q.t))) - (((q.x * q.z) * q.t) * q.t)) + (((q.y * q.y) * q.y) * q.t)) * (((0 - (d * ((r.y * r.t) * r.t))) - ((r.x * r.z) * r.t)) + ((r.y * r.y) * r.y)))));
    let v479 = d;
    let v481 = ((d * d) * (((p.x * p.z) * p.t) * ((((q.y * q.t) * q.t) * q.t) * ((r.y * r.t) * r.t))));
    let v483 = (d * (((p.x * p.z) * p.t) * ((((q.x * q.z) * q.t) * q.t) * ((r.y * r.t) * r.t))));
    let v484 = v481 + v483;
    let v485 = (d * (((p.x * p.z) * p.t) * ((((q.y * q.y) * q.y) * q.t) * ((r.y * r.t) * r.t))));
    let v486 = v484 - v485;
    let v487 = (d * (((p.x * p.z) * p.t) * ((((q.y * q.t) * q.t) * q.t) * ((r.x * r.z) * r.t))));
    let v488 = v486 + v487;
    let v489 = (d * (((p.x * p.z) * p.t) * ((((q.y * q.t) * q.t) * q.t) * ((r.y * r.y) * r.y))));
    let v490 = v488 - v489;
    let v491 = (((p.x * p.z) * p.t) * ((((q.x * q.z) * q.t) * q.t) * ((r.x * r.z) * r.t)));
    let v492 = v490 + v491;
    let v493 = (((p.x * p.z) * p.t) * ((((q.x * q.z) * q.t) * q.t) * ((r.y * r.y) * r.y)));
    let v494 = v492 - v493;
    let v495 = (((p.x * p.z) * p.t) * ((((q.y * q.y) * q.y) * q.t) * ((r.x * r.z) * r.t)));
    let v496 = v494 - v495;
    let v497 = (((p.x * p.z) * p.t) * ((((q.y * q.y) * q.y) * q.t) * ((r.y * r.y) * r.y)));
    let v498 = v496 + v497;
    lemma_distribute(v479, v496, v497);
    lemma_distribute_sub(v479, v494, v495);
    lemma_distribute_sub(v479, v492, v493);
    lemma_distribute(v479, v490, v491);
    lemma_distribute_sub(v479, v488, v489);
    lemma_distribute(v479, v486, v487);
    lemma_distribute_sub(v479, v484, v485);
    lemma_distribute(v479, v481, v483);
    assert(d * (d * d) == ((d * d) * d)) by (nonlinear_arith);
    lemma_pairs(d, 1, (d * d), (((p.x * p.z) * p.t) * ((((q.y * q.t) * q.t) * q.t) * ((r.y * r.t) * r.t))));
    lemma_pairs(d, 1, d, (((p.x * p.z) * p.t) * ((((q.x * q.z) * q.t) * q.t) * ((r.y * r.t) * r.t))));
    lemma_pairs(d, 1, d, (((p.x * p.z) * p.t) * ((((q.y * q.y) * q.y) * q.t) * ((r.y * r.t) * r.t))));
    lemma_pairs(d, 1, d, (((p.x * p.z) * p.t) * ((((q.y * q.t) * q.t) * q.t) * ((r.x * r.z) * r.t))));
    lemma_pairs(d, 1, d, (((p.x * p.z) * p.t) * ((((q.y * q.t) * q.t) * q.t) * ((r.y * r.y) * r.y))));
    lemma_pairs(d, 1, 1, (((p.x * p.z) * p.t) * ((((q.x * q.z) * q.t) * q.t) * ((r.x * r.z) * r.t))));
    lemma_pairs(d, 1, 1, (((p.x * p.z) * p.t) * ((((q.x * q.z) * q.t) * q.t) * ((r.y * r.y) * r.y))));
    lemma_pairs(d, 1, 1, (((p.x * p.z) * p.t) * ((((q.y * q.y) * q.y) * q.t) * ((r.x * r.z) * r.t))));
    lemma_pairs(d, 1, 1, (((p.x * p.z) * p.t) * ((((q.y * q.y) * q.y) * q.t) * ((r.y * r.y) * r.y))));
    assert((d * (((p.x * p.z) * p.t) * ((((0 - (d * (((q.y * q.t) * q.t) * q.t))) - (((q.x * q.z) * q.t) * q.t)) + (((q.y * q.y) * q.y) * q.t)) * (((0 - (d * ((r.y * r.t) * r.t))) - ((r.x * r.z) * r.t)) + ((r.y * r.y) * r.y))))) == (((((((((((d * d) * d) * (((p.x * p.z) * p.t) * ((((q.y * q.t) * q.t) * q.t) * ((r.y * r.t) * r.t)))) + ((d * d) * (((p.x * p.z) * p.t) * ((((q.x * q.z) * q.t) * q.t) * ((r.y * r.t) * r.t))))) - ((d * d) * (((p.x * p.z) * p.t) * ((((q.y * q.y) * q.y) * q.t) * ((r.y * r.t) * r.t))))) + ((d * d) * (((p.x * p.z) * p.t) * ((((q.y * q.t) * q.t) * q.t) * ((r.x * r.z) * r.t))))) - ((d * d) * (((p.x * p.z) * p.t) * ((((q.y * q.t) * q.t) * q.t) * ((r.y * r.y) * r.y))))) + (d * (((p.x * p.z) * p.t) * ((((q.x * q.z) * q.t) * q.t) * ((r.x * r.z) * r.t))))) - (d * (((p.x * p.z) * p.t) * ((((q.x * q.z) * q.t) * q.t) * ((r.y * r.y) * r.y))))) - (d * (((p.x * p.z) * p.t) * ((((q.y * q.y) * q.y) * q.t) * ((r.x * r.z) * r.t))))) + (d * (((p.x * p.z) * p.t) * ((((q.y * q.y) * q.y) * q.t) * ((r.y * r.y) * r.y))))));
}

/// A term of the cross product, reduced.
proof fn lemma_term_25(d: int, p: Lift, q: Lift, r: Lift)
    requires
        reducible(p, d),
        reducible(q, d),
        reducible(r, d),
    ensures
        congruent((d * (((p.y * p.z) * p.t) * ((((q.x * q.x) * q.x) * q.z) * ((r.x * r.y) * r.y)))), (d * (((p.y * p.z) * p.t) * ((((q.x * q.x) * q.x) * q.z) * ((r.y * r.z) * r.t))))),
{
    lemma_point_1200(d, r);
    lemma_congruent_mul((((q.x * q.x) * q.x) * q.z), (((q.x * q.x) * q.x) * q.z), ((r.x * r.y) * r.y), ((r.y * r.z) * r.t));
    lemma_congruent_mul(((p.y * p.z) * p.t), ((p.y * p.z) * p.t), ((((q.x * q.x) * q.x) * q.z) * ((r.x * r.y) * r.y)), ((((q.x * q.x) * q.x) * q.z) * ((r.y * r.z) * r.t)));
    let v499 = ((p.y * p.z) * p.t);
    let v501 = ((((q.x * q.x) * q.x) * q.z) * ((r.y * r.z) * r.t));
    lemma_tensor(((p.y * p.z) * p.t), 1, 1, 1, (((q.x * q.x) * q.x) * q.z), ((r.y * r.z) * r.t));
    assert((((p.y * p.z) * p.t) * ((((q.x * q.x) * q.x) * q.z) * ((r.y * r.z) * r.t))) == (((p.y * p.z) * p.t) * ((((q.x * q.x) * q.x) * q.z) * ((r.y * r.z) * r.t))));
    lemma_congruent_mul(d, d, (((p.y * p.z) * p.t) * ((((q.x * q.x) * q.x) * q.z) * ((r.x * r.y) * r.y))), (((p.y * p.z) * p.t) * ((((q.x * q.x) * q.x) * q.z) * ((r.y * r.z) * r.t))));
    let v503 = d;
    let v505 = (((p.y * p.z) * p.t) * ((((q.x * q.x) * q.x) * q.z) * ((r.y * r.z) * r.t)));
    lemma_pairs(d, 1, 1, (((p.y * p.z) * p.t) * ((((q.x * q.x) * q.x) * q.z) * ((r.y * r.z) * r.t))));
    assert((d * (((p.y * p.z) * p.t) * ((((q.x * q.x) * q.x) * q.z) * ((r.y * r.z) * r.t)))) == (d * (((p.y * p.z) * p.t) * ((((q.x * q.x) * q.x) * q.z) * ((r.y * r.z) * r.t)))));
}

/// The product of the reduced monomials of the second and the third point,
/// term by term.
proof fn lemma_pair_22(d: int, q: Lift, r: Lift)
    ensures
        ((((0 - (d * (((q.x * q.t) * q.t) * q.t))) - (((q.x * q.x) * q.x) * q.t)) + (((q.y * q.z) * q.t) * q.t)) * ((r.x * r.z) * r.t)) == (((0 - (d * ((((q.x * q.t) * q.t) * q.t) * ((r.x * r.z) * r.t)))) - ((((q.x * q.x) * q.x) * q.t) * ((r.x * r.z) * r.t))) + ((((q.y * q.z) * q.t) * q.t) * ((r.x * r.z) * r.t))),
{
    let v507 = (d * (((q.x * q.t) * q.t) * q.t));
    let v508 = 0 - v507;
    let v509 = (((q.x * q.x) * q.x) * q.t);
    let v510 = v508 - v509;
    let v511 = (((q.y * q.z) * q.t) * q.t);
    let v512 = v510 + v511;
    let v513 = ((r.x * r.z) * r.t);
    lemma_distribute(v513, v510, v511);
    lemma_distribute_sub(v513, v508, v509);
    lemma_distribute_sub(v513, 0, v507);
    lemma_tensor(1, (((q.x * q.t) * q.t) * q.t), 1, 1, 1, ((r.x * r.z) * r.t));
    lemma_pairs(d, (((q.x * q.t) * q.t) * q.t), 1, ((r.x * r.z) * r.t));
    lemma_tensor(1, (((q.x * q.x) * q.x) * q.t), 1, 1, 1, ((r.x * r.z) * r.t));
    lemma_tensor(1, (((q.y * q.z) * q.t) * q.t), 1, 1, 1, ((r.x * r.z) * r.t));
    assert(((((0 - (d * (((q.x * q.t) * q.t) * q.t))) - (((q.x * q.x) * q.x) * q.t)) + (((q.y * q.z) * q.t) * q.t)) * ((r.x * r.z) * r.t)) == (((0 - (d * ((((q.x * q.t) * q.t) * q.t) * ((r.x * r.z) * r.t)))) - ((((q.x * q.x) * q.x) * q.t) * ((r.x * r.z) * r.t))) + ((((q.y * q.z) * q.t) * q.t) * ((r.x * r.z) * r.t))));
}

/// A term of the cross product, reduced.
proof fn lemma_term_26(d: int, p: Lift, q: Lift, r: Lift)
    requires
        reducible(p, d),
        reducible(q, d),
        reducible(r, d),
    ensures
        congruent((d * (((p.y * p.z) * p.t) * ((((q.x * q.x) * q.y) * q.z) * ((r.x * r.x) * r.y)))), (((0 - ((d * d) * (((p.y * p.z) * p.t) * ((((q.x * q.t) * q.t) * q.t) * ((r.x * r.z) * r.t))))) - (d * (((p.y * p.z) * p.t) * ((((q.x * q.x) * q.x) * q.t) * ((r.x * r.z) * r.t))))) + (d * (((p.y * p.z) * p.t) * ((((q.y * q.z) * q.t) * q.t) * ((r.x * r.z) * r.t)))))),
{
    lemma_point_2110(d, q);
    lemma_point_2100(d, r);
    lemma_congruent_mul((((q.x * q.x) * q.y) * q.z), (((0 - (d * (((q.x * q.t) * q.t) * q.t))) - (((q.x * q.x) * q.x) * q.t)) + (((q.y * q.z) * q.t) * q.t)), ((r.x * r.x) * r.y), ((r.x * r.z) * r.t));
    lemma_congruent_mul(((p.y * p.z) * p.t), ((p.y * p.z) * p.t), ((((q.x * q.x) * q.y) * q.z) * ((r.x * r.x) * r.y)), ((((0 - (d * (((q.x * q.t) * q.t) * q.t))) - (((q.x * q.x) * q.x) * q.t)) + (((q.y * q.z) * q.t) * q.t)) * ((r.x * r.z) * r.t)));
    lemma_pair_22(d, q, r);
    let v515 = ((p.y * p.z) * p.t);
    let v517 = (d * ((((q.x * q.t) * q.t) * q.t) * ((r.x * r.z) * r.t)));
    let v518 = 0 - v517;
    let v519 = ((((q.x * q.x) * q.x) * q.t) * ((r.x * r.z) * r.t));
    let v520 = v518 - v519;
    let v521 = ((((q.y * q.z) * q.t) * q.t) * ((r.x * r.z) * r.t));
    let v522 = v520 + v521;
    lemma_distribute(v515, v520, v521);
    lemma_distribute_sub(v515, v518, v519);
    lemma_distribute_sub(v515, 0, v517);
    lemma_tensor(((p.y * p.z) * p.t), 1, 1, 1, (((q.x * q.t) * q.t) * q.t), ((r.x * r.z) * r.t));
    lemma_pairs(1, ((p.y * p.z) * p.t), d, ((((q.x * q.t) * q.t) * q.t) * ((r.x * r.z) * r.t)));
    lemma_tensor(((p.y * p.z) * p.t), 1, 1, 1, (((q.x * q.x) * q.x) * q.t), ((r.x * r.z) * r.t));
    lemma_tensor(((p.y * p.z) * p.t), 1, 1, 1, (((q.y * q.z) * q.t) * q.t), ((r.x * r.z) * r.t));
    assert((((p.y * p.z) * p.t) * ((((0 - (d * (((q.x * q.t) * q.t) * q.t))) - (((q.x * q.x) * q.x) * q.t)) + (((q.y * q.z) * q.t) * q.t)) * ((r.x * r.z) * r.t))) == (((0 - (d * (((p.y * p.z) * p.t) * ((((q.x * q.t) * q.t) * q.t) * ((r.x * r.z) * r.t))))) - (((p.y * p.z) * p.t) * ((((q.x * q.x) * q.x) * q.t) * ((r.x * r.z) * r.t)))) + (((p.y * p.z) * p.t) * ((((q.y * q.z) * q.t) * q.t) * ((r.x * r.z) * r.t)))));
    lemma_congruent_mul(d, d, (((p.y * p.z) * p.t) * ((((q.x * q.x) * q.y) * q.z) * ((r.x * r.x) * r.y))), (((p.y * p.z) * p.t) * ((((0 - (d * (((q.x * q.t) * q.t) * q.t))) - (((q.x * q.x) * q.x) * q.t)) + (((q.y * q.z) * q.t) * q.t)) * ((r.x * r.z) * r.t))));
    let v523 = d;
    let v525 = (d * (((p.y * p.z) * p.t) * ((((q.x * q.t) * q.t) * q.t) * ((r.x * r.z) * r.t))));
    let v526 = 0 - v525;
    let v527 = (((p.y * p.z) * p.t) * ((((q.x * q.x) * q.x) * q.t) * ((r.x * r.z) * r.t)));
    let v528 = v526 - v527;
    let v529 = (((p.y * p.z) * p.t) * ((((q.y * q.z) * q.t) * q.t) * ((r.x * r.z) * r.t)));
    let v530 = v528 + v529;
    lemma_distribute(v523, v528, v529);
    lemma_distribute_sub(v523, v526, v527);
    lemma_distribute_sub(v523, 0, v525);
    lemma_pairs(d, 1, d, (((p.y * p.z) * p.t) * ((((q.x * q.t) * q.t) * q.t) * ((r.x * r.z) * r.t))));
    lemma_pairs(d, 1, 1, (((p.y * p.z) * p.t) * ((((q.x * q.x) * q.x) * q.t) * ((r.x * r.z) * r.t))));
    lemma_pairs(d, 1, 1, (((p.y * p.z) * p.t) * ((((q.y * q.z) * q.t) * q.t) * ((r.x * r.z) * r.t))));
    assert((d * (((p.y * p.z) * p.t) * ((((0 - (d * (((q.x * q.t) * q.t) * q.t))) - (((q.x * q.x) * q.x) * q.t)) + (((q.y * q.z) * q.t) * q.t)) * ((r.x * r.z) * r.t)))) == (((0 - ((d * d) * (((p.y * p.z) * p.t) * ((((q.x * q.t) * q.t) * q.t) * ((r.x * r.z) * r.t))))) - (d * (((p.y * p.z) * p.t) * ((((q.x * q.x) * q.x) * q.t) * ((r.x * r.z) * r.t))))) + (d * (((p.y * p.z) * p.t) * ((((q.y * q.z) * q.t) * q.t) * ((r.x * r.z) * r.t))))));
}

/// The product of the reduced monomials of the second and the third point,
/// term by term.
proof fn lemma_pair_23(d: int, q: Lift, r: Lift)
    ensures
        ((((0 - (d * (((q.x * q.t) * q.t) * q.t))) - (((q.x * q.x) * q.x) * q.t)) + (((q.y * q.z) * q.t) * q.t)) * ((r.y * r.y) * r.y)) == (((0 - (d * ((((q.x * q.t) * q.t) * q.t) * ((r.y * r.y) * r.y)))) - ((((q.x * q.x) * q.x) * q.t) * ((r.y * r.y) * r.y))) + ((((q.y * q.z) * q.t) * q.t) * ((r.y * r.y) * r.y))),
{
    let v531 = (d * (((q.x * q.t) * q.t) * q.t));
    let v532 = 0 - v531;
    let v533 = (((q.x * q.x) * q.x) * q.t);
    let v534 = v532 - v533;
    let v535 = (((q.y * q.z) * q.t) * q.t);
    let v536 = v534 + v535;
    let v537 = ((r.y * r.y) * r.y);
    lemma_distribute(v537, v534, v535);
    lemma_distribute_sub(v537, v532, v533);
    lemma_distribute_sub(v537, 0, v531);
    lemma_tensor(1, (((q.x * q.t) * q.t) * q.t), 1, 1, 1, ((r.y * r.y) * r.y));
    lemma_pairs(d, (((q.x * q.t) * q.t) * q.t), 1, ((r.y * r.y) * r.y));
    lemma_tensor(1, (((q.x * q.x) * q.x) * q.t), 1, 1, 1, ((r.y * r.y) * r.y));
    lemma_tensor(1, (((q.y * q.z) * q.t) * q.t), 1, 1, 1, ((r.y * r.y) * r.y));
    assert(((((0 - (d * (((q.x * q.t) * q.t) * q.t))) - (((q.x * q.x) * q.x) * q.t)) + (((q.y * q.z) * q.t) * q.t)) * ((r.y * r.y) * r.y)) == (((0 - (d * ((((q.x * q.t) * q.t) * q.t) * ((r.y * r.y) * r.y)))) - ((((q.x * q.x) * q.x) * q.t) * ((r.y * r.y) * r.y))) + ((((q.y * q.z) * q.t) * q.t) * ((r.y * r.y) * r.y))));
}

/// A term of the cross product, reduced.
proof fn lemma_term_27(d: int, p: Lift, q: Lift, r: Lift)
    requires
        reducible(p, d),
        reducible(q, d),
        reducible(r, d),
    ensures
        congruent((d * (((p.y * p.z) * p.t) * ((((q.x * q.x) * q.y) * q.z) * ((r.y * r.y) * r.y)))), (((0 - ((d * d) * (((p.y * p.z) * p.t) * ((((q.x * q.t) * q.t) * q.t) * ((r.y * r.y) * r.y))))) - (d * (((p.y * p.z) * p.t) * ((((q.x * q.x) * q.x) * q.t) * ((r.y * r.y) * r.y))))) + (d * (((p.y * p.z) * p.t) * ((((q.y * q.z) * q.t) * q.t) * ((r.y * r.y) * r.y)))))),
{
    lemma_point_2110(d, q);
    lemma_congruent_mul((((q.x * q.x) * q.y) * q.z), (((0 - (d * (((q.x * q.t) * q.t) * q.t))) - (((q.x * q.x) * q.x) * q.t)) + (((q.y * q.z) * q.t) * q.t)), ((r.y * r.y) * r.y), ((r.y * r.y) * r.y));
    lemma_congruent_mul(((p.y * p.z) * p.t), ((p.y * p.z) * p.t), ((((q.x * q.x) * q.y) * q.z) * ((r.y * r.y) * r.y)), ((((0 - (d * (((q.x * q.t) * q.t) * q.t))) - (((q.x * q.x) * q.x) * q.t)) + (((q.y * q.z) * q.t) * q.t)) * ((r.y * r.y) * r.y)));
    lemma_pair_23(d, q, r);
    let v539 = ((p.y * p.z) * p.t);
    let v541 = (d * ((((q.x * q.t) * q.t) * q.t) * ((r.y * r.y) * r.y)));
    let v542 = 0 - v541;
    let v543 = ((((q.x * q.x) * q.x) * q.t) * ((r.y * r.y) * r.y));
    let v544 = v542 - v543;
    let v545 = ((((q.y * q.z) * q.t) * q.t) * ((r.y * r.y) * r.y));
    let v546 = v544 + v545;
    lemma_distribute(v539, v544, v545);
    lemma_distribute_sub(v539, v542, v543);
    lemma_distribute_sub(v539, 0, v541);
    lemma_tensor(((p.y * p.z) * p.t), 1, 1, 1, (((q.x * q.t) * q.t) * q.t), ((r.y * r.y) * r.y));
    lemma_pairs(1, ((p.y * p.z) * p.t), d, ((((q.x * q.t) * q.t) * q.t) * ((r.y * r.y) * r.y)));
    lemma_tensor(((p.y * p.z) * p.t), 1, 1, 1, (((q.x * q.x) * q.x) * q.t), ((r.y * r.y) * r.y));
    lemma_tensor(((p.y * p.z) * p.t), 1, 1, 1, (((q.y * q.z) * q.t) * q.t), ((r.y * r.y) * r.y));
    assert((((p.y * p.z) * p.t) * ((((0 - (d * (((q.x * q.t) * q.t) * q.t))) - (((q.x * q.x) * q.x) * q.t)) + (((q.y * q.z) * q.t) * q.t)) * ((r.y * r.y) * r.y))) == (((0 - (d * (((p.y * p.z) * p.t) * ((((q.x * q.t) * q.t) * q.t) * ((r.y * r.y) * r.y))))) - (((p.y * p.z) * p.t) * ((((q.x * q.x) * q.x) * q.t) * ((r.y * r.y) * r.y)))) + (((p.y * p.z) * p.t) * ((((q.y * q.z) * q.t) * q.t) * ((r.y * r.y) * r.y)))));
    lemma_congruent_mul(d, d, (((p.y * p.z) * p.t) * ((((q.x * q.x) * q.y) * q.z) * ((r.y * r.y) * r.y))), (((p.y * p.z) * p.t) * ((((0 - (d * (((q.x * q.t) * q.t) * q.t))) - (((q.x * q.x) * q.x) * q.t)) + (((q.y * q.z) * q.t) * q.t)) * ((r.y * r.y) * r.y))));
    let v547 = d;
    let v549 = (d * (((p.y * p.z) * p.t) * ((((q.x * q.t) * q.t) * q.t) * ((r.y * r.y) * r.y))));
    let v550 = 0 - v549;
    let v551 = (((p.y * p.z) * p.t) * ((((q.x * q.x) * q.x) * q.t) * ((r.y * r.y) * r.y)));
    let v552 = v550 - v551;
    let v553 = (((p.y * p.z) * p.t) * ((((q.y * q.z) * q.t) * q.t) * ((r.y * r.y) * r.y)));
    let v554 = v552 + v553;
    lemma_distribute(v547, v552, v553);
    lemma_distribute_sub(v547, v550, v551);
    lemma_distribute_sub(v547, 0, v549);
    lemma_pairs(d, 1, d, (((p.y * p.z) * p.t) * ((((q.x * q.t) * q.t) * q.t) * ((r.y * r.y) * r.y))));
    lemma_pairs(d, 1, 1, (((p.y * p.z) * p.t) * ((((q.x * q.x) * q.x) * q.t) * ((r.y * r.y) * r.y))));
    lemma_pairs(d, 1, 1, (((p.y * p.z) * p.t) * ((((q.y * q.z) * q.t) * q.t) * ((r.y * r.y) * r.y))));
    assert((d * (((p.y * p.z) * p.t) * ((((0 - (d * (((q.x * q.t) * q.t) * q.t))) - (((q.x * q.x) * q.x) * q.t)) + (((q.y * q.z) * q.t) * q.t)) * ((r.y * r.y) * r.y)))) == (((0 - ((d * d) * (((p.y * p.z) * p.t) * ((((q.x * q.t) * q.t) * q.t) * ((r.y * r.y) * r.y))))) - (d * (((p.y * p.z) * p.t) * ((((q.x * q.x) * q.x) * q.t) * ((r.y * r.y) * r.y))))) + (d * (((p.y * p.z) * p.t) * ((((q.y * q.z) * q.t) * q.t) * ((r.y * r.y) * r.y))))));
}

/// The product of the reduced monomials of the second and the third point,
/// term by term.
proof fn lemma_pair_24(d: int, q: Lift, r: Lift)
    ensures
        ((((0 - (d * (((q.y * q.t) * q.t) * q.t))) - (((q.x * q.z) * q.t) * q.t)) + (((q.y * q.y) * q.y) * q.t)) * ((r.x * r.x) * r.x)) == (((0 - (d * ((((q.y * q.t) * q.t) * q.t) * ((r.x * r.x) * r.x)))) - ((((q.x * q.z) * q.t) * q.t) * ((r.x * r.x) * r.x))) + ((((q.y * q.y) * q.y) * q.t) * ((r.x * r.x) * r.x))),
{
    let v555 = (d * (((q.y * q.t) * q.t) * q.t));
    let v556 = 0 - v555;
    let v557 = (((q.x * q.z) * q.t) * q.t);
    let v558 = v556 - v557;
    let v559 = (((q.y * q.y) * q.y) * q.t);
    let v560 = v558 + v559;
    let v561 = ((r.x * r.x) * r.x);
    lemma_distribute(v561, v558, v559);
    lemma_distribute_sub(v561, v556, v557);
    lemma_distribute_sub(v561, 0, v555);
    lemma_tensor(1, (((q.y * q.t) * q.t) * q.t), 1, 1, 1, ((r.x * r.x) * r.x));
    lemma_pairs(d, (((q.y * q.t) * q.t) * q.t), 1, ((r.x * r.x) * r.x));
    lemma_tensor(1, (((q.x * q.z) * q.t) * q.t), 1, 1, 1, ((r.x * r.x) * r.x));
    lemma_tensor(1, (((q.y * q.y) * q.y) * q.t), 1, 1, 1, ((r.x * r.x) * r.x));
    assert(((((0 - (d * (((q.y * q.t) * q.t) * q.t))) - (((q.x * q.z) * q.t) * q.t)) + (((q.y * q.y) * q.y) * q.t)) * ((r.x * r.x) * r.x)) == (((0 - (d * ((((q.y * q.t) * q.t) * q.t) * ((r.x * r.x) * r.x)))) - ((((q.x * q.z) * q.t) * q.t) * ((r.x * r.x) * r.x))) + ((((q.y * q.y) * q.y) * q.t) * ((r.x * r.x) * r.x))));
}

/// A term of the cross product, reduced.
proof fn lemma_term_28(d: int, p: Lift, q: Lift, r: Lift)
    requires
        reducible(p, d),
        reducible(q, d),
        reducible(r, d),
    ensures
        congruent((d * (((p.y * p.z) * p.t) * ((((q.x * q.y) * q.y) * q.z) * ((r.x * r.x) * r.x)))), (((0 - ((d * d) * (((p.y * p.z) * p.t) * ((((q.y * q.t) * q.t) * q.t) * ((r.x * r.x) * r.x))))) - (d * (((p.y * p.z) * p.t) * ((((q.x * q.z) * q.t) * q.t) * ((r.x * r.x) * r.x))))) + (d * (((p.y * p.z) * p.t) * ((((q.y * q.y) * q.y) * q.t) * ((r.x * r.x) * r.x)))))),
{
    lemma_point_1210(d, q);
    lemma_congruent_mul((((q.x * q.y) * q.y) * q.z), (((0 - (d * (((q.y * q.t) * q.t) * q.t))) - (((q.x * q.z) * q.t) * q.t)) + (((q.y * q.y) * q.y) * q.t)), ((r.x * r.x) * r.x), ((r.x * r.x) * r.x));
    lemma_congruent_mul(((p.y * p.z) * p.t), ((p.y * p.z) * p.t), ((((q.x * q.y) * q.y) * q.z) * ((r.x * r.x) * r.x)), ((((0 - (d * (((q.y * q.t) * q.t) * q.t))) - (((q.x * q.z) * q.t) * q.t)) + (((q.y * q.y) * q.y) * q.t)) * ((r.x * r.x) * r.x)));
    lemma_pair_24(d, q, r);
    let v563 = ((p.y * p.z) * p.t);
    let v565 = (d * ((((q.y * q.t) * q.t) * q.t) * ((r.x * r.x) * r.x)));
    let v566 = 0 - v565;
    let v567 = ((((q.x * q.z) * q.t) * q.t) * ((r.x * r.x) * r.x));
    let v568 = v566 - v567;
    let v569 = ((((q.y * q.y) * q.y) * q.t) * ((r.x * r.x) * r.x));
    let v570 = v568 + v569;
    lemma_distribute(v563, v568, v569);
    lemma_distribute_sub(v563, v566, v567);
    lemma_distribute_sub(v563, 0, v565);
    lemma_tensor(((p.y * p.z) * p.t), 1, 1, 1, (((q.y * q.t) * q.t) * q.t), ((r.x * r.x) * r.x));
    lemma_pairs(1, ((p.y * p.z) * p.t), d, ((((q.y * q.t) * q.t) * q.t) * ((r.x * r.x) * r.x)));
    lemma_tensor(((p.y * p.z) * p.t), 1, 1, 1, (((q.x * q.z) * q.t) * q.t), ((r.x * r.x) * r.x));
    lemma_tensor(((p.y * p.z) * p.t), 1, 1, 1, (((q.y * q.y) * q.y) * q.t), ((r.x * r.x) * r.x));
    assert((((p.y * p.z) * p.t) * ((((0 - (d * (((q.y * q.t) * q.t) * q.t))) - (((q.x * q.z) * q.t) * q.t)) + (((q.y * q.y) * q.y) * q.t)) * ((r.x * r.x) * r.x))) == (((0 - (d * (((p.y * p.z) * p.t) * ((((q.y * q.t) * q.t) * q.t) * ((r.x * r.x) * r.x))))) - (((p.y * p.z) * p.t) * ((((q.x * q.z) * q.t) * q.t) * ((r.x * r.x) * r.x)))) + (((p.y * p.z) * p.t) * ((((q.y * q.y) * q.y) * q.t) * ((r.x * r.x) * r.x)))));
    lemma_congruent_mul(d, d, (((p.y * p.z) * p.t) * ((((q.x * q.y) * q.y) * q.z) * ((r.x * r.x) * r.x))), (((p.y * p.z) * p.t) * ((((0 - (d * (((q.y * q.t) * q.t) * q.t))) - (((q.x * q.z) * q.t) * q.t)) + (((q.y * q.y) * q.y) * q.t)) * ((r.x * r.x) * r.x))));
    let v571 = d;
    let v573 = (d * (((p.y * p.z) * p.t) * ((((q.y * q.t) * q.t) * q.t) * ((r.x * r.x) * r.x))));
    let v574 = 0 - v573;
    let v575 = (((p.y * p.z) * p.t) * ((((q.x * q.z) * q.t) * q.t) * ((r.x * r.x) * r.x)));
    let v576 = v574 - v575;
    let v577 = (((p.y * p.z) * p.t) * ((((q.y * q.y) * q.y) * q.t) * ((r.x * r.x) * r.x)));
    let v578 = v576 + v577;
    lemma_distribute(v571, v576, v577);
    lemma_distribute_sub(v571, v574, v575);
    lemma_distribute_sub(v571, 0, v573);
    lemma_pairs(d, 1, d, (((p.y * p.z) * p.t) * ((((q.y * q.t) * q.t) * q.t) * ((r.x * r.x) * r.x))));
    lemma_pairs(d, 1, 1, (((p.y * p.z) * p.t) * ((((q.x * q.z) * q.t) * q.t) * ((r.x * r.x) * r.x))));
    lemma_pairs(d, 1, 1, (((p.y * p.z) * p.t) * ((((q.y * q.y) * q.y) * q.t) * ((r.x * r.x) * r.x))));
    assert((d * (((p.y * p.z) * p.t) * ((((0 - (d * (((q.y * q.t) * q.t) * q.t))) - (((q.x * q.z) * q.t) * q.t)) + (((q.y * q.y) * q.y) * q.t)) * ((r.x * r.x) * r.x)))) == (((0 - ((d * d) * (((p.y * p.z) * p.t) * ((((q.y * q.t) * q.t) * q.t) * ((r.x * r.x) * r.x))))) - (d * (((p.y * p.z) * p.t) * ((((q.x * q.z) * q.t) * q.t) * ((r.x * r.x) * r.x))))) + (d * (((p.y * p.z) * p.t) * ((((q.y * q.y) * q.y) * q.t) * ((r.x * r.x) * r.x))))));
}

/// The product of the reduced monomials of the second and the third point,
/// term by term.
proof fn lemma_pair_25(d: int, q: Lift, r: Lift)
    ensures
        ((((0 - (d * (((q.y * q.t) * q.t) * q.t))) - (((q.x * q.z) * q.t) * q.t)) + (((q.y * q.y) * q.y) * q.t)) * ((r.y * r.z) * r.t)) == (((0 - (d * ((((q.y * q.t) * q.t) * q.t) * ((r.y * r.z) * r.t)))) - ((((q.x * q.z) * q.t) * q.t) * ((r.y * r.z) * r.t))) + ((((q.y * q.y) * q.y) * q.t) * ((r.y * r.z) * r.t))),
{
    let v579 = (d * (((q.y * q.t) * q.t) * q.t));
    let v580 = 0 - v579;
    let v581 = (((q.x * q.z) * q.t) * q.t);
    let v582 = v580 - v581;
    let v583 = (((q.y * q.y) * q.y) * q.t);
    let v584 = v582 + v583;
    let v585 = ((r.y * r.z) * r.t);
    lemma_distribute(v585, v582, v583);
    lemma_distribute_sub(v585, v580, v581);
    lemma_distribute_sub(v585, 0, v579);
    lemma_tensor(1, (((q.y * q.t) * q.t) * q.t), 1, 1, 1, ((r.y * r.z) * r.t));
    lemma_pairs(d, (((q.y * q.t) * q.t) * q.t), 1, ((r.y * r.z) * r.t));
    lemma_tensor(1, (((q.x * q.z) * q.t) * q.t), 1, 1, 1, ((r.y * r.z) * r.t));
    lemma_tensor(1, (((q.y * q.y) * q.y) * q.t), 1, 1, 1, ((r.y * r.z) * r.t));
    assert(((((0 - (d * (((q.y * q.t) * q.t) * q.t))) - (((q.x * q.z) * q.t) * q.t)) + (((q.y * q.y) * q.y) * q.t)) * ((r.y * r.z) * r.t)) == (((0 - (d * ((((q.y * q.t) * q.t) * q.t) * ((r.y * r.z) * r.t)))) - ((((q.x * q.z) * q.t) * q.t) * ((r.y * r.z) * r.t))) + ((((q.y * q.y) * q.y) * q.t) * ((r.y * r.z) * r.t))));
}

/// A term of the cross product, reduced.
proof fn lemma_term_29(d: int, p: Lift, q: Lift, r: Lift)
    requires
        reducible(p, d),
        reducible(q, d),
        reducible(r, d),
    ensures
        congruent((d * (((p.y * p.z) * p.t) * ((((q.x * q.y) * q.y) * q.z) * ((r.x * r.y) * r.y)))), (((0 - ((d * d) * (((p.y * p.z) * p.t) * ((((q.y * q.t) * q.t) * q.t) * ((r.y * r.z) * r.t))))) - (d * (((p.y * p.z) * p.t) * ((((q.x * q.z) * q.t) * q.t) * ((r.y * r.z) * r.t))))) + (d * (((p.y * p.z) * p.t) * ((((q.y * q.y) * q.y) * q.t) * ((r.y * r.z) * r.t)))))),
{
    lemma_point_1210(d, q);
    lemma_point_1200(d, r);
    lemma_congruent_mul((((q.x * q.y) * q.y) * q.z), (((0 - (d * (((q.y * q.t) * q.t) * q.t))) - (((q.x * q.z) * q.t) * q.t)) + (((q.y * q.y) * q.y) * q.t)), ((r.x * r.y) * r.y), ((r.y * r.z) * r.t));
    lemma_congruent_mul(((p.y * p.z) * p.t), ((p.y * p.z) * p.t), ((((q.x * q.y) * q.y) * q.z) * ((r.x * r.y) * r.y)), ((((0 - (d * (((q.y * q.t) * q.t) * q.t))) - (((q.x * q.z) * q.t) * q.t)) + (((q.y * q.y) * q.y) * q.t)) * ((r.y * r.z) * r.t)));
    lemma_pair_25(d, q, r);
    let v587 = ((p.y * p.z) * p.t);
    let v589 = (d * ((((q.y * q.t) * q.t) * q.t) * ((r.y * r.z) * r.t)));
    let v590 = 0 - v589;
    let v591 = ((((q.x * q.z) * q.t) * q.t) * ((r.y * r.z) * r.t));
    let v592 = v590 - v591;
    let v593 = ((((q.y * q.y) * q.y) * q.t) * ((r.y * r.z) * r.t));
    let v594 = v592 + v593;
    lemma_distribute(v587, v592, v593);
    lemma_distribute_sub(v587, v590, v591);
    lemma_distribute_sub(v587, 0, v589);
    lemma_tensor(((p.y * p.z) * p.t), 1, 1, 1, (((q.y * q.t) * q.t) * q.t), ((r.y * r.z) * r.t));
    lemma_pairs(1, ((p.y * p.z) * p.t), d, ((((q.y * q.t) * q.t) * q.t) * ((r.y * r.z) * r.t)));
    lemma_tensor(((p.y * p.z) * p.t), 1, 1, 1, (((q.x * q.z) * q.t) * q.t), ((r.y * r.z) * r.t));
    lemma_tensor(((p.y * p.z) * p.t), 1, 1, 1, (((q.y * q.y) * q.y) * q.t), ((r.y * r.z) * r.t));
    assert((((p.y * p.z) * p.t) * ((((0 - (d * (((q.y * q.t) * q.t) * q.t))) - (((q.x * q.z) * q.t) * q.t)) + (((q.y * q.y) * q.y) * q.t)) * ((r.y * r.z) * r.t))) == (((0 - (d * (((p.y * p.z) * p.t) * ((((q.y * q.t) * q.t) * q.t) * ((r.y * r.z) * r.t))))) - (((p.y * p.z) * p.t) * ((((q.x * q.z) * q.t) * q.t) * ((r.y * r.z) * r.t)))) + (((p.y * p.z) * p.t) * ((((q.y * q.y) * q.y) * q.t) * ((r.y * r.z) * r.t)))));
    lemma_congruent_mul(d, d, (((p.y * p.z) * p.t) * ((((q.x * q.y) * q.y) * q.z) * ((r.x * r.y) * r.y))), (((p.y * p.z) * p.t) * ((((0 - (d * (((q.y * q.t) * q.t) * q.t))) - (((q.x * q.z) * q.t) * q.t)) + (((q.y * q.y) * q.y) * q.t)) * ((r.y * r.z) * r.t))));
    let v595 = d;
    let v597 = (d * (((p.y * p.z) * p.t) * ((((q.y * q.t) * q.t) * q.t) * ((r.y * r.z) * r.t))));
    let v598 = 0 - v597;
    let v599 = (((p.y * p.z) * p.t) * ((((q.x * q.z) * q.t) * q.t) * ((r.y * r.z) * r.t)));
    let v600 = v598 - v599;
    let v601 = (((p.y * p.z) * p.t) * ((((q.y * q.y) * q.y) * q.t) * ((r.y * r.z) * r.t)));
    let v602 = v600 + v601;
    lemma_distribute(v595, v600, v601);
    lemma_distribute_sub(v595, v598, v599);
    lemma_distribute_sub(v595, 0, v597);
    lemma_pairs(d, 1, d, (((p.y * p.z) * p.t) * ((((q.y * q.t) * q.t) * q.t) * ((r.y * r.z) * r.t))));
    lemma_pairs(d, 1, 1, (((p.y * p.z) * p.t) * ((((q.x * q.z) * q.t) * q.t) * ((r.y * r.z) * r.t))));
    lemma_pairs(d, 1, 1, (((p.y * p.z) * p.t) * ((((q.y * q.y) * q.y) * q.t) * ((r.y * r.z) * r.t))));
    assert((d * (((p.y * p.z) * p.t) * ((((0 - (d * (((q.y * q.t) * q.t) * q.t))) - (((q.x * q.z) * q.t) * q.t)) + (((q.y * q.y) * q.y) * q.t)) * ((r.y * r.z) * r.t)))) == (((0 - ((d * d) * (((p.y * p.z) * p.t) * ((((q.y * q.t) * q.t) * q.t) * ((r.y * r.z) * r.t))))) - (d * (((p.y * p.z) * p.t) * ((((q.x * q.z) * q.t) * q.t) * ((r.y * r.z) * r.t))))) + (d * (((p.y * p.z) * p.t) * ((((q.y * q.y) * q.y) * q.t) * ((r.y * r.z) * r.t))))));
}

/// The product of the reduced monomials of the second and the third point,
/// term by term.
proof fn lemma_pair_26(d: int, q: Lift, r: Lift)
    ensures
        ((((0 - (d * (((q.x * q.t) * q.t) * q.t))) - (((q.x * q.x) * q.x) * q.t)) + (((q.y * q.z) * q.t) * q.t)) * (((0 - (d * ((r.y * r.t) * r.t))) - ((r.x * r.z) * r.t)) + ((r.y * r.y) * r.y))) == ((((((((((d * d) * ((((q.x * q.t) * q.t) * q.t) * ((r.y * r.t) * r.t))) + (d * ((((q.x * q.x) * q.x) * q.t) * ((r.y * r.t) * r.t)))) + (d * ((((q.x * q.t) * q.t) * q.t) * ((r.x * r.z) * r.t)))) - (d * ((((q.x * q.t) * q.t) * q.t) * ((r.y * r.y) * r.y)))) - (d * ((((q.y * q.z) * q.t) * q.t) * ((r.y * r.t) * r.t)))) + ((((q.x * q.x) * q.x) * q.t) * ((r.x * r.z) * r.t))) - ((((q.x * q.x) * q.x) * q.t) * ((r.y * r.y) * r.y))) - ((((q.y * q.z) * q.t) * q.t) * ((r.x * r.z) * r.t))) + ((((q.y * q.z) * q.t) * q.t) * ((r.y * r.y) * r.y))),
{
    let v603 = (d * (((q.x * q.t) * q.t) * q.t));
    let v604 = 0 - v603;
    let v605 = (((q.x * q.x) * q.x) * q.t);
    let v606 = v604 - v605;
    let v607 = (((q.y * q.z) * q.t) * q.t);
    let v608 = v606 + v607;
    let v609 = (d * ((r.y * r.t) * r.t));
    let v610 = 0 - v609;
    let v611 = ((r.x * r.z) * r.t);
    let v612 = v610 - v611;
    let v613 = ((r.y * r.y) * r.y);
    let v614 = v612 + v613;
    lemma_distribute(v614, v606, v607);
    lemma_distribute_sub(v614, v604, v605);
    lemma_distribute_sub(v614, 0, v603);
    lemma_distribute(v603, v612, v613);
    lemma_distribute_sub(v603, v610, v611);
    lemma_distribute_sub(v603, 0, v609);
    lemma_tensor(1, (((q.x * q.t) * q.t) * q.t), 1, 1, 1, ((r.y * r.t) * r.t));
    lemma_pairs(d, (((q.x * q.t) * q.t) * q.t), d, ((r.y * r.t) * r.t));
    lemma_tensor(1, (((q.x * q.t) * q.t) * q.t), 1, 1, 1, ((r.x * r.z) * r.t));
    lemma_pairs(d, (((q.x * q.t) * q.t) * q.t), 1, ((r.x * r.z) * r.t));
    lemma_tensor(1, (((q.x * q.t) * q.t) * q.t), 1, 1, 1, ((r.y * r.y) * r.y));
    lemma_pairs(d, (((q.x * q.t) * q.t) * q.t), 1, ((r.y * r.y) * r.y));
    lemma_distribute(v605, v612, v613);
    lemma_distribute_sub(v605, v610, v611);
    lemma_distribute_sub(v605, 0, v609);
    lemma_tensor(1, (((q.x * q.x) * q.x) * q.t), 1, 1, 1, ((r.y * r.t) * r.t));
    lemma_pairs(1, (((q.x * q.x) * q.x) * q.t), d, ((r.y * r.t) * r.t));
    lemma_tensor(1, (((q.x * q.x) * q.x) * q.t), 1, 1, 1, ((r.x * r.z) * r.t));
    lemma_tensor(1, (((q.x * q.x) * q.x) * q.t), 1, 1, 1, ((r.y * r.y) * r.y));
    lemma_distribute(v607, v612, v613);
    lemma_distribute_sub(v607, v610, v611);
    lemma_distribute_sub(v607, 0, v609);
    lemma_tensor(1, (((q.y * q.z) * q.t) * q.t), 1, 1, 1, ((r.y * r.t) * r.t));
    lemma_pairs(1, (((q.y * q.z) * q.t) * q.t), d, ((r.y * r.t) * r.t));
    lemma_tensor(1, (((q.y * q.z) * q.t) * q.t), 1, 1, 1, ((r.x * r.z) * r.t));
    lemma_tensor(1, (((q.y * q.z) * q.t) * q.t), 1, 1, 1, ((r.y * r.y) * r.y));
    assert(((((0 - (d * (((q.x * q.t) * q.t) * q.t))) - (((q.x * q.x) * q.x) * q.t)) + (((q.y * q.z) * q.t) * q.t)) * (((0 - (d * ((r.y * r.t) * r.t))) - ((r.x * r.z) * r.t)) + ((r.y * r.y) * r.y))) == ((((((((((d * d) * ((((q.x * q.t) * q.t) * q.t) * ((r.y * r.t) * r.t))) + (d * ((((q.x * q.x) * q.x) * q.t) * ((r.y * r.t) * r.t)))) + (d * ((((q.x * q.t) * q.t) * q.t) * ((r.x * r.z) * r.t)))) - (d * ((((q.x * q.t) * q.t) * q.t) * ((r.y * r.y) * r.y)))) - (d * ((((q.y * q.z) * q.t) * q.t) * ((r.y * r.t) * r.t)))) + ((((q.x * q.x) * q.x) * q.t) * ((r.x * r.z) * r.t))) - ((((q.x * q.x) * q.x) * q.t) * ((r.y * r.y) * r.y))) - ((((q.y * q.z) * q.t) * q.t) * ((r.x * r.z) * r.t))) + ((((q.y * q.z) * q.t) * q.t) * ((r.y * r.y) * r.y))));
}

/// A term of the cross product, reduced.
proof fn lemma_term_30(d: int, p: Lift, q: Lift, r: Lift)
    requires
        reducible(p, d),
        reducible(q, d),
        reducible(r, d),
    ensures
        congruent((d * (((p.y * p.z) * p.t) * ((((q.x * q.z) * q.z) * q.t) * ((r.y * r.z) * r.z)))), (((((((((((d * d) * d) * (((p.y * p.z) * p.t) * ((((q.x * q.t) * q.t) * q.t) * ((r.y * r.t) * r.t)))) + ((d * d) * (((p.y * p.z) * p.t) * ((((q.x * q.x) * q.x) * q.t) * ((r.y * r.t) * r.t))))) + ((d * d) * (((p.y * p.z) * p.t) * ((((q.x * q.t) * q.t) * q.t) * ((r.x * r.z) * r.t))))) - ((d * d) * (((p.y * p.z) * p.t) * ((((q.x * q.t) * q.t) * q.t) * ((r.y * r.y) * r.y))))) - ((d * d) * (((p.y * p.z) * p.t) * ((((q.y * q.z) * q.t) * q.t) * ((r.y * r.t) * r.t))))) + (d * (((p.y * p.z) * p.t) * ((((q.x * q.x) * q.x) * q.t) * ((r.x * r.z) * r.t))))) - (d * (((p.y * p.z) * p.t) * ((((q.x * q.x) * q.x) * q.t) * ((r.y * r.y) * r.y))))) - (d * (((p.y * p.z) * p.t) * ((((q.y * q.z) * q.t) * q.t) * ((r.x * r.z) * r.t))))) + (d * (((p.y * p.z) * p.t) * ((((q.y * q.z) * q.t) * q.t) * ((r.y * r.y) * r.y)))))),
{
    lemma_point_1021(d, q);
    lemma_point_0120(d, r);
    lemma_congruent_mul((((q.x * q.z) * q.z) * q.t), (((0 - (d * (((q.x * q.t) * q.t) * q.t))) - (((q.x * q.x) * q.x) * q.t)) + (((q.y * q.z) * q.t) * q.t)), ((r.y * r.z) * r.z), (((0 - (d * ((r.y * r.t) * r.t))) - ((r.x * r.z) * r.t)) + ((r.y * r.y) * r.y)));
    lemma_congruent_mul(((p.y * p.z) * p.t), ((p.y * p.z) * p.t), ((((q.x * q.z) * q.z) * q.t) * ((r.y * r.z) * r.z)), ((((0 - (d * (((q.x * q.t) * q.t) * q.t))) - (((q.x * q.x) * q.x) * q.t)) + (((q.y * q.z) * q.t) * q.t)) * (((0 - (d * ((r.y * r.t) * r.t))) - ((r.x * r.z) * r.t)) + ((r.y * r.y) * r.y))));
    lemma_pair_26(d, q, r);
    let v615 = ((p.y * p.z) * p.t);
    let v617 = ((d * d) * ((((q.x * q.t) * q.t) * q.t) * ((r.y * r.t) * r.t)));
    let v619 = (d * ((((q.x * q.x) * q.x) * q.t) * ((r.y * r.t) * r.t)));
    let v620 = v617 + v619;
    let v621 = (d * ((((q.x * q.t) * q.t) * q.t) * ((r.x * r.z) * r.t)));
    let v622 = v620 + v621;
    let v623 = (d * ((((q.x * q.t) * q.t) * q.t) * ((r.y * r.y) * r.y)));
    let v624 = v622 - v623;
    let v625 = (d * ((((q.y * q.z) * q.t) * q.t) * ((r.y * r.t) * r.t)));
    let v626 = v624 - v625;
    let v627 = ((((q.x * q.x) * q.x) * q.t) * ((r.x * r.z) * r.t));
    let v628 = v626 + v627;
    let v629 = ((((q.x * q.x) * q.x) * q.t) * ((r.y * r.y) * r.y));
    let v630 = v628 - v629;
    let v631 = ((((q.y * q.z) * q.t) * q.t) * ((r.x * r.z) * r.t));
    let v632 = v630 - v631;
    let v633 = ((((q.y * q.z) * q.t) * q.t) * ((r.y * r.y) * r.y));
    let v634 = v632 + v633;
    lemma_distribute(v615, v632, v633);
    lemma_distribute_sub(v615, v630, v631);
    lemma_distribute_sub(v615, v628, v629);
    lemma_distribute(v615, v626, v627);
    lemma_distribute_sub(v615, v624, v625);
    lemma_distribute_sub(v615, v622, v623);
    lemma_distribute(v615, v620, v621);
    lemma_distribute(v615, v617, v619);
    lemma_tensor(((p.y * p.z) * p.t), 1, 1, 1, (((q.x * q.t) * q.t) * q.t), ((r.y * r.t) * r.t));
    lemma_pairs(1, ((p.y * p.z) * p.t), (d * d), ((((q.x * q.t) * q.t) * q.t) * ((r.y * r.t) * r.t)));
    lemma_tensor(((p.y * p.z) * p.t), 1, 1, 1, (((q.x * q.x) * q.x) * q.t), ((r.y * r.t) * r.t));
    lemma_pairs(1, ((p.y * p.z) * p.t), d, ((((q.x * q.x) * q.x) * q.t) * ((r.y * r.t) * r.t)));
    lemma_tensor(((p.y * p.z) * p.t), 1, 1, 1, (((q.x * q.t) * q.t) * q.t), ((r.x * r.z) * r.t));
    lemma_pairs(1, ((p.y * p.z) * p.t), d, ((((q.x * q.t) * q.t) * q.t) * ((r.x * r.z) * r.t)));
    lemma_tensor(((p.y * p.z) * p.t), 1, 1, 1, (((q.x * q.t) * q.t) * q.t), ((r.y * r.y) * r.y));
    lemma_pairs(1, ((p.y * p.z) * p.t), d, ((((q.x * q.t) * q.t) * q.t) * ((r.y * r.y) * r.y)));
    lemma_tensor(((p.y * p.z) * p.t), 1, 1, 1, (((q.y * q.z) * q.t) * q.t), ((r.y * r.t) * r.t));
    lemma_pairs(1, ((p.y * p.z) * p.t), d, ((((q.y * q.z) * q.t) * q.t) * ((r.y * r.t) * r.t)));
    lemma_tensor(((p.y * p.z) * p.t), 1, 1, 1, (((q.x * q.x) * q.x) * q.t), ((r.x * r.z) * r.t));
    lemma_tensor(((p.y * p.z) * p.t), 1, 1, 1, (((q.x * q.x) * q.x) * q.t), ((r.y * r.y) * r.y));
    lemma_tensor(((p.y * p.z) * p.t), 1, 1, 1, (((q.y * q.z) * q.t) * q.t), ((r.x * r.z) * r.t));
    lemma_tensor(((p.y * p.z) * p.t), 1, 1, 1, (((q.y * q.z) * q.t) * q.t), ((r.y * r.y) * r.y));
    assert((((p.y * p.z) * p.t) * ((((0 - (d * (((q.x * q.t) * q.t) * q.t))) - (((q.x * q.x) * q.x) * q.t)) + (((q.y * q.z) * q.t) * q.t)) * (((0 - (d * ((r.y * r.t) * r.t))) - ((r.x * r.z) * r.t)) + ((r.y * r.y) * r.y)))) == ((((((((((d * d) * (((p.y * p.z) * p.t) * ((((q.x * q.t) * q.t) * q.t) * ((r.y * r.t) * r.t)))) + (d * (((p.y * p.z) * p.t) * ((((q.x * q.x) * q.x) * q.t) * ((r.y * r.t) * r.t))))) + (d * (((p.y * p.z) * p.t) * ((((q.x * q.t) * q.t) * q.t) * ((r.x * r.z) * r.t))))) - (d * (((p.y * p.z) * p.t) * ((((q.x * q.t) * q.t) * q.t) * ((r.y * r.y) * r.y))))) - (d * (((p.y * p.z) * p.t) * ((((q.y * q.z) * q.t) * q.t) * ((r.y * r.t) * r.t))))) + (((p.y * p.z) * p.t) * ((((q.x * q.x) * q.x) * q.t) * ((r.x * r.z) * r.t)))) - (((p.y * p.z) * p.t) * ((((q.x * q.x) * q.x) * q.t) * ((r.y * r.y) * r.y)))) - (((p.y * p.z) * p.t) * ((((q.y * q.z) * q.t) * q.t) * ((r.x * r.z) * r.t)))) + (((p.y * p.z) * p.t) * ((((q.y * q.z) * q.t) * q.t) * ((r.y * r.y) * r.y)))));
    lemma_congruent_mul(d, d, (((p.y * p.z) * p.t) * ((((q.x * q.z) * q.z) * q.t) * ((r.y * r.z) * r.z))), (((p.y * p.z) * p.t) * ((((0 - (d * (((q.x * q.t) * q.t) * q.t))) - (((q.x * q.x) * q.x) * q.t)) + (((q.y * q.z) * q.t) * q.t)) * (((0 - (d * ((r.y * r.t) * r.t))) - ((r.x * r.z) * r.t)) + ((r.y * r.y) * r.y)))));
    let v635 = d;
    let v637 = ((d * d) * (((p.y * p.z) * p.t) * ((((q.x * q.t) * q.t) * q.t) * ((r.y * r.t) * r.t))));
    let v639 = (d * (((p.y * p.z) * p.t) * ((((q.x * q.x) * q.x) * q.t) * ((r.y * r.t) * r.t))));
    let v640 = v637 + v639;
    let v641 = (d * (((p.y * p.z) * p.t) * ((((q.x * q.t) * q.t) * q.t) * ((r.x * r.z) * r.t))));
    let v642 = v640 + v641;
    let v643 = (d * (((p.y * p.z) * p.t) * ((((q.x * q.t) * q.t) * q.t) * ((r.y * r.y) * r.y))));
    let v644 = v642 - v643;
    let v645 = (d * (((p.y * p.z) * p.t) * ((((q.y * q.z) * q.t) * q.t) * ((r.y * r.t) * r.t))));
    let v646 = v644 - v645;
    let v647 = (((p.y * p.z) * p.t) * ((((q.x * q.x) * q.x) * q.t) * ((r.x * r.z) * r.t)));
    let v648 = v646 + v647;
    let v649 = (((p.y * p.z) * p.t) * ((((q.x * q.x) * q.x) * q.t) * ((r.y * r.y) * r.y)));
    let v650 = v648 - v649;
    let v651 = (((p.y * p.z) * p.t) * ((((q.y * q.z) * q.t) * q.t) * ((r.x * r.z) * r.t)));
    let v652 = v650 - v651;
    let v653 = (((p.y * p.z) * p.t) * ((((q.y * q.z) * q.t) * q.t) * ((r.y * r.y) * r.y)));
    let v654 = v652 + v653;
    lemma_distribute(v635, v652, v653);
    lemma_distribute_sub(v635, v650, v651);
    lemma_distribute_sub(v635, v648, v649);
    lemma_distribute(v635, v646, v647);
    lemma_distribute_sub(v635, v644, v645);
    lemma_distribute_sub(v635, v642, v643);
    lemma_distribute(v635, v640, v641);
    lemma_distribute(v635, v637, v639);
    assert(d * (d * d) == ((d * d) * d)) by (nonlinear_arith);
    lemma_pairs(d, 1, (d * d), (((p.y * p.z) * p.t) * ((((q.x * q.t) * q.t) * q.t) * ((r.y * r.t) * r.t))));
    lemma_pairs(d, 1, d, (((p.y * p.z) * p.t) * ((((q.x * q.x) * q.x) * q.t) * ((r.y * r.t) * r.t))));
    lemma_pairs(d, 1, d, (((p.y * p.z) * p.t) * ((((q.x * q.t) * q.t) * q.t) * ((r.x * r.z) * r.t))));
    lemma_pairs(d, 1, d, (((p.y * p.z) * p.t) * ((((q.x * q.t) * q.t) * q.t) * ((r.y * r.y) * r.y))));
    lemma_pairs(d, 1, d, (((p.y * p.z) * p.t) * ((((q.y * q.z) * q.t) * q.t) * ((r.y * r.t) * r.t))));
    lemma_pairs(d, 1, 1, (((p.y * p.z) * p.t) * ((((q.x * q.x) * q.x) * q.t) * ((r.x * r.z) * r.t))));
    lemma_pairs(d, 1, 1, (((p.y * p.z) * p.t) * ((((q.x * q.x) * q.x) * q.t) * ((r.y * r.y) * r.y))));
    lemma_pairs(d, 1, 1, (((p.y * p.z) * p.t) * ((((q.y * q.z) * q.t) * q.t) * ((r.x * r.z) * r.t))));
    lemma_pairs(d, 1, 1, (((p.y * p.z) * p.t) * ((((q.y * q.z) * q.t) * q.t) * ((r.y * r.y) * r.y))));
    assert((d * (((p.y * p.z) * p.t) * ((((0 - (d * (((q.x * q.t) * q.t) * q.t))) - (((q.x * q.x) * q.x) * q.t)) + (((q.y * q.z) * q.t) * q.t)) * (((0 - (d * ((r.y * r.t) * r.t))) - ((r.x * r.z) * r.t)) + ((r.y * r.y) * r.y))))) == (((((((((((d * d) * d) * (((p.y * p.z) * p.t) * ((((q.x * q.t) * q.t) * q.t) * ((r.y * r.t) * r.t)))) + ((d * d) * (((p.y * p.z) * p.t) * ((((q.x * q.x) * q.x) * q.t) * ((r.y * r.t) * r.t))))) + ((d * d) * (((p.y * p.z) * p.t) * ((((q.x * q.t) * q.t) * q.t) * ((r.x * r.z) * r.t))))) - ((d * d) * (((p.y * p.z) * p.t) * ((((q.x * q.t) * q.t) * q.t) * ((r.y * r.y) * r.y))))) - ((d * d) * (((p.y * p.z) * p.t) * ((((q.y * q.z) * q.t) * q.t) * ((r.y * r.t) * r.t))))) + (d * (((p.y * p.z) * p.t) * ((((q.x * q.x) * q.x) * q.t) * ((r.x * r.z) * r.t))))) - (d * (((p.y * p.z) * p.t) * ((((q.x * q.x) * q.x) * q.t) * ((r.y * r.y) * r.y))))) - (d * (((p.y * p.z) * p.t) * ((((q.y * q.z) * q.t) * q.t) * ((r.x * r.z) * r.t))))) + (d * (((p.y * p.z) * p.t) * ((((q.y * q.z) * q.t) * q.t) * ((r.y * r.y) * r.y))))));
}

/// A term of the cross product, reduced.
proof fn lemma_term_31(d: int, p: Lift, q: Lift, r: Lift)
    requires
        reducible(p, d),
        reducible(q, d),
        reducible(r, d),
    ensures
        congruent((d * (((p.y * p.z) * p.t) * ((((q.y * q.y) * q.y) * q.z) * ((r.x * r.x) * r.y)))), (d * (((p.y * p.z) * p.t) * ((((q.y * q.y) * q.y) * q.z) * ((r.x * r.z) * r.t))))),
{
    lemma_point_2100(d, r);
    lemma_congruent_mul((((q.y * q.y) * q.y) * q.z), (((q.y * q.y) * q.y) * q.z), ((r.x * r.x) * r.y), ((r.x * r.z) * r.t));
    lemma_congruent_mul(((p.y * p.z) * p.t), ((p.y * p.z) * p.t), ((((q.y * q.y) * q.y) * q.z) * ((r.x * r.x) * r.y)), ((((q.y * q.y) * q.y) * q.z) * ((r.x * r.z) * r.t)));
    let v655 = ((p.y * p.z) * p.t);
    let v657 = ((((q.y * q.y) * q.y) * q.z) * ((r.x * r.z) * r.t));
    lemma_tensor(((p.y * p.z) * p.t), 1, 1, 1, (((q.y * q.y) * q.y) * q.z), ((r.x * r.z) * r.t));
    assert((((p.y * p.z) * p.t) * ((((q.y * q.y) * q.y) * q.z) * ((r.x * r.z) * r.t))) == (((p.y * p.z) * p.t) * ((((q.y * q.y) * q.y) * q.z) * ((r.x * r.z) * r.t))));
    lemma_congruent_mul(d, d, (((p.y * p.z) * p.t) * ((((q.y * q.y) * q.y) * q.z) * ((r.x * r.x) * r.y))), (((p.y * p.z) * p.t) * ((((q.y * q.y) * q.y) * q.z) * ((r.x * r.z) * r.t))));
    let v659 = d;
    let v661 = (((p.y * p.z) * p.t) * ((((q.y * q.y) * q.y) * q.z) * ((r.x * r.z) * r.t)));
    lemma_pairs(d, 1, 1, (((p.y * p.z) * p.t) * ((((q.y * q.y) * q.y) * q.z) * ((r.x * r.z) * r.t))));
    assert((d * (((p.y * p.z) * p.t) * ((((q.y * q.y) * q.y) * q.z) * ((r.x * r.z) * r.t)))) == (d * (((p.y * p.z) * p.t) * ((((q.y * q.y) * q.y) * q.z) * ((r.x * r.z) * r.t)))));
}

/// The product of the reduced monomials of the second and the third point,
/// term by term.
proof fn lemma_pair_28(d: int, q: Lift, r: Lift)
    ensures
        ((((0 - (d * (((q.y * q.t) * q.t) * q.t))) - (((q.x * q.z) * q.t) * q.t)) + (((q.y * q.y) * q.y) * q.t)) * (((0 - (d * ((r.x * r.t) * r.t))) - ((r.x * r.x) * r.x)) + ((r.y * r.z) * r.t))) == ((((((((((d * d) * ((((q.y * q.t) * q.t) * q.t) * ((r.x * r.t) * r.t))) + (d * ((((q.x * q.z) * q.t) * q.t) * ((r.x * r.t) * r.t)))) - (d * ((((q.y * q.y) * q.y) * q.t) * ((r.x * r.t) * r.t)))) + (d * ((((q.y * q.t) * q.t) * q.t) * ((r.x * r.x) * r.x)))) - (d * ((((q.y * q.t) * q.t) * q.t) * ((r.y * r.z) * r.t)))) + ((((q.x * q.z) * q.t) * q.t) * ((r.x * r.x) * r.x))) - ((((q.x * q.z) * q.t) * q.t) * ((r.y * r.z) * r.t))) - ((((q.y * q.y) * q.y) * q.t) * ((r.x * r.x) * r.x))) + ((((q.y * q.y) * q.y) * q.t) * ((r.y * r.z) * r.t))),
{
    let v663 = (d * (((q.y * q.t) * q.t) * q.t));
    let v664 = 0 - v663;
    let v665 = (((q.x * q.z) * q.t) * q.t);
    let v666 = v664 - v665;
    let v667 = (((q.y * q.y) * q.y) * q.t);
    let v668 = v666 + v667;
    let v669 = (d * ((r.x * r.t) * r.t));
    let v670 = 0 - v669;
    let v671 = ((r.x * r.x) * r.x);
    let v672 = v670 - v671;
    let v673 = ((r.y * r.z) * r.t);
    let v674 = v672 + v673;
    lemma_distribute(v674, v666, v667);
    lemma_distribute_sub(v674, v664, v665);
    lemma_distribute_sub(v674, 0, v663);
    lemma_distribute(v663, v672, v673);
    lemma_distribute_sub(v663, v670, v671);
    lemma_distribute_sub(v663, 0, v669);
    lemma_tensor(1, (((q.y * q.t) * q.t) * q.t), 1, 1, 1, ((r.x * r.t) * r.t));
    lemma_pairs(d, (((q.y * q.t) * q.t) * q.t), d, ((r.x * r.t) * r.t));
    lemma_tensor(1, (((q.y * q.t) * q.t) * q.t), 1, 1, 1, ((r.x * r.x) * r.x));
    lemma_pairs(d, (((q.y * q.t) * q.t) * q.t), 1, ((r.x * r.x) * r.x));
    lemma_tensor(1, (((q.y * q.t) * q.t) * q.t), 1, 1, 1, ((r.y * r.z) * r.t));
    lemma_pairs(d, (((q.y * q.t) * q.t) * q.t), 1, ((r.y * r.z) * r.t));
    lemma_distribute(v665, v672, v673);
    lemma_distribute_sub(v665, v670, v671);
    lemma_distribute_sub(v665, 0, v669);
    lemma_tensor(1, (((q.x * q.z) * q.t) * q.t), 1, 1, 1, ((r.x * r.t) * r.t));
    lemma_pairs(1, (((q.x * q.z) * q.t) * q.t), d, ((r.x * r.t) * r.t));
    lemma_tensor(1, (((q.x * q.z) * q.t) * q.t), 1, 1, 1, ((r.x * r.x) * r.x));
    lemma_tensor(1, (((q.x * q.z) * q.t) * q.t), 1, 1, 1, ((r.y * r.z) * r.t));
    lemma_distribute(v667, v672, v673);
    lemma_distribute_sub(v667, v670, v671);
    lemma_distribute_sub(v667, 0, v669);
    lemma_tensor(1, (((q.y * q.y) * q.y) * q.t), 1, 1, 1, ((r.x * r.t) * r.t));
    lemma_pairs(1, (((q.y * q.y) * q.y) * q.t), d, ((r.x * r.t) * r.t));
    lemma_tensor(1, (((q.y * q.y) * q.y) * q.t), 1, 1, 1, ((r.x * r.x) * r.x));
    lemma_tensor(1, (((q.y * q.y) * q.y) * q.t), 1, 1, 1, ((r.y * r.z) * r.t));
    assert(((((0 - (d * (((q.y * q.t) * q.t) * q.t))) - (((q.x * q.z) * q.t) * q.t)) + (((q.y * q.y) * q.y) * q.t)) * (((0 - (d * ((r.x * r.t) * r.t))) - ((r.x * r.x) * r.x)) + ((r.y * r.z) * r.t))) == ((((((((((d * d) * ((((q.y * q.t) * q.t) * q.t) * ((r.x * r.t) * r.t))) + (d * ((((q.x * q.z) * q.t) * q.t) * ((r.x * r.t) * r.t)))) - (d * ((((q.y * q.y) * q.y) * q.t) * ((r.x * r.t) * r.t)))) + (d * ((((q.y * q.t) * q.t) * q.t) * ((r.x * r.x) * r.x)))) - (d * ((((q.y * q.t) * q.t) * q.t) * ((r.y * r.z) * r.t)))) + ((((q.x * q.z) * q.t) * q.t) * ((r.x * r.x) * r.x))) - ((((q.x * q.z) * q.t) * q.t) * ((r.y * r.z) * r.t))) - ((((q.y * q.y) * q.y) * q.t) * ((r.x * r.x) * r.x))) + ((((q.y * q.y) * q.y) * q.t) * ((r.y * r.z) * r.t))));
}

/// A term of the cross product, reduced.
proof fn lemma_term_32(d: int, p: Lift, q: Lift, r: Lift)
    requires
        reducible(p, d),
        reducible(q, d),
        reducible(r, d),
    ensures
        congruent((d * (((p.y * p.z) * p.t) * ((((q.y * q.z) * q.z) * q.t) * ((r.x * r.z) * r.z)))), (((((((((((d * d) * d) * (((p.y * p.z) * p.t) * ((((q.y * q.t) * q.t) * q.t) * ((r.x * r.t) * r.t)))) + ((d * d) * (((p.y * p.z) * p.t) * ((((q.x * q.z) * q.t) * q.t) * ((r.x * r.t) * r.t))))) - ((d * d) * (((p.y * p.z) * p.t) * ((((q.y * q.y) * q.y) * q.t) * ((r.x * r.t) * r.t))))) + ((d * d) * (((p.y * p.z) * p.t) * ((((q.y * q.t) * q.t) * q.t) * ((r.x * r.x) * r.x))))) - ((d * d) * (((p.y * p.z) * p.t) * ((((q.y * q.t) * q.t) * q.t) * ((r.y * r.z) * r.t))))) + (d * (((p.y * p.z) * p.t) * ((((q.x * q.z) * q.t) * q.t) * ((r.x * r.x) * r.x))))) - (d * (((p.y * p.z) * p.t) * ((((q.x * q.z) * q.t) * q.t) * ((r.y * r.z) * r.t))))) - (d * (((p.y * p.z) * p.t) * ((((q.y * q.y) * q.y) * q.t) * ((r.x * r.x) * r.x))))) + (d * (((p.y * p.z) * p.t) * ((((q.y * q.y) * q.y) * q.t) * ((r.y * r.z) * r.t)))))),
{
    lemma_point_0121(d, q);
    lemma_point_1020(d, r);
    lemma_congruent_mul((((q.y * q.z) * q.z) * q.t), (((0 - (d * (((q.y * q.t) * q.t) * q.t))) - (((q.x * q.z) * q.t) * q.t)) + (((q.y * q.y) * q.y) * q.t)), ((r.x * r.z) * r.z), (((0 - (d * ((r.x * r.t) * r.t))) - ((r.x * r.x) * r.x)) + ((r.y * r.z) * r.t)));
    lemma_congruent_mul(((p.y * p.z) * p.t), ((p.y * p.z) * p.t), ((((q.y * q.z) * q.z) * q.t) * ((r.x * r.z) * r.z)), ((((0 - (d * (((q.y * q.t) * q.t) * q.t))) - (((q.x * q.z) * q.t) * q.t)) + (((q.y * q.y) * q.y) * q.t)) * (((0 - (d * ((r.x * r.t) * r.t))) - ((r.x * r.x) * r.x)) + ((r.y * r.z) * r.t))));
    lemma_pair_28(d, q, r);
    let v675 = ((p.y * p.z) * p.t);
    let v677 = ((d * d) * ((((q.y * q.t) * q.t) * q.t) * ((r.x * r.t) * r.t)));
    let v679 = (d * ((((q.x * q.z) * q.t) * q.t) * ((r.x * r.t) * r.t)));
    let v680 = v677 + v679;
    let v681 = (d * ((((q.y * q.y) * q.y) * q.t) * ((r.x * r.t) * r.t)));
    let v682 = v680 - v681;
    let v683 = (d * ((((q.y * q.t) * q.t) * q.t) * ((r.x * r.x) * r.x)));
    let v684 = v682 + v683;
    let v685 = (d * ((((q.y * q.t) * q.t) * q.t) * ((r.y * r.z) * r.t)));
    let v686 = v684 - v685;
    let v687 = ((((q.x * q.z) * q.t) * q.t) * ((r.x * r.x) * r.x));
    let v688 = v686 + v687;
    let v689 = ((((q.x * q.z) * q.t) * q.t) * ((r.y * r.z) * r.t));
    let v690 = v688 - v689;
    let v691 = ((((q.y * q.y) * q.y) * q.t) * ((r.x * r.x) * r.x));
    let v692 = v690 - v691;
    let v693 = ((((q.y * q.y) * q.y) * q.t) * ((r.y * r.z) * r.t));
    let v694 = v692 + v693;
    lemma_distribute(v675, v692, v693);
    lemma_distribute_sub(v675, v690, v691);
    lemma_distribute_sub(v675, v688, v689);
    lemma_distribute(v675, v686, v687);
    lemma_distribute_sub(v675, v684, v685);
    lemma_distribute(v675, v682, v683);
    lemma_distribute_sub(v675, v680, v681);
    lemma_distribute(v675, v677, v679);
    lemma_tensor(((p.y * p.z) * p.t), 1, 1, 1, (((q.y * q.t) * q.t) * q.t), ((r.x * r.t) * r.t));
    lemma_pairs(1, ((p.y * p.z) * p.t), (d * d), ((((q.y * q.t) * q.t) * q.t) * ((r.x * r.t) * r.t)));
    lemma_tensor(((p.y * p.z) * p.t), 1, 1, 1, (((q.x * q.z) * q.t) * q.t), ((r.x * r.t) * r.t));
    lemma_pairs(1, ((p.y * p.z) * p.t), d, ((((q.x * q.z) * q.t) * q.t) * ((r.x * r.t) * r.t)));
    lemma_tensor(((p.y * p.z) * p.t), 1, 1, 1, (((q.y * q.y) * q.y) * q.t), ((r.x * r.t) * r.t));
    lemma_pairs(1, ((p.y * p.z) * p.t), d, ((((q.y * q.y) * q.y) * q.t) * ((r.x * r.t) * r.t)));
    lemma_tensor(((p.y * p.z) * p.t), 1, 1, 1, (((q.y * q.t) * q.t) * q.t), ((r.x * r.x) * r.x));
    lemma_pairs(1, ((p.y * p.z) * p.t), d, ((((q.y * q.t) * q.t) * q.t) * ((r.x * r.x) * r.x)));
    lemma_tensor(((p.y * p.z) * p.t), 1, 1, 1, (((q.y * q.t) * q.t) * q.t), ((r.y * r.z) * r.t));
    lemma_pairs(1, ((p.y * p.z) * p.t), d, ((((q.y * q.t) * q.t) * q.t) * ((r.y * r.z) * r.t)));
    lemma_tensor(((p.y * p.z) * p.t), 1, 1, 1, (((q.x * q.z) * q.t) * q.t), ((r.x * r.x) * r.x));
    lemma_tensor(((p.y * p.z) * p.t), 1, 1, 1, (((q.x * q.z) * q.t) * q.t), ((r.y * r.z) * r.t));
    lemma_tensor(((p.y * p.z) * p.t), 1, 1, 1, (((q.y * q.y) * q.y) * q.t), ((r.x * r.x) * r.x));
    lemma_tensor(((p.y * p.z) * p.t), 1, 1, 1, (((q.y * q.y) * q.y) * q.t), ((r.y * r.z) * r.t));
    assert((((p.y * p.z) * p.t) * ((((0 - (d * (((q.y * q.t) * q.t) * q.t))) - (((q.x * q.z) * q.t) * q.t)) + (((q.y * q.y) * q.y) * q.t)) * (((0 - (d * ((r.x * r.t) * r.t))) - ((r.x * r.x) * r.x)) + ((r.y * r.z) * r.t)))) == ((((((((((d * d) * (((p.y * p.z) * p.t) * ((((q.y * q.t) * q.t) * q.t) * ((r.x * r.t) * r.t)))) + (d * (((p.y * p.z) * p.t) * ((((q.x * q.z) * q.t) * q.t) * ((r.x * r.t) * r.t))))) - (d * (((p.y * p.z) * p.t) * ((((q.y * q.y) * q.y) * q.t) * ((r.x * r.t) * r.t))))) + (d * (((p.y * p.z) * p.t) * ((((q.y * q.t) * q.t) * q.t) * ((r.x * r.x) * r.x))))) - (d * (((p.y * p.z) * p.t) * ((((q.y * q.t) * q.t) * q.t) * ((r.y * r.z) * r.t))))) + (((p.y * p.z) * p.t) * ((((q.x * q.z) * q.t) * q.t) * ((r.x * r.x) * r.x)))) - (((p.y * p.z) * p.t) * ((((q.x * q.z) * q.t) * q.t) * ((r.y * r.z) * r.t)))) - (((p.y * p.z) * p.t) * ((((q.y * q.y) * q.y) * q.t) * ((r.x * r.x) * r.x)))) + (((p.y * p.z) * p.t) * ((((q.y * q.y) * q.y) * q.t) * ((r.y * r.z) * r.t)))));
    lemma_congruent_mul(d, d, (((p.y * p.z) * p.t) * ((((q.y * q.z) * q.z) * q.t) * ((r.x * r.z) * r.z))), (((p.y * p.z) * p.t) * ((((0 - (d * (((q.y * q.t) * q.t) * q.t))) - (((q.x * q.z) * q.t) * q.t)) + (((q.y * q.y) * q.y) * q.t)) * (((0 - (d * ((r.x * r.t) * r.t))) - ((r.x * r.x) * r.x)) + ((r.y * r.z) * r.t)))));
    let v695 = d;
    let v697 = ((d * d) * (((p.y * p.z) * p.t) * ((((q.y * q.t) * q.t) * q.t) * ((r.x * r.t) * r.t))));
    let v699 = (d * (((p.y * p.z) * p.t) * ((((q.x * q.z) * q.t) * q.t) * ((r.x * r.t) * r.t))));
    let v700 = v697 + v699;
    let v701 = (d * (((p.y * p.z) * p.t) * ((((q.y * q.y) * q.y) * q.t) * ((r.x * r.t) * r.t))));
    let v702 = v700 - v701;
    let v703 = (d * (((p.y * p.z) * p.t) * ((((q.y * q.t) * q.t) * q.t) * ((r.x * r.x) * r.x))));
    let v704 = v702 + v703;
    let v705 = (d * (((p.y * p.z) * p.t) * ((((q.y * q.t) * q.t) * q.t) * ((r.y * r.z) * r.t))));
    let v706 = v704 - v705;
    let v707 = (((p.y * p.z) * p.t) * ((((q.x * q.z) * q.t) * q.t) * ((r.x * r.x) * r.x)));
    let v708 = v706 + v707;
    let v709 = (((p.y * p.z) * p.t) * ((((q.x * q.z) * q.t) * q.t) * ((r.y * r.z) * r.t)));
    let v710 = v708 - v709;
    let v711 = (((p.y * p.z) * p.t) * ((((q.y * q.y) * q.y) * q.t) * ((r.x * r.x) * r.x)));
    let v712 = v710 - v711;
    let v713 = (((p.y * p.z) * p.t) * ((((q.y * q.y) * q.y) * q.t) * ((r.y * r.z) * r.t)));
    let v714 = v712 + v713;
    lemma_distribute(v695, v712, v713);
    lemma_distribute_sub(v695, v710, v711);
    lemma_distribute_sub(v695, v708, v709);
    lemma_distribute(v695, v706, v707);
    lemma_distribute_sub(v695, v704, v705);
    lemma_distribute(v695, v702, v703);
    lemma_distribute_sub(v695, v700, v701);
    lemma_distribute(v695, v697, v699);
    assert(d * (d * d) == ((d * d) * d)) by (nonlinear_arith);
    lemma_pairs(d, 1, (d * d), (((p.y * p.z) * p.t) * ((((q.y * q.t) * q.t) * q.t) * ((r.x * r.t) * r.t))));
    lemma_pairs(d, 1, d, (((p.y * p.z) * p.t) * ((((q.x * q.z) * q.t) * q.t) * ((r.x * r.t) * r.t))));
    lemma_pairs(d, 1, d, (((p.y * p.z) * p.t) * ((((q.y * q.y) * q.y) * q.t) * ((r.x * r.t) * r.t))));
    lemma_pairs(d, 1, d, (((p.y * p.z) * p.t) * ((((q.y * q.t) * q.t) * q.t) * ((r.x * r.x) * r.x))));
    lemma_pairs(d, 1, d, (((p.y * p.z) * p.t) * ((((q.y * q.t) * q.t) * q.t) * ((r.y * r.z) * r.t))));
    lemma_pairs(d, 1, 1, (((p.y * p.z) * p.t) * ((((q.x * q.z) * q.t) * q.t) * ((r.x * r.x) * r.x))));
    lemma_pairs(d, 1, 1, (((p.y * p.z) * p.t) * ((((q.x * q.z) * q.t) * q.t) * ((r.y * r.z) * r.t))));
    lemma_pairs(d, 1, 1, (((p.y * p.z) * p.t) * ((((q.y * q.y) * q.y) * q.t) * ((r.x * r.x) * r.x))));
    lemma_pairs(d, 1, 1, (((p.y * p.z) * p.t) * ((((q.y * q.y) * q.y) * q.t) * ((r.y * r.z) * r.t))));
    assert((d * (((p.y * p.z) * p.t) * ((((0 - (d * (((q.y * q.t) * q.t) * q.t))) - (((q.x * q.z) * q.t) * q.t)) + (((q.y * q.y) * q.y) * q.t)) * (((0 - (d * ((r.x * r.t) * r.t))) - ((r.x * r.x) * r.x)) + ((r.y * r.z) * r.t))))) == (((((((((((d * d) * d) * (((p.y * p.z) * p.t) * ((((q.y * q.t) * q.t) * q.t) * ((r.x * r.t) * r.t)))) + ((d * d) * (((p.y * p.z) * p.t) * ((((q.x * q.z) * q.t) * q.t) * ((r.x * r.t) * r.t))))) - ((d * d) * (((p.y * p.z) * p.t) * ((((q.y * q.y) * q.y) * q.t) * ((r.x * r.t) * r.t))))) + ((d * d) * (((p.y * p.z) * p.t) * ((((q.y * q.t) * q.t) * q.t) * ((r.x * r.x) * r.x))))) - ((d * d) * (((p.y * p.z) * p.t) * ((((q.y * q.t) * q.t) * q.t) * ((r.y * r.z) * r.t))))) + (d * (((p.y * p.z) * p.t) * ((((q.x * q.z) * q.t) * q.t) * ((r.x * r.x) * r.x))))) - (d * (((p.y * p.z) * p.t) * ((((q.x * q.z) * q.t) * q.t) * ((r.y * r.z) * r.t))))) - (d * (((p.y * p.z) * p.t) * ((((q.y * q.y) * q.y) * q.t) * ((r.x * r.x) * r.x))))) + (d * (((p.y * p.z) * p.t) * ((((q.y * q.y) * q.y) * q.t) * ((r.y * r.z) * r.t))))));
}

/// The product of the reduced monomials of the second and the third point,
/// term by term.
proof fn lemma_pair_29(d: int, q: Lift, r: Lift)
    ensures
        ((((((0 - (d * (((q.x * q.z) * q.t) * q.t))) - (d * (((q.y * q.t) * q.t) * q.t))) - (((q.x * q.x) * q.x) * q.z)) - (((q.x * q.z) * q.t) * q.t)) + (((q.y * q.y) * q.y) * q.t)) * (((0 - (d * ((r.x * r.t) * r.t))) - ((r.x * r.x) * r.x)) + ((r.y * r.z) * r.t))) == ((((((((((((((((d * d) * ((((q.x * q.z) * q.t) * q.t) * ((r.x * r.t) * r.t))) + ((d * d) * ((((q.y * q.t) * q.t) * q.t) * ((r.x * r.t) * r.t)))) + (d * ((((q.x * q.x) * q.x) * q.z) * ((r.x * r.t) * r.t)))) + (d * ((((q.x * q.z) * q.t) * q.t) * ((r.x * r.x) * r.x)))) + (d * ((((q.x * q.z) * q.t) * q.t) * ((r.x * r.t) * r.t)))) - (d * ((((q.x * q.z) * q.t) * q.t) * ((r.y * r.z) * r.t)))) - (d * ((((q.y * q.y) * q.y) * q.t) * ((r.x * r.t) * r.t)))) + (d * ((((q.y * q.t) * q.t) * q.t) * ((r.x * r.x) * r.x)))) - (d * ((((q.y * q.t) * q.t) * q.t) * ((r.y * r.z) * r.t)))) + ((((q.x * q.x) * q.x) * q.z) * ((r.x * r.x) * r.x))) - ((((q.x * q.x) * q.x) * q.z) * ((r.y * r.z) * r.t))) + ((((q.x * q.z) * q.t) * q.t) * ((r.x * r.x) * r.x))) - ((((q.x * q.z) * q.t) * q.t) * ((r.y * r.z) * r.t))) - ((((q.y * q.y) * q.y) * q.t) * ((r.x * r.x) * r.x))) + ((((q.y * q.y) * q.y) * q.t) * ((r.y * r.z) * r.t))),
{
    let v719 = (d * (((q.x * q.z) * q.t) * q.t));
    let v720 = 0 - v719;
    let v721 = (d * (((q.y * q.t) * q.t) * q.t));
    let v722 = v720 - v721;
    let v723 = (((q.x * q.x) * q.x) * q.z);
    let v724 = v722 - v723;
    let v725 = (((q.x * q.z) * q.t) * q.t);
    let v726 = v724 - v725;
    let v727 = (((q.y * q.y) * q.y) * q.t);
    let v728 = v726 + v727;
    let v729 = (d * ((r.x * r.t) * r.t));
    let v730 = 0 - v729;
    let v731 = ((r.x * r.x) * r.x);
    let v732 = v730 - v731;
    let v733 = ((r.y * r.z) * r.t);
    let v734 = v732 + v733;
    lemma_distribute(v734, v726, v727);
    lemma_distribute_sub(v734, v724, v725);
    lemma_distribute_sub(v734, v722, v723);
    lemma_distribute_sub(v734, v720, v721);
    lemma_distribute_sub(v734, 0, v719);
    lemma_distribute(v719, v732, v733);
    lemma_distribute_sub(v719, v730, v731);
    lemma_distribute_sub(v719, 0, v729);
    lemma_tensor(1, (((q.x * q.z) * q.t) * q.t), 1, 1, 1, ((r.x * r.t) * r.t));
    lemma_pairs(d, (((q.x * q.z) * q.t) * q.t), d, ((r.x * r.t) * r.t));
    lemma_tensor(1, (((q.x * q.z) * q.t) * q.t), 1, 1, 1, ((r.x * r.x) * r.x));
    lemma_pairs(d, (((q.x * q.z) * q.t) * q.t), 1, ((r.x * r.x) * r.x));
    lemma_tensor(1, (((q.x * q.z) * q.t) * q.t), 1, 1, 1, ((r.y * r.z) * r.t));
    lemma_pairs(d, (((q.x * q.z) * q.t) * q.t), 1, ((r.y * r.z) * r.t));
    lemma_distribute(v721, v732, v733);
    lemma_distribute_sub(v721, v730, v731);
    lemma_distribute_sub(v721, 0, v729);
    lemma_tensor(1, (((q.y * q.t) * q.t) * q.t), 1, 1, 1, ((r.x * r.t) * r.t));
    lemma_pairs(d, (((q.y * q.t) * q.t) * q.t), d, ((r.x * r.t) * r.t));
    lemma_tensor(1, (((q.y * q.t) * q.t) * q.t), 1, 1, 1, ((r.x * r.x) * r.x));
    lemma_pairs(d, (((q.y * q.t) * q.t) * q.t), 1, ((r.x * r.x) * r.x));
    lemma_tensor(1, (((q.y * q.t) * q.t) * q.t), 1, 1, 1, ((r.y * r.z) * r.t));
    lemma_pairs(d, (((q.y * q.t) * q.t) * q.t), 1, ((r.y * r.z) * r.t));
    lemma_distribute(v723, v732, v733);
    lemma_distribute_sub(v723, v730, v731);
    lemma_distribute_sub(v723, 0, v729);
    lemma_tensor(1, (((q.x * q.x) * q.x) * q.z), 1, 1, 1, ((r.x * r.t) * r.t));
    lemma_pairs(1, (((q.x * q.x) * q.x) * q.z), d, ((r.x * r.t) * r.t));
    lemma_tensor(1, (((q.x * q.x) * q.x) * q.z), 1, 1, 1, ((r.x * r.x) * r.x));
    lemma_tensor(1, (((q.x * q.x) * q.x) * q.z), 1, 1, 1, ((r.y * r.z) * r.t));
    lemma_distribute(v725, v732, v733);
    lemma_distribute_sub(v725, v730, v731);
    lemma_distribute_sub(v725, 0, v729);
    lemma_pairs(1, (((q.x * q.z) * q.t) * q.t), d, ((r.x * r.t) * r.t));
    lemma_distribute(v727, v732, v733);
    lemma_distribute_sub(v727, v730, v731);
    lemma_distribute_sub(v727, 0, v729);
    lemma_tensor(1, (((q.y * q.y) * q.y) * q.t), 1, 1, 1, ((r.x * r.t) * r.t));
    lemma_pairs(1, (((q.y * q.y) * q.y) * q.t), d, ((r.x * r.t) * r.t));
    lemma_tensor(1, (((q.y * q.y) * q.y) * q.t), 1, 1, 1, ((r.x * r.x) * r.x));
    lemma_tensor(1, (((q.y * q.y) * q.y) * q.t), 1, 1, 1, ((r.y * r.z) * r.t));
    assert(((((((0 - (d * (((q.x * q.z) * q.t) * q.t))) - (d * (((q.y * q.t) * q.t) * q.t))) - (((q.x * q.x) * q.x) * q.z)) - (((q.x * q.z) * q.t) * q.t)) + (((q.y * q.y) * q.y) * q.t)) * (((0 - (d * ((r.x * r.t) * r.t))) - ((r.x * r.x) * r.x)) + ((r.y * r.z) * r.t))) == ((((((((((((((((d * d) * ((((q.x * q.z) * q.t) * q.t) * ((r.x * r.t) * r.t))) + ((d * d) * ((((q.y * q.t) * q.t) * q.t) * ((r.x * r.t) * r.t)))) + (d * ((((q.x * q.x) * q.x) * q.z) * ((r.x * r.t) * r.t)))) + (d * ((((q.x * q.z) * q.t) * q.t) * ((r.x * r.x) * r.x)))) + (d * ((((q.x * q.z) * q.t) * q.t) * ((r.x * r.t) * r.t)))) - (d * ((((q.x * q.z) * q.t) * q.t) * ((r.y * r.z) * r.t)))) - (d * ((((q.y * q.y) * q.y) * q.t) * ((r.x * r.t) * r.t)))) + (d * ((((q.y * q.t) * q.t) * q.t) * ((r.x * r.x) * r.x)))) - (d * ((((q.y * q.t) * q.t) * q.t) * ((r.y * r.z) * r.t)))) + ((((q.x * q.x) * q.x) * q.z) * ((r.x * r.x) * r.x))) - ((((q.x * q.x) * q.x) * q.z) * ((r.y * r.z) * r.t))) + ((((q.x * q.z) * q.t) * q.t) * ((r.x * r.x) * r.x))) - ((((q.x * q.z) * q.t) * q.t) * ((r.y * r.z) * r.t))) - ((((q.y * q.y) * q.y) * q.t) * ((r.x * r.x) * r.x))) + ((((q.y * q.y) * q.y) * q.t) * ((r.y * r.z) * r.t))));
}

/// A term of the cross product, reduced.
proof fn lemma_term_33(d: int, p: Lift, q: Lift, r: Lift)
    requires
        reducible(p, d),
        reducible(q, d),
        reducible(r, d),
    ensures
        congruent((((p.x * p.z) * p.z) * ((((q.x * q.z) * q.z) * q.z) * ((r.x * r.z) * r.z))), (((((((((((((((((((((((((((((((((((((((((((((0 - (((d * d) * d) * (((p.x * p.t) * p.t) * ((((q.x * q.z) * q.t) * q.t) * ((r.x * r.t) * r.t))))) - (((d * d) * d) * (((p.x * p.t) * p.t) * ((((q.y * q.t) * q.t) * q.t) * ((r.x * r.t) * r.t))))) - ((d * d) * (((p.x * p.x) * p.x) * ((((q.x * q.z) * q.t) * q.t) * ((r.x * r.t) * r.t))))) - ((d * d) * (((p.x * p.x) * p.x) * ((((q.y * q.t) * q.t) * q.t) * ((r.x * r.t) * r.t))))) - ((d * d) * (((p.x * p.t) * p.t) * ((((q.x * q.x) * q.x) * q.z) * ((r.x * r.t) * r.t))))) - ((d * d) * (((p.x * p.t) * p.t) * ((((q.x * q.z) * q.t) * q.t) * ((r.x * r.x) * r.x))))) - ((d * d) * (((p.x * p.t) * p.t) * ((((q.x * q.z) * q.t) * q.t) * ((r.x * r.t) * r.t))))) + ((d * d) * (((p.x * p.t) * p.t) * ((((q.x * q.z) * q.t) * q.t) * ((r.y * r.z) * r.t))))) + ((d * d) * (((p.x * p.t) * p.t) * ((((q.y * q.y) * q.y) * q.t) * ((r.x * r.t) * r.t))))) - ((d * d) * (((p.x * p.t) * p.t) * ((((q.y * q.t) * q.t) * q.t) * ((r.x * r.x) * r.x))))) + ((d * d) * (((p.x * p.t) * p.t) * ((((q.y * q.t) * q.t) * q.t) * ((r.y * r.z) * r.t))))) + ((d * d) * (((p.y * p.z) * p.t) * ((((q.x * q.z) * q.t) * q.t) * ((r.x * r.t) * r.t))))) + ((d * d) * (((p.y * p.z) * p.t) * ((((q.y * q.t) * q.t) * q.t) * ((r.x * r.t) * r.t))))) - (d * (((p.x * p.x) * p.x) * ((((q.x * q.x) * q.x) * q.z) * ((r.x * r.t) * r.t))))) - (d * (((p.x * p.x) * p.x) * ((((q.x * q.z) * q.t) * q.t) * ((r.x * r.x) * r.x))))) - (d * (((p.x * p.x) * p.x) * ((((q.x * q.z) * q.t) * q.t) * ((r.x * r.t) * r.t))))) + (d * (((p.x * p.x) * p.x) * ((((q.x * q.z) * q.t) * q.t) * ((r.y * r.z) * r.t))))) + (d * (((p.x * p.x) * p.x) * ((((q.y * q.y) * q.y) * q.t) * ((r.x * r.t) * r.t))))) - (d * (((p.x * p.x) * p.x) * ((((q.y * q.t) * q.t) * q.t) * ((r.x * r.x) * r.x))))) + (d * (((p.x * p.x) * p.x) * ((((q.y * q.t) * q.t) * q.t) * ((r.y * r.z) * r.t))))) - (d * (((p.x * p.t) * p.t) * ((((q.x * q.x) * q.x) * q.z) * ((r.x * r.x) * r.x))))) + (d * (((p.x * p.t) * p.t) * ((((q.x * q.x) * q.x) * q.z) * ((r.y * r.z) * r.t))))) - (d * (((p.x * p.t) * p.t) * ((((q.x * q.z) * q.t) * q.t) * ((r.x * r.x) * r.x))))) + (d * (((p.x * p.t) * p.t) * ((((q.x * q.z) * q.t) * q.t) * ((r.y * r.z) * r.t))))) + (d * (((p.x * p.t) * p.t) * ((((q.y * q.y) * q.y) * q.t) * ((r.x * r.x) * r.x))))) - (d * (((p.x * p.t) * p.t) * ((((q.y * q.y) * q.y) * q.t) * ((r.y * r.z) * r.t))))) + (d * (((p.y * p.z) * p.t) * ((((q.x * q.x) * q.x) * q.z) * ((r.x * r.t) * r.t))))) + (d * (((p.y * p.z) * p.t) * ((((q.x * q.z) * q.t) * q.t) * ((r.x * r.x) * r.x))))) + (d * (((p.y * p.z) * p.t) * ((((q.x * q.z) * q.t) * q.t) * ((r.x * r.t) * r.t))))) - (d * (((p.y * p.z) * p.t) * ((((q.x * q.z) * q.t) * q.t) * ((r.y * r.z) * r.t))))) - (d * (((p.y * p.z) * p.t) * ((((q.y * q.y) * q.y) * q.t) * ((r.x * r.t) * r.t))))) + (d * (((p.y * p.z) * p.t) * ((((q.y * q.t) * q.t) * q.t) * ((r.x * r.x) * r.x))))) - (d * (((p.y * p.z) * p.t) * ((((q.y * q.t) * q.t) * q.t) * ((r.y * r.z) * r.t))))) - (((p.x * p.x) * p.x) * ((((q.x * q.x) * q.x) * q.z) * ((r.x * r.x) * r.x)))) + (((p.x * p.x) * p.x) * ((((q.x * q.x) * q.x) * q.z) * ((r.y * r.z) * r.t)))) - (((p.x * p.x) * p.x) * ((((q.x * q.z) * q.t) * q.t) * ((r.x * r.x) * r.x)))) + (((p.x * p.x) * p.x) * ((((q.x * q.z) * q.t) * q.t) * ((r.y * r.z) * r.t)))) + (((p.x * p.x) * p.x) * ((((q.y * q.y) * q.y) * q.t) * ((r.x * r.x) * r.x)))) - (((p.x * p.x) * p.x) * ((((q.y * q.y) * q.y) * q.t) * ((r.y * r.z) * r.t)))) + (((p.y * p.z) * p.t) * ((((q.x * q.x) * q.x) * q.z) * ((r.x * r.x) * r.x)))) - (((p.y * p.z) * p.t) * ((((q.x * q.x) * q.x) * q.z) * ((r.y * r.z) * r.t)))) + (((p.y * p.z) * p.t) * ((((q.x * q.z) * q.t) * q.t) * ((r.x * r.x) * r.x)))) - (((p.y * p.z) * p.t) * ((((q.x * q.z) * q.t) * q.t) * ((r.y * r.z) * r.t)))) - (((p.y * p.z) * p.t) * ((((q.y * q.y) * q.y) * q.t) * ((r.x * r.x) * r.x)))) + (((p.y * p.z) * p.t) * ((((q.y * q.y) * q.y) * q.t) * ((r.y * r.z) * r.t))))),
{
    lemma_point_1020(d, p);
    lemma_point_1030(d, q);
    lemma_point_1020(d, r);
    lemma_congruent_mul((((q.x * q.z) * q.z) * q.z), (((((0 - (d * (((q.x * q.z) * q.t) * q.t))) - (d * (((q.y * q.t) * q.t) * q.t))) - (((q.x * q.x) * q.x) * q.z)) - (((q.x * q.z) * q.t) * q.t)) + (((q.y * q.y) * q.y) * q.t)), ((r.x * r.z) * r.z), (((0 - (d * ((r.x * r.t) * r.t))) - ((r.x * r.x) * r.x)) + ((r.y * r.z) * r.t)));
    lemma_congruent_mul(((p.x * p.z) * p.z), (((0 - (d * ((p.x * p.t) * p.t))) - ((p.x * p.x) * p.x)) + ((p.y * p.z) * p.t)), ((((q.x * q.z) * q.z) * q.z) * ((r.x * r.z) * r.z)), ((((((0 - (d * (((q.x * q.z) * q.t) * q.t))) - (d * (((q.y * q.t) * q.t) * q.t))) - (((q.x * q.x) * q.x) * q.z)) - (((q.x * q.z) * q.t) * q.t)) + (((q.y * q.y) * q.y) * q.t)) * (((0 - (d * ((r.x * r.t) * r.t))) - ((r.x * r.x) * r.x)) + ((r.y * r.z) * r.t))));
    lemma_pair_29(d, q, r);
    let v735 = (d * ((p.x * p.t) * p.t));
    let v736 = 0 - v735;
    let v737 = ((p.x * p.x) * p.x);
    let v738 = v736 - v737;
    let v739 = ((p.y * p.z) * p.t);
    let v740 = v738 + v739;
    let v741 = ((d * d) * ((((q.x * q.z) * q.t) * q.t) * ((r.x * r.t) * r.t)));
    let v743 = ((d * d) * ((((q.y * q.t) * q.t) * q.t) * ((r.x * r.t) * r.t)));
    let v744 = v741 + v743;
    let v745 = (d * ((((q.x * q.x) * q.x) * q.z) * ((r.x * r.t) * r.t)));
    let v746 = v744 + v745;
    let v747 = (d * ((((q.x * q.z) * q.t) * q.t) * ((r.x * r.x) * r.x)));
    let v748 = v746 + v747;
    let v749 = (d * ((((q.x * q.z) * q.t) * q.t) * ((r.x * r.t) * r.t)));
    let v750 = v748 + v749;
    let v751 = (d * ((((q.x * q.z) * q.t) * q.t) * ((r.y * r.z) * r.t)));
    let v752 = v750 - v751;
    let v753 = (d * ((((q.y * q.y) * q.y) * q.t) * ((r.x * r.t) * r.t)));
    let v754 = v752 - v753;
    let v755 = (d * ((((q.y * q.t) * q.t) * q.t) * ((r.x * r.x) * r.x)));
    let v756 = v754 + v755;
    let v757 = (d * ((((q.y * q.t) * q.t) * q.t) * ((r.y * r.z) * r.t)));
    let v758 = v756 - v757;
    let v759 = ((((q.x * q.x) * q.x) * q.z) * ((r.x * r.x) * r.x));
    let v760 = v758 + v759;
    let v761 = ((((q.x * q.x) * q.x) * q.z) * ((r.y * r.z) * r.t));
    let v762 = v760 - v761;
    let v763 = ((((q.x * q.z) * q.t) * q.t) * ((r.x * r.x) * r.x));
    let v764 = v762 + v763;
    let v765 = ((((q.x * q.z) * q.t) * q.t) * ((r.y * r.z) * r.t));
    let v766 = v764 - v765;
    let v767 = ((((q.y * q.y) * q.y) * q.t) * ((r.x * r.x) * r.x));
    let v768 = v766 - v767;
    let v769 = ((((q.y * q.y) * q.y) * q.t) * ((r.y * r.z) * r.t));
    let v770 = v768 + v769;
    lemma_distribute(v770, v738, v739);
    lemma_distribute_sub(v770, v736, v737);
    lemma_distribute_sub(v770, 0, v735);
    lemma_distribute(v735, v768, v769);
    lemma_distribute_sub(v735, v766, v767);
    lemma_distribute_sub(v735, v764, v765);
    lemma_distribute(v735, v762, v763);
    lemma_distribute_sub(v735, v760, v761);
    lemma_distribute(v735, v758, v759);
    lemma_distribute_sub(v735, v756, v757);
    lemma_distribute(v735, v754, v755);
    lemma_distribute_sub(v735, v752, v753);
    lemma_distribute_sub(v735, v750, v751);
    lemma_distribute(v735, v748, v749);
    lemma_distribute(v735, v746, v747);
    lemma_distribute(v735, v744, v745);
    lemma_distribute(v735, v741, v743);
    assert(d * (d * d) == ((d * d) * d)) by (nonlinear_arith);
    lemma_tensor(((p.x * p.t) * p.t), 1, 1, 1, (((q.x * q.z) * q.t) * q.t), ((r.x * r.t) * r.t));
    lemma_pairs(d, ((p.x * p.t) * p.t), (d * d), ((((q.x * q.z) * q.t) * q.t) * ((r.x * r.t) * r.t)));
    lemma_tensor(((p.x * p.t) * p.t), 1, 1, 1, (((q.y * q.t) * q.t) * q.t), ((r.x * r.t) * r.t));
    lemma_pairs(d, ((p.x * p.t) * p.t), (d * d), ((((q.y * q.t) * q.t) * q.t) * ((r.x * r.t) * r.t)));
    lemma_tensor(((p.x * p.t) * p.t), 1, 1, 1, (((q.x * q.x) * q.x) * q.z), ((r.x * r.t) * r.t));
    lemma_pairs(d, ((p.x * p.t) * p.t), d, ((((q.x * q.x) * q.x) * q.z) * ((r.x * r.t) * r.t)));
    lemma_tensor(((p.x * p.t) * p.t), 1, 1, 1, (((q.x * q.z) * q.t) * q.t), ((r.x * r.x) * r.x));
    lemma_pairs(d, ((p.x * p.t) * p.t), d, ((((q.x * q.z) * q.t) * q.t) * ((r.x * r.x) * r.x)));
    lemma_pairs(d, ((p.x * p.t) * p.t), d, ((((q.x * q.z) * q.t) * q.t) * ((r.x * r.t) * r.t)));
    lemma_tensor(((p.x * p.t) * p.t), 1, 1, 1, (((q.x * q.z) * q.t) * q.t), ((r.y * r.z) * r.t));
    lemma_pairs(d, ((p.x * p.t) * p.t), d, ((((q.x * q.z) * q.t) * q.t) * ((r.y * r.z) * r.t)));
    lemma_tensor(((p.x * p.t) * p.t), 1, 1, 1, (((q.y * q.y) * q.y) * q.t), ((r.x * r.t) * r.t));
    lemma_pairs(d, ((p.x * p.t) * p.t), d, ((((q.y * q.y) * q.y) * q.t) * ((r.x * r.t) * r.t)));
    lemma_tensor(((p.x * p.t) * p.t), 1, 1, 1, (((q.y * q.t) * q.t) * q.t), ((r.x * r.x) * r.x));
    lemma_pairs(d, ((p.x * p.t) * p.t), d, ((((q.y * q.t) * q.t) * q.t) * ((r.x * r.x) * r.x)));
    lemma_tensor(((p.x * p.t) * p.t), 1, 1, 1, (((q.y * q.t) * q.t) * q.t), ((r.y * r.z) * r.t));
    lemma_pairs(d, ((p.x * p.t) * p.t), d, ((((q.y * q.t) * q.t) * q.t) * ((r.y * r.z) * r.t)));
    lemma_tensor(((p.x * p.t) * p.t), 1, 1, 1, (((q.x * q.x) * q.x) * q.z), ((r.x * r.x) * r.x));
    lemma_pairs(d, ((p.x * p.t) * p.t), 1, ((((q.x * q.x) * q.x) * q.z) * ((r.x * r.x) * r.x)));
    lemma_tensor(((p.x * p.t) * p.t), 1, 1, 1, (((q.x * q.x) * q.x) * q.z), ((r.y * r.z) * r.t));
    lemma_pairs(d, ((p.x * p.t) * p.t), 1, ((((q.x * q.x) * q.x) * q.z) * ((r.y * r.z) * r.t)));
    lemma_pairs(d, ((p.x * p.t) * p.t), 1, ((((q.x * q.z) * q.t) * q.t) * ((r.x * r.x) * r.x)));
    lemma_pairs(d, ((p.x * p.t) * p.t), 1, ((((q.x * q.z) * q.t) * q.t) * ((r.y * r.z) * r.t)));
    lemma_tensor(((p.x * p.t) * p.t), 1, 1, 1, (((q.y * q.y) * q.y) * q.t), ((r.x * r.x) * r.x));
    lemma_pairs(d, ((p.x * p.t) * p.t), 1, ((((q.y * q.y) * q.y) * q.t) * ((r.x * r.x) * r.x)));
    lemma_tensor(((p.x * p.t) * p.t), 1, 1, 1, (((q.y * q.y) * q.y) * q.t), ((r.y * r.z) * r.t));
    lemma_pairs(d, ((p.x * p.t) * p.t), 1, ((((q.y * q.y) * q.y) * q.t) * ((r.y * r.z) * r.t)));
    lemma_distribute(v737, v768, v769);
    lemma_distribute_sub(v737, v766, v767);
    lemma_distribute_sub(v737, v764, v765);
    lemma_distribute(v737, v762, v763);
    lemma_distribute_sub(v737, v760, v761);
    lemma_distribute(v737, v758, v759);
    lemma_distribute_sub(v737, v756, v757);
    lemma_distribute(v737, v754, v755);
    lemma_distribute_sub(v737, v752, v753);
    lemma_distribute_sub(v737, v750, v751);
    lemma_distribute(v737, v748, v749);
    lemma_distribute(v737, v746, v747);
    lemma_distribute(v737, v744, v745);
    lemma_distribute(v737, v741, v743);
    lemma_tensor(((p.x * p.x) * p.x), 1, 1, 1, (((q.x * q.z) * q.t) * q.t), ((r.x * r.t) * r.t));
    lemma_pairs(1, ((p.x * p.x) * p.x), (d * d), ((((q.x * q.z) * q.t) * q.t) * ((r.x * r.t) * r.t)));
    lemma_tensor(((p.x * p.x) * p.x), 1, 1, 1, (((q.y * q.t) * q.t) * q.t), ((r.x * r.t) * r.t));
    lemma_pairs(1, ((p.x * p.x) * p.x), (d * d), ((((q.y * q.t) * q.t) * q.t) * ((r.x * r.t) * r.t)));
    lemma_tensor(((p.x * p.x) * p.x), 1, 1, 1, (((q.x * q.x) * q.x) * q.z), ((r.x * r.t) * r.t));
    lemma_pairs(1, ((p.x * p.x) * p.x), d, ((((q.x * q.x) * q.x) * q.z) * ((r.x * r.t) * r.t)));
    lemma_tensor(((p.x * p.x) * p.x), 1, 1, 1, (((q.x * q.z) * q.t) * q.t), ((r.x * r.x) * r.x));
    lemma_pairs(1, ((p.x * p.x) * p.x), d, ((((q.x * q.z) * q.t) * q.t) * ((r.x * r.x) * r.x)));
    lemma_pairs(1, ((p.x * p.x) * p.x), d, ((((q.x * q.z) * q.t) * q.t) * ((r.x * r.t) * r.t)));
    lemma_tensor(((p.x * p.x) * p.x), 1, 1, 1, (((q.x * q.z) * q.t) * q.t), ((r.y * r.z) * r.t));
    lemma_pairs(1, ((p.x * p.x) * p.x), d, ((((q.x * q.z) * q.t) * q.t) * ((r.y * r.z) * r.t)));
    lemma_tensor(((p.x * p.x) * p.x), 1, 1, 1, (((q.y * q.y) * q.y) * q.t), ((r.x * r.t) * r.t));
    lemma_pairs(1, ((p.x * p.x) * p.x), d, ((((q.y * q.y) * q.y) * q.t) * ((r.x * r.t) * r.t)));
    lemma_tensor(((p.x * p.x) * p.x), 1, 1, 1, (((q.y * q.t) * q.t) * q.t), ((r.x * r.x) * r.x));
    lemma_pairs(1, ((p.x * p.x) * p.x), d, ((((q.y * q.t) * q.t) * q.t) * ((r.x * r.x) * r.x)));
    lemma_tensor(((p.x * p.x) * p.x), 1, 1, 1, (((q.y * q.t) * q.t) * q.t), ((r.y * r.z) * r.t));
    lemma_pairs(1, ((p.x * p.x) * p.x), d, ((((q.y * q.t) * q.t) * q.t) * ((r.y * r.z) * r.t)));
    lemma_tensor(((p.x * p.x) * p.x), 1, 1, 1, (((q.x * q.x) * q.x) * q.z), ((r.x * r.x) * r.x));
    lemma_tensor(((p.x * p.x) * p.x), 1, 1, 1, (((q.x * q.x) * q.x) * q.z), ((r.y * r.z) * r.t));
    lemma_tensor(((p.x * p.x) * p.x), 1, 1, 1, (((q.y * q.y) * q.y) * q.t), ((r.x * r.x) * r.x));
    lemma_tensor(((p.x * p.x) * p.x), 1, 1, 1, (((q.y * q.y) * q.y) * q.t), ((r.y * r.z) * r.t));
    lemma_distribute(v739, v768, v769);
    lemma_distribute_sub(v739, v766, v767);
    lemma_distribute_sub(v739, v764, v765);
    lemma_distribute(v739, v762, v763);
    lemma_distribute_sub(v739, v760, v761);
    lemma_distribute(v739, v758, v759);
    lemma_distribute_sub(v739, v756, v757);
    lemma_distribute(v739, v754, v755);
    lemma_distribute_sub(v739, v752, v753);
    lemma_distribute_sub(v739, v750, v751);
    lemma_distribute(v739, v748, v749);
    lemma_distribute(v739, v746, v747);
    lemma_distribute(v739, v744, v745);
    lemma_distribute(v739, v741, v743);
    lemma_tensor(((p.y * p.z) * p.t), 1, 1, 1, (((q.x * q.z) * q.t) * q.t), ((r.x * r.t) * r.t));
    lemma_pairs(1, ((p.y * p.z) * p.t), (d * d), ((((q.x * q.z) * q.t) * q.t) * ((r.x * r.t) * r.t)));
    lemma_tensor(((p.y * p.z) * p.t), 1, 1, 1, (((q.y * q.t) * q.t) * q.t), ((r.x * r.t) * r.t));
    lemma_pairs(1, ((p.y * p.z) * p.t), (d * d), ((((q.y * q.t) * q.t) * q.t) * ((r.x * r.t) * r.t)));
    lemma_tensor(((p.y * p.z) * p.t), 1, 1, 1, (((q.x * q.x) * q.x) * q.z), ((r.x * r.t) * r.t));
    lemma_pairs(1, ((p.y * p.z) * p.t), d, ((((q.x * q.x) * q.x) * q.z) * ((r.x * r.t) * r.t)));
    lemma_tensor(((p.y * p.z) * p.t), 1, 1, 1, (((q.x * q.z) * q.t) * q.t), ((r.x * r.x) * r.x));
    lemma_pairs(1, ((p.y * p.z) * p.t), d, ((((q.x * q.z) * q.t) * q.t) * ((r.x * r.x) * r.x)));
    lemma_pairs(1, ((p.y * p.z) * p.t), d, ((((q.x * q.z) * q.t) * q.t) * ((r.x * r.t) * r.t)));
    lemma_tensor(((p.y * p.z) * p.t), 1, 1, 1, (((q.x * q.z) * q.t) * q.t), ((r.y * r.z) * r.t));
    lemma_pairs(1, ((p.y * p.z) * p.t), d, ((((q.x * q.z) * q.t) * q.t) * ((r.y * r.z) * r.t)));
    lemma_tensor(((p.y * p.z) * p.t), 1, 1, 1, (((q.y * q.y) * q.y) * q.t), ((r.x * r.t) * r.t));
    lemma_pairs(1, ((p.y * p.z) * p.t), d, ((((q.y * q.y) * q.y) * q.t) * ((r.x * r.t) * r.t)));
    lemma_tensor(((p.y * p.z) * p.t), 1, 1, 1, (((q.y * q.t) * q.t) * q.t), ((r.x * r.x) * r.x));
    lemma_pairs(1, ((p.y * p.z) * p.t), d, ((((q.y * q.t) * q.t) * q.t) * ((r.x * r.x) * r.x)));
    lemma_tensor(((p.y * p.z) * p.t), 1, 1, 1, (((q.y * q.t) * q.t) * q.t), ((r.y * r.z) * r.t));
    lemma_pairs(1, ((p.y * p.z) * p.t), d, ((((q.y * q.t) * q.t) * q.t) * ((r.y * r.z) * r.t)));
    lemma_tensor(((p.y * p.z) * p.t), 1, 1, 1, (((q.x * q.x) * q.x) * q.z), ((r.x * r.x) * r.x));
    lemma_tensor(((p.y * p.z) * p.t), 1, 1, 1, (((q.x * q.x) * q.x) * q.z), ((r.y * r.z) * r.t));
    lemma_tensor(((p.y * p.z) * p.t), 1, 1, 1, (((q.y * q.y) * q.y) * q.t), ((r.x * r.x) * r.x));
    lemma_tensor(((p.y * p.z) * p.t), 1, 1, 1, (((q.y * q.y) * q.y) * q.t), ((r.y * r.z) * r.t));
    assert(((((0 - (d * ((p.x * p.t) * p.t))) - ((p.x * p.x) * p.x)) + ((p.y * p.z) * p.t)) * ((((((0 - (d * (((q.x * q.z) * q.t) * q.t))) - (d * (((q.y * q.t) * q.t) * q.t))) - (((q.x * q.x) * q.x) * q.z)) - (((q.x * q.z) * q.t) * q.t)) + (((q.y * q.y) * q.y) * q.t)) * (((0 - (d * ((r.x * r.t) * r.t))) - ((r.x * r.x) * r.x)) + ((r.y * r.z) * r.t)))) == (((((((((((((((((((((((((((((((((((((((((((((0 - (((d * d) * d) * (((p.x * p.t) * p.t) * ((((q.x * q.z) * q.t) * q.t) * ((r.x * r.t) * r.t))))) - (((d * d) * d) * (((p.x * p.t) * p.t) * ((((q.y * q.t) * q.t) * q.t) * ((r.x * r.t) * r.t))))) - ((d * d) * (((p.x * p.x) * p.x) * ((((q.x * q.z) * q.t) * q.t) * ((r.x * r.t) * r.t))))) - ((d * d) * (((p.x * p.x) * p.x) * ((((q.y * q.t) * q.t) * q.t) * ((r.x * r.t) * r.t))))) - ((d * d) * (((p.x * p.t) * p.t) * ((((q.x * q.x) * q.x) * q.z) * ((r.x * r.t) * r.t))))) - ((d * d) * (((p.x * p.t) * p.t) * ((((q.x * q.z) * q.t) * q.t) * ((r.x * r.x) * r.x))))) - ((d * d) * (((p.x * p.t) * p.t) * ((((q.x * q.z) * q.t) * q.t) * ((r.x * r.t) * r.t))))) + ((d * d) * (((p.x * p.t) * p.t) * ((((q.x * q.z) * q.t) * q.t) * ((r.y * r.z) * r.t))))) + ((d * d) * (((p.x * p.t) * p.t) * ((((q.y * q.y) * q.y) * q.t) * ((r.x * r.t) * r.t))))) - ((d * d) * (((p.x * p.t) * p.t) * ((((q.y * q.t) * q.t) * q.t) * ((r.x * r.x) * r.x))))) + ((d * d) * (((p.x * p.t) * p.t) * ((((q.y * q.t) * q.t) * q.t) * ((r.y * r.z) * r.t))))) + ((d * d) * (((p.y * p.z) * p.t) * ((((q.x * q.z) * q.t) * q.t) * ((r.x * r.t) * r.t))))) + ((d * d) * (((p.y * p.z) * p.t) * ((((q.y * q.t) * q.t) * q.t) * ((r.x * r.t) * r.t))))) - (d * (((p.x * p.x) * p.x) * ((((q.x * q.x) * q.x) * q.z) * ((r.x * r.t) * r.t))))) - (d * (((p.x * p.x) * p.x) * ((((q.x * q.z) * q.t) * q.t) * ((r.x * r.x) * r.x))))) - (d * (((p.x * p.x) * p.x) * ((((q.x * q.z) * q.t) * q.t) * ((r.x * r.t) * r.t))))) + (d * (((p.x * p.x) * p.x) * ((((q.x * q.z) * q.t) * q.t) * ((r.y * r.z) * r.t))))) + (d * (((p.x * p.x) * p.x) * ((((q.y * q.y) * q.y) * q.t) * ((r.x * r.t) * r.t))))) - (d * (((p.x * p.x) * p.x) * ((((q.y * q.t) * q.t) * q.t) * ((r.x * r.x) * r.x))))) + (d * (((p.x * p.x) * p.x) * ((((q.y * q.t) * q.t) * q.t) * ((r.y * r.z) * r.t))))) - (d * (((p.x * p.t) * p.t) * ((((q.x * q.x) * q.x) * q.z) * ((r.x * r.x) * r.x))))) + (d * (((p.x * p.t) * p.t) * ((((q.x * q.x) * q.x) * q.z) * ((r.y * r.z) * r.t))))) - (d * (((p.x * p.t) * p.t) * ((((q.x * q.z) * q.t) * q.t) * ((r.x * r.x) * r.x))))) + (d * (((p.x * p.t) * p.t) * ((((q.x * q.z) * q.t) * q.t) * ((r.y * r.z) * r.t))))) + (d * (((p.x * p.t) * p.t) * ((((q.y * q.y) * q.y) * q.t) * ((r.x * r.x) * r.x))))) - (d * (((p.x * p.t) * p.t) * ((((q.y * q.y) * q.y) * q.t) * ((r.y * r.z) * r.t))))) + (d * (((p.y * p.z) * p.t) * ((((q.x * q.x) * q.x) * q.z) * ((r.x * r.t) * r.t))))) + (d * (((p.y * p.z) * p.t) * ((((q.x * q.z) * q.t) * q.t) * ((r.x * r.x) * r.x))))) + (d * (((p.y * p.z) * p.t) * ((((q.x * q.z) * q.t) * q.t) * ((r.x * r.t) * r.t))))) - (d * (((p.y * p.z) * p.t) * ((((q.x * q.z) * q.t) * q.t) * ((r.y * r.z) * r.t))))) - (d * (((p.y * p.z) * p.t) * ((((q.y * q.y) * q.y) * q.t) * ((r.x * r.t) * r.t))))) + (d * (((p.y * p.z) * p.t) * ((((q.y * q.t) * q.t) * q.t) * ((r.x * r.x) * r.x))))) - (d * (((p.y * p.z) * p.t) * ((((q.y * q.t) * q.t) * q.t) * ((r.y * r.z) * r.t))))) - (((p.x * p.x) * p.x) * ((((q.x * q.x) * q.x) * q.z) * ((r.x * r.x) * r.x)))) + (((p.x * p.x) * p.x) * ((((q.x * q.x) * q.x) * q.z) * ((r.y * r.z) * r.t)))) - (((p.x * p.x) * p.x) * ((((q.x * q.z) * q.t) * q.t) * ((r.x * r.x) * r.x)))) + (((p.x * p.x) * p.x) * ((((q.x * q.z) * q.t) * q.t) * ((r.y * r.z) * r.t)))) + (((p.x * p.x) * p.x) * ((((q.y * q.y) * q.y) * q.t) * ((r.x * r.x) * r.x)))) - (((p.x * p.x) * p.x) * ((((q.y * q.y) * q.y) * q.t) * ((r.y * r.z) * r.t)))) + (((p.y * p.z) * p.t) * ((((q.x * q.x) * q.x) * q.z) * ((r.x * r.x) * r.x)))) - (((p.y * p.z) * p.t) * ((((q.x * q.x) * q.x) * q.z) * ((r.y * r.z) * r.t)))) + (((p.y * p.z) * p.t) * ((((q.x * q.z) * q.t) * q.t) * ((r.x * r.x) * r.x)))) - (((p.y * p.z) * p.t) * ((((q.x * q.z) * q.t) * q.t) * ((r.y * r.z) * r.t)))) - (((p.y * p.z) * p.t) * ((((q.y * q.y) * q.y) * q.t) * ((r.x * r.x) * r.x)))) + (((p.y * p.z) * p.t) * ((((q.y * q.y) * q.y) * q.t) * ((r.y * r.z) * r.t)))));
}

/// The product of the reduced monomials of the second and the third point,
/// term by term.
proof fn lemma_pair_30(d: int, q: Lift, r: Lift)
    ensures
        ((((((d * (((q.x * q.t) * q.t) * q.t)) - (d * (((q.y * q.z) * q.t) * q.t))) + (((q.x * q.x) * q.x) * q.t)) + (((q.y * q.y) * q.y) * q.z)) - (((q.y * q.z) * q.t) * q.t)) * (((0 - (d * ((r.y * r.t) * r.t))) - ((r.x * r.z) * r.t)) + ((r.y * r.y) * r.y))) == (((((((((((((((0 - ((d * d) * ((((q.x * q.t) * q.t) * q.t) * ((r.y * r.t) * r.t)))) + ((d * d) * ((((q.y * q.z) * q.t) * q.t) * ((r.y * r.t) * r.t)))) - (d * ((((q.x * q.x) * q.x) * q.t) * ((r.y * r.t) * r.t)))) - (d * ((((q.x * q.t) * q.t) * q.t) * ((r.x * r.z) * r.t)))) + (d * ((((q.x * q.t) * q.t) * q.t) * ((r.y * r.y) * r.y)))) - (d * ((((q.y * q.y) * q.y) * q.z) * ((r.y * r.t) * r.t)))) + (d * ((((q.y * q.z) * q.t) * q.t) * ((r.x * r.z) * r.t)))) - (d * ((((q.y * q.z) * q.t) * q.t) * ((r.y * r.y) * r.y)))) + (d * ((((q.y * q.z) * q.t) * q.t) * ((r.y * r.t) * r.t)))) - ((((q.x * q.x) * q.x) * q.t) * ((r.x * r.z) * r.t))) + ((((q.x * q.x) * q.x) * q.t) * ((r.y * r.y) * r.y))) - ((((q.y * q.y) * q.y) * q.z) * ((r.x * r.z) * r.t))) + ((((q.y * q.y) * q.y) * q.z) * ((r.y * r.y) * r.y))) + ((((q.y * q.z) * q.t) * q.t) * ((r.x * r.z) * r.t))) - ((((q.y * q.z) * q.t) * q.t) * ((r.y * r.y) * r.y))),
{
    let v775 = (d * (((q.x * q.t) * q.t) * q.t));
    let v777 = (d * (((q.y * q.z) * q.t) * q.t));
    let v778 = v775 - v777;
    let v779 = (((q.x * q.x) * q.x) * q.t);
    let v780 = v778 + v779;
    let v781 = (((q.y * q.y) * q.y) * q.z);
    let v782 = v780 + v781;
    let v783 = (((q.y * q.z) * q.t) * q.t);
    let v784 = v782 - v783;
    let v785 = (d * ((r.y * r.t) * r.t));
    let v786 = 0 - v785;
    let v787 = ((r.x * r.z) * r.t);
    let v788 = v786 - v787;
    let v789 = ((r.y * r.y) * r.y);
    let v790 = v788 + v789;
    lemma_distribute_sub(v790, v782, v783);
    lemma_distribute(v790, v780, v781);
    lemma_distribute(v790, v778, v779);
    lemma_distribute_sub(v790, v775, v777);
    lemma_distribute(v775, v788, v789);
    lemma_distribute_sub(v775, v786, v787);
    lemma_distribute_sub(v775, 0, v785);
    lemma_tensor(1, (((q.x * q.t) * q.t) * q.t), 1, 1, 1, ((r.y * r.t) * r.t));
    lemma_pairs(d, (((q.x * q.t) * q.t) * q.t), d, ((r.y * r.t) * r.t));
    lemma_tensor(1, (((q.x * q.t) * q.t) * q.t), 1, 1, 1, ((r.x * r.z) * r.t));
    lemma_pairs(d, (((q.x * q.t) * q.t) * q.t), 1, ((r.x * r.z) * r.t));
    lemma_tensor(1, (((q.x * q.t) * q.t) * q.t), 1, 1, 1, ((r.y * r.y) * r.y));
    lemma_pairs(d, (((q.x * q.t) * q.t) * q.t), 1, ((r.y * r.y) * r.y));
    lemma_distribute(v777, v788, v789);
    lemma_distribute_sub(v777, v786, v787);
    lemma_distribute_sub(v777, 0, v785);
    lemma_tensor(1, (((q.y * q.z) * q.t) * q.t), 1, 1, 1, ((r.y * r.t) * r.t));
    lemma_pairs(d, (((q.y * q.z) * q.t) * q.t), d, ((r.y * r.t) * r.t));
    lemma_tensor(1, (((q.y * q.z) * q.t) * q.t), 1, 1, 1, ((r.x * r.z) * r.t));
    lemma_pairs(d, (((q.y * q.z) * q.t) * q.t), 1, ((r.x * r.z) * r.t));
    lemma_tensor(1, (((q.y * q.z) * q.t) * q.t), 1, 1, 1, ((r.y * r.y) * r.y));
    lemma_pairs(d, (((q.y * q.z) * q.t) * q.t), 1, ((r.y * r.y) * r.y));
    lemma_distribute(v779, v788, v789);
    lemma_distribute_sub(v779, v786, v787);
    lemma_distribute_sub(v779, 0, v785);
    lemma_tensor(1, (((q.x * q.x) * q.x) * q.t), 1, 1, 1, ((r.y * r.t) * r.t));
    lemma_pairs(1, (((q.x * q.x) * q.x) * q.t), d, ((r.y * r.t) * r.t));
    lemma_tensor(1, (((q.x * q.x) * q.x) * q.t), 1, 1, 1, ((r.x * r.z) * r.t));
    lemma_tensor(1, (((q.x * q.x) * q.x) * q.t), 1, 1, 1, ((r.y * r.y) * r.y));
    lemma_distribute(v781, v788, v789);
    lemma_distribute_sub(v781, v786, v787);
    lemma_distribute_sub(v781, 0, v785);
    lemma_tensor(1, (((q.y * q.y) * q.y) * q.z), 1, 1, 1, ((r.y * r.t) * r.t));
    lemma_pairs(1, (((q.y * q.y) * q.y) * q.z), d, ((r.y * r.t) * r.t));
    lemma_tensor(1, (((q.y * q.y) * q.y) * q.z), 1, 1, 1, ((r.x * r.z) * r.t));
    lemma_tensor(1, (((q.y * q.y) * q.y) * q.z), 1, 1, 1, ((r.y * r.y) * r.y));
    lemma_distribute(v783, v788, v789);
    lemma_distribute_sub(v783, v786, v787);
    lemma_distribute_sub(v783, 0, v785);
    lemma_pairs(1, (((q.y * q.z) * q.t) * q.t), d, ((r.y * r.t) * r.t));
    assert(((((((d * (((q.x * q.t) * q.t) * q.t)) - (d * (((q.y * q.z) * q.t) * q.t))) + (((q.x * q.x) * q.x) * q.t)) + (((q.y * q.y) * q.y) * q.z)) - (((q.y * q.z) * q.t) * q.t)) * (((0 - (d * ((r.y * r.t) * r.t))) - ((r.x * r.z) * r.t)) + ((r.y * r.y) * r.y))) == (((((((((((((((0 - ((d * d) * ((((q.x * q.t) * q.t) * q.t) * ((r.y * r.t) * r.t)))) + ((d * d) * ((((q.y * q.z) * q.t) * q.t) * ((r.y * r.t) * r.t)))) - (d * ((((q.x * q.x) * q.x) * q.t) * ((r.y * r.t) * r.t)))) - (d * ((((q.x * q.t) * q.t) * q.t) * ((r.x * r.z) * r.t)))) + (d * ((((q.x * q.t) * q.t) * q.t) * ((r.y * r.y) * r.y)))) - (d * ((((q.y * q.y) * q.y) * q.z) * ((r.y * r.t) * r.t)))) + (d * ((((q.y * q.z) * q.t) * q.t) * ((r.x * r.z) * r.t)))) - (d * ((((q.y * q.z) * q.t) * q.t) * ((r.y * r.y) * r.y)))) + (d * ((((q.y * q.z) * q.t) * q.t) * ((r.y * r.t) * r.t)))) - ((((q.x * q.x) * q.x) * q.t) * ((r.x * r.z) * r.t))) + ((((q.x * q.x) * q.x) * q.t) * ((r.y * r.y) * r.y))) - ((((q.y * q.y) * q.y) * q.z) * ((r.x * r.z) * r.t))) + ((((q.y * q.y) * q.y) * q.z) * ((r.y * r.y) * r.y))) + ((((q.y * q.z) * q.t) * q.t) * ((r.x * r.z) * r.t))) - ((((q.y * q.z) * q.t) * q.t) * ((r.y * r.y) * r.y))));
}

/// A term of the cross product, reduced.
proof fn lemma_term_34(d: int, p: Lift, q: Lift, r: Lift)
    requires
        reducible(p, d),
        reducible(q, d),
        reducible(r, d),
    ensures
        congruent((((p.x * p.z) * p.z) * ((((q.y * q.z) * q.z) * q.z) * ((r.y * r.z) * r.z))), (((((((((((((((((((((((((((((((((((((((((((((((d * d) * d) * (((p.x * p.t) * p.t) * ((((q.x * q.t) * q.t) * q.t) * ((r.y * r.t) * r.t)))) - (((d * d) * d) * (((p.x * p.t) * p.t) * ((((q.y * q.z) * q.t) * q.t) * ((r.y * r.t) * r.t))))) + ((d * d) * (((p.x * p.x) * p.x) * ((((q.x * q.t) * q.t) * q.t) * ((r.y * r.t) * r.t))))) - ((d * d) * (((p.x * p.x) * p.x) * ((((q.y * q.z) * q.t) * q.t) * ((r.y * r.t) * r.t))))) + ((d * d) * (((p.x * p.t) * p.t) * ((((q.x * q.x) * q.x) * q.t) * ((r.y * r.t) * r.t))))) + ((d * d) * (((p.x * p.t) * p.t) * ((((q.x * q.t) * q.t) * q.t) * ((r.x * r.z) * r.t))))) - ((d * d) * (((p.x * p.t) * p.t) * ((((q.x * q.t) * q.t) * q.t) * ((r.y * r.y) * r.y))))) + ((d * d) * (((p.x * p.t) * p.t) * ((((q.y * q.y) * q.y) * q.z) * ((r.y * r.t) * r.t))))) - ((d * d) * (((p.x * p.t) * p.t) * ((((q.y * q.z) * q.t) * q.t) * ((r.x * r.z) * r.t))))) + ((d * d) * (((p.x * p.t) * p.t) * ((((q.y * q.z) * q.t) * q.t) * ((r.y * r.y) * r.y))))) - ((d * d) * (((p.x * p.t) * p.t) * ((((q.y * q.z) * q.t) * q.t) * ((r.y * r.t) * r.t))))) - ((d * d) * (((p.y * p.z) * p.t) * ((((q.x * q.t) * q.t) * q.t) * ((r.y * r.t) * r.t))))) + ((d * d) * (((p.y * p.z) * p.t) * ((((q.y * q.z) * q.t) * q.t) * ((r.y * r.t) * r.t))))) + (d * (((p.x * p.x) * p.x) * ((((q.x * q.x) * q.x) * q.t) * ((r.y * r.t) * r.t))))) + (d * (((p.x * p.x) * p.x) * ((((q.x * q.t) * q.t) * q.t) * ((r.x * r.z) * r.t))))) - (d * (((p.x * p.x) * p.x) * ((((q.x * q.t) * q.t) * q.t) * ((r.y * r.y) * r.y))))) + (d * (((p.x * p.x) * p.x) * ((((q.y * q.y) * q.y) * q.z) * ((r.y * r.t) * r.t))))) - (d * (((p.x * p.x) * p.x) * ((((q.y * q.z) * q.t) * q.t) * ((r.x * r.z) * r.t))))) + (d * (((p.x * p.x) * p.x) * ((((q.y * q.z) * q.t) * q.t) * ((r.y * r.y) * r.y))))) - (d * (((p.x * p.x) * p.x) * ((((q.y * q.z) * q.t) * q.t) * ((r.y * r.t) * r.t))))) + (d * (((p.x * p.t) * p.t) * ((((q.x * q.x) * q.x) * q.t) * ((r.x * r.z) * r.t))))) - (d * (((p.x * p.t) * p.t) * ((((q.x * q.x) * q.x) * q.t) * ((r.y * r.y) * r.y))))) + (d * (((p.x * p.t) * p.t) * ((((q.y * q.y) * q.y) * q.z) * ((r.x * r.z) * r.t))))) - (d * (((p.x * p.t) * p.t) * ((((q.y * q.y) * q.y) * q.z) * ((r.y * r.y) * r.y))))) - (d * (((p.x * p.t) * p.t) * ((((q.y * q.z) * q.t) * q.t) * ((r.x * r.z) * r.t))))) + (d * (((p.x * p.t) * p.t) * ((((q.y * q.z) * q.t) * q.t) * ((r.y * r.y) * r.y))))) - (d * (((p.y * p.z) * p.t) * ((((q.x * q.x) * q.x) * q.t) * ((r.y * r.t) * r.t))))) - (d * (((p.y * p.z) * p.t) * ((((q.x * q.t) * q.t) * q.t) * ((r.x * r.z) * r.t))))) + (d * (((p.y * p.z) * p.t) * ((((q.x * q.t) * q.t) * q.t) * ((r.y * r.y) * r.y))))) - (d * (((p.y * p.z) * p.t) * ((((q.y * q.y) * q.y) * q.z) * ((r.y * r.t) * r.t))))) + (d * (((p.y * p.z) * p.t) * ((((q.y * q.z) * q.t) * q.t) * ((r.x * r.z) * r.t))))) - (d * (((p.y * p.z) * p.t) * ((((q.y * q.z) * q.t) * q.t) * ((r.y * r.y) * r.y))))) + (d * (((p.y * p.z) * p.t) * ((((q.y * q.z) * q.t) * q.t) * ((r.y * r.t) * r.t))))) + (((p.x * p.x) * p.x) * ((((q.x * q.x) * q.x) * q.t) * ((r.x * r.z) * r.t)))) - (((p.x * p.x) * p.x) * ((((q.x * q.x) * q.x) * q.t) * ((r.y * r.y) * r.y)))) + (((p.x * p.x) * p.x) * ((((q.y * q.y) * q.y) * q.z) * ((r.x * r.z) * r.t)))) - (((p.x * p.x) * p.x) * ((((q.y * q.y) * q.y) * q.z) * ((r.y * r.y) * r.y)))) - (((p.x * p.x) * p.x) * ((((q.y * q.z) * q.t) * q.t) * ((r.x * r.z) * r.t)))) + (((p.x * p.x) * p.x) * ((((q.y * q.z) * q.t) * q.t) * ((r.y * r.y) * r.y)))) - (((p.y * p.z) * p.t) * ((((q.x * q.x) * q.x) * q.t) * ((r.x * r.z) * r.t)))) + (((p.y * p.z) * p.t) * ((((q.x * q.x) * q.x) * q.t) * ((r.y * r.y) * r.y)))) - (((p.y * p.z) * p.t) * ((((q.y * q.y) * q.y) * q.z) * ((r.x * r.z) * r.t)))) + (((p.y * p.z) * p.t) * ((((q.y * q.y) * q.y) * q.z) * ((r.y * r.y) * r.y)))) + (((p.y * p.z) * p.t) * ((((q.y * q.z) * q.t) * q.t) * ((r.x * r.z) * r.t)))) - (((p.y * p.z) * p.t) * ((((q.y * q.z) * q.t) * q.t) * ((r.y * r.y) * r.y))))),
{
    lemma_point_1020(d, p);
    lemma_point_0130(d, q);
    lemma_point_0120(d, r);
    lemma_congruent_mul((((q.y * q.z) * q.z) * q.z), (((((d * (((q.x * q.t) * q.t) * q.t)) - (d * (((q.y * q.z) * q.t) * q.t))) + (((q.x * q.x) * q.x) * q.t)) + (((q.y * q.y) * q.y) * q.z)) - (((q.y * q.z) * q.t) * q.t)), ((r.y * r.z) * r.z), (((0 - (d * ((r.y * r.t) * r.t))) - ((r.x * r.z) * r.t)) + ((r.y * r.y) * r.y)));
    lemma_congruent_mul(((p.x * p.z) * p.z), (((0 - (d * ((p.x * p.t) * p.t))) - ((p.x * p.x) * p.x)) + ((p.y * p.z) * p.t)), ((((q.y * q.z) * q.z) * q.z) * ((r.y * r.z) * r.z)), ((((((d * (((q.x * q.t) * q.t) * q.t)) - (d * (((q.y * q.z) * q.t) * q.t))) + (((q.x * q.x) * q.x) * q.t)) + (((q.y * q.y) * q.y) * q.z)) - (((q.y * q.z) * q.t) * q.t)) * (((0 - (d * ((r.y * r.t) * r.t))) - ((r.x * r.z) * r.t)) + ((r.y * r.y) * r.y))));
    lemma_pair_30(d, q, r);
    let v791 = (d * ((p.x * p.t) * p.t));
    let v792 = 0 - v791;
    let v793 = ((p.x * p.x) * p.x);
    let v794 = v792 - v793;
    let v795 = ((p.y * p.z) * p.t);
    let v796 = v794 + v795;
    let v797 = ((d * d) * ((((q.x * q.t) * q.t) * q.t) * ((r.y * r.t) * r.t)));
    let v798 = 0 - v797;
    let v799 = ((d * d) * ((((q.y * q.z) * q.t) * q.t) * ((r.y * r.t) * r.t)));
    let v800 = v798 + v799;
    let v801 = (d * ((((q.x * q.x) * q.x) * q.t) * ((r.y * r.t) * r.t)));
    let v802 = v800 - v801;
    let v803 = (d * ((((q.x * q.t) * q.t) * q.t) * ((r.x * r.z) * r.t)));
    let v804 = v802 - v803;
    let v805 = (d * ((((q.x * q.t) * q.t) * q.t) * ((r.y * r.y) * r.y)));
    let v806 = v804 + v805;
    let v807 = (d * ((((q.y * q.y) * q.y) * q.z) * ((r.y * r.t) * r.t)));
    let v808 = v806 - v807;
    let v809 = (d * ((((q.y * q.z) * q.t) * q.t) * ((r.x * r.z) * r.t)));
    let v810 = v808 + v809;
    let v811 = (d * ((((q.y * q.z) * q.t) * q.t) * ((r.y * r.y) * r.y)));
    let v812 = v810 - v811;
    let v813 = (d * ((((q.y * q.z) * q.t) * q.t) * ((r.y * r.t) * r.t)));
    let v814 = v812 + v813;
    let v815 = ((((q.x * q.x) * q.x) * q.t) * ((r.x * r.z) * r.t));
    let v816 = v814 - v815;
    let v817 = ((((q.x * q.x) * q.x) * q.t) * ((r.y * r.y) * r.y));
    let v818 = v816 + v817;
    let v819 = ((((q.y * q.y) * q.y) * q.z) * ((r.x * r.z) * r.t));
    let v820 = v818 - v819;
    let v821 = ((((q.y * q.y) * q.y) * q.z) * ((r.y * r.y) * r.y));
    let v822 = v820 + v821;
    let v823 = ((((q.y * q.z) * q.t) * q.t) * ((r.x * r.z) * r.t));
    let v824 = v822 + v823;
    let v825 = ((((q.y * q.z) * q.t) * q.t) * ((r.y * r.y) * r.y));
    let v826 = v824 - v825;
    lemma_distribute(v826, v794, v795);
    lemma_distribute_sub(v826, v792, v793);
    lemma_distribute_sub(v826, 0, v791);
    lemma_distribute_sub(v791, v824, v825);
    lemma_distribute(v791, v822, v823);
    lemma_distribute(v791, v820, v821);
    lemma_distribute_sub(v791, v818, v819);
    lemma_distribute(v791, v816, v817);
    lemma_distribute_sub(v791, v814, v815);
    lemma_distribute(v791, v812, v813);
    lemma_distribute_sub(v791, v810, v811);
    lemma_distribute(v791, v808, v809);
    lemma_distribute_sub(v791, v806, v807);
    lemma_distribute(v791, v804, v805);
    lemma_distribute_sub(v791, v802, v803);
    lemma_distribute_sub(v791, v800, v801);
    lemma_distribute(v791, v798, v799);
    lemma_distribute_sub(v791, 0, v797);
    assert(d * (d * d) == ((d * d) * d)) by (nonlinear_arith);
    lemma_tensor(((p.x * p.t) * p.t), 1, 1, 1, (((q.x * q.t) * q.t) * q.t), ((r.y * r.t) * r.t));
    lemma_pairs(d, ((p.x * p.t) * p.t), (d * d), ((((q.x * q.t) * q.t) * q.t) * ((r.y * r.t) * r.t)));
    lemma_tensor(((p.x * p.t) * p.t), 1, 1, 1, (((q.y * q.z) * q.t) * q.t), ((r.y * r.t) * r.t));
    lemma_pairs(d, ((p.x * p.t) * p.t), (d * d), ((((q.y * q.z) * q.t) * q.t) * ((r.y * r.t) * r.t)));
    lemma_tensor(((p.x * p.t) * p.t), 1, 1, 1, (((q.x * q.x) * q.x) * q.t), ((r.y * r.t) * r.t));
    lemma_pairs(d, ((p.x * p.t) * p.t), d, ((((q.x * q.x) * q.x) * q.t) * ((r.y * r.t) * r.t)));
    lemma_tensor(((p.x * p.t) * p.t), 1, 1, 1, (((q.x * q.t) * q.t) * q.t), ((r.x * r.z) * r.t));
    lemma_pairs(d, ((p.x * p.t) * p.t), d, ((((q.x * q.t) * q.t) * q.t) * ((r.x * r.z) * r.t)));
    lemma_tensor(((p.x * p.t) * p.t), 1, 1, 1, (((q.x * q.t) * q.t) * q.t), ((r.y * r.y) * r.y));
    lemma_pairs(d, ((p.x * p.t) * p.t), d, ((((q.x * q.t) * q.t) * q.t) * ((r.y * r.y) * r.y)));
    lemma_tensor(((p.x * p.t) * p.t), 1, 1, 1, (((q.y * q.y) * q.y) * q.z), ((r.y * r.t) * r.t));
    lemma_pairs(d, ((p.x * p.t) * p.t), d, ((((q.y * q.y) * q.y) * q.z) * ((r.y * r.t) * r.t)));
    lemma_tensor(((p.x * p.t) * p.t), 1, 1, 1, (((q.y * q.z) * q.t) * q.t), ((r.x * r.z) * r.t));
    lemma_pairs(d, ((p.x * p.t) * p.t), d, ((((q.y * q.z) * q.t) * q.t) * ((r.x * r.z) * r.t)));
    lemma_tensor(((p.x * p.t) * p.t), 1, 1, 1, (((q.y * q.z) * q.t) * q.t), ((r.y * r.y) * r.y));
    lemma_pairs(d, ((p.x * p.t) * p.t), d, ((((q.y * q.z) * q.t) * q.t) * ((r.y * r.y) * r.y)));
    lemma_pairs(d, ((p.x * p.t) * p.t), d, ((((q.y * q.z) * q.t) * q.t) * ((r.y * r.t) * r.t)));
    lemma_tensor(((p.x * p.t) * p.t), 1, 1, 1, (((q.x * q.x) * q.x) * q.t), ((r.x * r.z) * r.t));
    lemma_pairs(d, ((p.x * p.t) * p.t), 1, ((((q.x * q.x) * q.x) * q.t) * ((r.x * r.z) * r.t)));
    lemma_tensor(((p.x * p.t) * p.t), 1, 1, 1, (((q.x * q.x) * q.x) * q.t), ((r.y * r.y) * r.y));
    lemma_pairs(d, ((p.x * p.t) * p.t), 1, ((((q.x * q.x) * q.x) * q.t) * ((r.y * r.y) * r.y)));
    lemma_tensor(((p.x * p.t) * p.t), 1, 1, 1, (((q.y * q.y) * q.y) * q.z), ((r.x * r.z) * r.t));
    lemma_pairs(d, ((p.x * p.t) * p.t), 1, ((((q.y * q.y) * q.y) * q.z) * ((r.x * r.z) * r.t)));
    lemma_tensor(((p.x * p.t) * p.t), 1, 1, 1, (((q.y * q.y) * q.y) * q.z), ((r.y * r.y) * r.y));
    lemma_pairs(d, ((p.x * p.t) * p.t), 1, ((((q.y * q.y) * q.y) * q.z) * ((r.y * r.y) * r.y)));
    lemma_pairs(d, ((p.x * p.t) * p.t), 1, ((((q.y * q.z) * q.t) * q.t) * ((r.x * r.z) * r.t)));
    lemma_pairs(d, ((p.x * p.t) * p.t), 1, ((((q.y * q.z) * q.t) * q.t) * ((r.y * r.y) * r.y)));
    lemma_distribute_sub(v793, v824, v825);
    lemma_distribute(v793, v822, v823);
    lemma_distribute(v793, v820, v821);
    lemma_distribute_sub(v793, v818, v819);
    lemma_distribute(v793, v816, v817);
    lemma_distribute_sub(v793, v814, v815);
    lemma_distribute(v793, v812, v813);
    lemma_distribute_sub(v793, v810, v811);
    lemma_distribute(v793, v808, v809);
    lemma_distribute_sub(v793, v806, v807);
    lemma_distribute(v793, v804, v805);
    lemma_distribute_sub(v793, v802, v803);
    lemma_distribute_sub(v793, v800, v801);
    lemma_distribute(v793, v798, v799);
    lemma_distribute_sub(v793, 0, v797);
    lemma_tensor(((p.x * p.x) * p.x), 1, 1, 1, (((q.x * q.t) * q.t) * q.t), ((r.y * r.t) * r.t));
    lemma_pairs(1, ((p.x * p.x) * p.x), (d * d), ((((q.x * q.t) * q.t) * q.t) * ((r.y * r.t) * r.t)));
    lemma_tensor(((p.x * p.x) * p.x), 1, 1, 1, (((q.y * q.z) * q.t) * q.t), ((r.y * r.t) * r.t));
    lemma_pairs(1, ((p.x * p.x) * p.x), (d * d), ((((q.y * q.z) * q.t) * q.t) * ((r.y * r.t) * r.t)));
    lemma_tensor(((p.x * p.x) * p.x), 1, 1, 1, (((q.x * q.x) * q.x) * q.t), ((r.y * r.t) * r.t));
    lemma_pairs(1, ((p.x * p.x) * p.x), d, ((((q.x * q.x) * q.x) * q.t) * ((r.y * r.t) * r.t)));
    lemma_tensor(((p.x * p.x) * p.x), 1, 1, 1, (((q.x * q.t) * q.t) * q.t), ((r.x * r.z) * r.t));
    lemma_pairs(1, ((p.x * p.x) * p.x), d, ((((q.x * q.t) * q.t) * q.t) * ((r.x * r.z) * r.t)));
    lemma_tensor(((p.x * p.x) * p.x), 1, 1, 1, (((q.x * q.t) * q.t) * q.t), ((r.y * r.y) * r.y));
    lemma_pairs(1, ((p.x * p.x) * p.x), d, ((((q.x * q.t) * q.t) * q.t) * ((r.y * r.y) * r.y)));
    lemma_tensor(((p.x * p.x) * p.x), 1, 1, 1, (((q.y * q.y) * q.y) * q.z), ((r.y * r.t) * r.t));
    lemma_pairs(1, ((p.x * p.x) * p.x), d, ((((q.y * q.y) * q.y) * q.z) * ((r.y * r.t) * r.t)));
    lemma_tensor(((p.x * p.x) * p.x), 1, 1, 1, (((q.y * q.z) * q.t) * q.t), ((r.x * r.z) * r.t));
    lemma_pairs(1, ((p.x * p.x) * p.x), d, ((((q.y * q.z) * q.t) * q.t) * ((r.x * r.z) * r.t)));
    lemma_tensor(((p.x * p.x) * p.x), 1, 1, 1, (((q.y * q.z) * q.t) * q.t), ((r.y * r.y) * r.y));
    lemma_pairs(1, ((p.x * p.x) * p.x), d, ((((q.y * q.z) * q.t) * q.t) * ((r.y * r.y) * r.y)));
    lemma_pairs(1, ((p.x * p.x) * p.x), d, ((((q.y * q.z) * q.t) * q.t) * ((r.y * r.t) * r.t)));
    lemma_tensor(((p.x * p.x) * p.x), 1, 1, 1, (((q.x * q.x) * q.x) * q.t), ((r.x * r.z) * r.t));
    lemma_tensor(((p.x * p.x) * p.x), 1, 1, 1, (((q.x * q.x) * q.x) * q.t), ((r.y * r.y) * r.y));
    lemma_tensor(((p.x * p.x) * p.x), 1, 1, 1, (((q.y * q.y) * q.y) * q.z), ((r.x * r.z) * r.t));
    lemma_tensor(((p.x * p.x) * p.x), 1, 1, 1, (((q.y * q.y) * q.y) * q.z), ((r.y * r.y) * r.y));
    lemma_distribute_sub(v795, v824, v825);
    lemma_distribute(v795, v822, v823);
    lemma_distribute(v795, v820, v821);
    lemma_distribute_sub(v795, v818, v819);
    lemma_distribute(v795, v816, v817);
    lemma_distribute_sub(v795, v814, v815);
    lemma_distribute(v795, v812, v813);
    lemma_distribute_sub(v795, v810, v811);
    lemma_distribute(v795, v808, v809);
    lemma_distribute_sub(v795, v806, v807);
    lemma_distribute(v795, v804, v805);
    lemma_distribute_sub(v795, v802, v803);
    lemma_distribute_sub(v795, v800, v801);
    lemma_distribute(v795, v798, v799);
    lemma_distribute_sub(v795, 0, v797);
    lemma_tensor(((p.y * p.z) * p.t), 1, 1, 1, (((q.x * q.t) * q.t) * q.t), ((r.y * r.t) * r.t));
    lemma_pairs(1, ((p.y * p.z) * p.t), (d * d), ((((q.x * q.t) * q.t) * q.t) * ((r.y * r.t) * r.t)));
    lemma_tensor(((p.y * p.z) * p.t), 1, 1, 1, (((q.y * q.z) * q.t) * q.t), ((r.y * r.t) * r.t));
    lemma_pairs(1, ((p.y * p.z) * p.t), (d * d), ((((q.y * q.z) * q.t) * q.t) * ((r.y * r.t) * r.t)));
    lemma_tensor(((p.y * p.z) * p.t), 1, 1, 1, (((q.x * q.x) * q.x) * q.t), ((r.y * r.t) * r.t));
    lemma_pairs(1, ((p.y * p.z) * p.t), d, ((((q.x * q.x) * q.x) * q.t) * ((r.y * r.t) * r.t)));
    lemma_tensor(((p.y * p.z) * p.t), 1, 1, 1, (((q.x * q.t) * q.t) * q.t), ((r.x * r.z) * r.t));
    lemma_pairs(1, ((p.y * p.z) * p.t), d, ((((q.x * q.t) * q.t) * q.t) * ((r.x * r.z) * r.t)));
    lemma_tensor(((p.y * p.z) * p.t), 1, 1, 1, (((q.x * q.t) * q.t) * q.t), ((r.y * r.y) * r.y));
    lemma_pairs(1, ((p.y * p.z) * p.t), d, ((((q.x * q.t) * q.t) * q.t) * ((r.y * r.y) * r.y)));
    lemma_tensor(((p.y * p.z) * p.t), 1, 1, 1, (((q.y * q.y) * q.y) * q.z), ((r.y * r.t) * r.t));
    lemma_pairs(1, ((p.y * p.z) * p.t), d, ((((q.y * q.y) * q.y) * q.z) * ((r.y * r.t) * r.t)));
    lemma_tensor(((p.y * p.z) * p.t), 1, 1, 1, (((q.y * q.z) * q.t) * q.t), ((r.x * r.z) * r.t));
    lemma_pairs(1, ((p.y * p.z) * p.t), d, ((((q.y * q.z) * q.t) * q.t) * ((r.x * r.z) * r.t)));
    lemma_tensor(((p.y * p.z) * p.t), 1, 1, 1, (((q.y * q.z) * q.t) * q.t), ((r.y * r.y) * r.y));
    lemma_pairs(1, ((p.y * p.z) * p.t), d, ((((q.y * q.z) * q.t) * q.t) * ((r.y * r.y) * r.y)));
    lemma_pairs(1, ((p.y * p.z) * p.t), d, ((((q.y * q.z) * q.t) * q.t) * ((r.y * r.t) * r.t)));
    lemma_tensor(((p.y * p.z) * p.t), 1, 1, 1, (((q.x * q.x) * q.x) * q.t), ((r.x * r.z) * r.t));
    lemma_tensor(((p.y * p.z) * p.t), 1, 1, 1, (((q.x * q.x) * q.x) * q.t), ((r.y * r.y) * r.y));
    lemma_tensor(((p.y * p.z) * p.t), 1, 1, 1, (((q.y * q.y) * q.y) * q.z), ((r.x * r.z) * r.t));
    lemma_tensor(((p.y * p.z) * p.t), 1, 1, 1, (((q.y * q.y) * q.y) * q.z), ((r.y * r.y) * r.y));
    assert(((((0 - (d * ((p.x * p.t) * p.t))) - ((p.x * p.x) * p.x)) + ((p.y * p.z) * p.t)) * ((((((d * (((q.x * q.t) * q.t) * q.t)) - (d * (((q.y * q.z) * q.t) * q.t))) + (((q.x * q.x) * q.x) * q.t)) + (((q.y * q.y) * q.y) * q.z)) - (((q.y * q.z) * q.t) * q.t)) * (((0 - (d * ((r.y * r.t) * r.t))) - ((r.x * r.z) * r.t)) + ((r.y * r.y) * r.y)))) == (((((((((((((((((((((((((((((((((((((((((((((((d * d) * d) * (((p.x * p.t) * p.t) * ((((q.x * q.t) * q.t) * q.t) * ((r.y * r.t) * r.t)))) - (((d * d) * d) * (((p.x * p.t) * p.t) * ((((q.y * q.z) * q.t) * q.t) * ((r.y * r.t) * r.t))))) + ((d * d) * (((p.x * p.x) * p.x) * ((((q.x * q.t) * q.t) * q.t) * ((r.y * r.t) * r.t))))) - ((d * d) * (((p.x * p.x) * p.x) * ((((q.y * q.z) * q.t) * q.t) * ((r.y * r.t) * r.t))))) + ((d * d) * (((p.x * p.t) * p.t) * ((((q.x * q.x) * q.x) * q.t) * ((r.y * r.t) * r.t))))) + ((d * d) * (((p.x * p.t) * p.t) * ((((q.x * q.t) * q.t) * q.t) * ((r.x * r.z) * r.t))))) - ((d * d) * (((p.x * p.t) * p.t) * ((((q.x * q.t) * q.t) * q.t) * ((r.y * r.y) * r.y))))) + ((d * d) * (((p.x * p.t) * p.t) * ((((q.y * q.y) * q.y) * q.z) * ((r.y * r.t) * r.t))))) - ((d * d) * (((p.x * p.t) * p.t) * ((((q.y * q.z) * q.t) * q.t) * ((r.x * r.z) * r.t))))) + ((d * d) * (((p.x * p.t) * p.t) * ((((q.y * q.z) * q.t) * q.t) * ((r.y * r.y) * r.y))))) - ((d * d) * (((p.x * p.t) * p.t) * ((((q.y * q.z) * q.t) * q.t) * ((r.y * r.t) * r.t))))) - ((d * d) * (((p.y * p.z) * p.t) * ((((q.x * q.t) * q.t) * q.t) * ((r.y * r.t) * r.t))))) + ((d * d) * (((p.y * p.z) * p.t) * ((((q.y * q.z) * q.t) * q.t) * ((r.y * r.t) * r.t))))) + (d * (((p.x * p.x) * p.x) * ((((q.x * q.x) * q.x) * q.t) * ((r.y * r.t) * r.t))))) + (d * (((p.x * p.x) * p.x) * ((((q.x * q.t) * q.t) * q.t) * ((r.x * r.z) * r.t))))) - (d * (((p.x * p.x) * p.x) * ((((q.x * q.t) * q.t) * q.t) * ((r.y * r.y) * r.y))))) + (d * (((p.x * p.x) * p.x) * ((((q.y * q.y) * q.y) * q.z) * ((r.y * r.t) * r.t))))) - (d * (((p.x * p.x) * p.x) * ((((q.y * q.z) * q.t) * q.t) * ((r.x * r.z) * r.t))))) + (d * (((p.x * p.x) * p.x) * ((((q.y * q.z) * q.t) * q.t) * ((r.y * r.y) * r.y))))) - (d * (((p.x * p.x) * p.x) * ((((q.y * q.z) * q.t) * q.t) * ((r.y * r.t) * r.t))))) + (d * (((p.x * p.t) * p.t) * ((((q.x * q.x) * q.x) * q.t) * ((r.x * r.z) * r.t))))) - (d * (((p.x * p.t) * p.t) * ((((q.x * q.x) * q.x) * q.t) * ((r.y * r.y) * r.y))))) + (d * (((p.x * p.t) * p.t) * ((((q.y * q.y) * q.y) * q.z) * ((r.x * r.z) * r.t))))) - (d * (((p.x * p.t) * p.t) * ((((q.y * q.y) * q.y) * q.z) * ((r.y * r.y) * r.y))))) - (d * (((p.x * p.t) * p.t) * ((((q.y * q.z) * q.t) * q.t) * ((r.x * r.z) * r.t))))) + (d * (((p.x * p.t) * p.t) * ((((q.y * q.z) * q.t) * q.t) * ((r.y * r.y) * r.y))))) - (d * (((p.y * p.z) * p.t) * ((((q.x * q.x) * q.x) * q.t) * ((r.y * r.t) * r.t))))) - (d * (((p.y * p.z) * p.t) * ((((q.x * q.t) * q.t) * q.t) * ((r.x * r.z) * r.t))))) + (d * (((p.y * p.z) * p.t) * ((((q.x * q.t) * q.t) * q.t) * ((r.y * r.y) * r.y))))) - (d * (((p.y * p.z) * p.t) * ((((q.y * q.y) * q.y) * q.z) * ((r.y * r.t) * r.t))))) + (d * (((p.y * p.z) * p.t) * ((((q.y * q.z) * q.t) * q.t) * ((r.x * r.z) * r.t))))) - (d * (((p.y * p.z) * p.t) * ((((q.y * q.z) * q.t) * q.t) * ((r.y * r.y) * r.y))))) + (d * (((p.y * p.z) * p.t) * ((((q.y * q.z) * q.t) * q.t) * ((r.y * r.t) * r.t))))) + (((p.x * p.x) * p.x) * ((((q.x * q.x) * q.x) * q.t) * ((r.x * r.z) * r.t)))) - (((p.x * p.x) * p.x) * ((((q.x * q.x) * q.x) * q.t) * ((r.y * r.y) * r.y)))) + (((p.x * p.x) * p.x) * ((((q.y * q.y) * q.y) * q.z) * ((r.x * r.z) * r.t)))) - (((p.x * p.x) * p.x) * ((((q.y * q.y) * q.y) * q.z) * ((r.y * r.y) * r.y)))) - (((p.x * p.x) * p.x) * ((((q.y * q.z) * q.t) * q.t) * ((r.x * r.z) * r.t)))) + (((p.x * p.x) * p.x) * ((((q.y * q.z) * q.t) * q.t) * ((r.y * r.y) * r.y)))) - (((p.y * p.z) * p.t) * ((((q.x * q.x) * q.x) * q.t) * ((r.x * r.z) * r.t)))) + (((p.y * p.z) * p.t) * ((((q.x * q.x) * q.x) * q.t) * ((r.y * r.y) * r.y)))) - (((p.y * p.z) * p.t) * ((((q.y * q.y) * q.y) * q.z) * ((r.x * r.z) * r.t)))) + (((p.y * p.z) * p.t) * ((((q.y * q.y) * q.y) * q.z) * ((r.y * r.y) * r.y)))) + (((p.y * p.z) * p.t) * ((((q.y * q.z) * q.t) * q.t) * ((r.x * r.z) * r.t)))) - (((p.y * p.z) * p.t) * ((((q.y * q.z) * q.t) * q.t) * ((r.y * r.y) * r.y)))));
}

/// The product of the reduced monomials of the second and the third point,
/// term by term.
proof fn lemma_pair_31(d: int, q: Lift, r: Lift)
    ensures
        ((((((0 - (d * (((q.x * q.z) * q.t) * q.t))) - (d * (((q.y * q.t) * q.t) * q.t))) - (((q.x * q.x) * q.x) * q.z)) - (((q.x * q.z) * q.t) * q.t)) + (((q.y * q.y) * q.y) * q.t)) * (((0 - (d * ((r.y * r.t) * r.t))) - ((r.x * r.z) * r.t)) + ((r.y * r.y) * r.y))) == ((((((((((((((((d * d) * ((((q.x * q.z) * q.t) * q.t) * ((r.y * r.t) * r.t))) + ((d * d) * ((((q.y * q.t) * q.t) * q.t) * ((r.y * r.t) * r.t)))) + (d * ((((q.x * q.x) * q.x) * q.z) * ((r.y * r.t) * r.t)))) + (d * ((((q.x * q.z) * q.t) * q.t) * ((r.x * r.z) * r.t)))) - (d * ((((q.x * q.z) * q.t) * q.t) * ((r.y * r.y) * r.y)))) + (d * ((((q.x * q.z) * q.t) * q.t) * ((r.y * r.t) * r.t)))) - (d * ((((q.y * q.y) * q.y) * q.t) * ((r.y * r.t) * r.t)))) + (d * ((((q.y * q.t) * q.t) * q.t) * ((r.x * r.z) * r.t)))) - (d * ((((q.y * q.t) * q.t) * q.t) * ((r.y * r.y) * r.y)))) + ((((q.x * q.x) * q.x) * q.z) * ((r.x * r.z) * r.t))) - ((((q.x * q.x) * q.x) * q.z) * ((r.y * r.y) * r.y))) + ((((q.x * q.z) * q.t) * q.t) * ((r.x * r.z) * r.t))) - ((((q.x * q.z) * q.t) * q.t) * ((r.y * r.y) * r.y))) - ((((q.y * q.y) * q.y) * q.t) * ((r.x * r.z) * r.t))) + ((((q.y * q.y) * q.y) * q.t) * ((r.y * r.y) * r.y))),
{
    let v827 = (d * (((q.x * q.z) * q.t) * q.t));
    let v828 = 0 - v827;
    let v829 = (d * (((q.y * q.t) * q.t) * q.t));
    let v830 = v828 - v829;
    let v831 = (((q.x * q.x) * q.x) * q.z);
    let v832 = v830 - v831;
    let v833 = (((q.x * q.z) * q.t) * q.t);
    let v834 = v832 - v833;
    let v835 = (((q.y * q.y) * q.y) * q.t);
    let v836 = v834 + v835;
    let v837 = (d * ((r.y * r.t) * r.t));
    let v838 = 0 - v837;
    let v839 = ((r.x * r.z) * r.t);
    let v840 = v838 - v839;
    let v841 = ((r.y * r.y) * r.y);
    let v842 = v840 + v841;
    lemma_distribute(v842, v834, v835);
    lemma_distribute_sub(v842, v832, v833);
    lemma_distribute_sub(v842, v830, v831);
    lemma_distribute_sub(v842, v828, v829);
    lemma_distribute_sub(v842, 0, v827);
    lemma_distribute(v827, v840, v841);
    lemma_distribute_sub(v827, v838, v839);
    lemma_distribute_sub(v827, 0, v837);
    lemma_tensor(1, (((q.x * q.z) * q.t) * q.t), 1, 1, 1, ((r.y * r.t) * r.t));
    lemma_pairs(d, (((q.x * q.z) * q.t) * q.t), d, ((r.y * r.t) * r.t));
    lemma_tensor(1, (((q.x * q.z) * q.t) * q.t), 1, 1, 1, ((r.x * r.z) * r.t));
    lemma_pairs(d, (((q.x * q.z) * q.t) * q.t), 1, ((r.x * r.z) * r.t));
    lemma_tensor(1, (((q.x * q.z) * q.t) * q.t), 1, 1, 1, ((r.y * r.y) * r.y));
    lemma_pairs(d, (((q.x * q.z) * q.t) * q.t), 1, ((r.y * r.y) * r.y));
    lemma_distribute(v829, v840, v841);
    lemma_distribute_sub(v829, v838, v839);
    lemma_distribute_sub(v829, 0, v837);
    lemma_tensor(1, (((q.y * q.t) * q.t) * q.t), 1, 1, 1, ((r.y * r.t) * r.t));
    lemma_pairs(d, (((q.y * q.t) * q.t) * q.t), d, ((r.y * r.t) * r.t));
    lemma_tensor(1, (((q.y * q.t) * q.t) * q.t), 1, 1, 1, ((r.x * r.z) * r.t));
    lemma_pairs(d, (((q.y * q.t) * q.t) * q.t), 1, ((r.x * r.z) * r.t));
    lemma_tensor(1, (((q.y * q.t) * q.t) * q.t), 1, 1, 1, ((r.y * r.y) * r.y));
    lemma_pairs(d, (((q.y * q.t) * q.t) * q.t), 1, ((r.y * r.y) * r.y));
    lemma_distribute(v831, v840, v841);
    lemma_distribute_sub(v831, v838, v839);
    lemma_distribute_sub(v831, 0, v837);
    lemma_tensor(1, (((q.x * q.x) * q.x) * q.z), 1, 1, 1, ((r.y * r.t) * r.t));
    lemma_pairs(1, (((q.x * q.x) * q.x) * q.z), d, ((r.y * r.t) * r.t));
    lemma_tensor(1, (((q.x * q.x) * q.x) * q.z), 1, 1, 1, ((r.x * r.z) * r.t));
    lemma_tensor(1, (((q.x * q.x) * q.x) * q.z), 1, 1, 1, ((r.y * r.y) * r.y));
    lemma_distribute(v833, v840, v841);
    lemma_distribute_sub(v833, v838, v839);
    lemma_distribute_sub(v833, 0, v837);
    lemma_pairs(1, (((q.x * q.z) * q.t) * q.t), d, ((r.y * r.t) * r.t));
    lemma_distribute(v835, v840, v841);
    lemma_distribute_sub(v835, v838, v839);
    lemma_distribute_sub(v835, 0, v837);
    lemma_tensor(1, (((q.y * q.y) * q.y) * q.t), 1, 1, 1, ((r.y * r.t) * r.t));
    lemma_pairs(1, (((q.y * q.y) * q.y) * q.t), d, ((r.y * r.t) * r.t));
    lemma_tensor(1, (((q.y * q.y) * q.y) * q.t), 1, 1, 1, ((r.x * r.z) * r.t));
    lemma_tensor(1, (((q.y * q.y) * q.y) * q.t), 1, 1, 1, ((r.y * r.y) * r.y));
    assert(((((((0 - (d * (((q.x * q.z) * q.t) * q.t))) - (d * (((q.y * q.t) * q.t) * q.t))) - (((q.x * q.x) * q.x) * q.z)) - (((q.x * q.z) * q.t) * q.t)) + (((q.y * q.y) * q.y) * q.t)) * (((0 - (d * ((r.y * r.t) * r.t))) - ((r.x * r.z) * r.t)) + ((r.y * r.y) * r.y))) == ((((((((((((((((d * d) * ((((q.x * q.z) * q.t) * q.t) * ((r.y * r.t) * r.t))) + ((d * d) * ((((q.y * q.t) * q.t) * q.t) * ((r.y * r.t) * r.t)))) + (d * ((((q.x * q.x) * q.x) * q.z) * ((r.y * r.t) * r.t)))) + (d * ((((q.x * q.z) * q.t) * q.t) * ((r.x * r.z) * r.t)))) - (d * ((((q.x * q.z) * q.t) * q.t) * ((r.y * r.y) * r.y)))) + (d * ((((q.x * q.z) * q.t) * q.t) * ((r.y * r.t) * r.t)))) - (d * ((((q.y * q.y) * q.y) * q.t) * ((r.y * r.t) * r.t)))) + (d * ((((q.y * q.t) * q.t) * q.t) * ((r.x * r.z) * r.t)))) - (d * ((((q.y * q.t) * q.t) * q.t) * ((r.y * r.y) * r.y)))) + ((((q.x * q.x) * q.x) * q.z) * ((r.x * r.z) * r.t))) - ((((q.x * q.x) * q.x) * q.z) * ((r.y * r.y) * r.y))) + ((((q.x * q.z) * q.t) * q.t) * ((r.x * r.z) * r.t))) - ((((q.x * q.z) * q.t) * q.t) * ((r.y * r.y) * r.y))) - ((((q.y * q.y) * q.y) * q.t) * ((r.x * r.z) * r.t))) + ((((q.y * q.y) * q.y) * q.t) * ((r.y * r.y) * r.y))));
}

/// A term of the cross product, reduced.
proof fn lemma_term_35(d: int, p: Lift, q: Lift, r: Lift)
    requires
        reducible(p, d),
        reducible(q, d),
        reducible(r, d),
    ensures
        congruent((((p.y * p.z) * p.z) * ((((q.x * q.z) * q.z) * q.z) * ((r.y * r.z) * r.z))), (((((((((((((((((((((((((((((((((((((((((((((0 - (((d * d) * d) * (((p.y * p.t) * p.t) * ((((q.x * q.z) * q.t) * q.t) * ((r.y * r.t) * r.t))))) - (((d * d) * d) * (((p.y * p.t) * p.t) * ((((q.y * q.t) * q.t) * q.t) * ((r.y * r.t) * r.t))))) - ((d * d) * (((p.x * p.z) * p.t) * ((((q.x * q.z) * q.t) * q.t) * ((r.y * r.t) * r.t))))) - ((d * d) * (((p.x * p.z) * p.t) * ((((q.y * q.t) * q.t) * q.t) * ((r.y * r.t) * r.t))))) + ((d * d) * (((p.y * p.y) * p.y) * ((((q.x * q.z) * q.t) * q.t) * ((r.y * r.t) * r.t))))) + ((d * d) * (((p.y * p.y) * p.y) * ((((q.y * q.t) * q.t) * q.t) * ((r.y * r.t) * r.t))))) - ((d * d) * (((p.y * p.t) * p.t) * ((((q.x * q.x) * q.x) * q.z) * ((r.y * r.t) * r.t))))) - ((d * d) * (((p.y * p.t) * p.t) * ((((q.x * q.z) * q.t) * q.t) * ((r.x * r.z) * r.t))))) + ((d * d) * (((p.y * p.t) * p.t) * ((((q.x * q.z) * q.t) * q.t) * ((r.y * r.y) * r.y))))) - ((d * d) * (((p.y * p.t) * p.t) * ((((q.x * q.z) * q.t) * q.t) * ((r.y * r.t) * r.t))))) + ((d * d) * (((p.y * p.t) * p.t) * ((((q.y * q.y) * q.y) * q.t) * ((r.y * r.t) * r.t))))) - ((d * d) * (((p.y * p.t) * p.t) * ((((q.y * q.t) * q.t) * q.t) * ((r.x * r.z) * r.t))))) + ((d * d) * (((p.y * p.t) * p.t) * ((((q.y * q.t) * q.t) * q.t) * ((r.y * r.y) * r.y))))) - (d * (((p.x * p.z) * p.t) * ((((q.x * q.x) * q.x) * q.z) * ((r.y * r.t) * r.t))))) - (d * (((p.x * p.z) * p.t) * ((((q.x * q.z) * q.t) * q.t) * ((r.x * r.z) * r.t))))) + (d * (((p.x * p.z) * p.t) * ((((q.x * q.z) * q.t) * q.t) * ((r.y * r.y) * r.y))))) - (d * (((p.x * p.z) * p.t) * ((((q.x * q.z) * q.t) * q.t) * ((r.y * r.t) * r.t))))) + (d * (((p.x * p.z) * p.t) * ((((q.y * q.y) * q.y) * q.t) * ((r.y * r.t) * r.t))))) - (d * (((p.x * p.z) * p.t) * ((((q.y * q.t) * q.t) * q.t) * ((r.x * r.z) * r.t))))) + (d * (((p.x * p.z) * p.t) * ((((q.y * q.t) * q.t) * q.t) * ((r.y * r.y) * r.y))))) + (d * (((p.y * p.y) * p.y) * ((((q.x * q.x) * q.x) * q.z) * ((r.y * r.t) * r.t))))) + (d * (((p.y * p.y) * p.y) * ((((q.x * q.z) * q.t) * q.t) * ((r.x * r.z) * r.t))))) - (d * (((p.y * p.y) * p.y) * ((((q.x * q.z) * q.t) * q.t) * ((r.y * r.y) * r.y))))) + (d * (((p.y * p.y) * p.y) * ((((q.x * q.z) * q.t) * q.t) * ((r.y * r.t) * r.t))))) - (d * (((p.y * p.y) * p.y) * ((((q.y * q.y) * q.y) * q.t) * ((r.y * r.t) * r.t))))) + (d * (((p.y * p.y) * p.y) * ((((q.y * q.t) * q.t) * q.t) * ((r.x * r.z) * r.t))))) - (d * (((p.y * p.y) * p.y) * ((((q.y * q.t) * q.t) * q.t) * ((r.y * r.y) * r.y))))) - (d * (((p.y * p.t) * p.t) * ((((q.x * q.x) * q.x) * q.z) * ((r.x * r.z) * r.t))))) + (d * (((p.y * p.t) * p.t) * ((((q.x * q.x) * q.x) * q.z) * ((r.y * r.y) * r.y))))) - (d * (((p.y * p.t) * p.t) * ((((q.x * q.z) * q.t) * q.t) * ((r.x * r.z) * r.t))))) + (d * (((p.y * p.t) * p.t) * ((((q.x * q.z) * q.t) * q.t) * ((r.y * r.y) * r.y))))) + (d * (((p.y * p.t) * p.t) * ((((q.y * q.y) * q.y) * q.t) * ((r.x * r.z) * r.t))))) - (d * (((p.y * p.t) * p.t) * ((((q.y * q.y) * q.y) * q.t) * ((r.y * r.y) * r.y))))) - (((p.x * p.z) * p.t) * ((((q.x * q.x) * q.x) * q.z) * ((r.x * r.z) * r.t)))) + (((p.x * p.z) * p.t) * ((((q.x * q.x) * q.x) * q.z) * ((r.y * r.y) * r.y)))) - (((p.x * p.z) * p.t) * ((((q.x * q.z) * q.t) * q.t) * ((r.x * r.z) * r.t)))) + (((p.x * p.z) * p.t) * ((((q.x * q.z) * q.t) * q.t) * ((r.y * r.y) * r.y)))) + (((p.x * p.z) * p.t) * ((((q.y * q.y) * q.y) * q.t) * ((r.x * r.z) * r.t)))) - (((p.x * p.z) * p.t) * ((((q.y * q.y) * q.y) * q.t) * ((r.y * r.y) * r.y)))) + (((p.y * p.y) * p.y) * ((((q.x * q.x) * q.x) * q.z) * ((r.x * r.z) * r.t)))) - (((p.y * p.y) * p.y) * ((((q.x * q.x) * q.x) * q.z) * ((r.y * r.y) * r.y)))) + (((p.y * p.y) * p.y) * ((((q.x * q.z) * q.t) * q.t) * ((r.x * r.z) * r.t)))) - (((p.y * p.y) * p.y) * ((((q.x * q.z) * q.t) * q.t) * ((r.y * r.y) * r.y)))) - (((p.y * p.y) * p.y) * ((((q.y * q.y) * q.y) * q.t) * ((r.x * r.z) * r.t)))) + (((p.y * p.y) * p.y) * ((((q.y * q.y) * q.y) * q.t) * ((r.y * r.y) * r.y))))),
{
    lemma_point_0120(d, p);
    lemma_point_1030(d, q);
    lemma_point_0120(d, r);
    lemma_congruent_mul((((q.x * q.z) * q.z) * q.z), (((((0 - (d * (((q.x * q.z) * q.t) * q.t))) - (d * (((q.y * q.t) * q.t) * q.t))) - (((q.x * q.x) * q.x) * q.z)) - (((q.x * q.z) * q.t) * q.t)) + (((q.y * q.y) * q.y) * q.t)), ((r.y * r.z) * r.z), (((0 - (d * ((r.y * r.t) * r.t))) - ((r.x * r.z) * r.t)) + ((r.y * r.y) * r.y)));
    lemma_congruent_mul(((p.y * p.z) * p.z), (((0 - (d * ((p.y * p.t) * p.t))) - ((p.x * p.z) * p.t)) + ((p.y * p.y) * p.y)), ((((q.x * q.z) * q.z) * q.z) * ((r.y * r.z) * r.z)), ((((((0 - (d * (((q.x * q.z) * q.t) * q.t))) - (d * (((q.y * q.t) * q.t) * q.t))) - (((q.x * q.x) * q.x) * q.z)) - (((q.x * q.z) * q.t) * q.t)) + (((q.y * q.y) * q.y) * q.t)) * (((0 - (d * ((r.y * r.t) * r.t))) - ((r.x * r.z) * r.t)) + ((r.y * r.y) * r.y))));
    lemma_pair_31(d, q, r);
    let v843 = (d * ((p.y * p.t) * p.t));
    let v844 = 0 - v843;
    let v845 = ((p.x * p.z) * p.t);
    let v846 = v844 - v845;
    let v847 = ((p.y * p.y) * p.y);
    let v848 = v846 + v847;
    let v849 = ((d * d) * ((((q.x * q.z) * q.t) * q.t) * ((r.y * r.t) * r.t)));
    let v851 = ((d * d) * ((((q.y * q.t) * q.t) * q.t) * ((r.y * r.t) * r.t)));
    let v852 = v849 + v851;
    let v853 = (d * ((((q.x * q.x) * q.x) * q.z) * ((r.y * r.t) * r.t)));
    let v854 = v852 + v853;
    let v855 = (d * ((((q.x * q.z) * q.t) * q.t) * ((r.x * r.z) * r.t)));
    let v856 = v854 + v855;
    let v857 = (d * ((((q.x * q.z) * q.t) * q.t) * ((r.y * r.y) * r.y)));
    let v858 = v856 - v857;
    let v859 = (d * ((((q.x * q.z) * q.t) * q.t) * ((r.y * r.t) * r.t)));
    let v860 = v858 + v859;
    let v861 = (d * ((((q.y * q.y) * q.y) * q.t) * ((r.y * r.t) * r.t)));
    let v862 = v860 - v861;
    let v863 = (d * ((((q.y * q.t) * q.t) * q.t) * ((r.x * r.z) * r.t)));
    let v864 = v862 + v863;
    let v865 = (d * ((((q.y * q.t) * q.t) * q.t) * ((r.y * r.y) * r.y)));
    let v866 = v864 - v865;
    let v867 = ((((q.x * q.x) * q.x) * q.z) * ((r.x * r.z) * r.t));
    let v868 = v866 + v867;
    let v869 = ((((q.x * q.x) * q.x) * q.z) * ((r.y * r.y) * r.y));
    let v870 = v868 - v869;
    let v871 = ((((q.x * q.z) * q.t) * q.t) * ((r.x * r.z) * r.t));
    let v872 = v870 + v871;
    let v873 = ((((q.x * q.z) * q.t) * q.t) * ((r.y * r.y) * r.y));
    let v874 = v872 - v873;
    let v875 = ((((q.y * q.y) * q.y) * q.t) * ((r.x * r.z) * r.t));
    let v876 = v874 - v875;
    let v877 = ((((q.y * q.y) * q.y) * q.t) * ((r.y * r.y) * r.y));
    let v878 = v876 + v877;
    lemma_distribute(v878, v846, v847);
    lemma_distribute_sub(v878, v844, v845);
    lemma_distribute_sub(v878, 0, v843);
    lemma_distribute(v843, v876, v877);
    lemma_distribute_sub(v843, v874, v875);
    lemma_distribute_sub(v843, v872, v873);
    lemma_distribute(v843, v870, v871);
    lemma_distribute_sub(v843, v868, v869);
    lemma_distribute(v843, v866, v867);
    lemma_distribute_sub(v843, v864, v865);
    lemma_distribute(v843, v862, v863);
    lemma_distribute_sub(v843, v860, v861);
    lemma_distribute(v843, v858, v859);
    lemma_distribute_sub(v843, v856, v857);
    lemma_distribute(v843, v854, v855);
    lemma_distribute(v843, v852, v853);
    lemma_distribute(v843, v849, v851);
    assert(d * (d * d) == ((d * d) * d)) by (nonlinear_arith);
    lemma_tensor(((p.y * p.t) * p.t), 1, 1, 1, (((q.x * q.z) * q.t) * q.t), ((r.y * r.t) * r.t));
    lemma_pairs(d, ((p.y * p.t) * p.t), (d * d), ((((q.x * q.z) * q.t) * q.t) * ((r.y * r.t) * r.t)));
    lemma_tensor(((p.y * p.t) * p.t), 1, 1, 1, (((q.y * q.t) * q.t) * q.t), ((r.y * r.t) * r.t));
    lemma_pairs(d, ((p.y * p.t) * p.t), (d * d), ((((q.y * q.t) * q.t) * q.t) * ((r.y * r.t) * r.t)));
    lemma_tensor(((p.y * p.t) * p.t), 1, 1, 1, (((q.x * q.x) * q.x) * q.z), ((r.y * r.t) * r.t));
    lemma_pairs(d, ((p.y * p.t) * p.t), d, ((((q.x * q.x) * q.x) * q.z) * ((r.y * r.t) * r.t)));
    lemma_tensor(((p.y * p.t) * p.t), 1, 1, 1, (((q.x * q.z) * q.t) * q.t), ((r.x * r.z) * r.t));
    lemma_pairs(d, ((p.y * p.t) * p.t), d, ((((q.x * q.z) * q.t) * q.t) * ((r.x * r.z) * r.t)));
    lemma_tensor(((p.y * p.t) * p.t), 1, 1, 1, (((q.x * q.z) * q.t) * q.t), ((r.y * r.y) * r.y));
    lemma_pairs(d, ((p.y * p.t) * p.t), d, ((((q.x * q.z) * q.t) * q.t) * ((r.y * r.y) * r.y)));
    lemma_pairs(d, ((p.y * p.t) * p.t), d, ((((q.x * q.z) * q.t) * q.t) * ((r.y * r.t) * r.t)));
    lemma_tensor(((p.y * p.t) * p.t), 1, 1, 1, (((q.y * q.y) * q.y) * q.t), ((r.y * r.t) * r.t));
    lemma_pairs(d, ((p.y * p.t) * p.t), d, ((((q.y * q.y) * q.y) * q.t) * ((r.y * r.t) * r.t)));
    lemma_tensor(((p.y * p.t) * p.t), 1, 1, 1, (((q.y * q.t) * q.t) * q.t), ((r.x * r.z) * r.t));
    lemma_pairs(d, ((p.y * p.t) * p.t), d, ((((q.y * q.t) * q.t) * q.t) * ((r.x * r.z) * r.t)));
    lemma_tensor(((p.y * p.t) * p.t), 1, 1, 1, (((q.y * q.t) * q.t) * q.t), ((r.y * r.y) * r.y));
    lemma_pairs(d, ((p.y * p.t) * p.t), d, ((((q.y * q.t) * q.t) * q.t) * ((r.y * r.y) * r.y)));
    lemma_tensor(((p.y * p.t) * p.t), 1, 1, 1, (((q.x * q.x) * q.x) * q.z), ((r.x * r.z) * r.t));
    lemma_pairs(d, ((p.y * p.t) * p.t), 1, ((((q.x * q.x) * q.x) * q.z) * ((r.x * r.z) * r.t)));
    lemma_tensor(((p.y * p.t) * p.t), 1, 1, 1, (((q.x * q.x) * q.x) * q.z), ((r.y * r.y) * r.y));
    lemma_pairs(d, ((p.y * p.t) * p.t), 1, ((((q.x * q.x) * q.x) * q.z) * ((r.y * r.y) * r.y)));
    lemma_pairs(d, ((p.y * p.t) * p.t), 1, ((((q.x * q.z) * q.t) * q.t) * ((r.x * r.z) * r.t)));
    lemma_pairs(d, ((p.y * p.t) * p.t), 1, ((((q.x * q.z) * q.t) * q.t) * ((r.y * r.y) * r.y)));
    lemma_tensor(((p.y * p.t) * p.t), 1, 1, 1, (((q.y * q.y) * q.y) * q.t), ((r.x * r.z) * r.t));
    lemma_pairs(d, ((p.y * p.t) * p.t), 1, ((((q.y * q.y) * q.y) * q.t) * ((r.x * r.z) * r.t)));
    lemma_tensor(((p.y * p.t) * p.t), 1, 1, 1, (((q.y * q.y) * q.y) * q.t), ((r.y * r.y) * r.y));
    lemma_pairs(d, ((p.y * p.t) * p.t), 1, ((((q.y * q.y) * q.y) * q.t) * ((r.y * r.y) * r.y)));
    lemma_distribute(v845, v876, v877);
    lemma_distribute_sub(v845, v874, v875);
    lemma_distribute_sub(v845, v872, v873);
    lemma_distribute(v845, v870, v871);
    lemma_distribute_sub(v845, v868, v869);
    lemma_distribute(v845, v866, v867);
    lemma_distribute_sub(v845, v864, v865);
    lemma_distribute(v845, v862, v863);
    lemma_distribute_sub(v845, v860, v861);
    lemma_distribute(v845, v858, v859);
    lemma_distribute_sub(v845, v856, v857);
    lemma_distribute(v845, v854, v855);
    lemma_distribute(v845, v852, v853);
    lemma_distribute(v845, v849, v851);
    lemma_tensor(((p.x * p.z) * p.t), 1, 1, 1, (((q.x * q.z) * q.t) * q.t), ((r.y * r.t) * r.t));
    lemma_pairs(1, ((p.x * p.z) * p.t), (d * d), ((((q.x * q.z) * q.t) * q.t) * ((r.y * r.t) * r.t)));
    lemma_tensor(((p.x * p.z) * p.t), 1, 1, 1, (((q.y * q.t) * q.t) * q.t), ((r.y * r.t) * r.t));
    lemma_pairs(1, ((p.x * p.z) * p.t), (d * d), ((((q.y * q.t) * q.t) * q.t) * ((r.y * r.t) * r.t)));
    lemma_tensor(((p.x * p.z) * p.t), 1, 1, 1, (((q.x * q.x) * q.x) * q.z), ((r.y * r.t) * r.t));
    lemma_pairs(1, ((p.x * p.z) * p.t), d, ((((q.x * q.x) * q.x) * q.z) * ((r.y * r.t) * r.t)));
    lemma_tensor(((p.x * p.z) * p.t), 1, 1, 1, (((q.x * q.z) * q.t) * q.t), ((r.x * r.z) * r.t));
    lemma_pairs(1, ((p.x * p.z) * p.t), d, ((((q.x * q.z) * q.t) * q.t) * ((r.x * r.z) * r.t)));
    lemma_tensor(((p.x * p.z) * p.t), 1, 1, 1, (((q.x * q.z) * q.t) * q.t), ((r.y * r.y) * r.y));
    lemma_pairs(1, ((p.x * p.z) * p.t), d, ((((q.x * q.z) * q.t) * q.t) * ((r.y * r.y) * r.y)));
    lemma_pairs(1, ((p.x * p.z) * p.t), d, ((((q.x * q.z) * q.t) * q.t) * ((r.y * r.t) * r.t)));
    lemma_tensor(((p.x * p.z) * p.t), 1, 1, 1, (((q.y * q.y) * q.y) * q.t), ((r.y * r.t) * r.t));
    lemma_pairs(1, ((p.x * p.z) * p.t), d, ((((q.y * q.y) * q.y) * q.t) * ((r.y * r.t) * r.t)));
    lemma_tensor(((p.x * p.z) * p.t), 1, 1, 1, (((q.y * q.t) * q.t) * q.t), ((r.x * r.z) * r.t));
    lemma_pairs(1, ((p.x * p.z) * p.t), d, ((((q.y * q.t) * q.t) * q.t) * ((r.x * r.z) * r.t)));
    lemma_tensor(((p.x * p.z) * p.t), 1, 1, 1, (((q.y * q.t) * q.t) * q.t), ((r.y * r.y) * r.y));
    lemma_pairs(1, ((p.x * p.z) * p.t), d, ((((q.y * q.t) * q.t) * q.t) * ((r.y * r.y) * r.y)));
    lemma_tensor(((p.x * p.z) * p.t), 1, 1, 1, (((q.x * q.x) * q.x) * q.z), ((r.x * r.z) * r.t));
    lemma_tensor(((p.x * p.z) * p.t), 1, 1, 1, (((q.x * q.x) * q.x) * q.z), ((r.y * r.y) * r.y));
    lemma_tensor(((p.x * p.z) * p.t), 1, 1, 1, (((q.y * q.y) * q.y) * q.t), ((r.x * r.z) * r.t));
    lemma_tensor(((p.x * p.z) * p.t), 1, 1, 1, (((q.y * q.y) * q.y) * q.t), ((r.y * r.y) * r.y));
    lemma_distribute(v847, v876, v877);
    lemma_distribute_sub(v847, v874, v875);
    lemma_distribute_sub(v847, v872, v873);
    lemma_distribute(v847, v870, v871);
    lemma_distribute_sub(v847, v868, v869);
    lemma_distribute(v847, v866, v867);
    lemma_distribute_sub(v847, v864, v865);
    lemma_distribute(v847, v862, v863);
    lemma_distribute_sub(v847, v860, v861);
    lemma_distribute(v847, v858, v859);
    lemma_distribute_sub(v847, v856, v857);
    lemma_distribute(v847, v854, v855);
    lemma_distribute(v847, v852, v853);
    lemma_distribute(v847, v849, v851);
    lemma_tensor(((p.y * p.y) * p.y), 1, 1, 1, (((q.x * q.z) * q.t) * q.t), ((r.y * r.t) * r.t));
    lemma_pairs(1, ((p.y * p.y) * p.y), (d * d), ((((q.x * q.z) * q.t) * q.t) * ((r.y * r.t) * r.t)));
    lemma_tensor(((p.y * p.y) * p.y), 1, 1, 1, (((q.y * q.t) * q.t) * q.t), ((r.y * r.t) * r.t));
    lemma_pairs(1, ((p.y * p.y) * p.y), (d * d), ((((q.y * q.t) * q.t) * q.t) * ((r.y * r.t) * r.t)));
    lemma_tensor(((p.y * p.y) * p.y), 1, 1, 1, (((q.x * q.x) * q.x) * q.z), ((r.y * r.t) * r.t));
    lemma_pairs(1, ((p.y * p.y) * p.y), d, ((((q.x * q.x) * q.x) * q.z) * ((r.y * r.t) * r.t)));
    lemma_tensor(((p.y * p.y) * p.y), 1, 1, 1, (((q.x * q.z) * q.t) * q.t), ((r.x * r.z) * r.t));
    lemma_pairs(1, ((p.y * p.y) * p.y), d, ((((q.x * q.z) * q.t) * q.t) * ((r.x * r.z) * r.t)));
    lemma_tensor(((p.y * p.y) * p.y), 1, 1, 1, (((q.x * q.z) * q.t) * q.t), ((r.y * r.y) * r.y));
    lemma_pairs(1, ((p.y * p.y) * p.y), d, ((((q.x * q.z) * q.t) * q.t) * ((r.y * r.y) * r.y)));
    lemma_pairs(1, ((p.y * p.y) * p.y), d, ((((q.x * q.z) * q.t) * q.t) * ((r.y * r.t) * r.t)));
    lemma_tensor(((p.y * p.y) * p.y), 1, 1, 1, (((q.y * q.y) * q.y) * q.t), ((r.y * r.t) * r.t));
    lemma_pairs(1, ((p.y * p.y) * p.y), d, ((((q.y * q.y) * q.y) * q.t) * ((r.y * r.t) * r.t)));
    lemma_tensor(((p.y * p.y) * p.y), 1, 1, 1, (((q.y * q.t) * q.t) * q.t), ((r.x * r.z) * r.t));
    lemma_pairs(1, ((p.y * p.y) * p.y), d, ((((q.y * q.t) * q.t) * q.t) * ((r.x * r.z) * r.t)));
    lemma_tensor(((p.y * p.y) * p.y), 1, 1, 1, (((q.y * q.t) * q.t) * q.t), ((r.y * r.y) * r.y));
    lemma_pairs(1, ((p.y * p.y) * p.y), d, ((((q.y * q.t) * q.t) * q.t) * ((r.y * r.y) * r.y)));
    lemma_tensor(((p.y * p.y) * p.y), 1, 1, 1, (((q.x * q.x) * q.x) * q.z), ((r.x * r.z) * r.t));
    lemma_tensor(((p.y * p.y) * p.y), 1, 1, 1, (((q.x * q.x) * q.x) * q.z), ((r.y * r.y) * r.y));
    lemma_tensor(((p.y * p.y) * p.y), 1, 1, 1, (((q.y * q.y) * q.y) * q.t), ((r.x * r.z) * r.t));
    lemma_tensor(((p.y * p.y) * p.y), 1, 1, 1, (((q.y * q.y) * q.y) * q.t), ((r.y * r.y) * r.y));
    assert(((((0 - (d * ((p.y * p.t) * p.t))) - ((p.x * p.z) * p.t)) + ((p.y * p.y) * p.y)) * ((((((0 - (d * (((q.x * q.z) * q.t) * q.t))) - (d * (((q.y * q.t) * q.t) * q.t))) - (((q.x * q.x) * q.x) * q.z)) - (((q.x * q.z) * q.t) * q.t)) + (((q.y * q.y) * q.y) * q.t)) * (((0 - (d * ((r.y * r.t) * r.t))) - ((r.x * r.z) * r.t)) + ((r.y * r.y) * r.y)))) == (((((((((((((((((((((((((((((((((((((((((((((0 - (((d * d) * d) * (((p.y * p.t) * p.t) * ((((q.x * q.z) * q.t) * q.t) * ((r.y * r.t) * r.t))))) - (((d * d) * d) * (((p.y * p.t) * p.t) * ((((q.y * q.t) * q.t) * q.t) * ((r.y * r.t) * r.t))))) - ((d * d) * (((p.x * p.z) * p.t) * ((((q.x * q.z) * q.t) * q.t) * ((r.y * r.t) * r.t))))) - ((d * d) * (((p.x * p.z) * p.t) * ((((q.y * q.t) * q.t) * q.t) * ((r.y * r.t) * r.t))))) + ((d * d) * (((p.y * p.y) * p.y) * ((((q.x * q.z) * q.t) * q.t) * ((r.y * r.t) * r.t))))) + ((d * d) * (((p.y * p.y) * p.y) * ((((q.y * q.t) * q.t) * q.t) * ((r.y * r.t) * r.t))))) - ((d * d) * (((p.y * p.t) * p.t) * ((((q.x * q.x) * q.x) * q.z) * ((r.y * r.t) * r.t))))) - ((d * d) * (((p.y * p.t) * p.t) * ((((q.x * q.z) * q.t) * q.t) * ((r.x * r.z) * r.t))))) + ((d * d) * (((p.y * p.t) * p.t) * ((((q.x * q.z) * q.t) * q.t) * ((r.y * r.y) * r.y))))) - ((d * d) * (((p.y * p.t) * p.t) * ((((q.x * q.z) * q.t) * q.t) * ((r.y * r.t) * r.t))))) + ((d * d) * (((p.y * p.t) * p.t) * ((((q.y * q.y) * q.y) * q.t) * ((r.y * r.t) * r.t))))) - ((d * d) * (((p.y * p.t) * p.t) * ((((q.y * q.t) * q.t) * q.t) * ((r.x * r.z) * r.t))))) + ((d * d) * (((p.y * p.t) * p.t) * ((((q.y * q.t) * q.t) * q.t) * ((r.y * r.y) * r.y))))) - (d * (((p.x * p.z) * p.t) * ((((q.x * q.x) * q.x) * q.z) * ((r.y * r.t) * r.t))))) - (d * (((p.x * p.z) * p.t) * ((((q.x * q.z) * q.t) * q.t) * ((r.x * r.z) * r.t))))) + (d * (((p.x * p.z) * p.t) * ((((q.x * q.z) * q.t) * q.t) * ((r.y * r.y) * r.y))))) - (d * (((p.x * p.z) * p.t) * ((((q.x * q.z) * q.t) * q.t) * ((r.y * r.t) * r.t))))) + (d * (((p.x * p.z) * p.t) * ((((q.y * q.y) * q.y) * q.t) * ((r.y * r.t) * r.t))))) - (d * (((p.x * p.z) * p.t) * ((((q.y * q.t) * q.t) * q.t) * ((r.x * r.z) * r.t))))) + (d * (((p.x * p.z) * p.t) * ((((q.y * q.t) * q.t) * q.t) * ((r.y * r.y) * r.y))))) + (d * (((p.y * p.y) * p.y) * ((((q.x * q.x) * q.x) * q.z) * ((r.y * r.t) * r.t))))) + (d * (((p.y * p.y) * p.y) * ((((q.x * q.z) * q.t) * q.t) * ((r.x * r.z) * r.t))))) - (d * (((p.y * p.y) * p.y) * ((((q.x * q.z) * q.t) * q.t) * ((r.y * r.y) * r.y))))) + (d * (((p.y * p.y) * p.y) * ((((q.x * q.z) * q.t) * q.t) * ((r.y * r.t) * r.t))))) - (d * (((p.y * p.y) * p.y) * ((((q.y * q.y) * q.y) * q.t) * ((r.y * r.t) * r.t))))) + (d * (((p.y * p.y) * p.y) * ((((q.y * q.t) * q.t) * q.t) * ((r.x * r.z) * r.t))))) - (d * (((p.y * p.y) * p.y) * ((((q.y * q.t) * q.t) * q.t) * ((r.y * r.y) * r.y))))) - (d * (((p.y * p.t) * p.t) * ((((q.x * q.x) * q.x) * q.z) * ((r.x * r.z) * r.t))))) + (d * (((p.y * p.t) * p.t) * ((((q.x * q.x) * q.x) * q.z) * ((r.y * r.y) * r.y))))) - (d * (((p.y * p.t) * p.t) * ((((q.x * q.z) * q.t) * q.t) * ((r.x * r.z) * r.t))))) + (d * (((p.y * p.t) * p.t) * ((((q.x * q.z) * q.t) * q.t) * ((r.y * r.y) * r.y))))) + (d * (((p.y * p.t) * p.t) * ((((q.y * q.y) * q.y) * q.t) * ((r.x * r.z) * r.t))))) - (d * (((p.y * p.t) * p.t) * ((((q.y * q.y) * q.y) * q.t) * ((r.y * r.y) * r.y))))) - (((p.x * p.z) * p.t) * ((((q.x * q.x) * q.x) * q.z) * ((r.x * r.z) * r.t)))) + (((p.x * p.z) * p.t) * ((((q.x * q.x) * q.x) * q.z) * ((r.y * r.y) * r.y)))) - (((p.x * p.z) * p.t) * ((((q.x * q.z) * q.t) * q.t) * ((r.x * r.z) * r.t)))) + (((p.x * p.z) * p.t) * ((((q.x * q.z) * q.t) * q.t) * ((r.y * r.y) * r.y)))) + (((p.x * p.z) * p.t) * ((((q.y * q.y) * q.y) * q.t) * ((r.x * r.z) * r.t)))) - (((p.x * p.z) * p.t) * ((((q.y * q.y) * q.y) * q.t) * ((r.y * r.y) * r.y)))) + (((p.y * p.y) * p.y) * ((((q.x * q.x) * q.x) * q.z) * ((r.x * r.z) * r.t)))) - (((p.y * p.y) * p.y) * ((((q.x * q.x) * q.x) * q.z) * ((r.y * r.y) * r.y)))) + (((p.y * p.y) * p.y) * ((((q.x * q.z) * q.t) * q.t) * ((r.x * r.z) * r.t)))) - (((p.y * p.y) * p.y) * ((((q.x * q.z) * q.t) * q.t) * ((r.y * r.y) * r.y)))) - (((p.y * p.y) * p.y) * ((((q.y * q.y) * q.y) * q.t) * ((r.x * r.z) * r.t)))) + (((p.y * p.y) * p.y) * ((((q.y * q.y) * q.y) * q.t) * ((r.y * r.y) * r.y)))));
}

/// The product of the reduced monomials of the second and the third point,
/// term by term.
proof fn lemma_pair_32(d: int, q: Lift, r: Lift)
    ensures
        ((((((d * (((q.x * q.t) * q.t) * q.t)) - (d * (((q.y * q.z) * q.t) * q.t))) + (((q.x * q.x) * q.x) * q.t)) + (((q.y * q.y) * q.y) * q.z)) - (((q.y * q.z) * q.t) * q.t)) * (((0 - (d * ((r.x * r.t) * r.t))) - ((r.x * r.x) * r.x)) + ((r.y * r.z) * r.t))) == (((((((((((((((0 - ((d * d) * ((((q.x * q.t) * q.t) * q.t) * ((r.x * r.t) * r.t)))) + ((d * d) * ((((q.y * q.z) * q.t) * q.t) * ((r.x * r.t) * r.t)))) - (d * ((((q.x * q.x) * q.x) * q.t) * ((r.x * r.t) * r.t)))) - (d * ((((q.x * q.t) * q.t) * q.t) * ((r.x * r.x) * r.x)))) + (d * ((((q.x * q.t) * q.t) * q.t) * ((r.y * r.z) * r.t)))) - (d * ((((q.y * q.y) * q.y) * q.z) * ((r.x * r.t) * r.t)))) + (d * ((((q.y * q.z) * q.t) * q.t) * ((r.x * r.x) * r.x)))) + (d * ((((q.y * q.z) * q.t) * q.t) * ((r.x * r.t) * r.t)))) - (d * ((((q.y * q.z) * q.t) * q.t) * ((r.y * r.z) * r.t)))) - ((((q.x * q.x) * q.x) * q.t) * ((r.x * r.x) * r.x))) + ((((q.x * q.x) * q.x) * q.t) * ((r.y * r.z) * r.t))) - ((((q.y * q.y) * q.y) * q.z) * ((r.x * r.x) * r.x))) + ((((q.y * q.y) * q.y) * q.z) * ((r.y * r.z) * r.t))) + ((((q.y * q.z) * q.t) * q.t) * ((r.x * r.x) * r.x))) - ((((q.y * q.z) * q.t) * q.t) * ((r.y * r.z) * r.t))),
{
    let v879 = (d * (((q.x * q.t) * q.t) * q.t));
    let v881 = (d * (((q.y * q.z) * q.t) * q.t));
    let v882 = v879 - v881;
    let v883 = (((q.x * q.x) * q.x) * q.t);
    let v884 = v882 + v883;
    let v885 = (((q.y * q.y) * q.y) * q.z);
    let v886 = v884 + v885;
    let v887 = (((q.y * q.z) * q.t) * q.t);
    let v888 = v886 - v887;
    let v889 = (d * ((r.x * r.t) * r.t));
    let v890 = 0 - v889;
    let v891 = ((r.x * r.x) * r.x);
    let v892 = v890 - v891;
    let v893 = ((r.y * r.z) * r.t);
    let v894 = v892 + v893;
    lemma_distribute_sub(v894, v886, v887);
    lemma_distribute(v894, v884, v885);
    lemma_distribute(v894, v882, v883);
    lemma_distribute_sub(v894, v879, v881);
    lemma_distribute(v879, v892, v893);
    lemma_distribute_sub(v879, v890, v891);
    lemma_distribute_sub(v879, 0, v889);
    lemma_tensor(1, (((q.x * q.t) * q.t) * q.t), 1, 1, 1, ((r.x * r.t) * r.t));
    lemma_pairs(d, (((q.x * q.t) * q.t) * q.t), d, ((r.x * r.t) * r.t));
    lemma_tensor(1, (((q.x * q.t) * q.t) * q.t), 1, 1, 1, ((r.x * r.x) * r.x));
    lemma_pairs(d, (((q.x * q.t) * q.t) * q.t), 1, ((r.x * r.x) * r.x));
    lemma_tensor(1, (((q.x * q.t) * q.t) * q.t), 1, 1, 1, ((r.y * r.z) * r.t));
    lemma_pairs(d, (((q.x * q.t) * q.t) * q.t), 1, ((r.y * r.z) * r.t));
    lemma_distribute(v881, v892, v893);
    lemma_distribute_sub(v881, v890, v891);
    lemma_distribute_sub(v881, 0, v889);
    lemma_tensor(1, (((q.y * q.z) * q.t) * q.t), 1, 1, 1, ((r.x * r.t) * r.t));
    lemma_pairs(d, (((q.y * q.z) * q.t) * q.t), d, ((r.x * r.t) * r.t));
    lemma_tensor(1, (((q.y * q.z) * q.t) * q.t), 1, 1, 1, ((r.x * r.x) * r.x));
    lemma_pairs(d, (((q.y * q.z) * q.t) * q.t), 1, ((r.x * r.x) * r.x));
    lemma_tensor(1, (((q.y * q.z) * q.t) * q.t), 1, 1, 1, ((r.y * r.z) * r.t));
    lemma_pairs(d, (((q.y * q.z) * q.t) * q.t), 1, ((r.y * r.z) * r.t));
    lemma_distribute(v883, v892, v893);
    lemma_distribute_sub(v883, v890, v891);
    lemma_distribute_sub(v883, 0, v889);
    lemma_tensor(1, (((q.x * q.x) * q.x) * q.t), 1, 1, 1, ((r.x * r.t) * r.t));
    lemma_pairs(1, (((q.x * q.x) * q.x) * q.t), d, ((r.x * r.t) * r.t));
    lemma_tensor(1, (((q.x * q.x) * q.x) * q.t), 1, 1, 1, ((r.x * r.x) * r.x));
    lemma_tensor(1, (((q.x * q.x) * q.x) * q.t), 1, 1, 1, ((r.y * r.z) * r.t));
    lemma_distribute(v885, v892, v893);
    lemma_distribute_sub(v885, v890, v891);
    lemma_distribute_sub(v885, 0, v889);
    lemma_tensor(1, (((q.y * q.y) * q.y) * q.z), 1, 1, 1, ((r.x * r.t) * r.t));
    lemma_pairs(1, (((q.y * q.y) * q.y) * q.z), d, ((r.x * r.t) * r.t));
    lemma_tensor(1, (((q.y * q.y) * q.y) * q.z), 1, 1, 1, ((r.x * r.x) * r.x));
    lemma_tensor(1, (((q.y * q.y) * q.y) * q.z), 1, 1, 1, ((r.y * r.z) * r.t));
    lemma_distribute(v887, v892, v893);
    lemma_distribute_sub(v887, v890, v891);
    lemma_distribute_sub(v887, 0, v889);
    lemma_pairs(1, (((q.y * q.z) * q.t) * q.t), d, ((r.x * r.t) * r.t));
    assert(((((((d * (((q.x * q.t) * q.t) * q.t)) - (d * (((q.y * q.z) * q.t) * q.t))) + (((q.x * q.x) * q.x) * q.t)) + (((q.y * q.y) * q.y) * q.z)) - (((q.y * q.z) * q.t) * q.t)) * (((0 - (d * ((r.x * r.t) * r.t))) - ((r.x * r.x) * r.x)) + ((r.y * r.z) * r.t))) == (((((((((((((((0 - ((d * d) * ((((q.x * q.t) * q.t) * q.t) * ((r.x * r.t) * r.t)))) + ((d * d) * ((((q.y * q.z) * q.t) * q.t) * ((r.x * r.t) * r.t)))) - (d * ((((q.x * q.x) * q.x) * q.t) * ((r.x * r.t) * r.t)))) - (d * ((((q.x * q.t) * q.t) * q.t) * ((r.x * r.x) * r.x)))) + (d * ((((q.x * q.t) * q.t) * q.t) * ((r.y * r.z) * r.t)))) - (d * ((((q.y * q.y) * q.y) * q.z) * ((r.x * r.t) * r.t)))) + (d * ((((q.y * q.z) * q.t) * q.t) * ((r.x * r.x) * r.x)))) + (d * ((((q.y * q.z) * q.t) * q.t) * ((r.x * r.t) * r.t)))) - (d * ((((q.y * q.z) * q.t) * q.t) * ((r.y * r.z) * r.t)))) - ((((q.x * q.x) * q.x) * q.t) * ((r.x * r.x) * r.x))) + ((((q.x * q.x) * q.x) * q.t) * ((r.y * r.z) * r.t))) - ((((q.y * q.y) * q.y) * q.z) * ((r.x * r.x) * r.x))) + ((((q.y * q.y) * q.y) * q.z) * ((r.y * r.z) * r.t))) + ((((q.y * q.z) * q.t) * q.t) * ((r.x * r.x) * r.x))) - ((((q.y * q.z) * q.t) * q.t) * ((r.y * r.z) * r.t))));
}

/// A term of the cross product, reduced.
proof fn lemma_term_36(d: int, p: Lift, q: Lift, r: Lift)
    requires
        reducible(p, d),
        reducible(q, d),
        reducible(r, d),
    ensures
        congruent((((p.y * p.z) * p.z) * ((((q.y * q.z) * q.z) * q.z) * ((r.x * r.z) * r.z))), (((((((((((((((((((((((((((((((((((((((((((((((d * d) * d) * (((p.y * p.t) * p.t) * ((((q.x * q.t) * q.t) * q.t) * ((r.x * r.t) * r.t)))) - (((d * d) * d) * (((p.y * p.t) * p.t) * ((((q.y * q.z) * q.t) * q.t) * ((r.x * r.t) * r.t))))) + ((d * d) * (((p.x * p.z) * p.t) * ((((q.x * q.t) * q.t) * q.t) * ((r.x * r.t) * r.t))))) - ((d * d) * (((p.x * p.z) * p.t) * ((((q.y * q.z) * q.t) * q.t) * ((r.x * r.t) * r.t))))) - ((d * d) * (((p.y * p.y) * p.y) * ((((q.x * q.t) * q.t) * q.t) * ((r.x * r.t) * r.t))))) + ((d * d) * (((p.y * p.y) * p.y) * ((((q.y * q.z) * q.t) * q.t) * ((r.x * r.t) * r.t))))) + ((d * d) * (((p.y * p.t) * p.t) * ((((q.x * q.x) * q.x) * q.t) * ((r.x * r.t) * r.t))))) + ((d * d) * (((p.y * p.t) * p.t) * ((((q.x * q.t) * q.t) * q.t) * ((r.x * r.x) * r.x))))) - ((d * d) * (((p.y * p.t) * p.t) * ((((q.x * q.t) * q.t) * q.t) * ((r.y * r.z) * r.t))))) + ((d * d) * (((p.y * p.t) * p.t) * ((((q.y * q.y) * q.y) * q.z) * ((r.x * r.t) * r.t))))) - ((d * d) * (((p.y * p.t) * p.t) * ((((q.y * q.z) * q.t) * q.t) * ((r.x * r.x) * r.x))))) - ((d * d) * (((p.y * p.t) * p.t) * ((((q.y * q.z) * q.t) * q.t) * ((r.x * r.t) * r.t))))) + ((d * d) * (((p.y * p.t) * p.t) * ((((q.y * q.z) * q.t) * q.t) * ((r.y * r.z) * r.t))))) + (d * (((p.x * p.z) * p.t) * ((((q.x * q.x) * q.x) * q.t) * ((r.x * r.t) * r.t))))) + (d * (((p.x * p.z) * p.t) * ((((q.x * q.t) * q.t) * q.t) * ((r.x * r.x) * r.x))))) - (d * (((p.x * p.z) * p.t) * ((((q.x * q.t) * q.t) * q.t) * ((r.y * r.z) * r.t))))) + (d * (((p.x * p.z) * p.t) * ((((q.y * q.y) * q.y) * q.z) * ((r.x * r.t) * r.t))))) - (d * (((p.x * p.z) * p.t) * ((((q.y * q.z) * q.t) * q.t) * ((r.x * r.x) * r.x))))) - (d * (((p.x * p.z) * p.t) * ((((q.y * q.z) * q.t) * q.t) * ((r.x * r.t) * r.t))))) + (d * (((p.x * p.z) * p.t) * ((((q.y * q.z) * q.t) * q.t) * ((r.y * r.z) * r.t))))) - (d * (((p.y * p.y) * p.y) * ((((q.x * q.x) * q.x) * q.t) * ((r.x * r.t) * r.t))))) - (d * (((p.y * p.y) * p.y) * ((((q.x * q.t) * q.t) * q.t) * ((r.x * r.x) * r.x))))) + (d * (((p.y * p.y) * p.y) * ((((q.x * q.t) * q.t) * q.t) * ((r.y * r.z) * r.t))))) - (d * (((p.y * p.y) * p.y) * ((((q.y * q.y) * q.y) * q.z) * ((r.x * r.t) * r.t))))) + (d * (((p.y * p.y) * p.y) * ((((q.y * q.z) * q.t) * q.t) * ((r.x * r.x) * r.x))))) + (d * (((p.y * p.y) * p.y) * ((((q.y * q.z) * q.t) * q.t) * ((r.x * r.t) * r.t))))) - (d * (((p.y * p.y) * p.y) * ((((q.y * q.z) * q.t) * q.t) * ((r.y * r.z) * r.t))))) + (d * (((p.y * p.t) * p.t) * ((((q.x * q.x) * q.x) * q.t) * ((r.x * r.x) * r.x))))) - (d * (((p.y * p.t) * p.t) * ((((q.x * q.x) * q.x) * q.t) * ((r.y * r.z) * r.t))))) + (d * (((p.y * p.t) * p.t) * ((((q.y * q.y) * q.y) * q.z) * ((r.x * r.x) * r.x))))) - (d * (((p.y * p.t) * p.t) * ((((q.y * q.y) * q.y) * q.z) * ((r.y * r.z) * r.t))))) - (d * (((p.y * p.t) * p.t) * ((((q.y * q.z) * q.t) * q.t) * ((r.x * r.x) * r.x))))) + (d * (((p.y * p.t) * p.t) * ((((q.y * q.z) * q.t) * q.t) * ((r.y * r.z) * r.t))))) + (((p.x * p.z) * p.t) * ((((q.x * q.x) * q.x) * q.t) * ((r.x * r.x) * r.x)))) - (((p.x * p.z) * p.t) * ((((q.x * q.x) * q.x) * q.t) * ((r.y * r.z) * r.t)))) + (((p.x * p.z) * p.t) * ((((q.y * q.y) * q.y) * q.z) * ((r.x * r.x) * r.x)))) - (((p.x * p.z) * p.t) * ((((q.y * q.y) * q.y) * q.z) * ((r.y * r.z) * r.t)))) - (((p.x * p.z) * p.t) * ((((q.y * q.z) * q.t) * q.t) * ((r.x * r.x) * r.x)))) + (((p.x * p.z) * p.t) * ((((q.y * q.z) * q.t) * q.t) * ((r.y * r.z) * r.t)))) - (((p.y * p.y) * p.y) * ((((q.x * q.x) * q.x) * q.t) * ((r.x * r.x) * r.x)))) + (((p.y * p.y) * p.y) * ((((q.x * q.x) * q.x) * q.t) * ((r.y * r.z) * r.t)))) - (((p.y * p.y) * p.y) * ((((q.y * q.y) * q.y) * q.z) * ((r.x * r.x) * r.x)))) + (((p.y * p.y) * p.y) * ((((q.y * q.y) * q.y) * q.z) * ((r.y * r.z) * r.t)))) + (((p.y * p.y) * p.y) * ((((q.y * q.z) * q.t) * q.t) * ((r.x * r.x) * r.x)))) - (((p.y * p.y) * p.y) * ((((q.y * q.z) * q.t) * q.t) * ((r.y * r.z) * r.t))))),
{
    lemma_point_0120(d, p);
    lemma_point_0130(d, q);
    lemma_point_1020(d, r);
    lemma_congruent_mul((((q.y * q.z) * q.z) * q.z), (((((d * (((q.x * q.t) * q.t) * q.t)) - (d * (((q.y * q.z) * q.t) * q.t))) + (((q.x * q.x) * q.x) * q.t)) + (((q.y * q.y) * q.y) * q.z)) - (((q.y * q.z) * q.t) * q.t)), ((r.x * r.z) * r.z), (((0 - (d * ((r.x * r.t) * r.t))) - ((r.x * r.x) * r.x)) + ((r.y * r.z) * r.t)));
    lemma_congruent_mul(((p.y * p.z) * p.z), (((0 - (d * ((p.y * p.t) * p.t))) - ((p.x * p.z) * p.t)) + ((p.y * p.y) * p.y)), ((((q.y * q.z) * q.z) * q.z) * ((r.x * r.z) * r.z)), ((((((d * (((q.x * q.t) * q.t) * q.t)) - (d * (((q.y * q.z) * q.t) * q.t))) + (((q.x * q.x) * q.x) * q.t)) + (((q.y * q.y) * q.y) * q.z)) - (((q.y * q.z) * q.t) * q.t)) * (((0 - (d * ((r.x * r.t) * r.t))) - ((r.x * r.x) * r.x)) + ((r.y * r.z) * r.t))));
    lemma_pair_32(d, q, r);
    let v895 = (d * ((p.y * p.t) * p.t));
    let v896 = 0 - v895;
    let v897 = ((p.x * p.z) * p.t);
    let v898 = v896 - v897;
    let v899 = ((p.y * p.y) * p.y);
    let v900 = v898 + v899;
    let v901 = ((d * d) * ((((q.x * q.t) * q.t) * q.t) * ((r.x * r.t) * r.t)));
    let v902 = 0 - v901;
    let v903 = ((d * d) * ((((q.y * q.z) * q.t) * q.t) * ((r.x * r.t) * r.t)));
    let v904 = v902 + v903;
    let v905 = (d * ((((q.x * q.x) * q.x) * q.t) * ((r.x * r.t) * r.t)));
    let v906 = v904 - v905;
    let v907 = (d * ((((q.x * q.t) * q.t) * q.t) * ((r.x * r.x) * r.x)));
    let v908 = v906 - v907;
    let v909 = (d * ((((q.x * q.t) * q.t) * q.t) * ((r.y * r.z) * r.t)));
    let v910 = v908 + v909;
    let v911 = (d * ((((q.y * q.y) * q.y) * q.z) * ((r.x * r.t) * r.t)));
    let v912 = v910 - v911;
    let v913 = (d * ((((q.y * q.z) * q.t) * q.t) * ((r.x * r.x) * r.x)));
    let v914 = v912 + v913;
    let v915 = (d * ((((q.y * q.z) * q.t) * q.t) * ((r.x * r.t) * r.t)));
    let v916 = v914 + v915;
    let v917 = (d * ((((q.y * q.z) * q.t) * q.t) * ((r.y * r.z) * r.t)));
    let v918 = v916 - v917;
    let v919 = ((((q.x * q.x) * q.x) * q.t) * ((r.x * r.x) * r.x));
    let v920 = v918 - v919;
    let v921 = ((((q.x * q.x) * q.x) * q.t) * ((r.y * r.z) * r.t));
    let v922 = v920 + v921;
    let v923 = ((((q.y * q.y) * q.y) * q.z) * ((r.x * r.x) * r.x));
    let v924 = v922 - v923;
    let v925 = ((((q.y * q.y) * q.y) * q.z) * ((r.y * r.z) * r.t));
    let v926 = v924 + v925;
    let v927 = ((((q.y * q.z) * q.t) * q.t) * ((r.x * r.x) * r.x));
    let v928 = v926 + v927;
    let v929 = ((((q.y * q.z) * q.t) * q.t) * ((r.y * r.z) * r.t));
    let v930 = v928 - v929;
    lemma_distribute(v930, v898, v899);
    lemma_distribute_sub(v930, v896, v897);
    lemma_distribute_sub(v930, 0, v895);
    lemma_distribute_sub(v895, v928, v929);
    lemma_distribute(v895, v926, v927);
    lemma_distribute(v895, v924, v925);
    lemma_distribute_sub(v895, v922, v923);
    lemma_distribute(v895, v920, v921);
    lemma_distribute_sub(v895, v918, v919);
    lemma_distribute_sub(v895, v916, v917);
    lemma_distribute(v895, v914, v915);
    lemma_distribute(v895, v912, v913);
    lemma_distribute_sub(v895, v910, v911);
    lemma_distribute(v895, v908, v909);
    lemma_distribute_sub(v895, v906, v907);
    lemma_distribute_sub(v895, v904, v905);
    lemma_distribute(v895, v902, v903);
    lemma_distribute_sub(v895, 0, v901);
    assert(d * (d * d) == ((d * d) * d)) by (nonlinear_arith);
    lemma_tensor(((p.y * p.t) * p.t), 1, 1, 1, (((q.x * q.t) * q.t) * q.t), ((r.x * r.t) * r.t));
    lemma_pairs(d, ((p.y * p.t) * p.t), (d * d), ((((q.x * q.t) * q.t) * q.t) * ((r.x * r.t) * r.t)));
    lemma_tensor(((p.y * p.t) * p.t), 1, 1, 1, (((q.y * q.z) * q.t) * q.t), ((r.x * r.t) * r.t));
    lemma_pairs(d, ((p.y * p.t) * p.t), (d * d), ((((q.y * q.z) * q.t) * q.t) * ((r.x * r.t) * r.t)));
    lemma_tensor(((p.y * p.t) * p.t), 1, 1, 1, (((q.x * q.x) * q.x) * q.t), ((r.x * r.t) * r.t));
    lemma_pairs(d, ((p.y * p.t) * p.t), d, ((((q.x * q.x) * q.x) * q.t) * ((r.x * r.t) * r.t)));
    lemma_tensor(((p.y * p.t) * p.t), 1, 1, 1, (((q.x * q.t) * q.t) * q.t), ((r.x * r.x) * r.x));
    lemma_pairs(d, ((p.y * p.t) * p.t), d, ((((q.x * q.t) * q.t) * q.t) * ((r.x * r.x) * r.x)));
    lemma_tensor(((p.y * p.t) * p.t), 1, 1, 1, (((q.x * q.t) * q.t) * q.t), ((r.y * r.z) * r.t));
    lemma_pairs(d, ((p.y * p.t) * p.t), d, ((((q.x * q.t) * q.t) * q.t) * ((r.y * r.z) * r.t)));
    lemma_tensor(((p.y * p.t) * p.t), 1, 1, 1, (((q.y * q.y) * q.y) * q.z), ((r.x * r.t) * r.t));
    lemma_pairs(d, ((p.y * p.t) * p.t), d, ((((q.y * q.y) * q.y) * q.z) * ((r.x * r.t) * r.t)));
    lemma_tensor(((p.y * p.t) * p.t), 1, 1, 1, (((q.y * q.z) * q.t) * q.t), ((r.x * r.x) * r.x));
    lemma_pairs(d, ((p.y * p.t) * p.t), d, ((((q.y * q.z) * q.t) * q.t) * ((r.x * r.x) * r.x)));
    lemma_pairs(d, ((p.y * p.t) * p.t), d, ((((q.y * q.z) * q.t) * q.t) * ((r.x * r.t) * r.t)));
    lemma_tensor(((p.y * p.t) * p.t), 1, 1, 1, (((q.y * q.z) * q.t) * q.t), ((r.y * r.z) * r.t));
    lemma_pairs(d, ((p.y * p.t) * p.t), d, ((((q.y * q.z) * q.t) * q.t) * ((r.y * r.z) * r.t)));
    lemma_tensor(((p.y * p.t) * p.t), 1, 1, 1, (((q.x * q.x) * q.x) * q.t), ((r.x * r.x) * r.x));
    lemma_pairs(d, ((p.y * p.t) * p.t), 1, ((((q.x * q.x) * q.x) * q.t) * ((r.x * r.x) * r.x)));
    lemma_tensor(((p.y * p.t) * p.t), 1, 1, 1, (((q.x * q.x) * q.x) * q.t), ((r.y * r.z) * r.t));
    lemma_pairs(d, ((p.y * p.t) * p.t), 1, ((((q.x * q.x) * q.x) * q.t) * ((r.y * r.z) * r.t)));
    lemma_tensor(((p.y * p.t) * p.t), 1, 1, 1, (((q.y * q.y) * q.y) * q.z), ((r.x * r.x) * r.x));
    lemma_pairs(d, ((p.y * p.t) * p.t), 1, ((((q.y * q.y) * q.y) * q.z) * ((r.x * r.x) * r.x)));
    lemma_tensor(((p.y * p.t) * p.t), 1, 1, 1, (((q.y * q.y) * q.y) * q.z), ((r.y * r.z) * r.t));
    lemma_pairs(d, ((p.y * p.t) * p.t), 1, ((((q.y * q.y) * q.y) * q.z) * ((r.y * r.z) * r.t)));
    lemma_pairs(d, ((p.y * p.t) * p.t), 1, ((((q.y * q.z) * q.t) * q.t) * ((r.x * r.x) * r.x)));
    lemma_pairs(d, ((p.y * p.t) * p.t), 1, ((((q.y * q.z) * q.t) * q.t) * ((r.y * r.z) * r.t)));
    lemma_distribute_sub(v897, v928, v929);
    lemma_distribute(v897, v926, v927);
    lemma_distribute(v897, v924, v925);
    lemma_distribute_sub(v897, v922, v923);
    lemma_distribute(v897, v920, v921);
    lemma_distribute_sub(v897, v918, v919);
    lemma_distribute_sub(v897, v916, v917);
    lemma_distribute(v897, v914, v915);
    lemma_distribute(v897, v912, v913);
    lemma_distribute_sub(v897, v910, v911);
    lemma_distribute(v897, v908, v909);
    lemma_distribute_sub(v897, v906, v907);
    lemma_distribute_sub(v897, v904, v905);
    lemma_distribute(v897, v902, v903);
    lemma_distribute_sub(v897, 0, v901);
    lemma_tensor(((p.x * p.z) * p.t), 1, 1, 1, (((q.x * q.t) * q.t) * q.t), ((r.x * r.t) * r.t));
    lemma_pairs(1, ((p.x * p.z) * p.t), (d * d), ((((q.x * q.t) * q.t) * q.t) * ((r.x * r.t) * r.t)));
    lemma_tensor(((p.x * p.z) * p.t), 1, 1, 1, (((q.y * q.z) * q.t) * q.t), ((r.x * r.t) * r.t));
    lemma_pairs(1, ((p.x * p.z) * p.t), (d * d), ((((q.y * q.z) * q.t) * q.t) * ((r.x * r.t) * r.t)));
    lemma_tensor(((p.x * p.z) * p.t), 1, 1, 1, (((q.x * q.x) * q.x) * q.t), ((r.x * r.t) * r.t));
    lemma_pairs(1, ((p.x * p.z) * p.t), d, ((((q.x * q.x) * q.x) * q.t) * ((r.x * r.t) * r.t)));
    lemma_tensor(((p.x * p.z) * p.t), 1, 1, 1, (((q.x * q.t) * q.t) * q.t), ((r.x * r.x) * r.x));
    lemma_pairs(1, ((p.x * p.z) * p.t), d, ((((q.x * q.t) * q.t) * q.t) * ((r.x * r.x) * r.x)));
    lemma_tensor(((p.x * p.z) * p.t), 1, 1, 1, (((q.x * q.t) * q.t) * q.t), ((r.y * r.z) * r.t));
    lemma_pairs(1, ((p.x * p.z) * p.t), d, ((((q.x * q.t) * q.t) * q.t) * ((r.y * r.z) * r.t)));
    lemma_tensor(((p.x * p.z) * p.t), 1, 1, 1, (((q.y * q.y) * q.y) * q.z), ((r.x * r.t) * r.t));
    lemma_pairs(1, ((p.x * p.z) * p.t), d, ((((q.y * q.y) * q.y) * q.z) * ((r.x * r.t) * r.t)));
    lemma_tensor(((p.x * p.z) * p.t), 1, 1, 1, (((q.y * q.z) * q.t) * q.t), ((r.x * r.x) * r.x));
    lemma_pairs(1, ((p.x * p.z) * p.t), d, ((((q.y * q.z) * q.t) * q.t) * ((r.x * r.x) * r.x)));
    lemma_pairs(1, ((p.x * p.z) * p.t), d, ((((q.y * q.z) * q.t) * q.t) * ((r.x * r.t) * r.t)));
    lemma_tensor(((p.x * p.z) * p.t), 1, 1, 1, (((q.y * q.z) * q.t) * q.t), ((r.y * r.z) * r.t));
    lemma_pairs(1, ((p.x * p.z) * p.t), d, ((((q.y * q.z) * q.t) * q.t) * ((r.y * r.z) * r.t)));
    lemma_tensor(((p.x * p.z) * p.t), 1, 1, 1, (((q.x * q.x) * q.x) * q.t), ((r.x * r.x) * r.x));
    lemma_tensor(((p.x * p.z) * p.t), 1, 1, 1, (((q.x * q.x) * q.x) * q.t), ((r.y * r.z) * r.t));
    lemma_tensor(((p.x * p.z) * p.t), 1, 1, 1, (((q.y * q.y) * q.y) * q.z), ((r.x * r.x) * r.x));
    lemma_tensor(((p.x * p.z) * p.t), 1, 1, 1, (((q.y * q.y) * q.y) * q.z), ((r.y * r.z) * r.t));
    lemma_distribute_sub(v899, v928, v929);
    lemma_distribute(v899, v926, v927);
    lemma_distribute(v899, v924, v925);
    lemma_distribute_sub(v899, v922, v923);
    lemma_distribute(v899, v920, v921);
    lemma_distribute_sub(v899, v918, v919);
    lemma_distribute_sub(v899, v916, v917);
    lemma_distribute(v899, v914, v915);
    lemma_distribute(v899, v912, v913);
    lemma_distribute_sub(v899, v910, v911);
    lemma_distribute(v899, v908, v909);
    lemma_distribute_sub(v899, v906, v907);
    lemma_distribute_sub(v899, v904, v905);
    lemma_distribute(v899, v902, v903);
    lemma_distribute_sub(v899, 0, v901);
    lemma_tensor(((p.y * p.y) * p.y), 1, 1, 1, (((q.x * q.t) * q.t) * q.t), ((r.x * r.t) * r.t));
    lemma_pairs(1, ((p.y * p.y) * p.y), (d * d), ((((q.x * q.t) * q.t) * q.t) * ((r.x * r.t) * r.t)));
    lemma_tensor(((p.y * p.y) * p.y), 1, 1, 1, (((q.y * q.z) * q.t) * q.t), ((r.x * r.t) * r.t));
    lemma_pairs(1, ((p.y * p.y) * p.y), (d * d), ((((q.y * q.z) * q.t) * q.t) * ((r.x * r.t) * r.t)));
    lemma_tensor(((p.y * p.y) * p.y), 1, 1, 1, (((q.x * q.x) * q.x) * q.t), ((r.x * r.t) * r.t));
    lemma_pairs(1, ((p.y * p.y) * p.y), d, ((((q.x * q.x) * q.x) * q.t) * ((r.x * r.t) * r.t)));
    lemma_tensor(((p.y * p.y) * p.y), 1, 1, 1, (((q.x * q.t) * q.t) * q.t), ((r.x * r.x) * r.x));
    lemma_pairs(1, ((p.y * p.y) * p.y), d, ((((q.x * q.t) * q.t) * q.t) * ((r.x * r.x) * r.x)));
    lemma_tensor(((p.y * p.y) * p.y), 1, 1, 1, (((q.x * q.t) * q.t) * q.t), ((r.y * r.z) * r.t));
    lemma_pairs(1, ((p.y * p.y) * p.y), d, ((((q.x * q.t) * q.t) * q.t) * ((r.y * r.z) * r.t)));
    lemma_tensor(((p.y * p.y) * p.y), 1, 1, 1, (((q.y * q.y) * q.y) * q.z), ((r.x * r.t) * r.t));
    lemma_pairs(1, ((p.y * p.y) * p.y), d, ((((q.y * q.y) * q.y) * q.z) * ((r.x * r.t) * r.t)));
    lemma_tensor(((p.y * p.y) * p.y), 1, 1, 1, (((q.y * q.z) * q.t) * q.t), ((r.x * r.x) * r.x));
    lemma_pairs(1, ((p.y * p.y) * p.y), d, ((((q.y * q.z) * q.t) * q.t) * ((r.x * r.x) * r.x)));
    lemma_pairs(1, ((p.y * p.y) * p.y), d, ((((q.y * q.z) * q.t) * q.t) * ((r.x * r.t) * r.t)));
    lemma_tensor(((p.y * p.y) * p.y), 1, 1, 1, (((q.y * q.z) * q.t) * q.t), ((r.y * r.z) * r.t));
    lemma_pairs(1, ((p.y * p.y) * p.y), d, ((((q.y * q.z) * q.t) * q.t) * ((r.y * r.z) * r.t)));
    lemma_tensor(((p.y * p.y) * p.y), 1, 1, 1, (((q.x * q.x) * q.x) * q.t), ((r.x * r.x) * r.x));
    lemma_tensor(((p.y * p.y) * p.y), 1, 1, 1, (((q.x * q.x) * q.x) * q.t), ((r.y * r.z) * r.t));
    lemma_tensor(((p.y * p.y) * p.y), 1, 1, 1, (((q.y * q.y) * q.y) * q.z), ((r.x * r.x) * r.x));
    lemma_tensor(((p.y * p.y) * p.y), 1, 1, 1, (((q.y * q.y) * q.y) * q.z), ((r.y * r.z) * r.t));
    assert(((((0 - (d * ((p.y * p.t) * p.t))) - ((p.x * p.z) * p.t)) + ((p.y * p.y) * p.y)) * ((((((d * (((q.x * q.t) * q.t) * q.t)) - (d * (((q.y * q.z) * q.t) * q.t))) + (((q.x * q.x) * q.x) * q.t)) + (((q.y * q.y) * q.y) * q.z)) - (((q.y * q.z) * q.t) * q.t)) * (((0 - (d * ((r.x * r.t) * r.t))) - ((r.x * r.x) * r.x)) + ((r.y * r.z) * r.t)))) == (((((((((((((((((((((((((((((((((((((((((((((((d * d) * d) * (((p.y * p.t) * p.t) * ((((q.x * q.t) * q.t) * q.t) * ((r.x * r.t) * r.t)))) - (((d * d) * d) * (((p.y * p.t) * p.t) * ((((q.y * q.z) * q.t) * q.t) * ((r.x * r.t) * r.t))))) + ((d * d) * (((p.x * p.z) * p.t) * ((((q.x * q.t) * q.t) * q.t) * ((r.x * r.t) * r.t))))) - ((d * d) * (((p.x * p.z) * p.t) * ((((q.y * q.z) * q.t) * q.t) * ((r.x * r.t) * r.t))))) - ((d * d) * (((p.y * p.y) * p.y) * ((((q.x * q.t) * q.t) * q.t) * ((r.x * r.t) * r.t))))) + ((d * d) * (((p.y * p.y) * p.y) * ((((q.y * q.z) * q.t) * q.t) * ((r.x * r.t) * r.t))))) + ((d * d) * (((p.y * p.t) * p.t) * ((((q.x * q.x) * q.x) * q.t) * ((r.x * r.t) * r.t))))) + ((d * d) * (((p.y * p.t) * p.t) * ((((q.x * q.t) * q.t) * q.t) * ((r.x * r.x) * r.x))))) - ((d * d) * (((p.y * p.t) * p.t) * ((((q.x * q.t) * q.t) * q.t) * ((r.y * r.z) * r.t))))) + ((d * d) * (((p.y * p.t) * p.t) * ((((q.y * q.y) * q.y) * q.z) * ((r.x * r.t) * r.t))))) - ((d * d) * (((p.y * p.t) * p.t) * ((((q.y * q.z) * q.t) * q.t) * ((r.x * r.x) * r.x))))) - ((d * d) * (((p.y * p.t) * p.t) * ((((q.y * q.z) * q.t) * q.t) * ((r.x * r.t) * r.t))))) + ((d * d) * (((p.y * p.t) * p.t) * ((((q.y * q.z) * q.t) * q.t) * ((r.y * r.z) * r.t))))) + (d * (((p.x * p.z) * p.t) * ((((q.x * q.x) * q.x) * q.t) * ((r.x * r.t) * r.t))))) + (d * (((p.x * p.z) * p.t) * ((((q.x * q.t) * q.t) * q.t) * ((r.x * r.x) * r.x))))) - (d * (((p.x * p.z) * p.t) * ((((q.x * q.t) * q.t) * q.t) * ((r.y * r.z) * r.t))))) + (d * (((p.x * p.z) * p.t) * ((((q.y * q.y) * q.y) * q.z) * ((r.x * r.t) * r.t))))) - (d * (((p.x * p.z) * p.t) * ((((q.y * q.z) * q.t) * q.t) * ((r.x * r.x) * r.x))))) - (d * (((p.x * p.z) * p.t) * ((((q.y * q.z) * q.t) * q.t) * ((r.x * r.t) * r.t))))) + (d * (((p.x * p.z) * p.t) * ((((q.y * q.z) * q.t) * q.t) * ((r.y * r.z) * r.t))))) - (d * (((p.y * p.y) * p.y) * ((((q.x * q.x) * q.x) * q.t) * ((r.x * r.t) * r.t))))) - (d * (((p.y * p.y) * p.y) * ((((q.x * q.t) * q.t) * q.t) * ((r.x * r.x) * r.x))))) + (d * (((p.y * p.y) * p.y) * ((((q.x * q.t) * q.t) * q.t) * ((r.y * r.z) * r.t))))) - (d * (((p.y * p.y) * p.y) * ((((q.y * q.y) * q.y) * q.z) * ((r.x * r.t) * r.t))))) + (d * (((p.y * p.y) * p.y) * ((((q.y * q.z) * q.t) * q.t) * ((r.x * r.x) * r.x))))) + (d * (((p.y * p.y) * p.y) * ((((q.y * q.z) * q.t) * q.t) * ((r.x * r.t) * r.t))))) - (d * (((p.y * p.y) * p.y) * ((((q.y * q.z) * q.t) * q.t) * ((r.y * r.z) * r.t))))) + (d * (((p.y * p.t) * p.t) * ((((q.x * q.x) * q.x) * q.t) * ((r.x * r.x) * r.x))))) - (d * (((p.y * p.t) * p.t) * ((((q.x * q.x) * q.x) * q.t) * ((r.y * r.z) * r.t))))) + (d * (((p.y * p.t) * p.t) * ((((q.y * q.y) * q.y) * q.z) * ((r.x * r.x) * r.x))))) - (d * (((p.y * p.t) * p.t) * ((((q.y * q.y) * q.y) * q.z) * ((r.y * r.z) * r.t))))) - (d * (((p.y * p.t) * p.t) * ((((q.y * q.z) * q.t) * q.t) * ((r.x * r.x) * r.x))))) + (d * (((p.y * p.t) * p.t) * ((((q.y * q.z) * q.t) * q.t) * ((r.y * r.z) * r.t))))) + (((p.x * p.z) * p.t) * ((((q.x * q.x) * q.x) * q.t) * ((r.x * r.x) * r.x)))) - (((p.x * p.z) * p.t) * ((((q.x * q.x) * q.x) * q.t) * ((r.y * r.z) * r.t)))) + (((p.x * p.z) * p.t) * ((((q.y * q.y) * q.y) * q.z) * ((r.x * r.x) * r.x)))) - (((p.x * p.z) * p.t) * ((((q.y * q.y) * q.y) * q.z) * ((r.y * r.z) * r.t)))) - (((p.x * p.z) * p.t) * ((((q.y * q.z) * q.t) * q.t) * ((r.x * r.x) * r.x)))) + (((p.x * p.z) * p.t) * ((((q.y * q.z) * q.t) * q.t) * ((r.y * r.z) * r.t)))) - (((p.y * p.y) * p.y) * ((((q.x * q.x) * q.x) * q.t) * ((r.x * r.x) * r.x)))) + (((p.y * p.y) * p.y) * ((((q.x * q.x) * q.x) * q.t) * ((r.y * r.z) * r.t)))) - (((p.y * p.y) * p.y) * ((((q.y * q.y) * q.y) * q.z) * ((r.x * r.x) * r.x)))) + (((p.y * p.y) * p.y) * ((((q.y * q.y) * q.y) * q.z) * ((r.y * r.z) * r.t)))) + (((p.y * p.y) * p.y) * ((((q.y * q.z) * q.t) * q.t) * ((r.x * r.x) * r.x)))) - (((p.y * p.y) * p.y) * ((((q.y * q.z) * q.t) * q.t) * ((r.y * r.z) * r.t)))));
}

/// The cross product of E for the left grouping and G for the right, term
/// by term.
proof fn lemma_cross_product(d: int, p: Lift, q: Lift, r: Lift)
    ensures
        cross(d, p, q, r) == ((((((((((((((((((((((((((((((((((((0 - 16 * (((d * d) * d) * (((p.x * p.z) * p.t) * ((((q.x * q.t) * q.t) * q.t) * ((r.x * r.t) * r.t))))) + 16 * (((d * d) * d) * (((p.x * p.z) * p.t) * ((((q.y * q.t) * q.t) * q.t) * ((r.y * r.t) * r.t))))) + 16 * (((d * d) * d) * (((p.y * p.z) * p.t) * ((((q.x * q.t) * q.t) * q.t) * ((r.y * r.t) * r.t))))) - 16 * (((d * d) * d) * (((p.y * p.z) * p.t) * ((((q.y * q.t) * q.t) * q.t) * ((r.x * r.t) * r.t))))) - 16 * ((d * d) * (((p.x * p.z) * p.z) * ((((q.x * q.z) * q.t) * q.t) * ((r.x * r.t) * r.t))))) - 16 * ((d * d) * (((p.x * p.z) * p.z) * ((((q.y * q.z) * q.t) * q.t) * ((r.y * r.t) * r.t))))) + 16 * ((d * d) * (((p.x * p.t) * p.t) * ((((q.x * q.x) * q.x) * q.t) * ((r.x * r.x) * r.y))))) + 16 * ((d * d) * (((p.x * p.t) * p.t) * ((((q.x * q.x) * q.y) * q.t) * ((r.x * r.x) * r.x))))) - 16 * ((d * d) * (((p.x * p.t) * p.t) * ((((q.x * q.y) * q.y) * q.t) * ((r.y * r.y) * r.y))))) - 16 * ((d * d) * (((p.x * p.t) * p.t) * ((((q.y * q.y) * q.y) * q.t) * ((r.x * r.y) * r.y))))) - 16 * ((d * d) * (((p.y * p.z) * p.z) * ((((q.x * q.z) * q.t) * q.t) * ((r.y * r.t) * r.t))))) - 16 * ((d * d) * (((p.y * p.z) * p.z) * ((((q.y * q.z) * q.t) * q.t) * ((r.x * r.t) * r.t))))) - 16 * ((d * d) * (((p.y * p.t) * p.t) * ((((q.x * q.x) * q.x) * q.t) * ((r.x * r.y) * r.y))))) - 16 * ((d * d) * (((p.y * p.t) * p.t) * ((((q.x * q.x) * q.y) * q.t) * ((r.y * r.y) * r.y))))) + 16 * ((d * d) * (((p.y * p.t) * p.t) * ((((q.x * q.y) * q.y) * q.t) * ((r.x * r.x) * r.x))))) + 16 * ((d * d) * (((p.y * p.t) * p.t) * ((((q.y * q.y) * q.y) * q.t) * ((r.x * r.x) * r.y))))) + 16 * (d * (((p.x * p.z) * p.t) * ((((q.x * q.x) * q.x) * q.z) * ((r.x * r.x) * r.y))))) + 16 * (d * (((p.x * p.z) * p.t) * ((((q.x * q.x) * q.y) * q.z) * ((r.x * r.x) * r.x))))) + 32 * (d * (((p.x * p.z) * p.t) * ((((q.x * q.x) * q.y) * q.z) * ((r.x * r.y) * r.y))))) + 32 * (d * (((p.x * p.z) * p.t) * ((((q.x * q.y) * q.y) * q.z) * ((r.x * r.x) * r.y))))) + 16 * (d * (((p.x * p.z) * p.t) * ((((q.x * q.y) * q.y) * q.z) * ((r.y * r.y) * r.y))))) + 16 * (d * (((p.x * p.z) * p.t) * ((((q.x * q.z) * q.z) * q.t) * ((r.x * r.z) * r.z))))) + 16 * (d * (((p.x * p.z) * p.t) * ((((q.y * q.y) * q.y) * q.z) * ((r.x * r.y) * r.y))))) - 16 * (d * (((p.x * p.z) * p.t) * ((((q.y * q.z) * q.z) * q.t) * ((r.y * r.z) * r.z))))) + 16 * (d * (((p.y * p.z) * p.t) * ((((q.x * q.x) * q.x) * q.z) * ((r.x * r.y) * r.y))))) + 32 * (d * (((p.y * p.z) * p.t) * ((((q.x * q.x) * q.y) * q.z) * ((r.x * r.x) * r.y))))) + 16 * (d * (((p.y * p.z) * p.t) * ((((q.x * q.x) * q.y) * q.z) * ((r.y * r.y) * r.y))))) + 16 * (d * (((p.y * p.z) * p.t) * ((((q.x * q.y) * q.y) * q.z) * ((r.x * r.x) * r.x))))) + 32 * (d * (((p.y * p.z) * p.t) * ((((q.x * q.y) * q.y) * q.z) * ((r.x * r.y) * r.y))))) - 16 * (d * (((p.y * p.z) * p.t) * ((((q.x * q.z) * q.z) * q.t) * ((r.y * r.z) * r.z))))) + 16 * (d * (((p.y * p.z) * p.t) * ((((q.y * q.y) * q.y) * q.z) * ((r.x * r.x) * r.y))))) + 16 * (d * (((p.y * p.z) * p.t) * ((((q.y * q.z) * q.z) * q.t) * ((r.x * r.z) * r.z))))) + 16 * (((p.x * p.z) * p.z) * ((((q.x * q.z) * q.z) * q.z) * ((r.x * r.z) * r.z)))) + 16 * (((p.x * p.z) * p.z) * ((((q.y * q.z) * q.z) * q.z) * ((r.y * r.z) * r.z)))) + 16 * (((p.y * p.z) * p.z) * ((((q.x * q.z) * q.z) * q.z) * ((r.y * r.z) * r.z)))) + 16 * (((p.y * p.z) * p.z) * ((((q.y * q.z) * q.z) * q.z) * ((r.x * r.z) * r.z)))),
{
    lemma_expand_forms(d, p, q, r);
    let v111 = 4 * (d * ((p.x * p.t) * ((q.x * q.t) * r.x)));
    let v113 = 4 * (d * ((p.x * p.t) * ((q.y * q.t) * r.y)));
    let v114 = v111 - v113;
    let v115 = 4 * (d * ((p.y * p.t) * ((q.x * q.t) * r.y)));
    let v116 = v114 - v115;
    let v117 = 4 * (d * ((p.y * p.t) * ((q.y * q.t) * r.x)));
    let v118 = v116 + v117;
    let v119 = 4 * ((p.x * p.z) * ((q.x * q.z) * r.x));
    let v120 = v118 + v119;
    let v121 = 4 * ((p.x * p.z) * ((q.y * q.z) * r.y));
    let v122 = v120 + v121;
    let v123 = 4 * ((p.y * p.z) * ((q.x * q.z) * r.y));
    let v124 = v122 + v123;
    let v125 = 4 * ((p.y * p.z) * ((q.y * q.z) * r.x));
    let v126 = v124 + v125;
    let v127 = 4 * ((d * d) * (p.z * ((q.t * q.t) * (r.t * r.t))));
    let v128 = 0 - v127;
    let v129 = 4 * (d * (p.t * ((q.x * q.x) * (r.x * r.y))));
    let v130 = v128 + v129;
    let v131 = 4 * (d * (p.t * ((q.x * q.y) * (r.x * r.x))));
    let v132 = v130 + v131;
    let v133 = 4 * (d * (p.t * ((q.x * q.y) * (r.y * r.y))));
    let v134 = v132 + v133;
    let v135 = 4 * (d * (p.t * ((q.y * q.y) * (r.x * r.y))));
    let v136 = v134 + v135;
    let v137 = 4 * (p.z * ((q.z * q.z) * (r.z * r.z)));
    let v138 = v136 + v137;
    lemma_distribute(v138, v124, v125);
    lemma_distribute(v138, v122, v123);
    lemma_distribute(v138, v120, v121);
    lemma_distribute(v138, v118, v119);
    lemma_distribute(v138, v116, v117);
    lemma_distribute_sub(v138, v114, v115);
    lemma_distribute_sub(v138, v111, v113);
    lemma_distribute(v111, v136, v137);
    lemma_distribute(v111, v134, v135);
    lemma_distribute(v111, v132, v133);
    lemma_distribute(v111, v130, v131);
    lemma_distribute(v111, v128, v129);
    lemma_distribute_sub(v111, 0, v127);
    assert(d * (d * d) == ((d * d) * d)) by (nonlinear_arith);
    assert((p.x * p.t) * p.z == ((p.x * p.z) * p.t)) by (nonlinear_arith);
    assert((q.x * q.t) * (q.t * q.t) == (((q.x * q.t) * q.t) * q.t)) by (nonlinear_arith);
    assert(r.x * (r.t * r.t) == ((r.x * r.t) * r.t)) by (nonlinear_arith);
    lemma_tensor((p.x * p.t), (q.x * q.t), r.x, p.z, (q.t * q.t), (r.t * r.t));
    lemma_pairs(d, ((p.x * p.t) * ((q.x * q.t) * r.x)), (d * d), (p.z * ((q.t * q.t) * (r.t * r.t))));
    lemma_coefficients(4, (d * ((p.x * p.t) * ((q.x * q.t) * r.x))), 4, ((d * d) * (p.z * ((q.t * q.t) * (r.t * r.t)))));
    assert((q.x * q.t) * (q.x * q.x) == (((q.x * q.x) * q.x) * q.t)) by (nonlinear_arith);
    assert(r.x * (r.x * r.y) == ((r.x * r.x) * r.y)) by (nonlinear_arith);
    lemma_tensor((p.x * p.t), (q.x * q.t), r.x, p.t, (q.x * q.x), (r.x * r.y));
    lemma_pairs(d, ((p.x * p.t) * ((q.x * q.t) * r.x)), d, (p.t * ((q.x * q.x) * (r.x * r.y))));
    lemma_coefficients(4, (d * ((p.x * p.t) * ((q.x * q.t) * r.x))), 4, (d * (p.t * ((q.x * q.x) * (r.x * r.y)))));
    assert((q.x * q.t) * (q.x * q.y) == (((q.x * q.x) * q.y) * q.t)) by (nonlinear_arith);
    assert(r.x * (r.x * r.x) == ((r.x * r.x) * r.x)) by (nonlinear_arith);
    lemma_tensor((p.x * p.t), (q.x * q.t), r.x, p.t, (q.x * q.y), (r.x * r.x));
    lemma_pairs(d, ((p.x * p.t) * ((q.x * q.t) * r.x)), d, (p.t * ((q.x * q.y) * (r.x * r.x))));
    lemma_coefficients(4, (d * ((p.x * p.t) * ((q.x * q.t) * r.x))), 4, (d * (p.t * ((q.x * q.y) * (r.x * r.x)))));
    assert(r.x * (r.y * r.y) == ((r.x * r.y) * r.y)) by (nonlinear_arith);
    lemma_tensor((p.x * p.t), (q.x * q.t), r.x, p.t, (q.x * q.y), (r.y * r.y));
    lemma_pairs(d, ((p.x * p.t) * ((q.x * q.t) * r.x)), d, (p.t * ((q.x * q.y) * (r.y * r.y))));
    lemma_coefficients(4, (d * ((p.x * p.t) * ((q.x * q.t) * r.x))), 4, (d * (p.t * ((q.x * q.y) * (r.y * r.y)))));
    assert((q.x * q.t) * (q.y * q.y) == (((q.x * q.y) * q.y) * q.t)) by (nonlinear_arith);
    lemma_tensor((p.x * p.t), (q.x * q.t), r.x, p.t, (q.y * q.y), (r.x * r.y));
    lemma_pairs(d, ((p.x * p.t) * ((q.x * q.t) * r.x)), d, (p.t * ((q.y * q.y) * (r.x * r.y))));
    lemma_coefficients(4, (d * ((p.x * p.t) * ((q.x * q.t) * r.x))), 4, (d * (p.t * ((q.y * q.y) * (r.x * r.y)))));
    assert((q.x * q.t) * (q.z * q.z) == (((q.x * q.z) * q.z) * q.t)) by (nonlinear_arith);
    assert(r.x * (r.z * r.z) == ((r.x * r.z) * r.z)) by (nonlinear_arith);
    lemma_tensor((p.x * p.t), (q.x * q.t), r.x, p.z, (q.z * q.z), (r.z * r.z));
    lemma_pairs(d, ((p.x * p.t) * ((q.x * q.t) * r.x)), 1, (p.z * ((q.z * q.z) * (r.z * r.z))));
    lemma_coefficients(4, (d * ((p.x * p.t) * ((q.x * q.t) * r.x))), 4, (p.z * ((q.z * q.z) * (r.z * r.z))));
    lemma_distribute(v113, v136, v137);
    lemma_distribute(v113, v134, v135);
    lemma_distribute(v113, v132, v133);
    lemma_distribute(v113, v130, v131);
    lemma_distribute(v113, v128, v129);
    lemma_distribute_sub(v113, 0, v127);
    assert((q.y * q.t) * (q.t * q.t) == (((q.y * q.t) * q.t) * q.t)) by (nonlinear_arith);
    assert(r.y * (r.t * r.t) == ((r.y * r.t) * r.t)) by (nonlinear_arith);
    lemma_tensor((p.x * p.t), (q.y * q.t), r.y, p.z, (q.t * q.t), (r.t * r.t));
    lemma_pairs(d, ((p.x * p.t) * ((q.y * q.t) * r.y)), (d * d), (p.z * ((q.t * q.t) * (r.t * r.t))));
    lemma_coefficients(4, (d * ((p.x * p.t) * ((q.y * q.t) * r.y))), 4, ((d * d) * (p.z * ((q.t * q.t) * (r.t * r.t)))));
    assert((q.y * q.t) * (q.x * q.x) == (((q.x * q.x) * q.y) * q.t)) by (nonlinear_arith);
    assert(r.y * (r.x * r.y) == ((r.x * r.y) * r.y)) by (nonlinear_arith);
    lemma_tensor((p.x * p.t), (q.y * q.t), r.y, p.t, (q.x * q.x), (r.x * r.y));
    lemma_pairs(d, ((p.x * p.t) * ((q.y * q.t) * r.y)), d, (p.t * ((q.x * q.x) * (r.x * r.y))));
    lemma_coefficients(4, (d * ((p.x * p.t) * ((q.y * q.t) * r.y))), 4, (d * (p.t * ((q.x * q.x) * (r.x * r.y)))));
    assert((q.y * q.t) * (q.x * q.y) == (((q.x * q.y) * q.y) * q.t)) by (nonlinear_arith);
    assert(r.y * (r.x * r.x) == ((r.x * r.x) * r.y)) by (nonlinear_arith);
    lemma_tensor((p.x * p.t), (q.y * q.t), r.y, p.t, (q.x * q.y), (r.x * r.x));
    lemma_pairs(d, ((p.x * p.t) * ((q.y * q.t) * r.y)), d, (p.t * ((q.x * q.y) * (r.x * r.x))));
    lemma_coefficients(4, (d * ((p.x * p.t) * ((q.y * q.t) * r.y))), 4, (d * (p.t * ((q.x * q.y) * (r.x * r.x)))));
    assert(r.y * (r.y * r.y) == ((r.y * r.y) * r.y)) by (nonlinear_arith);
    lemma_tensor((p.x * p.t), (q.y * q.t), r.y, p.t, (q.x * q.y), (r.y * r.y));
    lemma_pairs(d, ((p.x * p.t) * ((q.y * q.t) * r.y)), d, (p.t * ((q.x * q.y) * (r.y * r.y))));
    lemma_coefficients(4, (d * ((p.x * p.t) * ((q.y * q.t) * r.y))), 4, (d * (p.t * ((q.x * q.y) * (r.y * r.y)))));
    assert((q.y * q.t) * (q.y * q.y) == (((q.y * q.y) * q.y) * q.t)) by (nonlinear_arith);
    lemma_tensor((p.x * p.t), (q.y * q.t), r.y, p.t, (q.y * q.y), (r.x * r.y));
    lemma_pairs(d, ((p.x * p.t) * ((q.y * q.t) * r.y)), d, (p.t * ((q.y * q.y) * (r.x * r.y))));
    lemma_coefficients(4, (d * ((p.x * p.t) * ((q.y * q.t) * r.y))), 4, (d * (p.t * ((q.y * q.y) * (r.x * r.y)))));
    assert((q.y * q.t) * (q.z * q.z) == (((q.y * q.z) * q.z) * q.t)) by (nonlinear_arith);
    assert(r.y * (r.z * r.z) == ((r.y * r.z) * r.z)) by (nonlinear_arith);
    lemma_tensor((p.x * p.t), (q.y * q.t), r.y, p.z, (q.z * q.z), (r.z * r.z));
    lemma_pairs(d, ((p.x * p.t) * ((q.y * q.t) * r.y)), 1, (p.z * ((q.z * q.z) * (r.z * r.z))));
    lemma_coefficients(4, (d * ((p.x * p.t) * ((q.y * q.t) * r.y))), 4, (p.z * ((q.z * q.z) * (r.z * r.z))));
    lemma_distribute(v115, v136, v137);
    lemma_distribute(v115, v134, v135);
    lemma_distribute(v115, v132, v133);
    lemma_distribute(v115, v130, v131);
    lemma_distribute(v115, v128, v129);
    lemma_distribute_sub(v115, 0, v127);
    assert((p.y * p.t) * p.z == ((p.y * p.z) * p.t)) by (nonlinear_arith);
    lemma_tensor((p.y * p.t), (q.x * q.t), r.y, p.z, (q.t * q.t), (r.t * r.t));
    lemma_pairs(d, ((p.y * p.t) * ((q.x * q.t) * r.y)), (d * d), (p.z * ((q.t * q.t) * (r.t * r.t))));
    lemma_coefficients(4, (d * ((p.y * p.t) * ((q.x * q.t) * r.y))), 4, ((d * d) * (p.z * ((q.t * q.t) * (r.t * r.t)))));
    lemma_tensor((p.y * p.t), (q.x * q.t), r.y, p.t, (q.x * q.x), (r.x * r.y));
    lemma_pairs(d, ((p.y * p.t) * ((q.x * q.t) * r.y)), d, (p.t * ((q.x * q.x) * (r.x * r.y))));
    lemma_coefficients(4, (d * ((p.y * p.t) * ((q.x * q.t) * r.y))), 4, (d * (p.t * ((q.x * q.x) * (r.x * r.y)))));
    lemma_tensor((p.y * p.t), (q.x * q.t), r.y, p.t, (q.x * q.y), (r.x * r.x));
    lemma_pairs(d, ((p.y * p.t) * ((q.x * q.t) * r.y)), d, (p.t * ((q.x * q.y) * (r.x * r.x))));
    lemma_coefficients(4, (d * ((p.y * p.t) * ((q.x * q.t) * r.y))), 4, (d * (p.t * ((q.x * q.y) * (r.x * r.x)))));
    lemma_tensor((p.y * p.t), (q.x * q.t), r.y, p.t, (q.x * q.y), (r.y * r.y));
    lemma_pairs(d, ((p.y * p.t) * ((q.x * q.t) * r.y)), d, (p.t * ((q.x * q.y) * (r.y * r.y))));
    lemma_coefficients(4, (d * ((p.y * p.t) * ((q.x * q.t) * r.y))), 4, (d * (p.t * ((q.x * q.y) * (r.y * r.y)))));
    lemma_tensor((p.y * p.t), (q.x * q.t), r.y, p.t, (q.y * q.y), (r.x * r.y));
    lemma_pairs(d, ((p.y * p.t) * ((q.x * q.t) * r.y)), d, (p.t * ((q.y * q.y) * (r.x * r.y))));
    lemma_coefficients(4, (d * ((p.y * p.t) * ((q.x * q.t) * r.y))), 4, (d * (p.t * ((q.y * q.y) * (r.x * r.y)))));
    lemma_tensor((p.y * p.t), (q.x * q.t), r.y, p.z, (q.z * q.z), (r.z * r.z));
    lemma_pairs(d, ((p.y * p.t) * ((q.x * q.t) * r.y)), 1, (p.z * ((q.z * q.z) * (r.z * r.z))));
    lemma_coefficients(4, (d * ((p.y * p.t) * ((q.x * q.t) * r.y))), 4, (p.z * ((q.z * q.z) * (r.z * r.z))));
    lemma_distribute(v117, v136, v137);
    lemma_distribute(v117, v134, v135);
    lemma_distribute(v117, v132, v133);
    lemma_distribute(v117, v130, v131);
    lemma_distribute(v117, v128, v129);
    lemma_distribute_sub(v117, 0, v127);
    lemma_tensor((p.y * p.t), (q.y * q.t), r.x, p.z, (q.t * q.t), (r.t * r.t));
    lemma_pairs(d, ((p.y * p.t) * ((q.y * q.t) * r.x)), (d * d), (p.z * ((q.t * q.t) * (r.t * r.t))));
    lemma_coefficients(4, (d * ((p.y * p.t) * ((q.y * q.t) * r.x))), 4, ((d * d) * (p.z * ((q.t * q.t) * (r.t * r.t)))));
    lemma_tensor((p.y * p.t), (q.y * q.t), r.x, p.t, (q.x * q.x), (r.x * r.y));
    lemma_pairs(d, ((p.y * p.t) * ((q.y * q.t) * r.x)), d, (p.t * ((q.x * q.x) * (r.x * r.y))));
    lemma_coefficients(4, (d * ((p.y * p.t) * ((q.y * q.t) * r.x))), 4, (d * (p.t * ((q.x * q.x) * (r.x * r.y)))));
    lemma_tensor((p.y * p.t), (q.y * q.t), r.x, p.t, (q.x * q.y), (r.x * r.x));
    lemma_pairs(d, ((p.y * p.t) * ((q.y * q.t) * r.x)), d, (p.t * ((q.x * q.y) * (r.x * r.x))));
    lemma_coefficients(4, (d * ((p.y * p.t) * ((q.y * q.t) * r.x))), 4, (d * (p.t * ((q.x * q.y) * (r.x * r.x)))));
    lemma_tensor((p.y * p.t), (q.y * q.t), r.x, p.t, (q.x * q.y), (r.y * r.y));
    lemma_pairs(d, ((p.y * p.t) * ((q.y * q.t) * r.x)), d, (p.t * ((q.x * q.y) * (r.y * r.y))));
    lemma_coefficients(4, (d * ((p.y * p.t) * ((q.y * q.t) * r.x))), 4, (d * (p.t * ((q.x * q.y) * (r.y * r.y)))));
    lemma_tensor((p.y * p.t), (q.y * q.t), r.x, p.t, (q.y * q.y), (r.x * r.y));
    lemma_pairs(d, ((p.y * p.t) * ((q.y * q.t) * r.x)), d, (p.t * ((q.y * q.y) * (r.x * r.y))));
    lemma_coefficients(4, (d * ((p.y * p.t) * ((q.y * q.t) * r.x))), 4, (d * (p.t * ((q.y * q.y) * (r.x * r.y)))));
    lemma_tensor((p.y * p.t), (q.y * q.t), r.x, p.z, (q.z * q.z), (r.z * r.z));
    lemma_pairs(d, ((p.y * p.t) * ((q.y * q.t) * r.x)), 1, (p.z * ((q.z * q.z) * (r.z * r.z))));
    lemma_coefficients(4, (d * ((p.y * p.t) * ((q.y * q.t) * r.x))), 4, (p.z * ((q.z * q.z) * (r.z * r.z))));
    lemma_distribute(v119, v136, v137);
    lemma_distribute(v119, v134, v135);
    lemma_distribute(v119, v132, v133);
    lemma_distribute(v119, v130, v131);
    lemma_distribute(v119, v128, v129);
    lemma_distribute_sub(v119, 0, v127);
    assert((q.x * q.z) * (q.t * q.t) == (((q.x * q.z) * q.t) * q.t)) by (nonlinear_arith);
    lemma_tensor((p.x * p.z), (q.x * q.z), r.x, p.z, (q.t * q.t), (r.t * r.t));
    lemma_pairs(1, ((p.x * p.z) * ((q.x * q.z) * r.x)), (d * d), (p.z * ((q.t * q.t) * (r.t * r.t))));
    lemma_coefficients(4, ((p.x * p.z) * ((q.x * q.z) * r.x)), 4, ((d * d) * (p.z * ((q.t * q.t) * (r.t * r.t)))));
    assert((q.x * q.z) * (q.x * q.x) == (((q.x * q.x) * q.x) * q.z)) by (nonlinear_arith);
    lemma_tensor((p.x * p.z), (q.x * q.z), r.x, p.t, (q.x * q.x), (r.x * r.y));
    lemma_pairs(1, ((p.x * p.z) * ((q.x * q.z) * r.x)), d, (p.t * ((q.x * q.x) * (r.x * r.y))));
    lemma_coefficients(4, ((p.x * p.z) * ((q.x * q.z) * r.x)), 4, (d * (p.t * ((q.x * q.x) * (r.x * r.y)))));
    assert((q.x * q.z) * (q.x * q.y) == (((q.x * q.x) * q.y) * q.z)) by (nonlinear_arith);
    lemma_tensor((p.x * p.z), (q.x * q.z), r.x, p.t, (q.x * q.y), (r.x * r.x));
    lemma_pairs(1, ((p.x * p.z) * ((q.x * q.z) * r.x)), d, (p.t * ((q.x * q.y) * (r.x * r.x))));
    lemma_coefficients(4, ((p.x * p.z) * ((q.x * q.z) * r.x)), 4, (d * (p.t * ((q.x * q.y) * (r.x * r.x)))));
    lemma_tensor((p.x * p.z), (q.x * q.z), r.x, p.t, (q.x * q.y), (r.y * r.y));
    lemma_pairs(1, ((p.x * p.z) * ((q.x * q.z) * r.x)), d, (p.t * ((q.x * q.y) * (r.y * r.y))));
    lemma_coefficients(4, ((p.x * p.z) * ((q.x * q.z) * r.x)), 4, (d * (p.t * ((q.x * q.y) * (r.y * r.y)))));
    assert((q.x * q.z) * (q.y * q.y) == (((q.x * q.y) * q.y) * q.z)) by (nonlinear_arith);
    lemma_tensor((p.x * p.z), (q.x * q.z), r.x, p.t, (q.y * q.y), (r.x * r.y));
    lemma_pairs(1, ((p.x * p.z) * ((q.x * q.z) * r.x)), d, (p.t * ((q.y * q.y) * (r.x * r.y))));
    lemma_coefficients(4, ((p.x * p.z) * ((q.x * q.z) * r.x)), 4, (d * (p.t * ((q.y * q.y) * (r.x * r.y)))));
    assert((q.x * q.z) * (q.z * q.z) == (((q.x * q.z) * q.z) * q.z)) by (nonlinear_arith);
    lemma_tensor((p.x * p.z), (q.x * q.z), r.x, p.z, (q.z * q.z), (r.z * r.z));
    lemma_coefficients(4, ((p.x * p.z) * ((q.x * q.z) * r.x)), 4, (p.z * ((q.z * q.z) * (r.z * r.z))));
    lemma_distribute(v121, v136, v137);
    lemma_distribute(v121, v134, v135);
    lemma_distribute(v121, v132, v133);
    lemma_distribute(v121, v130, v131);
    lemma_distribute(v121, v128, v129);
    lemma_distribute_sub(v121, 0, v127);
    assert((q.y * q.z) * (q.t * q.t) == (((q.y * q.z) * q.t) * q.t)) by (nonlinear_arith);
    lemma_tensor((p.x * p.z), (q.y * q.z), r.y, p.z, (q.t * q.t), (r.t * r.t));
    lemma_pairs(1, ((p.x * p.z) * ((q.y * q.z) * r.y)), (d * d), (p.z * ((q.t * q.t) * (r.t * r.t))));
    lemma_coefficients(4, ((p.x * p.z) * ((q.y * q.z) * r.y)), 4, ((d * d) * (p.z * ((q.t * q.t) * (r.t * r.t)))));
    assert((q.y * q.z) * (q.x * q.x) == (((q.x * q.x) * q.y) * q.z)) by (nonlinear_arith);
    lemma_tensor((p.x * p.z), (q.y * q.z), r.y, p.t, (q.x * q.x), (r.x * r.y));
    lemma_pairs(1, ((p.x * p.z) * ((q.y * q.z) * r.y)), d, (p.t * ((q.x * q.x) * (r.x * r.y))));
    lemma_coefficients(4, ((p.x * p.z) * ((q.y * q.z) * r.y)), 4, (d * (p.t * ((q.x * q.x) * (r.x * r.y)))));
    assert((q.y * q.z) * (q.x * q.y) == (((q.x * q.y) * q.y) * q.z)) by (nonlinear_arith);
    lemma_tensor((p.x * p.z), (q.y * q.z), r.y, p.t, (q.x * q.y), (r.x * r.x));
    lemma_pairs(1, ((p.x * p.z) * ((q.y * q.z) * r.y)), d, (p.t * ((q.x * q.y) * (r.x * r.x))));
    lemma_coefficients(4, ((p.x * p.z) * ((q.y * q.z) * r.y)), 4, (d * (p.t * ((q.x * q.y) * (r.x * r.x)))));
    lemma_tensor((p.x * p.z), (q.y * q.z), r.y, p.t, (q.x * q.y), (r.y * r.y));
    lemma_pairs(1, ((p.x * p.z) * ((q.y * q.z) * r.y)), d, (p.t * ((q.x * q.y) * (r.y * r.y))));
    lemma_coefficients(4, ((p.x * p.z) * ((q.y * q.z) * r.y)), 4, (d * (p.t * ((q.x * q.y) * (r.y * r.y)))));
    assert((q.y * q.z) * (q.y * q.y) == (((q.y * q.y) * q.y) * q.z)) by (nonlinear_arith);
    lemma_tensor((p.x * p.z), (q.y * q.z), r.y, p.t, (q.y * q.y), (r.x * r.y));
    lemma_pairs(1, ((p.x * p.z) * ((q.y * q.z) * r.y)), d, (p.t * ((q.y * q.y) * (r.x * r.y))));
    lemma_coefficients(4, ((p.x * p.z) * ((q.y * q.z) * r.y)), 4, (d * (p.t * ((q.y * q.y) * (r.x * r.y)))));
    assert((q.y * q.z) * (q.z * q.z) == (((q.y * q.z) * q.z) * q.z)) by (nonlinear_arith);
    lemma_tensor((p.x * p.z), (q.y * q.z), r.y, p.z, (q.z * q.z), (r.z * r.z));
    lemma_coefficients(4, ((p.x * p.z) * ((q.y * q.z) * r.y)), 4, (p.z * ((q.z * q.z) * (r.z * r.z))));
    lemma_distribute(v123, v136, v137);
    lemma_distribute(v123, v134, v135);
    lemma_distribute(v123, v132, v133);
    lemma_distribute(v123, v130, v131);
    lemma_distribute(v123, v128, v129);
    lemma_distribute_sub(v123, 0, v127);
    lemma_tensor((p.y * p.z), (q.x * q.z), r.y, p.z, (q.t * q.t), (r.t * r.t));
    lemma_pairs(1, ((p.y * p.z) * ((q.x * q.z) * r.y)), (d * d), (p.z * ((q.t * q.t) * (r.t * r.t))));
    lemma_coefficients(4, ((p.y * p.z) * ((q.x * q.z) * r.y)), 4, ((d * d) * (p.z * ((q.t * q.t) * (r.t * r.t)))));
    lemma_tensor((p.y * p.z), (q.x * q.z), r.y, p.t, (q.x * q.x), (r.x * r.y));
    lemma_pairs(1, ((p.y * p.z) * ((q.x * q.z) * r.y)), d, (p.t * ((q.x * q.x) * (r.x * r.y))));
    lemma_coefficients(4, ((p.y * p.z) * ((q.x * q.z) * r.y)), 4, (d * (p.t * ((q.x * q.x) * (r.x * r.y)))));
    lemma_tensor((p.y * p.z), (q.x * q.z), r.y, p.t, (q.x * q.y), (r.x * r.x));
    lemma_pairs(1, ((p.y * p.z) * ((q.x * q.z) * r.y)), d, (p.t * ((q.x * q.y) * (r.x * r.x))));
    lemma_coefficients(4, ((p.y * p.z) * ((q.x * q.z) * r.y)), 4, (d * (p.t * ((q.x * q.y) * (r.x * r.x)))));
    lemma_tensor((p.y * p.z), (q.x * q.z), r.y, p.t, (q.x * q.y), (r.y * r.y));
    lemma_pairs(1, ((p.y * p.z) * ((q.x * q.z) * r.y)), d, (p.t * ((q.x * q.y) * (r.y * r.y))));
    lemma_coefficients(4, ((p.y * p.z) * ((q.x * q.z) * r.y)), 4, (d * (p.t * ((q.x * q.y) * (r.y * r.y)))));
    lemma_tensor((p.y * p.z), (q.x * q.z), r.y, p.t, (q.y * q.y), (r.x * r.y));
    lemma_pairs(1, ((p.y * p.z) * ((q.x * q.z) * r.y)), d, (p.t * ((q.y * q.y) * (r.x * r.y))));
    lemma_coefficients(4, ((p.y * p.z) * ((q.x * q.z) * r.y)), 4, (d * (p.t * ((q.y * q.y) * (r.x * r.y)))));
    lemma_tensor((p.y * p.z), (q.x * q.z), r.y, p.z, (q.z * q.z), (r.z * r.z));
    lemma_coefficients(4, ((p.y * p.z) * ((q.x * q.z) * r.y)), 4, (p.z * ((q.z * q.z) * (r.z * r.z))));
    lemma_distribute(v125, v136, v137);
    lemma_distribute(v125, v134, v135);
    lemma_distribute(v125, v132, v133);
    lemma_distribute(v125, v130, v131);
    lemma_distribute(v125, v128, v129);
    lemma_distribute_sub(v125, 0, v127);
    lemma_tensor((p.y * p.z), (q.y * q.z), r.x, p.z, (q.t * q.t), (r.t * r.t));
    lemma_pairs(1, ((p.y * p.z) * ((q.y * q.z) * r.x)), (d * d), (p.z * ((q.t * q.t) * (r.t * r.t))));
    lemma_coefficients(4, ((p.y * p.z) * ((q.y * q.z) * r.x)), 4, ((d * d) * (p.z * ((q.t * q.t) * (r.t * r.t)))));
    lemma_tensor((p.y * p.z), (q.y * q.z), r.x, p.t, (q.x * q.x), (r.x * r.y));
    lemma_pairs(1, ((p.y * p.z) * ((q.y * q.z) * r.x)), d, (p.t * ((q.x * q.x) * (r.x * r.y))));
    lemma_coefficients(4, ((p.y * p.z) * ((q.y * q.z) * r.x)), 4, (d * (p.t * ((q.x * q.x) * (r.x * r.y)))));
    lemma_tensor((p.y * p.z), (q.y * q.z), r.x, p.t, (q.x * q.y), (r.x * r.x));
    lemma_pairs(1, ((p.y * p.z) * ((q.y * q.z) * r.x)), d, (p.t * ((q.x * q.y) * (r.x * r.x))));
    lemma_coefficients(4, ((p.y * p.z) * ((q.y * q.z) * r.x)), 4, (d * (p.t * ((q.x * q.y) * (r.x * r.x)))));
    lemma_tensor((p.y * p.z), (q.y * q.z), r.x, p.t, (q.x * q.y), (r.y * r.y));
    lemma_pairs(1, ((p.y * p.z) * ((q.y * q.z) * r.x)), d, (p.t * ((q.x * q.y) * (r.y * r.y))));
    lemma_coefficients(4, ((p.y * p.z) * ((q.y * q.z) * r.x)), 4, (d * (p.t * ((q.x * q.y) * (r.y * r.y)))));
    lemma_tensor((p.y * p.z), (q.y * q.z), r.x, p.t, (q.y * q.y), (r.x * r.y));
    lemma_pairs(1, ((p.y * p.z) * ((q.y * q.z) * r.x)), d, (p.t * ((q.y * q.y) * (r.x * r.y))));
    lemma_coefficients(4, ((p.y * p.z) * ((q.y * q.z) * r.x)), 4, (d * (p.t * ((q.y * q.y) * (r.x * r.y)))));
    lemma_tensor((p.y * p.z), (q.y * q.z), r.x, p.z, (q.z * q.z), (r.z * r.z));
    lemma_coefficients(4, ((p.y * p.z) * ((q.y * q.z) * r.x)), 4, (p.z * ((q.z * q.z) * (r.z * r.z))));
    assert((form_e(sum_of(p, q, d), r) * form_g(p, sum_of(q, r, d), d)) == ((((((((((((((((((((((((((((((((((((0 - 16 * (((d * d) * d) * (((p.x * p.z) * p.t) * ((((q.x * q.t) * q.t) * q.t) * ((r.x * r.t) * r.t))))) + 16 * (((d * d) * d) * (((p.x * p.z) * p.t) * ((((q.y * q.t) * q.t) * q.t) * ((r.y * r.t) * r.t))))) + 16 * (((d * d) * d) * (((p.y * p.z) * p.t) * ((((q.x * q.t) * q.t) * q.t) * ((r.y * r.t) * r.t))))) - 16 * (((d * d) * d) * (((p.y * p.z) * p.t) * ((((q.y * q.t) * q.t) * q.t) * ((r.x * r.t) * r.t))))) - 16 * ((d * d) * (((p.x * p.z) * p.z) * ((((q.x * q.z) * q.t) * q.t) * ((r.x * r.t) * r.t))))) - 16 * ((d * d) * (((p.x * p.z) * p.z) * ((((q.y * q.z) * q.t) * q.t) * ((r.y * r.t) * r.t))))) + 16 * ((d * d) * (((p.x * p.t) * p.t) * ((((q.x * q.x) * q.x) * q.t) * ((r.x * r.x) * r.y))))) + 16 * ((d * d) * (((p.x * p.t) * p.t) * ((((q.x * q.x) * q.y) * q.t) * ((r.x * r.x) * r.x))))) - 16 * ((d * d) * (((p.x * p.t) * p.t) * ((((q.x * q.y) * q.y) * q.t) * ((r.y * r.y) * r.y))))) - 16 * ((d * d) * (((p.x * p.t) * p.t) * ((((q.y * q.y) * q.y) * q.t) * ((r.x * r.y) * r.y))))) - 16 * ((d * d) * (((p.y * p.z) * p.z) * ((((q.x * q.z) * q.t) * q.t) * ((r.y * r.t) * r.t))))) - 16 * ((d * d) * (((p.y * p.z) * p.z) * ((((q.y * q.z) * q.t) * q.t) * ((r.x * r.t) * r.t))))) - 16 * ((d * d) * (((p.y * p.t) * p.t) * ((((q.x * q.x) * q.x) * q.t) * ((r.x * r.y) * r.y))))) - 16 * ((d * d) * (((p.y * p.t) * p.t) * ((((q.x * q.x) * q.y) * q.t) * ((r.y * r.y) * r.y))))) + 16 * ((d * d) * (((p.y * p.t) * p.t) * ((((q.x * q.y) * q.y) * q.t) * ((r.x * r.x) * r.x))))) + 16 * ((d * d) * (((p.y * p.t) * p.t) * ((((q.y * q.y) * q.y) * q.t) * ((r.x * r.x) * r.y))))) + 16 * (d * (((p.x * p.z) * p.t) * ((((q.x * q.x) * q.x) * q.z) * ((r.x * r.x) * r.y))))) + 16 * (d * (((p.x * p.z) * p.t) * ((((q.x * q.x) * q.y) * q.z) * ((r.x * r.x) * r.x))))) + 32 * (d * (((p.x * p.z) * p.t) * ((((q.x * q.x) * q.y) * q.z) * ((r.x * r.y) * r.y))))) + 32 * (d * (((p.x * p.z) * p.t) * ((((q.x * q.y) * q.y) * q.z) * ((r.x * r.x) * r.y))))) + 16 * (d * (((p.x * p.z) * p.t) * ((((q.x * q.y) * q.y) * q.z) * ((r.y * r.y) * r.y))))) + 16 * (d * (((p.x * p.z) * p.t) * ((((q.x * q.z) * q.z) * q.t) * ((r.x * r.z) * r.z))))) + 16 * (d * (((p.x * p.z) * p.t) * ((((q.y * q.y) * q.y) * q.z) * ((r.x * r.y) * r.y))))) - 16 * (d * (((p.x * p.z) * p.t) * ((((q.y * q.z) * q.z) * q.t) * ((r.y * r.z) * r.z))))) + 16 * (d * (((p.y * p.z) * p.t) * ((((q.x * q.x) * q.x) * q.z) * ((r.x * r.y) * r.y))))) + 32 * (d * (((p.y * p.z) * p.t) * ((((q.x * q.x) * q.y) * q.z) * ((r.x * r.x) * r.y))))) + 16 * (d * (((p.y * p.z) * p.t) * ((((q.x * q.x) * q.y) * q.z) * ((r.y * r.y) * r.y))))) + 16 * (d * (((p.y * p.z) * p.t) * ((((q.x * q.y) * q.y) * q.z) * ((r.x * r.x) * r.x))))) + 32 * (d * (((p.y * p.z) * p.t) * ((((q.x * q.y) * q.y) * q.z) * ((r.x * r.y) * r.y))))) - 16 * (d * (((p.y * p.z) * p.t) * ((((q.x * q.z) * q.z) * q.t) * ((r.y * r.z) * r.z))))) + 16 * (d * (((p.y * p.z) * p.t) * ((((q.y * q.y) * q.y) * q.z) * ((r.x * r.x) * r.y))))) + 16 * (d * (((p.y * p.z) * p.t) * ((((q.y * q.z) * q.z) * q.t) * ((r.x * r.z) * r.z))))) + 16 * (((p.x * p.z) * p.z) * ((((q.x * q.z) * q.z) * q.z) * ((r.x * r.z) * r.z)))) + 16 * (((p.x * p.z) * p.z) * ((((q.y * q.z) * q.z) * q.z) * ((r.y * r.z) * r.z)))) + 16 * (((p.y * p.z) * p.z) * ((((q.x * q.z) * q.z) * q.z) * ((r.y * r.z) * r.z)))) + 16 * (((p.y * p.z) * p.z) * ((((q.y * q.z) * q.z) * q.z) * ((r.x * r.z) * r.z)))));
}

/// The cross product, reduced by X Y = Z T and by the curve's equation.
pub proof fn lemma_normal(d: int, p: Lift, q: Lift, r: Lift)
    requires
        reducible(p, d),
        reducible(q, d),
        reducible(r, d),
    ensures
        congruent(cross(d, p, q, r), normal(d, p, q, r)),
{
    lemma_cross_product(d, p, q, r);
    lemma_congruent_mul(16, 16, (((d * d) * d) * (((p.x * p.z) * p.t) * ((((q.x * q.t) * q.t) * q.t) * ((r.x * r.t) * r.t)))), (((d * d) * d) * (((p.x * p.z) * p.t) * ((((q.x * q.t) * q.t) * q.t) * ((r.x * r.t) * r.t)))));
    let s0 = 0int;
    let n0 = 0int;
    let s1 = s0 - 16 * (((d * d) * d) * (((p.x * p.z) * p.t) * ((((q.x * q.t) * q.t) * q.t) * ((r.x * r.t) * r.t))));
    let n1 = n0 - 16 * (((d * d) * d) * (((p.x * p.z) * p.t) * ((((q.x * q.t) * q.t) * q.t) * ((r.x * r.t) * r.t))));
    lemma_congruent_sub(s0, n0, 16 * (((d * d) * d) * (((p.x * p.z) * p.t) * ((((q.x * q.t) * q.t) * q.t) * ((r.x * r.t) * r.t)))), 16 * (((d * d) * d) * (((p.x * p.z) * p.t) * ((((q.x * q.t) * q.t) * q.t) * ((r.x * r.t) * r.t)))));
    lemma_congruent_mul(16, 16, (((d * d) * d) * (((p.x * p.z) * p.t) * ((((q.y * q.t) * q.t) * q.t) * ((r.y * r.t) * r.t)))), (((d * d) * d) * (((p.x * p.z) * p.t) * ((((q.y * q.t) * q.t) * q.t) * ((r.y * r.t) * r.t)))));
    let s2 = s1 + 16 * (((d * d) * d) * (((p.x * p.z) * p.t) * ((((q.y * q.t) * q.t) * q.t) * ((r.y * r.t) * r.t))));
    let n2 = n1 + 16 * (((d * d) * d) * (((p.x * p.z) * p.t) * ((((q.y * q.t) * q.t) * q.t) * ((r.y * r.t) * r.t))));
    lemma_congruent_add(s1, n1, 16 * (((d * d) * d) * (((p.x * p.z) * p.t) * ((((q.y * q.t) * q.t) * q.t) * ((r.y * r.t) * r.t)))), 16 * (((d * d) * d) * (((p.x * p.z) * p.t) * ((((q.y * q.t) * q.t) * q.t) * ((r.y * r.t) * r.t)))));
    lemma_congruent_mul(16, 16, (((d * d) * d) * (((p.y * p.z) * p.t) * ((((q.x * q.t) * q.t) * q.t) * ((r.y * r.t) * r.t)))), (((d * d) * d) * (((p.y * p.z) * p.t) * ((((q.x * q.t) * q.t) * q.t) * ((r.y * r.t) * r.t)))));
    let s3 = s2 + 16 * (((d * d) * d) * (((p.y * p.z) * p.t) * ((((q.x * q.t) * q.t) * q.t) * ((r.y * r.t) * r.t))));
    let n3 = n2 + 16 * (((d * d) * d) * (((p.y * p.z) * p.t) * ((((q.x * q.t) * q.t) * q.t) * ((r.y * r.t) * r.t))));
    lemma_congruent_add(s2, n2, 16 * (((d * d) * d) * (((p.y * p.z) * p.t) * ((((q.x * q.t) * q.t) * q.t) * ((r.y * r.t) * r.t)))), 16 * (((d * d) * d) * (((p.y * p.z) * p.t) * ((((q.x * q.t) * q.t) * q.t) * ((r.y * r.t) * r.t)))));
    lemma_congruent_mul(16, 16, (((d * d) * d) * (((p.y * p.z) * p.t) * ((((q.y * q.t) * q.t) * q.t) * ((r.x * r.t) * r.t)))), (((d * d) * d) * (((p.y * p.z) * p.t) * ((((q.y * q.t) * q.t) * q.t) * ((r.x * r.t) * r.t)))));
    let s4 = s3 - 16 * (((d * d) * d) * (((p.y * p.z) * p.t) * ((((q.y * q.t) * q.t) * q.t) * ((r.x * r.t) * r.t))));
    let n4 = n3 - 16 * (((d * d) * d) * (((p.y * p.z) * p.t) * ((((q.y * q.t) * q.t) * q.t) * ((r.x * r.t) * r.t))));
    lemma_congruent_sub(s3, n3, 16 * (((d * d) * d) * (((p.y * p.z) * p.t) * ((((q.y * q.t) * q.t) * q.t) * ((r.x * r.t) * r.t)))), 16 * (((d * d) * d) * (((p.y * p.z) * p.t) * ((((q.y * q.t) * q.t) * q.t) * ((r.x * r.t) * r.t)))));
    lemma_term_5(d, p, q, r);
    lemma_congruent_mul(16, 16, ((d * d) * (((p.x * p.z) * p.z) * ((((q.x * q.z) * q.t) * q.t) * ((r.x * r.t) * r.t)))), (((0 - (((d * d) * d) * (((p.x * p.t) * p.t) * ((((q.x * q.z) * q.t) * q.t) * ((r.x * r.t) * r.t))))) - ((d * d) * (((p.x * p.x) * p.x) * ((((q.x * q.z) * q.t) * q.t) * ((r.x * r.t) * r.t))))) + ((d * d) * (((p.y * p.z) * p.t) * ((((q.x * q.z) * q.t) * q.t) * ((r.x * r.t) * r.t))))));
    let s5 = s4 - 16 * ((d * d) * (((p.x * p.z) * p.z) * ((((q.x * q.z) * q.t) * q.t) * ((r.x * r.t) * r.t))));
    let n5 = n4 - 16 * (((0 - (((d * d) * d) * (((p.x * p.t) * p.t) * ((((q.x * q.z) * q.t) * q.t) * ((r.x * r.t) * r.t))))) - ((d * d) * (((p.x * p.x) * p.x) * ((((q.x * q.z) * q.t) * q.t) * ((r.x * r.t) * r.t))))) + ((d * d) * (((p.y * p.z) * p.t) * ((((q.x * q.z) * q.t) * q.t) * ((r.x * r.t) * r.t)))));
    lemma_congruent_sub(s4, n4, 16 * ((d * d) * (((p.x * p.z) * p.z) * ((((q.x * q.z) * q.t) * q.t) * ((r.x * r.t) * r.t)))), 16 * (((0 - (((d * d) * d) * (((p.x * p.t) * p.t) * ((((q.x * q.z) * q.t) * q.t) * ((r.x * r.t) * r.t))))) - ((d * d) * (((p.x * p.x) * p.x) * ((((q.x * q.z) * q.t) * q.t) * ((r.x * r.t) * r.t))))) + ((d * d) * (((p.y * p.z) * p.t) * ((((q.x * q.z) * q.t) * q.t) * ((r.x * r.t) * r.t))))));
    lemma_term_6(d, p, q, r);
    lemma_congruent_mul(16, 16, ((d * d) * (((p.x * p.z) * p.z) * ((((q.y * q.z) * q.t) * q.t) * ((r.y * r.t) * r.t)))), (((0 - (((d * d) * d) * (((p.x * p.t) * p.t) * ((((q.y * q.z) * q.t) * q.t) * ((r.y * r.t) * r.t))))) - ((d * d) * (((p.x * p.x) * p.x) * ((((q.y * q.z) * q.t) * q.t) * ((r.y * r.t) * r.t))))) + ((d * d) * (((p.y * p.z) * p.t) * ((((q.y * q.z) * q.t) * q.t) * ((r.y * r.t) * r.t))))));
    let s6 = s5 - 16 * ((d * d) * (((p.x * p.z) * p.z) * ((((q.y * q.z) * q.t) * q.t) * ((r.y * r.t) * r.t))));
    let n6 = n5 - 16 * (((0 - (((d * d) * d) * (((p.x * p.t) * p.t) * ((((q.y * q.z) * q.t) * q.t) * ((r.y * r.t) * r.t))))) - ((d * d) * (((p.x * p.x) * p.x) * ((((q.y * q.z) * q.t) * q.t) * ((r.y * r.t) * r.t))))) + ((d * d) * (((p.y * p.z) * p.t) * ((((q.y * q.z) * q.t) * q.t) * ((r.y * r.t) * r.t)))));
    lemma_congruent_sub(s5, n5, 16 * ((d * d) * (((p.x * p.z) * p.z) * ((((q.y * q.z) * q.t) * q.t) * ((r.y * r.t) * r.t)))), 16 * (((0 - (((d * d) * d) * (((p.x * p.t) * p.t) * ((((q.y * q.z) * q.t) * q.t) * ((r.y * r.t) * r.t))))) - ((d * d) * (((p.x * p.x) * p.x) * ((((q.y * q.z) * q.t) * q.t) * ((r.y * r.t) * r.t))))) + ((d * d) * (((p.y * p.z) * p.t) * ((((q.y * q.z) * q.t) * q.t) * ((r.y * r.t) * r.t))))));
    lemma_term_7(d, p, q, r);
    lemma_congruent_mul(16, 16, ((d * d) * (((p.x * p.t) * p.t) * ((((q.x * q.x) * q.x) * q.t) * ((r.x * r.x) * r.y)))), ((d * d) * (((p.x * p.t) * p.t) * ((((q.x * q.x) * q.x) * q.t) * ((r.x * r.z) * r.t)))));
    let s7 = s6 + 16 * ((d * d) * (((p.x * p.t) * p.t) * ((((q.x * q.x) * q.x) * q.t) * ((r.x * r.x) * r.y))));
    let n7 = n6 + 16 * ((d * d) * (((p.x * p.t) * p.t) * ((((q.x * q.x) * q.x) * q.t) * ((r.x * r.z) * r.t))));
    lemma_congruent_add(s6, n6, 16 * ((d * d) * (((p.x * p.t) * p.t) * ((((q.x * q.x) * q.x) * q.t) * ((r.x * r.x) * r.y)))), 16 * ((d * d) * (((p.x * p.t) * p.t) * ((((q.x * q.x) * q.x) * q.t) * ((r.x * r.z) * r.t)))));
    lemma_term_8(d, p, q, r);
    lemma_congruent_mul(16, 16, ((d * d) * (((p.x * p.t) * p.t) * ((((q.x * q.x) * q.y) * q.t) * ((r.x * r.x) * r.x)))), ((d * d) * (((p.x * p.t) * p.t) * ((((q.x * q.z) * q.t) * q.t) * ((r.x * r.x) * r.x)))));
    let s8 = s7 + 16 * ((d * d) * (((p.x * p.t) * p.t) * ((((q.x * q.x) * q.y) * q.t) * ((r.x * r.x) * r.x))));
    let n8 = n7 + 16 * ((d * d) * (((p.x * p.t) * p.t) * ((((q.x * q.z) * q.t) * q.t) * ((r.x * r.x) * r.x))));
    lemma_congruent_add(s7, n7, 16 * ((d * d) * (((p.x * p.t) * p.t) * ((((q.x * q.x) * q.y) * q.t) * ((r.x * r.x) * r.x)))), 16 * ((d * d) * (((p.x * p.t) * p.t) * ((((q.x * q.z) * q.t) * q.t) * ((r.x * r.x) * r.x)))));
    lemma_term_9(d, p, q, r);
    lemma_congruent_mul(16, 16, ((d * d) * (((p.x * p.t) * p.t) * ((((q.x * q.y) * q.y) * q.t) * ((r.y * r.y) * r.y)))), ((d * d) * (((p.x * p.t) * p.t) * ((((q.y * q.z) * q.t) * q.t) * ((r.y * r.y) * r.y)))));
    let s9 = s8 - 16 * ((d * d) * (((p.x * p.t) * p.t) * ((((q.x * q.y) * q.y) * q.t) * ((r.y * r.y) * r.y))));
    let n9 = n8 - 16 * ((d * d) * (((p.x * p.t) * p.t) * ((((q.y * q.z) * q.t) * q.t) * ((r.y * r.y) * r.y))));
    lemma_congruent_sub(s8, n8, 16 * ((d * d) * (((p.x * p.t) * p.t) * ((((q.x * q.y) * q.y) * q.t) * ((r.y * r.y) * r.y)))), 16 * ((d * d) * (((p.x * p.t) * p.t) * ((((q.y * q.z) * q.t) * q.t) * ((r.y * r.y) * r.y)))));
    lemma_term_10(d, p, q, r);
    lemma_congruent_mul(16, 16, ((d * d) * (((p.x * p.t) * p.t) * ((((q.y * q.y) * q.y) * q.t) * ((r.x * r.y) * r.y)))), ((d * d) * (((p.x * p.t) * p.t) * ((((q.y * q.y) * q.y) * q.t) * ((r.y * r.z) * r.t)))));
    let s10 = s9 - 16 * ((d * d) * (((p.x * p.t) * p.t) * ((((q.y * q.y) * q.y) * q.t) * ((r.x * r.y) * r.y))));
    let n10 = n9 - 16 * ((d * d) * (((p.x * p.t) * p.t) * ((((q.y * q.y) * q.y) * q.t) * ((r.y * r.z) * r.t))));
    lemma_congruent_sub(s9, n9, 16 * ((d * d) * (((p.x * p.t) * p.t) * ((((q.y * q.y) * q.y) * q.t) * ((r.x * r.y) * r.y)))), 16 * ((d * d) * (((p.x * p.t) * p.t) * ((((q.y * q.y) * q.y) * q.t) * ((r.y * r.z) * r.t)))));
    lemma_term_11(d, p, q, r);
    lemma_congruent_mul(16, 16, ((d * d) * (((p.y * p.z) * p.z) * ((((q.x * q.z) * q.t) * q.t) * ((r.y * r.t) * r.t)))), (((0 - (((d * d) * d) * (((p.y * p.t) * p.t) * ((((q.x * q.z) * q.t) * q.t) * ((r.y * r.t) * r.t))))) - ((d * d) * (((p.x * p.z) * p.t) * ((((q.x * q.z) * q.t) * q.t) * ((r.y * r.t) * r.t))))) + ((d * d) * (((p.y * p.y) * p.y) * ((((q.x * q.z) * q.t) * q.t) * ((r.y * r.t) * r.t))))));
    let s11 = s10 - 16 * ((d * d) * (((p.y * p.z) * p.z) * ((((q.x * q.z) * q.t) * q.t) * ((r.y * r.t) * r.t))));
    let n11 = n10 - 16 * (((0 - (((d * d) * d) * (((p.y * p.t) * p.t) * ((((q.x * q.z) * q.t) * q.t) * ((r.y * r.t) * r.t))))) - ((d * d) * (((p.x * p.z) * p.t) * ((((q.x * q.z) * q.t) * q.t) * ((r.y * r.t) * r.t))))) + ((d * d) * (((p.y * p.y) * p.y) * ((((q.x * q.z) * q.t) * q.t) * ((r.y * r.t) * r.t)))));
    lemma_congruent_sub(s10, n10, 16 * ((d * d) * (((p.y * p.z) * p.z) * ((((q.x * q.z) * q.t) * q.t) * ((r.y * r.t) * r.t)))), 16 * (((0 - (((d * d) * d) * (((p.y * p.t) * p.t) * ((((q.x * q.z) * q.t) * q.t) * ((r.y * r.t) * r.t))))) - ((d * d) * (((p.x * p.z) * p.t) * ((((q.x * q.z) * q.t) * q.t) * ((r.y * r.t) * r.t))))) + ((d * d) * (((p.y * p.y) * p.y) * ((((q.x * q.z) * q.t) * q.t) * ((r.y * r.t) * r.t))))));
    lemma_term_12(d, p, q, r);
    lemma_congruent_mul(16, 16, ((d * d) * (((p.y * p.z) * p.z) * ((((q.y * q.z) * q.t) * q.t) * ((r.x * r.t) * r.t)))), (((0 - (((d * d) * d) * (((p.y * p.t) * p.t) * ((((q.y * q.z) * q.t) * q.t) * ((r.x * r.t) * r.t))))) - ((d * d) * (((p.x * p.z) * p.t) * ((((q.y * q.z) * q.t) * q.t) * ((r.x * r.t) * r.t))))) + ((d * d) * (((p.y * p.y) * p.y) * ((((q.y * q.z) * q.t) * q.t) * ((r.x * r.t) * r.t))))));
    let s12 = s11 - 16 * ((d * d) * (((p.y * p.z) * p.z) * ((((q.y * q.z) * q.t) * q.t) * ((r.x * r.t) * r.t))));
    let n12 = n11 - 16 * (((0 - (((d * d) * d) * (((p.y * p.t) * p.t) * ((((q.y * q.z) * q.t) * q.t) * ((r.x * r.t) * r.t))))) - ((d * d) * (((p.x * p.z) * p.t) * ((((q.y * q.z) * q.t) * q.t) * ((r.x * r.t) * r.t))))) + ((d * d) * (((p.y * p.y) * p.y) * ((((q.y * q.z) * q.t) * q.t) * ((r.x * r.t) * r.t)))));
    lemma_congruent_sub(s11, n11, 16 * ((d * d) * (((p.y * p.z) * p.z) * ((((q.y * q.z) * q.t) * q.t) * ((r.x * r.t) * r.t)))), 16 * (((0 - (((d * d) * d) * (((p.y * p.t) * p.t) * ((((q.y * q.z) * q.t) * q.t) * ((r.x * r.t) * r.t))))) - ((d * d) * (((p.x * p.z) * p.t) * ((((q.y * q.z) * q.t) * q.t) * ((r.x * r.t) * r.t))))) + ((d * d) * (((p.y * p.y) * p.y) * ((((q.y * q.z) * q.t) * q.t) * ((r.x * r.t) * r.t))))));
    lemma_term_13(d, p, q, r);
    lemma_congruent_mul(16, 16, ((d * d) * (((p.y * p.t) * p.t) * ((((q.x * q.x) * q.x) * q.t) * ((r.x * r.y) * r.y)))), ((d * d) * (((p.y * p.t) * p.t) * ((((q.x * q.x) * q.x) * q.t) * ((r.y * r.z) * r.t)))));
    let s13 = s12 - 16 * ((d * d) * (((p.y * p.t) * p.t) * ((((q.x * q.x) * q.x) * q.t) * ((r.x * r.y) * r.y))));
    let n13 = n12 - 16 * ((d * d) * (((p.y * p.t) * p.t) * ((((q.x * q.x) * q.x) * q.t) * ((r.y * r.z) * r.t))));
    lemma_congruent_sub(s12, n12, 16 * ((d * d) * (((p.y * p.t) * p.t) * ((((q.x * q.x) * q.x) * q.t) * ((r.x * r.y) * r.y)))), 16 * ((d * d) * (((p.y * p.t) * p.t) * ((((q.x * q.x) * q.x) * q.t) * ((r.y * r.z) * r.t)))));
    lemma_term_14(d, p, q, r);
    lemma_congruent_mul(16, 16, ((d * d) * (((p.y * p.t) * p.t) * ((((q.x * q.x) * q.y) * q.t) * ((r.y * r.y) * r.y)))), ((d * d) * (((p.y * p.t) * p.t) * ((((q.x * q.z) * q.t) * q.t) * ((r.y * r.y) * r.y)))));
    let s14 = s13 - 16 * ((d * d) * (((p.y * p.t) * p.t) * ((((q.x * q.x) * q.y) * q.t) * ((r.y * r.y) * r.y))));
    let n14 = n13 - 16 * ((d * d) * (((p.y * p.t) * p.t) * ((((q.x * q.z) * q.t) * q.t) * ((r.y * r.y) * r.y))));
    lemma_congruent_sub(s13, n13, 16 * ((d * d) * (((p.y * p.t) * p.t) * ((((q.x * q.x) * q.y) * q.t) * ((r.y * r.y) * r.y)))), 16 * ((d * d) * (((p.y * p.t) * p.t) * ((((q.x * q.z) * q.t) * q.t) * ((r.y * r.y) * r.y)))));
    lemma_term_15(d, p, q, r);
    lemma_congruent_mul(16, 16, ((d * d) * (((p.y * p.t) * p.t) * ((((q.x * q.y) * q.y) * q.t) * ((r.x * r.x) * r.x)))), ((d * d) * (((p.y * p.t) * p.t) * ((((q.y * q.z) * q.t) * q.t) * ((r.x * r.x) * r.x)))));
    let s15 = s14 + 16 * ((d * d) * (((p.y * p.t) * p.t) * ((((q.x * q.y) * q.y) * q.t) * ((r.x * r.x) * r.x))));
    let n15 = n14 + 16 * ((d * d) * (((p.y * p.t) * p.t) * ((((q.y * q.z) * q.t) * q.t) * ((r.x * r.x) * r.x))));
    lemma_congruent_add(s14, n14, 16 * ((d * d) * (((p.y * p.t) * p.t) * ((((q.x * q.y) * q.y) * q.t) * ((r.x * r.x) * r.x)))), 16 * ((d * d) * (((p.y * p.t) * p.t) * ((((q.y * q.z) * q.t) * q.t) * ((r.x * r.x) * r.x)))));
    lemma_term_16(d, p, q, r);
    lemma_congruent_mul(16, 16, ((d * d) * (((p.y * p.t) * p.t) * ((((q.y * q.y) * q.y) * q.t) * ((r.x * r.x) * r.y)))), ((d * d) * (((p.y * p.t) * p.t) * ((((q.y * q.y) * q.y) * q.t) * ((r.x * r.z) * r.t)))));
    let s16 = s15 + 16 * ((d * d) * (((p.y * p.t) * p.t) * ((((q.y * q.y) * q.y) * q.t) * ((r.x * r.x) * r.y))));
    let n16 = n15 + 16 * ((d * d) * (((p.y * p.t) * p.t) * ((((q.y * q.y) * q.y) * q.t) * ((r.x * r.z) * r.t))));
    lemma_congruent_add(s15, n15, 16 * ((d * d) * (((p.y * p.t) * p.t) * ((((q.y * q.y) * q.y) * q.t) * ((r.x * r.x) * r.y)))), 16 * ((d * d) * (((p.y * p.t) * p.t) * ((((q.y * q.y) * q.y) * q.t) * ((r.x * r.z) * r.t)))));
    lemma_term_17(d, p, q, r);
    lemma_congruent_mul(16, 16, (d * (((p.x * p.z) * p.t) * ((((q.x * q.x) * q.x) * q.z) * ((r.x * r.x) * r.y)))), (d * (((p.x * p.z) * p.t) * ((((q.x * q.x) * q.x) * q.z) * ((r.x * r.z) * r.t)))));
    let s17 = s16 + 16 * (d * (((p.x * p.z) * p.t) * ((((q.x * q.x) * q.x) * q.z) * ((r.x * r.x) * r.y))));
    let n17 = n16 + 16 * (d * (((p.x * p.z) * p.t) * ((((q.x * q.x) * q.x) * q.z) * ((r.x * r.z) * r.t))));
    lemma_congruent_add(s16, n16, 16 * (d * (((p.x * p.z) * p.t) * ((((q.x * q.x) * q.x) * q.z) * ((r.x * r.x) * r.y)))), 16 * (d * (((p.x * p.z) * p.t) * ((((q.x * q.x) * q.x) * q.z) * ((r.x * r.z) * r.t)))));
    lemma_term_18(d, p, q, r);
    lemma_congruent_mul(16, 16, (d * (((p.x * p.z) * p.t) * ((((q.x * q.x) * q.y) * q.z) * ((r.x * r.x) * r.x)))), (((0 - ((d * d) * (((p.x * p.z) * p.t) * ((((q.x * q.t) * q.t) * q.t) * ((r.x * r.x) * r.x))))) - (d * (((p.x * p.z) * p.t) * ((((q.x * q.x) * q.x) * q.t) * ((r.x * r.x) * r.x))))) + (d * (((p.x * p.z) * p.t) * ((((q.y * q.z) * q.t) * q.t) * ((r.x * r.x) * r.x))))));
    let s18 = s17 + 16 * (d * (((p.x * p.z) * p.t) * ((((q.x * q.x) * q.y) * q.z) * ((r.x * r.x) * r.x))));
    let n18 = n17 + 16 * (((0 - ((d * d) * (((p.x * p.z) * p.t) * ((((q.x * q.t) * q.t) * q.t) * ((r.x * r.x) * r.x))))) - (d * (((p.x * p.z) * p.t) * ((((q.x * q.x) * q.x) * q.t) * ((r.x * r.x) * r.x))))) + (d * (((p.x * p.z) * p.t) * ((((q.y * q.z) * q.t) * q.t) * ((r.x * r.x) * r.x)))));
    lemma_congruent_add(s17, n17, 16 * (d * (((p.x * p.z) * p.t) * ((((q.x * q.x) * q.y) * q.z) * ((r.x * r.x) * r.x)))), 16 * (((0 - ((d * d) * (((p.x * p.z) * p.t) * ((((q.x * q.t) * q.t) * q.t) * ((r.x * r.x) * r.x))))) - (d * (((p.x * p.z) * p.t) * ((((q.x * q.x) * q.x) * q.t) * ((r.x * r.x) * r.x))))) + (d * (((p.x * p.z) * p.t) * ((((q.y * q.z) * q.t) * q.t) * ((r.x * r.x) * r.x))))));
    lemma_term_19(d, p, q, r);
    lemma_congruent_mul(32, 32, (d * (((p.x * p.z) * p.t) * ((((q.x * q.x) * q.y) * q.z) * ((r.x * r.y) * r.y)))), (((0 - ((d * d) * (((p.x * p.z) * p.t) * ((((q.x * q.t) * q.t) * q.t) * ((r.y * r.z) * r.t))))) - (d * (((p.x * p.z) * p.t) * ((((q.x * q.x) * q.x) * q.t) * ((r.y * r.z) * r.t))))) + (d * (((p.x * p.z) * p.t) * ((((q.y * q.z) * q.t) * q.t) * ((r.y * r.z) * r.t))))));
    let s19 = s18 + 32 * (d * (((p.x * p.z) * p.t) * ((((q.x * q.x) * q.y) * q.z) * ((r.x * r.y) * r.y))));
    let n19 = n18 + 32 * (((0 - ((d * d) * (((p.x * p.z) * p.t) * ((((q.x * q.t) * q.t) * q.t) * ((r.y * r.z) * r.t))))) - (d * (((p.x * p.z) * p.t) * ((((q.x * q.x) * q.x) * q.t) * ((r.y * r.z) * r.t))))) + (d * (((p.x * p.z) * p.t) * ((((q.y * q.z) * q.t) * q.t) * ((r.y * r.z) * r.t)))));
    lemma_congruent_add(s18, n18, 32 * (d * (((p.x * p.z) * p.t) * ((((q.x * q.x) * q.y) * q.z) * ((r.x * r.y) * r.y)))), 32 * (((0 - ((d * d) * (((p.x * p.z) * p.t) * ((((q.x * q.t) * q.t) * q.t) * ((r.y * r.z) * r.t))))) - (d * (((p.x * p.z) * p.t) * ((((q.x * q.x) * q.x) * q.t) * ((r.y * r.z) * r.t))))) + (d * (((p.x * p.z) * p.t) * ((((q.y * q.z) * q.t) * q.t) * ((r.y * r.z) * r.t))))));
    lemma_term_20(d, p, q, r);
    lemma_congruent_mul(32, 32, (d * (((p.x * p.z) * p.t) * ((((q.x * q.y) * q.y) * q.z) * ((r.x * r.x) * r.y)))), (((0 - ((d * d) * (((p.x * p.z) * p.t) * ((((q.y * q.t) * q.t) * q.t) * ((r.x * r.z) * r.t))))) - (d * (((p.x * p.z) * p.t) * ((((q.x * q.z) * q.t) * q.t) * ((r.x * r.z) * r.t))))) + (d * (((p.x * p.z) * p.t) * ((((q.y * q.y) * q.y) * q.t) * ((r.x * r.z) * r.t))))));
    let s20 = s19 + 32 * (d * (((p.x * p.z) * p.t) * ((((q.x * q.y) * q.y) * q.z) * ((r.x * r.x) * r.y))));
    let n20 = n19 + 32 * (((0 - ((d * d) * (((p.x * p.z) * p.t) * ((((q.y * q.t) * q.t) * q.t) * ((r.x * r.z) * r.t))))) - (d * (((p.x * p.z) * p.t) * ((((q.x * q.z) * q.t) * q.t) * ((r.x * r.z) * r.t))))) + (d * (((p.x * p.z) * p.t) * ((((q.y * q.y) * q.y) * q.t) * ((r.x * r.z) * r.t)))));
    lemma_congruent_add(s19, n19, 32 * (d * (((p.x * p.z) * p.t) * ((((q.x * q.y) * q.y) * q.z) * ((r.x * r.x) * r.y)))), 32 * (((0 - ((d * d) * (((p.x * p.z) * p.t) * ((((q.y * q.t) * q.t) * q.t) * ((r.x * r.z) * r.t))))) - (d * (((p.x * p.z) * p.t) * ((((q.x * q.z) * q.t) * q.t) * ((r.x * r.z) * r.t))))) + (d * (((p.x * p.z) * p.t) * ((((q.y * q.y) * q.y) * q.t) * ((r.x * r.z) * r.t))))));
    lemma_term_21(d, p, q, r);
    lemma_congruent_mul(16, 16, (d * (((p.x * p.z) * p.t) * ((((q.x * q.y) * q.y) * q.z) * ((r.y * r.y) * r.y)))), (((0 - ((d * d) * (((p.x * p.z) * p.t) * ((((q.y * q.t) * q.t) * q.t) * ((r.y * r.y) * r.y))))) - (d * (((p.x * p.z) * p.t) * ((((q.x * q.z) * q.t) * q.t) * ((r.y * r.y) * r.y))))) + (d * (((p.x * p.z) * p.t) * ((((q.y * q.y) * q.y) * q.t) * ((r.y * r.y) * r.y))))));
    let s21 = s20 + 16 * (d * (((p.x * p.z) * p.t) * ((((q.x * q.y) * q.y) * q.z) * ((r.y * r.y) * r.y))));
    let n21 = n20 + 16 * (((0 - ((d * d) * (((p.x * p.z) * p.t) * ((((q.y * q.t) * q.t) * q.t) * ((r.y * r.y) * r.y))))) - (d * (((p.x * p.z) * p.t) * ((((q.x * q.z) * q.t) * q.t) * ((r.y * r.y) * r.y))))) + (d * (((p.x * p.z) * p.t) * ((((q.y * q.y) * q.y) * q.t) * ((r.y * r.y) * r.y)))));
    lemma_congruent_add(s20, n20, 16 * (d * (((p.x * p.z) * p.t) * ((((q.x * q.y) * q.y) * q.z) * ((r.y * r.y) * r.y)))), 16 * (((0 - ((d * d) * (((p.x * p.z) * p.t) * ((((q.y * q.t) * q.t) * q.t) * ((r.y * r.y) * r.y))))) - (d * (((p.x * p.z) * p.t) * ((((q.x * q.z) * q.t) * q.t) * ((r.y * r.y) * r.y))))) + (d * (((p.x * p.z) * p.t) * ((((q.y * q.y) * q.y) * q.t) * ((r.y * r.y) * r.y))))));
    lemma_term_22(d, p, q, r);
    lemma_congruent_mul(16, 16, (d * (((p.x * p.z) * p.t) * ((((q.x * q.z) * q.z) * q.t) * ((r.x * r.z) * r.z)))), (((((((((((d * d) * d) * (((p.x * p.z) * p.t) * ((((q.x * q.t) * q.t) * q.t) * ((r.x * r.t) * r.t)))) + ((d * d) * (((p.x * p.z) * p.t) * ((((q.x * q.x) * q.x) * q.t) * ((r.x * r.t) * r.t))))) + ((d * d) * (((p.x * p.z) * p.t) * ((((q.x * q.t) * q.t) * q.t) * ((r.x * r.x) * r.x))))) - ((d * d) * (((p.x * p.z) * p.t) * ((((q.x * q.t) * q.t) * q.t) * ((r.y * r.z) * r.t))))) - ((d * d) * (((p.x * p.z) * p.t) * ((((q.y * q.z) * q.t) * q.t) * ((r.x * r.t) * r.t))))) + (d * (((p.x * p.z) * p.t) * ((((q.x * q.x) * q.x) * q.t) * ((r.x * r.x) * r.x))))) - (d * (((p.x * p.z) * p.t) * ((((q.x * q.x) * q.x) * q.t) * ((r.y * r.z) * r.t))))) - (d * (((p.x * p.z) * p.t) * ((((q.y * q.z) * q.t) * q.t) * ((r.x * r.x) * r.x))))) + (d * (((p.x * p.z) * p.t) * ((((q.y * q.z) * q.t) * q.t) * ((r.y * r.z) * r.t))))));
    let s22 = s21 + 16 * (d * (((p.x * p.z) * p.t) * ((((q.x * q.z) * q.z) * q.t) * ((r.x * r.z) * r.z))));
    let n22 = n21 + 16 * (((((((((((d * d) * d) * (((p.x * p.z) * p.t) * ((((q.x * q.t) * q.t) * q.t) * ((r.x * r.t) * r.t)))) + ((d * d) * (((p.x * p.z) * p.t) * ((((q.x * q.x) * q.x) * q.t) * ((r.x * r.t) * r.t))))) + ((d * d) * (((p.x * p.z) * p.t) * ((((q.x * q.t) * q.t) * q.t) * ((r.x * r.x) * r.x))))) - ((d * d) * (((p.x * p.z) * p.t) * ((((q.x * q.t) * q.t) * q.t) * ((r.y * r.z) * r.t))))) - ((d * d) * (((p.x * p.z) * p.t) * ((((q.y * q.z) * q.t) * q.t) * ((r.x * r.t) * r.t))))) + (d * (((p.x * p.z) * p.t) * ((((q.x * q.x) * q.x) * q.t) * ((r.x * r.x) * r.x))))) - (d * (((p.x * p.z) * p.t) * ((((q.x * q.x) * q.x) * q.t) * ((r.y * r.z) * r.t))))) - (d * (((p.x * p.z) * p.t) * ((((q.y * q.z) * q.t) * q.t) * ((r.x * r.x) * r.x))))) + (d * (((p.x * p.z) * p.t) * ((((q.y * q.z) * q.t) * q.t) * ((r.y * r.z) * r.t)))));
    lemma_congruent_add(s21, n21, 16 * (d * (((p.x * p.z) * p.t) * ((((q.x * q.z) * q.z) * q.t) * ((r.x * r.z) * r.z)))), 16 * (((((((((((d * d) * d) * (((p.x * p.z) * p.t) * ((((q.x * q.t) * q.t) * q.t) * ((r.x * r.t) * r.t)))) + ((d * d) * (((p.x * p.z) * p.t) * ((((q.x * q.x) * q.x) * q.t) * ((r.x * r.t) * r.t))))) + ((d * d) * (((p.x * p.z) * p.t) * ((((q.x * q.t) * q.t) * q.t) * ((r.x * r.x) * r.x))))) - ((d * d) * (((p.x * p.z) * p.t) * ((((q.x * q.t) * q.t) * q.t) * ((r.y * r.z) * r.t))))) - ((d * d) * (((p.x * p.z) * p.t) * ((((q.y * q.z) * q.t) * q.t) * ((r.x * r.t) * r.t))))) + (d * (((p.x * p.z) * p.t) * ((((q.x * q.x) * q.x) * q.t) * ((r.x * r.x) * r.x))))) - (d * (((p.x * p.z) * p.t) * ((((q.x * q.x) * q.x) * q.t) * ((r.y * r.z) * r.t))))) - (d * (((p.x * p.z) * p.t) * ((((q.y * q.z) * q.t) * q.t) * ((r.x * r.x) * r.x))))) + (d * (((p.x * p.z) * p.t) * ((((q.y * q.z) * q.t) * q.t) * ((r.y * r.z) * r.t))))));
    lemma_term_23(d, p, q, r);
    lemma_congruent_mul(16, 16, (d * (((p.x * p.z) * p.t) * ((((q.y * q.y) * q.y) * q.z) * ((r.x * r.y) * r.y)))), (d * (((p.x * p.z) * p.t) * ((((q.y * q.y) * q.y) * q.z) * ((r.y * r.z) * r.t)))));
    let s23 = s22 + 16 * (d * (((p.x * p.z) * p.t) * ((((q.y * q.y) * q.y) * q.z) * ((r.x * r.y) * r.y))));
    let n23 = n22 + 16 * (d * (((p.x * p.z) * p.t) * ((((q.y * q.y) * q.y) * q.z) * ((r.y * r.z) * r.t))));
    lemma_congruent_add(s22, n22, 16 * (d * (((p.x * p.z) * p.t) * ((((q.y * q.y) * q.y) * q.z) * ((r.x * r.y) * r.y)))), 16 * (d * (((p.x * p.z) * p.t) * ((((q.y * q.y) * q.y) * q.z) * ((r.y * r.z) * r.t)))));
    lemma_term_24(d, p, q, r);
    lemma_congruent_mul(16, 16, (d * (((p.x * p.z) * p.t) * ((((q.y * q.z) * q.z) * q.t) * ((r.y * r.z) * r.z)))), (((((((((((d * d) * d) * (((p.x * p.z) * p.t) * ((((q.y * q.t) * q.t) * q.t) * ((r.y * r.t) * r.t)))) + ((d * d) * (((p.x * p.z) * p.t) * ((((q.x * q.z) * q.t) * q.t) * ((r.y * r.t) * r.t))))) - ((d * d) * (((p.x * p.z) * p.t) * ((((q.y * q.y) * q.y) * q.t) * ((r.y * r.t) * r.t))))) + ((d * d) * (((p.x * p.z) * p.t) * ((((q.y * q.t) * q.t) * q.t) * ((r.x * r.z) * r.t))))) - ((d * d) * (((p.x * p.z) * p.t) * ((((q.y * q.t) * q.t) * q.t) * ((r.y * r.y) * r.y))))) + (d * (((p.x * p.z) * p.t) * ((((q.x * q.z) * q.t) * q.t) * ((r.x * r.z) * r.t))))) - (d * (((p.x * p.z) * p.t) * ((((q.x * q.z) * q.t) * q.t) * ((r.y * r.y) * r.y))))) - (d * (((p.x * p.z) * p.t) * ((((q.y * q.y) * q.y) * q.t) * ((r.x * r.z) * r.t))))) + (d * (((p.x * p.z) * p.t) * ((((q.y * q.y) * q.y) * q.t) * ((r.y * r.y) * r.y))))));
    let s24 = s23 - 16 * (d * (((p.x * p.z) * p.t) * ((((q.y * q.z) * q.z) * q.t) * ((r.y * r.z) * r.z))));
    let n24 = n23 - 16 * (((((((((((d * d) * d) * (((p.x * p.z) * p.t) * ((((q.y * q.t) * q.t) * q.t) * ((r.y * r.t) * r.t)))) + ((d * d) * (((p.x * p.z) * p.t) * ((((q.x * q.z) * q.t) * q.t) * ((r.y * r.t) * r.t))))) - ((d * d) * (((p.x * p.z) * p.t) * ((((q.y * q.y) * q.y) * q.t) * ((r.y * r.t) * r.t))))) + ((d * d) * (((p.x * p.z) * p.t) * ((((q.y * q.t) * q.t) * q.t) * ((r.x * r.z) * r.t))))) - ((d * d) * (((p.x * p.z) * p.t) * ((((q.y * q.t) * q.t) * q.t) * ((r.y * r.y) * r.y))))) + (d * (((p.x * p.z) * p.t) * ((((q.x * q.z) * q.t) * q.t) * ((r.x * r.z) * r.t))))) - (d * (((p.x * p.z) * p.t) * ((((q.x * q.z) * q.t) * q.t) * ((r.y * r.y) * r.y))))) - (d * (((p.x * p.z) * p.t) * ((((q.y * q.y) * q.y) * q.t) * ((r.x * r.z) * r.t))))) + (d * (((p.x * p.z) * p.t) * ((((q.y * q.y) * q.y) * q.t) * ((r.y * r.y) * r.y)))));
    lemma_congruent_sub(s23, n23, 16 * (d * (((p.x * p.z) * p.t) * ((((q.y * q.z) * q.z) * q.t) * ((r.y * r.z) * r.z)))), 16 * (((((((((((d * d) * d) * (((p.x * p.z) * p.t) * ((((q.y * q.t) * q.t) * q.t) * ((r.y * r.t) * r.t)))) + ((d * d) * (((p.x * p.z) * p.t) * ((((q.x * q.z) * q.t) * q.t) * ((r.y * r.t) * r.t))))) - ((d * d) * (((p.x * p.z) * p.t) * ((((q.y * q.y) * q.y) * q.t) * ((r.y * r.t) * r.t))))) + ((d * d) * (((p.x * p.z) * p.t) * ((((q.y * q.t) * q.t) * q.t) * ((r.x * r.z) * r.t))))) - ((d * d) * (((p.x * p.z) * p.t) * ((((q.y * q.t) * q.t) * q.t) * ((r.y * r.y) * r.y))))) + (d * (((p.x * p.z) * p.t) * ((((q.x * q.z) * q.t) * q.t) * ((r.x * r.z) * r.t))))) - (d * (((p.x * p.z) * p.t) * ((((q.x * q.z) * q.t) * q.t) * ((r.y * r.y) * r.y))))) - (d * (((p.x * p.z) * p.t) * ((((q.y * q.y) * q.y) * q.t) * ((r.x * r.z) * r.t))))) + (d * (((p.x * p.z) * p.t) * ((((q.y * q.y) * q.y) * q.t) * ((r.y * r.y) * r.y))))));
    lemma_term_25(d, p, q, r);
    lemma_congruent_mul(16, 16, (d * (((p.y * p.z) * p.t) * ((((q.x * q.x) * q.x) * q.z) * ((r.x * r.y) * r.y)))), (d * (((p.y * p.z) * p.t) * ((((q.x * q.x) * q.x) * q.z) * ((r.y * r.z) * r.t)))));
    let s25 = s24 + 16 * (d * (((p.y * p.z) * p.t) * ((((q.x * q.x) * q.x) * q.z) * ((r.x * r.y) * r.y))));
    let n25 = n24 + 16 * (d * (((p.y * p.z) * p.t) * ((((q.x * q.x) * q.x) * q.z) * ((r.y * r.z) * r.t))));
    lemma_congruent_add(s24, n24, 16 * (d * (((p.y * p.z) * p.t) * ((((q.x * q.x) * q.x) * q.z) * ((r.x * r.y) * r.y)))), 16 * (d * (((p.y * p.z) * p.t) * ((((q.x * q.x) * q.x) * q.z) * ((r.y * r.z) * r.t)))));
    lemma_term_26(d, p, q, r);
    lemma_congruent_mul(32, 32, (d * (((p.y * p.z) * p.t) * ((((q.x * q.x) * q.y) * q.z) * ((r.x * r.x) * r.y)))), (((0 - ((d * d) * (((p.y * p.z) * p.t) * ((((q.x * q.t) * q.t) * q.t) * ((r.x * r.z) * r.t))))) - (d * (((p.y * p.z) * p.t) * ((((q.x * q.x) * q.x) * q.t) * ((r.x * r.z) * r.t))))) + (d * (((p.y * p.z) * p.t) * ((((q.y * q.z) * q.t) * q.t) * ((r.x * r.z) * r.t))))));
    let s26 = s25 + 32 * (d * (((p.y * p.z) * p.t) * ((((q.x * q.x) * q.y) * q.z) * ((r.x * r.x) * r.y))));
    let n26 = n25 + 32 * (((0 - ((d * d) * (((p.y * p.z) * p.t) * ((((q.x * q.t) * q.t) * q.t) * ((r.x * r.z) * r.t))))) - (d * (((p.y * p.z) * p.t) * ((((q.x * q.x) * q.x) * q.t) * ((r.x * r.z) * r.t))))) + (d * (((p.y * p.z) * p.t) * ((((q.y * q.z) * q.t) * q.t) * ((r.x * r.z) * r.t)))));
    lemma_congruent_add(s25, n25, 32 * (d * (((p.y * p.z) * p.t) * ((((q.x * q.x) * q.y) * q.z) * ((r.x * r.x) * r.y)))), 32 * (((0 - ((d * d) * (((p.y * p.z) * p.t) * ((((q.x * q.t) * q.t) * q.t) * ((r.x * r.z) * r.t))))) - (d * (((p.y * p.z) * p.t) * ((((q.x * q.x) * q.x) * q.t) * ((r.x * r.z) * r.t))))) + (d * (((p.y * p.z) * p.t) * ((((q.y * q.z) * q.t) * q.t) * ((r.x * r.z) * r.t))))));
    lemma_term_27(d, p, q, r);
    lemma_congruent_mul(16, 16, (d * (((p.y * p.z) * p.t) * ((((q.x * q.x) * q.y) * q.z) * ((r.y * r.y) * r.y)))), (((0 - ((d * d) * (((p.y * p.z) * p.t) * ((((q.x * q.t) * q.t) * q.t) * ((r.y * r.y) * r.y))))) - (d * (((p.y * p.z) * p.t) * ((((q.x * q.x) * q.x) * q.t) * ((r.y * r.y) * r.y))))) + (d * (((p.y * p.z) * p.t) * ((((q.y * q.z) * q.t) * q.t) * ((r.y * r.y) * r.y))))));
    let s27 = s26 + 16 * (d * (((p.y * p.z) * p.t) * ((((q.x * q.x) * q.y) * q.z) * ((r.y * r.y) * r.y))));
    let n27 = n26 + 16 * (((0 - ((d * d) * (((p.y * p.z) * p.t) * ((((q.x * q.t) * q.t) * q.t) * ((r.y * r.y) * r.y))))) - (d * (((p.y * p.z) * p.t) * ((((q.x * q.x) * q.x) * q.t) * ((r.y * r.y) * r.y))))) + (d * (((p.y * p.z) * p.t) * ((((q.y * q.z) * q.t) * q.t) * ((r.y * r.y) * r.y)))));
    lemma_congruent_add(s26, n26, 16 * (d * (((p.y * p.z) * p.t) * ((((q.x * q.x) * q.y) * q.z) * ((r.y * r.y) * r.y)))), 16 * (((0 - ((d * d) * (((p.y * p.z) * p.t) * ((((q.x * q.t) * q.t) * q.t) * ((r.y * r.y) * r.y))))) - (d * (((p.y * p.z) * p.t) * ((((q.x * q.x) * q.x) * q.t) * ((r.y * r.y) * r.y))))) + (d * (((p.y * p.z) * p.t) * ((((q.y * q.z) * q.t) * q.t) * ((r.y * r.y) * r.y))))));
    lemma_term_28(d, p, q, r);
    lemma_congruent_mul(16, 16, (d * (((p.y * p.z) * p.t) * ((((q.x * q.y) * q.y) * q.z) * ((r.x * r.x) * r.x)))), (((0 - ((d * d) * (((p.y * p.z) * p.t) * ((((q.y * q.t) * q.t) * q.t) * ((r.x * r.x) * r.x))))) - (d * (((p.y * p.z) * p.t) * ((((q.x * q.z) * q.t) * q.t) * ((r.x * r.x) * r.x))))) + (d * (((p.y * p.z) * p.t) * ((((q.y * q.y) * q.y) * q.t) * ((r.x * r.x) * r.x))))));
    let s28 = s27 + 16 * (d * (((p.y * p.z) * p.t) * ((((q.x * q.y) * q.y) * q.z) * ((r.x * r.x) * r.x))));
    let n28 = n27 + 16 * (((0 - ((d * d) * (((p.y * p.z) * p.t) * ((((q.y * q.t) * q.t) * q.t) * ((r.x * r.x) * r.x))))) - (d * (((p.y * p.z) * p.t) * ((((q.x * q.z) * q.t) * q.t) * ((r.x * r.x) * r.x))))) + (d * (((p.y * p.z) * p.t) * ((((q.y * q.y) * q.y) * q.t) * ((r.x * r.x) * r.x)))));
    lemma_congruent_add(s27, n27, 16 * (d * (((p.y * p.z) * p.t) * ((((q.x * q.y) * q.y) * q.z) * ((r.x * r.x) * r.x)))), 16 * (((0 - ((d * d) * (((p.y * p.z) * p.t) * ((((q.y * q.t) * q.t) * q.t) * ((r.x * r.x) * r.x))))) - (d * (((p.y * p.z) * p.t) * ((((q.x * q.z) * q.t) * q.t) * ((r.x * r.x) * r.x))))) + (d * (((p.y * p.z) * p.t) * ((((q.y * q.y) * q.y) * q.t) * ((r.x * r.x) * r.x))))));
    lemma_term_29(d, p, q, r);
    lemma_congruent_mul(32, 32, (d * (((p.y * p.z) * p.t) * ((((q.x * q.y) * q.y) * q.z) * ((r.x * r.y) * r.y)))), (((0 - ((d * d) * (((p.y * p.z) * p.t) * ((((q.y * q.t) * q.t) * q.t) * ((r.y * r.z) * r.t))))) - (d * (((p.y * p.z) * p.t) * ((((q.x * q.z) * q.t) * q.t) * ((r.y * r.z) * r.t))))) + (d * (((p.y * p.z) * p.t) * ((((q.y * q.y) * q.y) * q.t) * ((r.y * r.z) * r.t))))));
    let s29 = s28 + 32 * (d * (((p.y * p.z) * p.t) * ((((q.x * q.y) * q.y) * q.z) * ((r.x * r.y) * r.y))));
    let n29 = n28 + 32 * (((0 - ((d * d) * (((p.y * p.z) * p.t) * ((((q.y * q.t) * q.t) * q.t) * ((r.y * r.z) * r.t))))) - (d * (((p.y * p.z) * p.t) * ((((q.x * q.z) * q.t) * q.t) * ((r.y * r.z) * r.t))))) + (d * (((p.y * p.z) * p.t) * ((((q.y * q.y) * q.y) * q.t) * ((r.y * r.z) * r.t)))));
    lemma_congruent_add(s28, n28, 32 * (d * (((p.y * p.z) * p.t) * ((((q.x * q.y) * q.y) * q.z) * ((r.x * r.y) * r.y)))), 32 * (((0 - ((d * d) * (((p.y * p.z) * p.t) * ((((q.y * q.t) * q.t) * q.t) * ((r.y * r.z) * r.t))))) - (d * (((p.y * p.z) * p.t) * ((((q.x * q.z) * q.t) * q.t) * ((r.y * r.z) * r.t))))) + (d * (((p.y * p.z) * p.t) * ((((q.y * q.y) * q.y) * q.t) * ((r.y * r.z) * r.t))))));
    lemma_term_30(d, p, q, r);
    lemma_congruent_mul(16, 16, (d * (((p.y * p.z) * p.t) * ((((q.x * q.z) * q.z) * q.t) * ((r.y * r.z) * r.z)))), (((((((((((d * d) * d) * (((p.y * p.z) * p.t) * ((((q.x * q.t) * q.t) * q.t) * ((r.y * r.t) * r.t)))) + ((d * d) * (((p.y * p.z) * p.t) * ((((q.x * q.x) * q.x) * q.t) * ((r.y * r.t) * r.t))))) + ((d * d) * (((p.y * p.z) * p.t) * ((((q.x * q.t) * q.t) * q.t) * ((r.x * r.z) * r.t))))) - ((d * d) * (((p.y * p.z) * p.t) * ((((q.x * q.t) * q.t) * q.t) * ((r.y * r.y) * r.y))))) - ((d * d) * (((p.y * p.z) * p.t) * ((((q.y * q.z) * q.t) * q.t) * ((r.y * r.t) * r.t))))) + (d * (((p.y * p.z) * p.t) * ((((q.x * q.x) * q.x) * q.t) * ((r.x * r.z) * r.t))))) - (d * (((p.y * p.z) * p.t) * ((((q.x * q.x) * q.x) * q.t) * ((r.y * r.y) * r.y))))) - (d * (((p.y * p.z) * p.t) * ((((q.y * q.z) * q.t) * q.t) * ((r.x * r.z) * r.t))))) + (d * (((p.y * p.z) * p.t) * ((((q.y * q.z) * q.t) * q.t) * ((r.y * r.y) * r.y))))));
    let s30 = s29 - 16 * (d * (((p.y * p.z) * p.t) * ((((q.x * q.z) * q.z) * q.t) * ((r.y * r.z) * r.z))));
    let n30 = n29 - 16 * (((((((((((d * d) * d) * (((p.y * p.z) * p.t) * ((((q.x * q.t) * q.t) * q.t) * ((r.y * r.t) * r.t)))) + ((d * d) * (((p.y * p.z) * p.t) * ((((q.x * q.x) * q.x) * q.t) * ((r.y * r.t) * r.t))))) + ((d * d) * (((p.y * p.z) * p.t) * ((((q.x * q.t) * q.t) * q.t) * ((r.x * r.z) * r.t))))) - ((d * d) * (((p.y * p.z) * p.t) * ((((q.x * q.t) * q.t) * q.t) * ((r.y * r.y) * r.y))))) - ((d * d) * (((p.y * p.z) * p.t) * ((((q.y * q.z) * q.t) * q.t) * ((r.y * r.t) * r.t))))) + (d * (((p.y * p.z) * p.t) * ((((q.x * q.x) * q.x) * q.t) * ((r.x * r.z) * r.t))))) - (d * (((p.y * p.z) * p.t) * ((((q.x * q.x) * q.x) * q.t) * ((r.y * r.y) * r.y))))) - (d * (((p.y * p.z) * p.t) * ((((q.y * q.z) * q.t) * q.t) * ((r.x * r.z) * r.t))))) + (d * (((p.y * p.z) * p.t) * ((((q.y * q.z) * q.t) * q.t) * ((r.y * r.y) * r.y)))));
    lemma_congruent_sub(s29, n29, 16 * (d * (((p.y * p.z) * p.t) * ((((q.x * q.z) * q.z) * q.t) * ((r.y * r.z) * r.z)))), 16 * (((((((((((d * d) * d) * (((p.y * p.z) * p.t) * ((((q.x * q.t) * q.t) * q.t) * ((r.y * r.t) * r.t)))) + ((d * d) * (((p.y * p.z) * p.t) * ((((q.x * q.x) * q.x) * q.t) * ((r.y * r.t) * r.t))))) + ((d * d) * (((p.y * p.z) * p.t) * ((((q.x * q.t) * q.t) * q.t) * ((r.x * r.z) * r.t))))) - ((d * d) * (((p.y * p.z) * p.t) * ((((q.x * q.t) * q.t) * q.t) * ((r.y * r.y) * r.y))))) - ((d * d) * (((p.y * p.z) * p.t) * ((((q.y * q.z) * q.t) * q.t) * ((r.y * r.t) * r.t))))) + (d * (((p.y * p.z) * p.t) * ((((q.x * q.x) * q.x) * q.t) * ((r.x * r.z) * r.t))))) - (d * (((p.y * p.z) * p.t) * ((((q.x * q.x) * q.x) * q.t) * ((r.y * r.y) * r.y))))) - (d * (((p.y * p.z) * p.t) * ((((q.y * q.z) * q.t) * q.t) * ((r.x * r.z) * r.t))))) + (d * (((p.y * p.z) * p.t) * ((((q.y * q.z) * q.t) * q.t) * ((r.y * r.y) * r.y))))));
    lemma_term_31(d, p, q, r);
    lemma_congruent_mul(16, 16, (d * (((p.y * p.z) * p.t) * ((((q.y * q.y) * q.y) * q.z) * ((r.x * r.x) * r.y)))), (d * (((p.y * p.z) * p.t) * ((((q.y * q.y) * q.y) * q.z) * ((r.x * r.z) * r.t)))));
    let s31 = s30 + 16 * (d * (((p.y * p.z) * p.t) * ((((q.y * q.y) * q.y) * q.z) * ((r.x * r.x) * r.y))));
    let n31 = n30 + 16 * (d * (((p.y * p.z) * p.t) * ((((q.y * q.y) * q.y) * q.z) * ((r.x * r.z) * r.t))));
    lemma_congruent_add(s30, n30, 16 * (d * (((p.y * p.z) * p.t) * ((((q.y * q.y) * q.y) * q.z) * ((r.x * r.x) * r.y)))), 16 * (d * (((p.y * p.z) * p.t) * ((((q.y * q.y) * q.y) * q.z) * ((r.x * r.z) * r.t)))));
    lemma_term_32(d, p, q, r);
    lemma_congruent_mul(16, 16, (d * (((p.y * p.z) * p.t) * ((((q.y * q.z) * q.z) * q.t) * ((r.x * r.z) * r.z)))), (((((((((((d * d) * d) * (((p.y * p.z) * p.t) * ((((q.y * q.t) * q.t) * q.t) * ((r.x * r.t) * r.t)))) + ((d * d) * (((p.y * p.z) * p.t) * ((((q.x * q.z) * q.t) * q.t) * ((r.x * r.t) * r.t))))) - ((d * d) * (((p.y * p.z) * p.t) * ((((q.y * q.y) * q.y) * q.t) * ((r.x * r.t) * r.t))))) + ((d * d) * (((p.y * p.z) * p.t) * ((((q.y * q.t) * q.t) * q.t) * ((r.x * r.x) * r.x))))) - ((d * d) * (((p.y * p.z) * p.t) * ((((q.y * q.t) * q.t) * q.t) * ((r.y * r.z) * r.t))))) + (d * (((p.y * p.z) * p.t) * ((((q.x * q.z) * q.t) * q.t) * ((r.x * r.x) * r.x))))) - (d * (((p.y * p.z) * p.t) * ((((q.x * q.z) * q.t) * q.t) * ((r.y * r.z) * r.t))))) - (d * (((p.y * p.z) * p.t) * ((((q.y * q.y) * q.y) * q.t) * ((r.x * r.x) * r.x))))) + (d * (((p.y * p.z) * p.t) * ((((q.y * q.y) * q.y) * q.t) * ((r.y * r.z) * r.t))))));
    let s32 = s31 + 16 * (d * (((p.y * p.z) * p.t) * ((((q.y * q.z) * q.z) * q.t) * ((r.x * r.z) * r.z))));
    let n32 = n31 + 16 * (((((((((((d * d) * d) * (((p.y * p.z) * p.t) * ((((q.y * q.t) * q.t) * q.t) * ((r.x * r.t) * r.t)))) + ((d * d) * (((p.y * p.z) * p.t) * ((((q.x * q.z) * q.t) * q.t) * ((r.x * r.t) * r.t))))) - ((d * d) * (((p.y * p.z) * p.t) * ((((q.y * q.y) * q.y) * q.t) * ((r.x * r.t) * r.t))))) + ((d * d) * (((p.y * p.z) * p.t) * ((((q.y * q.t) * q.t) * q.t) * ((r.x * r.x) * r.x))))) - ((d * d) * (((p.y * p.z) * p.t) * ((((q.y * q.t) * q.t) * q.t) * ((r.y * r.z) * r.t))))) + (d * (((p.y * p.z) * p.t) * ((((q.x * q.z) * q.t) * q.t) * ((r.x * r.x) * r.x))))) - (d * (((p.y * p.z) * p.t) * ((((q.x * q.z) * q.t) * q.t) * ((r.y * r.z) * r.t))))) - (d * (((p.y * p.z) * p.t) * ((((q.y * q.y) * q.y) * q.t) * ((r.x * r.x) * r.x))))) + (d * (((p.y * p.z) * p.t) * ((((q.y * q.y) * q.y) * q.t) * ((r.y * r.z) * r.t)))));
    lemma_congruent_add(s31, n31, 16 * (d * (((p.y * p.z) * p.t) * ((((q.y * q.z) * q.z) * q.t) * ((r.x * r.z) * r.z)))), 16 * (((((((((((d * d) * d) * (((p.y * p.z) * p.t) * ((((q.y * q.t) * q.t) * q.t) * ((r.x * r.t) * r.t)))) + ((d * d) * (((p.y * p.z) * p.t) * ((((q.x * q.z) * q.t) * q.t) * ((r.x * r.t) * r.t))))) - ((d * d) * (((p.y * p.z) * p.t) * ((((q.y * q.y) * q.y) * q.t) * ((r.x * r.t) * r.t))))) + ((d * d) * (((p.y * p.z) * p.t) * ((((q.y * q.t) * q.t) * q.t) * ((r.x * r.x) * r.x))))) - ((d * d) * (((p.y * p.z) * p.t) * ((((q.y * q.t) * q.t) * q.t) * ((r.y * r.z) * r.t))))) + (d * (((p.y * p.z) * p.t) * ((((q.x * q.z) * q.t) * q.t) * ((r.x * r.x) * r.x))))) - (d * (((p.y * p.z) * p.t) * ((((q.x * q.z) * q.t) * q.t) * ((r.y * r.z) * r.t))))) - (d * (((p.y * p.z) * p.t) * ((((q.y * q.y) * q.y) * q.t) * ((r.x * r.x) * r.x))))) + (d * (((p.y * p.z) * p.t) * ((((q.y * q.y) * q.y) * q.t) * ((r.y * r.z) * r.t))))));
    lemma_term_33(d, p, q, r);
    lemma_congruent_mul(16, 16, (((p.x * p.z) * p.z) * ((((q.x * q.z) * q.z) * q.z) * ((r.x * r.z) * r.z))), (((((((((((((((((((((((((((((((((((((((((((((0 - (((d * d) * d) * (((p.x * p.t) * p.t) * ((((q.x * q.z) * q.t) * q.t) * ((r.x * r.t) * r.t))))) - (((d * d) * d) * (((p.x * p.t) * p.t) * ((((q.y * q.t) * q.t) * q.t) * ((r.x * r.t) * r.t))))) - ((d * d) * (((p.x * p.x) * p.x) * ((((q.x * q.z) * q.t) * q.t) * ((r.x * r.t) * r.t))))) - ((d * d) * (((p.x * p.x) * p.x) * ((((q.y * q.t) * q.t) * q.t) * ((r.x * r.t) * r.t))))) - ((d * d) * (((p.x * p.t) * p.t) * ((((q.x * q.x) * q.x) * q.z) * ((r.x * r.t) * r.t))))) - ((d * d) * (((p.x * p.t) * p.t) * ((((q.x * q.z) * q.t) * q.t) * ((r.x * r.x) * r.x))))) - ((d * d) * (((p.x * p.t) * p.t) * ((((q.x * q.z) * q.t) * q.t) * ((r.x * r.t) * r.t))))) + ((d * d) * (((p.x * p.t) * p.t) * ((((q.x * q.z) * q.t) * q.t) * ((r.y * r.z) * r.t))))) + ((d * d) * (((p.x * p.t) * p.t) * ((((q.y * q.y) * q.y) * q.t) * ((r.x * r.t) * r.t))))) - ((d * d) * (((p.x * p.t) * p.t) * ((((q.y * q.t) * q.t) * q.t) * ((r.x * r.x) * r.x))))) + ((d * d) * (((p.x * p.t) * p.t) * ((((q.y * q.t) * q.t) * q.t) * ((r.y * r.z) * r.t))))) + ((d * d) * (((p.y * p.z) * p.t) * ((((q.x * q.z) * q.t) * q.t) * ((r.x * r.t) * r.t))))) + ((d * d) * (((p.y * p.z) * p.t) * ((((q.y * q.t) * q.t) * q.t) * ((r.x * r.t) * r.t))))) - (d * (((p.x * p.x) * p.x) * ((((q.x * q.x) * q.x) * q.z) * ((r.x * r.t) * r.t))))) - (d * (((p.x * p.x) * p.x) * ((((q.x * q.z) * q.t) * q.t) * ((r.x * r.x) * r.x))))) - (d * (((p.x * p.x) * p.x) * ((((q.x * q.z) * q.t) * q.t) * ((r.x * r.t) * r.t))))) + (d * (((p.x * p.x) * p.x) * ((((q.x * q.z) * q.t) * q.t) * ((r.y * r.z) * r.t))))) + (d * (((p.x * p.x) * p.x) * ((((q.y * q.y) * q.y) * q.t) * ((r.x * r.t) * r.t))))) - (d * (((p.x * p.x) * p.x) * ((((q.y * q.t) * q.t) * q.t) * ((r.x * r.x) * r.x))))) + (d * (((p.x * p.x) * p.x) * ((((q.y * q.t) * q.t) * q.t) * ((r.y * r.z) * r.t))))) - (d * (((p.x * p.t) * p.t) * ((((q.x * q.x) * q.x) * q.z) * ((r.x * r.x) * r.x))))) + (d * (((p.x * p.t) * p.t) * ((((q.x * q.x) * q.x) * q.z) * ((r.y * r.z) * r.t))))) - (d * (((p.x * p.t) * p.t) * ((((q.x * q.z) * q.t) * q.t) * ((r.x * r.x) * r.x))))) + (d * (((p.x * p.t) * p.t) * ((((q.x * q.z) * q.t) * q.t) * ((r.y * r.z) * r.t))))) + (d * (((p.x * p.t) * p.t) * ((((q.y * q.y) * q.y) * q.t) * ((r.x * r.x) * r.x))))) - (d * (((p.x * p.t) * p.t) * ((((q.y * q.y) * q.y) * q.t) * ((r.y * r.z) * r.t))))) + (d * (((p.y * p.z) * p.t) * ((((q.x * q.x) * q.x) * q.z) * ((r.x * r.t) * r.t))))) + (d * (((p.y * p.z) * p.t) * ((((q.x * q.z) * q.t) * q.t) * ((r.x * r.x) * r.x))))) + (d * (((p.y * p.z) * p.t) * ((((q.x * q.z) * q.t) * q.t) * ((r.x * r.t) * r.t))))) - (d * (((p.y * p.z) * p.t) * ((((q.x * q.z) * q.t) * q.t) * ((r.y * r.z) * r.t))))) - (d * (((p.y * p.z) * p.t) * ((((q.y * q.y) * q.y) * q.t) * ((r.x * r.t) * r.t))))) + (d * (((p.y * p.z) * p.t) * ((((q.y * q.t) * q.t) * q.t) * ((r.x * r.x) * r.x))))) - (d * (((p.y * p.z) * p.t) * ((((q.y * q.t) * q.t) * q.t) * ((r.y * r.z) * r.t))))) - (((p.x * p.x) * p.x) * ((((q.x * q.x) * q.x) * q.z) * ((r.x * r.x) * r.x)))) + (((p.x * p.x) * p.x) * ((((q.x * q.x) * q.x) * q.z) * ((r.y * r.z) * r.t)))) - (((p.x * p.x) * p.x) * ((((q.x * q.z) * q.t) * q.t) * ((r.x * r.x) * r.x)))) + (((p.x * p.x) * p.x) * ((((q.x * q.z) * q.t) * q.t) * ((r.y * r.z) * r.t)))) + (((p.x * p.x) * p.x) * ((((q.y * q.y) * q.y) * q.t) * ((r.x * r.x) * r.x)))) - (((p.x * p.x) * p.x) * ((((q.y * q.y) * q.y) * q.t) * ((r.y * r.z) * r.t)))) + (((p.y * p.z) * p.t) * ((((q.x * q.x) * q.x) * q.z) * ((r.x * r.x) * r.x)))) - (((p.y * p.z) * p.t) * ((((q.x * q.x) * q.x) * q.z) * ((r.y * r.z) * r.t)))) + (((p.y * p.z) * p.t) * ((((q.x * q.z) * q.t) * q.t) * ((r.x * r.x) * r.x)))) - (((p.y * p.z) * p.t) * ((((q.x * q.z) * q.t) * q.t) * ((r.y * r.z) * r.t)))) - (((p.y * p.z) * p.t) * ((((q.y * q.y) * q.y) * q.t) * ((r.x * r.x) * r.x)))) + (((p.y * p.z) * p.t) * ((((q.y * q.y) * q.y) * q.t) * ((r.y * r.z) * r.t)))));
    let s33 = s32 + 16 * (((p.x * p.z) * p.z) * ((((q.x * q.z) * q.z) * q.z) * ((r.x * r.z) * r.z)));
    let n33 = n32 + 16 * (((((((((((((((((((((((((((((((((((((((((((((0 - (((d * d) * d) * (((p.x * p.t) * p.t) * ((((q.x * q.z) * q.t) * q.t) * ((r.x * r.t) * r.t))))) - (((d * d) * d) * (((p.x * p.t) * p.t) * ((((q.y * q.t) * q.t) * q.t) * ((r.x * r.t) * r.t))))) - ((d * d) * (((p.x * p.x) * p.x) * ((((q.x * q.z) * q.t) * q.t) * ((r.x * r.t) * r.t))))) - ((d * d) * (((p.x * p.x) * p.x) * ((((q.y * q.t) * q.t) * q.t) * ((r.x * r.t) * r.t))))) - ((d * d) * (((p.x * p.t) * p.t) * ((((q.x * q.x) * q.x) * q.z) * ((r.x * r.t) * r.t))))) - ((d * d) * (((p.x * p.t) * p.t) * ((((q.x * q.z) * q.t) * q.t) * ((r.x * r.x) * r.x))))) - ((d * d) * (((p.x * p.t) * p.t) * ((((q.x * q.z) * q.t) * q.t) * ((r.x * r.t) * r.t))))) + ((d * d) * (((p.x * p.t) * p.t) * ((((q.x * q.z) * q.t) * q.t) * ((r.y * r.z) * r.t))))) + ((d * d) * (((p.x * p.t) * p.t) * ((((q.y * q.y) * q.y) * q.t) * ((r.x * r.t) * r.t))))) - ((d * d) * (((p.x * p.t) * p.t) * ((((q.y * q.t) * q.t) * q.t) * ((r.x * r.x) * r.x))))) + ((d * d) * (((p.x * p.t) * p.t) * ((((q.y * q.t) * q.t) * q.t) * ((r.y * r.z) * r.t))))) + ((d * d) * (((p.y * p.z) * p.t) * ((((q.x * q.z) * q.t) * q.t) * ((r.x * r.t) * r.t))))) + ((d * d) * (((p.y * p.z) * p.t) * ((((q.y * q.t) * q.t) * q.t) * ((r.x * r.t) * r.t))))) - (d * (((p.x * p.x) * p.x) * ((((q.x * q.x) * q.x) * q.z) * ((r.x * r.t) * r.t))))) - (d * (((p.x * p.x) * p.x) * ((((q.x * q.z) * q.t) * q.t) * ((r.x * r.x) * r.x))))) - (d * (((p.x * p.x) * p.x) * ((((q.x * q.z) * q.t) * q.t) * ((r.x * r.t) * r.t))))) + (d * (((p.x * p.x) * p.x) * ((((q.x * q.z) * q.t) * q.t) * ((r.y * r.z) * r.t))))) + (d * (((p.x * p.x) * p.x) * ((((q.y * q.y) * q.y) * q.t) * ((r.x * r.t) * r.t))))) - (d * (((p.x * p.x) * p.x) * ((((q.y * q.t) * q.t) * q.t) * ((r.x * r.x) * r.x))))) + (d * (((p.x * p.x) * p.x) * ((((q.y * q.t) * q.t) * q.t) * ((r.y * r.z) * r.t))))) - (d * (((p.x * p.t) * p.t) * ((((q.x * q.x) * q.x) * q.z) * ((r.x * r.x) * r.x))))) + (d * (((p.x * p.t) * p.t) * ((((q.x * q.x) * q.x) * q.z) * ((r.y * r.z) * r.t))))) - (d * (((p.x * p.t) * p.t) * ((((q.x * q.z) * q.t) * q.t) * ((r.x * r.x) * r.x))))) + (d * (((p.x * p.t) * p.t) * ((((q.x * q.z) * q.t) * q.t) * ((r.y * r.z) * r.t))))) + (d * (((p.x * p.t) * p.t) * ((((q.y * q.y) * q.y) * q.t) * ((r.x * r.x) * r.x))))) - (d * (((p.x * p.t) * p.t) * ((((q.y * q.y) * q.y) * q.t) * ((r.y * r.z) * r.t))))) + (d * (((p.y * p.z) * p.t) * ((((q.x * q.x) * q.x) * q.z) * ((r.x * r.t) * r.t))))) + (d * (((p.y * p.z) * p.t) * ((((q.x * q.z) * q.t) * q.t) * ((r.x * r.x) * r.x))))) + (d * (((p.y * p.z) * p.t) * ((((q.x * q.z) * q.t) * q.t) * ((r.x * r.t) * r.t))))) - (d * (((p.y * p.z) * p.t) * ((((q.x * q.z) * q.t) * q.t) * ((r.y * r.z) * r.t))))) - (d * (((p.y * p.z) * p.t) * ((((q.y * q.y) * q.y) * q.t) * ((r.x * r.t) * r.t))))) + (d * (((p.y * p.z) * p.t) * ((((q.y * q.t) * q.t) * q.t) * ((r.x * r.x) * r.x))))) - (d * (((p.y * p.z) * p.t) * ((((q.y * q.t) * q.t) * q.t) * ((r.y * r.z) * r.t))))) - (((p.x * p.x) * p.x) * ((((q.x * q.x) * q.x) * q.z) * ((r.x * r.x) * r.x)))) + (((p.x * p.x) * p.x) * ((((q.x * q.x) * q.x) * q.z) * ((r.y * r.z) * r.t)))) - (((p.x * p.x) * p.x) * ((((q.x * q.z) * q.t) * q.t) * ((r.x * r.x) * r.x)))) + (((p.x * p.x) * p.x) * ((((q.x * q.z) * q.t) * q.t) * ((r.y * r.z) * r.t)))) + (((p.x * p.x) * p.x) * ((((q.y * q.y) * q.y) * q.t) * ((r.x * r.x) * r.x)))) - (((p.x * p.x) * p.x) * ((((q.y * q.y) * q.y) * q.t) * ((r.y * r.z) * r.t)))) + (((p.y * p.z) * p.t) * ((((q.x * q.x) * q.x) * q.z) * ((r.x * r.x) * r.x)))) - (((p.y * p.z) * p.t) * ((((q.x * q.x) * q.x) * q.z) * ((r.y * r.z) * r.t)))) + (((p.y * p.z) * p.t) * ((((q.x * q.z) * q.t) * q.t) * ((r.x * r.x) * r.x)))) - (((p.y * p.z) * p.t) * ((((q.x * q.z) * q.t) * q.t) * ((r.y * r.z) * r.t)))) - (((p.y * p.z) * p.t) * ((((q.y * q.y) * q.y) * q.t) * ((r.x * r.x) * r.x)))) + (((p.y * p.z) * p.t) * ((((q.y * q.y) * q.y) * q.t) * ((r.y * r.z) * r.t))));
    lemma_congruent_add(s32, n32, 16 * (((p.x * p.z) * p.z) * ((((q.x * q.z) * q.z) * q.z) * ((r.x * r.z) * r.z))), 16 * (((((((((((((((((((((((((((((((((((((((((((((0 - (((d * d) * d) * (((p.x * p.t) * p.t) * ((((q.x * q.z) * q.t) * q.t) * ((r.x * r.t) * r.t))))) - (((d * d) * d) * (((p.x * p.t) * p.t) * ((((q.y * q.t) * q.t) * q.t) * ((r.x * r.t) * r.t))))) - ((d * d) * (((p.x * p.x) * p.x) * ((((q.x * q.z) * q.t) * q.t) * ((r.x * r.t) * r.t))))) - ((d * d) * (((p.x * p.x) * p.x) * ((((q.y * q.t) * q.t) * q.t) * ((r.x * r.t) * r.t))))) - ((d * d) * (((p.x * p.t) * p.t) * ((((q.x * q.x) * q.x) * q.z) * ((r.x * r.t) * r.t))))) - ((d * d) * (((p.x * p.t) * p.t) * ((((q.x * q.z) * q.t) * q.t) * ((r.x * r.x) * r.x))))) - ((d * d) * (((p.x * p.t) * p.t) * ((((q.x * q.z) * q.t) * q.t) * ((r.x * r.t) * r.t))))) + ((d * d) * (((p.x * p.t) * p.t) * ((((q.x * q.z) * q.t) * q.t) * ((r.y * r.z) * r.t))))) + ((d * d) * (((p.x * p.t) * p.t) * ((((q.y * q.y) * q.y) * q.t) * ((r.x * r.t) * r.t))))) - ((d * d) * (((p.x * p.t) * p.t) * ((((q.y * q.t) * q.t) * q.t) * ((r.x * r.x) * r.x))))) + ((d * d) * (((p.x * p.t) * p.t) * ((((q.y * q.t) * q.t) * q.t) * ((r.y * r.z) * r.t))))) + ((d * d) * (((p.y * p.z) * p.t) * ((((q.x * q.z) * q.t) * q.t) * ((r.x * r.t) * r.t))))) + ((d * d) * (((p.y * p.z) * p.t) * ((((q.y * q.t) * q.t) * q.t) * ((r.x * r.t) * r.t))))) - (d * (((p.x * p.x) * p.x) * ((((q.x * q.x) * q.x) * q.z) * ((r.x * r.t) * r.t))))) - (d * (((p.x * p.x) * p.x) * ((((q.x * q.z) * q.t) * q.t) * ((r.x * r.x) * r.x))))) - (d * (((p.x * p.x) * p.x) * ((((q.x * q.z) * q.t) * q.t) * ((r.x * r.t) * r.t))))) + (d * (((p.x * p.x) * p.x) * ((((q.x * q.z) * q.t) * q.t) * ((r.y * r.z) * r.t))))) + (d * (((p.x * p.x) * p.x) * ((((q.y * q.y) * q.y) * q.t) * ((r.x * r.t) * r.t))))) - (d * (((p.x * p.x) * p.x) * ((((q.y * q.t) * q.t) * q.t) * ((r.x * r.x) * r.x))))) + (d * (((p.x * p.x) * p.x) * ((((q.y * q.t) * q.t) * q.t) * ((r.y * r.z) * r.t))))) - (d * (((p.x * p.t) * p.t) * ((((q.x * q.x) * q.x) * q.z) * ((r.x * r.x) * r.x))))) + (d * (((p.x * p.t) * p.t) * ((((q.x * q.x) * q.x) * q.z) * ((r.y * r.z) * r.t))))) - (d * (((p.x * p.t) * p.t) * ((((q.x * q.z) * q.t) * q.t) * ((r.x * r.x) * r.x))))) + (d * (((p.x * p.t) * p.t) * ((((q.x * q.z) * q.t) * q.t) * ((r.y * r.z) * r.t))))) + (d * (((p.x * p.t) * p.t) * ((((q.y * q.y) * q.y) * q.t) * ((r.x * r.x) * r.x))))) - (d * (((p.x * p.t) * p.t) * ((((q.y * q.y) * q.y) * q.t) * ((r.y * r.z) * r.t))))) + (d * (((p.y * p.z) * p.t) * ((((q.x * q.x) * q.x) * q.z) * ((r.x * r.t) * r.t))))) + (d * (((p.y * p.z) * p.t) * ((((q.x * q.z) * q.t) * q.t) * ((r.x * r.x) * r.x))))) + (d * (((p.y * p.z) * p.t) * ((((q.x * q.z) * q.t) * q.t) * ((r.x * r.t) * r.t))))) - (d * (((p.y * p.z) * p.t) * ((((q.x * q.z) * q.t) * q.t) * ((r.y * r.z) * r.t))))) - (d * (((p.y * p.z) * p.t) * ((((q.y * q.y) * q.y) * q.t) * ((r.x * r.t) * r.t))))) + (d * (((p.y * p.z) * p.t) * ((((q.y * q.t) * q.t) * q.t) * ((r.x * r.x) * r.x))))) - (d * (((p.y * p.z) * p.t) * ((((q.y * q.t) * q.t) * q.t) * ((r.y * r.z) * r.t))))) - (((p.x * p.x) * p.x) * ((((q.x * q.x) * q.x) * q.z) * ((r.x * r.x) * r.x)))) + (((p.x * p.x) * p.x) * ((((q.x * q.x) * q.x) * q.z) * ((r.y * r.z) * r.t)))) - (((p.x * p.x) * p.x) * ((((q.x * q.z) * q.t) * q.t) * ((r.x * r.x) * r.x)))) + (((p.x * p.x) * p.x) * ((((q.x * q.z) * q.t) * q.t) * ((r.y * r.z) * r.t)))) + (((p.x * p.x) * p.x) * ((((q.y * q.y) * q.y) * q.t) * ((r.x * r.x) * r.x)))) - (((p.x * p.x) * p.x) * ((((q.y * q.y) * q.y) * q.t) * ((r.y * r.z) * r.t)))) + (((p.y * p.z) * p.t) * ((((q.x * q.x) * q.x) * q.z) * ((r.x * r.x) * r.x)))) - (((p.y * p.z) * p.t) * ((((q.x * q.x) * q.x) * q.z) * ((r.y * r.z) * r.t)))) + (((p.y * p.z) * p.t) * ((((q.x * q.z) * q.t) * q.t) * ((r.x * r.x) * r.x)))) - (((p.y * p.z) * p.t) * ((((q.x * q.z) * q.t) * q.t) * ((r.y * r.z) * r.t)))) - (((p.y * p.z) * p.t) * ((((q.y * q.y) * q.y) * q.t) * ((r.x * r.x) * r.x)))) + (((p.y * p.z) * p.t) * ((((q.y * q.y) * q.y) * q.t) * ((r.y * r.z) * r.t)))));
    lemma_term_34(d, p, q, r);
    lemma_congruent_mul(16, 16, (((p.x * p.z) * p.z) * ((((q.y * q.z) * q.z) * q.z) * ((r.y * r.z) * r.z))), (((((((((((((((((((((((((((((((((((((((((((((((d * d) * d) * (((p.x * p.t) * p.t) * ((((q.x * q.t) * q.t) * q.t) * ((r.y * r.t) * r.t)))) - (((d * d) * d) * (((p.x * p.t) * p.t) * ((((q.y * q.z) * q.t) * q.t) * ((r.y * r.t) * r.t))))) + ((d * d) * (((p.x * p.x) * p.x) * ((((q.x * q.t) * q.t) * q.t) * ((r.y * r.t) * r.t))))) - ((d * d) * (((p.x * p.x) * p.x) * ((((q.y * q.z) * q.t) * q.t) * ((r.y * r.t) * r.t))))) + ((d * d) * (((p.x * p.t) * p.t) * ((((q.x * q.x) * q.x) * q.t) * ((r.y * r.t) * r.t))))) + ((d * d) * (((p.x * p.t) * p.t) * ((((q.x * q.t) * q.t) * q.t) * ((r.x * r.z) * r.t))))) - ((d * d) * (((p.x * p.t) * p.t) * ((((q.x * q.t) * q.t) * q.t) * ((r.y * r.y) * r.y))))) + ((d * d) * (((p.x * p.t) * p.t) * ((((q.y * q.y) * q.y) * q.z) * ((r.y * r.t) * r.t))))) - ((d * d) * (((p.x * p.t) * p.t) * ((((q.y * q.z) * q.t) * q.t) * ((r.x * r.z) * r.t))))) + ((d * d) * (((p.x * p.t) * p.t) * ((((q.y * q.z) * q.t) * q.t) * ((r.y * r.y) * r.y))))) - ((d * d) * (((p.x * p.t) * p.t) * ((((q.y * q.z) * q.t) * q.t) * ((r.y * r.t) * r.t))))) - ((d * d) * (((p.y * p.z) * p.t) * ((((q.x * q.t) * q.t) * q.t) * ((r.y * r.t) * r.t))))) + ((d * d) * (((p.y * p.z) * p.t) * ((((q.y * q.z) * q.t) * q.t) * ((r.y * r.t) * r.t))))) + (d * (((p.x * p.x) * p.x) * ((((q.x * q.x) * q.x) * q.t) * ((r.y * r.t) * r.t))))) + (d * (((p.x * p.x) * p.x) * ((((q.x * q.t) * q.t) * q.t) * ((r.x * r.z) * r.t))))) - (d * (((p.x * p.x) * p.x) * ((((q.x * q.t) * q.t) * q.t) * ((r.y * r.y) * r.y))))) + (d * (((p.x * p.x) * p.x) * ((((q.y * q.y) * q.y) * q.z) * ((r.y * r.t) * r.t))))) - (d * (((p.x * p.x) * p.x) * ((((q.y * q.z) * q.t) * q.t) * ((r.x * r.z) * r.t))))) + (d * (((p.x * p.x) * p.x) * ((((q.y * q.z) * q.t) * q.t) * ((r.y * r.y) * r.y))))) - (d * (((p.x * p.x) * p.x) * ((((q.y * q.z) * q.t) * q.t) * ((r.y * r.t) * r.t))))) + (d * (((p.x * p.t) * p.t) * ((((q.x * q.x) * q.x) * q.t) * ((r.x * r.z) * r.t))))) - (d * (((p.x * p.t) * p.t) * ((((q.x * q.x) * q.x) * q.t) * ((r.y * r.y) * r.y))))) + (d * (((p.x * p.t) * p.t) * ((((q.y * q.y) * q.y) * q.z) * ((r.x * r.z) * r.t))))) - (d * (((p.x * p.t) * p.t) * ((((q.y * q.y) * q.y) * q.z) * ((r.y * r.y) * r.y))))) - (d * (((p.x * p.t) * p.t) * ((((q.y * q.z) * q.t) * q.t) * ((r.x * r.z) * r.t))))) + (d * (((p.x * p.t) * p.t) * ((((q.y * q.z) * q.t) * q.t) * ((r.y * r.y) * r.y))))) - (d * (((p.y * p.z) * p.t) * ((((q.x * q.x) * q.x) * q.t) * ((r.y * r.t) * r.t))))) - (d * (((p.y * p.z) * p.t) * ((((q.x * q.t) * q.t) * q.t) * ((r.x * r.z) * r.t))))) + (d * (((p.y * p.z) * p.t) * ((((q.x * q.t) * q.t) * q.t) * ((r.y * r.y) * r.y))))) - (d * (((p.y * p.z) * p.t) * ((((q.y * q.y) * q.y) * q.z) * ((r.y * r.t) * r.t))))) + (d * (((p.y * p.z) * p.t) * ((((q.y * q.z) * q.t) * q.t) * ((r.x * r.z) * r.t))))) - (d * (((p.y * p.z) * p.t) * ((((q.y * q.z) * q.t) * q.t) * ((r.y * r.y) * r.y))))) + (d * (((p.y * p.z) * p.t) * ((((q.y * q.z) * q.t) * q.t) * ((r.y * r.t) * r.t))))) + (((p.x * p.x) * p.x) * ((((q.x * q.x) * q.x) * q.t) * ((r.x * r.z) * r.t)))) - (((p.x * p.x) * p.x) * ((((q.x * q.x) * q.x) * q.t) * ((r.y * r.y) * r.y)))) + (((p.x * p.x) * p.x) * ((((q.y * q.y) * q.y) * q.z) * ((r.x * r.z) * r.t)))) - (((p.x * p.x) * p.x) * ((((q.y * q.y) * q.y) * q.z) * ((r.y * r.y) * r.y)))) - (((p.x * p.x) * p.x) * ((((q.y * q.z) * q.t) * q.t) * ((r.x * r.z) * r.t)))) + (((p.x * p.x) * p.x) * ((((q.y * q.z) * q.t) * q.t) * ((r.y * r.y) * r.y)))) - (((p.y * p.z) * p.t) * ((((q.x * q.x) * q.x) * q.t) * ((r.x * r.z) * r.t)))) + (((p.y * p.z) * p.t) * ((((q.x * q.x) * q.x) * q.t) * ((r.y * r.y) * r.y)))) - (((p.y * p.z) * p.t) * ((((q.y * q.y) * q.y) * q.z) * ((r.x * r.z) * r.t)))) + (((p.y * p.z) * p.t) * ((((q.y * q.y) * q.y) * q.z) * ((r.y * r.y) * r.y)))) + (((p.y * p.z) * p.t) * ((((q.y * q.z) * q.t) * q.t) * ((r.x * r.z) * r.t)))) - (((p.y * p.z) * p.t) * ((((q.y * q.z) * q.t) * q.t) * ((r.y * r.y) * r.y)))));
    let s34 = s33 + 16 * (((p.x * p.z) * p.z) * ((((q.y * q.z) * q.z) * q.z) * ((r.y * r.z) * r.z)));
    let n34 = n33 + 16 * (((((((((((((((((((((((((((((((((((((((((((((((d * d) * d) * (((p.x * p.t) * p.t) * ((((q.x * q.t) * q.t) * q.t) * ((r.y * r.t) * r.t)))) - (((d * d) * d) * (((p.x * p.t) * p.t) * ((((q.y * q.z) * q.t) * q.t) * ((r.y * r.t) * r.t))))) + ((d * d) * (((p.x * p.x) * p.x) * ((((q.x * q.t) * q.t) * q.t) * ((r.y * r.t) * r.t))))) - ((d * d) * (((p.x * p.x) * p.x) * ((((q.y * q.z) * q.t) * q.t) * ((r.y * r.t) * r.t))))) + ((d * d) * (((p.x * p.t) * p.t) * ((((q.x * q.x) * q.x) * q.t) * ((r.y * r.t) * r.t))))) + ((d * d) * (((p.x * p.t) * p.t) * ((((q.x * q.t) * q.t) * q.t) * ((r.x * r.z) * r.t))))) - ((d * d) * (((p.x * p.t) * p.t) * ((((q.x * q.t) * q.t) * q.t) * ((r.y * r.y) * r.y))))) + ((d * d) * (((p.x * p.t) * p.t) * ((((q.y * q.y) * q.y) * q.z) * ((r.y * r.t) * r.t))))) - ((d * d) * (((p.x * p.t) * p.t) * ((((q.y * q.z) * q.t) * q.t) * ((r.x * r.z) * r.t))))) + ((d * d) * (((p.x * p.t) * p.t) * ((((q.y * q.z) * q.t) * q.t) * ((r.y * r.y) * r.y))))) - ((d * d) * (((p.x * p.t) * p.t) * ((((q.y * q.z) * q.t) * q.t) * ((r.y * r.t) * r.t))))) - ((d * d) * (((p.y * p.z) * p.t) * ((((q.x * q.t) * q.t) * q.t) * ((r.y * r.t) * r.t))))) + ((d * d) * (((p.y * p.z) * p.t) * ((((q.y * q.z) * q.t) * q.t) * ((r.y * r.t) * r.t))))) + (d * (((p.x * p.x) * p.x) * ((((q.x * q.x) * q.x) * q.t) * ((r.y * r.t) * r.t))))) + (d * (((p.x * p.x) * p.x) * ((((q.x * q.t) * q.t) * q.t) * ((r.x * r.z) * r.t))))) - (d * (((p.x * p.x) * p.x) * ((((q.x * q.t) * q.t) * q.t) * ((r.y * r.y) * r.y))))) + (d * (((p.x * p.x) * p.x) * ((((q.y * q.y) * q.y) * q.z) * ((r.y * r.t) * r.t))))) - (d * (((p.x * p.x) * p.x) * ((((q.y * q.z) * q.t) * q.t) * ((r.x * r.z) * r.t))))) + (d * (((p.x * p.x) * p.x) * ((((q.y * q.z) * q.t) * q.t) * ((r.y * r.y) * r.y))))) - (d * (((p.x * p.x) * p.x) * ((((q.y * q.z) * q.t) * q.t) * ((r.y * r.t) * r.t))))) + (d * (((p.x * p.t) * p.t) * ((((q.x * q.x) * q.x) * q.t) * ((r.x * r.z) * r.t))))) - (d * (((p.x * p.t) * p.t) * ((((q.x * q.x) * q.x) * q.t) * ((r.y * r.y) * r.y))))) + (d * (((p.x * p.t) * p.t) * ((((q.y * q.y) * q.y) * q.z) * ((r.x * r.z) * r.t))))) - (d * (((p.x * p.t) * p.t) * ((((q.y * q.y) * q.y) * q.z) * ((r.y * r.y) * r.y))))) - (d * (((p.x * p.t) * p.t) * ((((q.y * q.z) * q.t) * q.t) * ((r.x * r.z) * r.t))))) + (d * (((p.x * p.t) * p.t) * ((((q.y * q.z) * q.t) * q.t) * ((r.y * r.y) * r.y))))) - (d * (((p.y * p.z) * p.t) * ((((q.x * q.x) * q.x) * q.t) * ((r.y * r.t) * r.t))))) - (d * (((p.y * p.z) * p.t) * ((((q.x * q.t) * q.t) * q.t) * ((r.x * r.z) * r.t))))) + (d * (((p.y * p.z) * p.t) * ((((q.x * q.t) * q.t) * q.t) * ((r.y * r.y) * r.y))))) - (d * (((p.y * p.z) * p.t) * ((((q.y * q.y) * q.y) * q.z) * ((r.y * r.t) * r.t))))) + (d * (((p.y * p.z) * p.t) * ((((q.y * q.z) * q.t) * q.t) * ((r.x * r.z) * r.t))))) - (d * (((p.y * p.z) * p.t) * ((((q.y * q.z) * q.t) * q.t) * ((r.y * r.y) * r.y))))) + (d * (((p.y * p.z) * p.t) * ((((q.y * q.z) * q.t) * q.t) * ((r.y * r.t) * r.t))))) + (((p.x * p.x) * p.x) * ((((q.x * q.x) * q.x) * q.t) * ((r.x * r.z) * r.t)))) - (((p.x * p.x) * p.x) * ((((q.x * q.x) * q.x) * q.t) * ((r.y * r.y) * r.y)))) + (((p.x * p.x) * p.x) * ((((q.y * q.y) * q.y) * q.z) * ((r.x * r.z) * r.t)))) - (((p.x * p.x) * p.x) * ((((q.y * q.y) * q.y) * q.z) * ((r.y * r.y) * r.y)))) - (((p.x * p.x) * p.x) * ((((q.y * q.z) * q.t) * q.t) * ((r.x * r.z) * r.t)))) + (((p.x * p.x) * p.x) * ((((q.y * q.z) * q.t) * q.t) * ((r.y * r.y) * r.y)))) - (((p.y * p.z) * p.t) * ((((q.x * q.x) * q.x) * q.t) * ((r.x * r.z) * r.t)))) + (((p.y * p.z) * p.t) * ((((q.x * q.x) * q.x) * q.t) * ((r.y * r.y) * r.y)))) - (((p.y * p.z) * p.t) * ((((q.y * q.y) * q.y) * q.z) * ((r.x * r.z) * r.t)))) + (((p.y * p.z) * p.t) * ((((q.y * q.y) * q.y) * q.z) * ((r.y * r.y) * r.y)))) + (((p.y * p.z) * p.t) * ((((q.y * q.z) * q.t) * q.t) * ((r.x * r.z) * r.t)))) - (((p.y * p.z) * p.t) * ((((q.y * q.z) * q.t) * q.t) * ((r.y * r.y) * r.y))));
    lemma_congruent_add(s33, n33, 16 * (((p.x * p.z) * p.z) * ((((q.y * q.z) * q.z) * q.z) * ((r.y * r.z) * r.z))), 16 * (((((((((((((((((((((((((((((((((((((((((((((((d * d) * d) * (((p.x * p.t) * p.t) * ((((q.x * q.t) * q.t) * q.t) * ((r.y * r.t) * r.t)))) - (((d * d) * d) * (((p.x * p.t) * p.t) * ((((q.y * q.z) * q.t) * q.t) * ((r.y * r.t) * r.t))))) + ((d * d) * (((p.x * p.x) * p.x) * ((((q.x * q.t) * q.t) * q.t) * ((r.y * r.t) * r.t))))) - ((d * d) * (((p.x * p.x) * p.x) * ((((q.y * q.z) * q.t) * q.t) * ((r.y * r.t) * r.t))))) + ((d * d) * (((p.x * p.t) * p.t) * ((((q.x * q.x) * q.x) * q.t) * ((r.y * r.t) * r.t))))) + ((d * d) * (((p.x * p.t) * p.t) * ((((q.x * q.t) * q.t) * q.t) * ((r.x * r.z) * r.t))))) - ((d * d) * (((p.x * p.t) * p.t) * ((((q.x * q.t) * q.t) * q.t) * ((r.y * r.y) * r.y))))) + ((d * d) * (((p.x * p.t) * p.t) * ((((q.y * q.y) * q.y) * q.z) * ((r.y * r.t) * r.t))))) - ((d * d) * (((p.x * p.t) * p.t) * ((((q.y * q.z) * q.t) * q.t) * ((r.x * r.z) * r.t))))) + ((d * d) * (((p.x * p.t) * p.t) * ((((q.y * q.z) * q.t) * q.t) * ((r.y * r.y) * r.y))))) - ((d * d) * (((p.x * p.t) * p.t) * ((((q.y * q.z) * q.t) * q.t) * ((r.y * r.t) * r.t))))) - ((d * d) * (((p.y * p.z) * p.t) * ((((q.x * q.t) * q.t) * q.t) * ((r.y * r.t) * r.t))))) + ((d * d) * (((p.y * p.z) * p.t) * ((((q.y * q.z) * q.t) * q.t) * ((r.y * r.t) * r.t))))) + (d * (((p.x * p.x) * p.x) * ((((q.x * q.x) * q.x) * q.t) * ((r.y * r.t) * r.t))))) + (d * (((p.x * p.x) * p.x) * ((((q.x * q.t) * q.t) * q.t) * ((r.x * r.z) * r.t))))) - (d * (((p.x * p.x) * p.x) * ((((q.x * q.t) * q.t) * q.t) * ((r.y * r.y) * r.y))))) + (d * (((p.x * p.x) * p.x) * ((((q.y * q.y) * q.y) * q.z) * ((r.y * r.t) * r.t))))) - (d * (((p.x * p.x) * p.x) * ((((q.y * q.z) * q.t) * q.t) * ((r.x * r.z) * r.t))))) + (d * (((p.x * p.x) * p.x) * ((((q.y * q.z) * q.t) * q.t) * ((r.y * r.y) * r.y))))) - (d * (((p.x * p.x) * p.x) * ((((q.y * q.z) * q.t) * q.t) * ((r.y * r.t) * r.t))))) + (d * (((p.x * p.t) * p.t) * ((((q.x * q.x) * q.x) * q.t) * ((r.x * r.z) * r.t))))) - (d * (((p.x * p.t) * p.t) * ((((q.x * q.x) * q.x) * q.t) * ((r.y * r.y) * r.y))))) + (d * (((p.x * p.t) * p.t) * ((((q.y * q.y) * q.y) * q.z) * ((r.x * r.z) * r.t))))) - (d * (((p.x * p.t) * p.t) * ((((q.y * q.y) * q.y) * q.z) * ((r.y * r.y) * r.y))))) - (d * (((p.x * p.t) * p.t) * ((((q.y * q.z) * q.t) * q.t) * ((r.x * r.z) * r.t))))) + (d * (((p.x * p.t) * p.t) * ((((q.y * q.z) * q.t) * q.t) * ((r.y * r.y) * r.y))))) - (d * (((p.y * p.z) * p.t) * ((((q.x * q.x) * q.x) * q.t) * ((r.y * r.t) * r.t))))) - (d * (((p.y * p.z) * p.t) * ((((q.x * q.t) * q.t) * q.t) * ((r.x * r.z) * r.t))))) + (d * (((p.y * p.z) * p.t) * ((((q.x * q.t) * q.t) * q.t) * ((r.y * r.y) * r.y))))) - (d * (((p.y * p.z) * p.t) * ((((q.y * q.y) * q.y) * q.z) * ((r.y * r.t) * r.t))))) + (d * (((p.y * p.z) * p.t) * ((((q.y * q.z) * q.t) * q.t) * ((r.x * r.z) * r.t))))) - (d * (((p.y * p.z) * p.t) * ((((q.y * q.z) * q.t) * q.t) * ((r.y * r.y) * r.y))))) + (d * (((p.y * p.z) * p.t) * ((((q.y * q.z) * q.t) * q.t) * ((r.y * r.t) * r.t))))) + (((p.x * p.x) * p.x) * ((((q.x * q.x) * q.x) * q.t) * ((r.x * r.z) * r.t)))) - (((p.x * p.x) * p.x) * ((((q.x * q.x) * q.x) * q.t) * ((r.y * r.y) * r.y)))) + (((p.x * p.x) * p.x) * ((((q.y * q.y) * q.y) * q.z) * ((r.x * r.z) * r.t)))) - (((p.x * p.x) * p.x) * ((((q.y * q.y) * q.y) * q.z) * ((r.y * r.y) * r.y)))) - (((p.x * p.x) * p.x) * ((((q.y * q.z) * q.t) * q.t) * ((r.x * r.z) * r.t)))) + (((p.x * p.x) * p.x) * ((((q.y * q.z) * q.t) * q.t) * ((r.y * r.y) * r.y)))) - (((p.y * p.z) * p.t) * ((((q.x * q.x) * q.x) * q.t) * ((r.x * r.z) * r.t)))) + (((p.y * p.z) * p.t) * ((((q.x * q.x) * q.x) * q.t) * ((r.y * r.y) * r.y)))) - (((p.y * p.z) * p.t) * ((((q.y * q.y) * q.y) * q.z) * ((r.x * r.z) * r.t)))) + (((p.y * p.z) * p.t) * ((((q.y * q.y) * q.y) * q.z) * ((r.y * r.y) * r.y)))) + (((p.y * p.z) * p.t) * ((((q.y * q.z) * q.t) * q.t) * ((r.x * r.z) * r.t)))) - (((p.y * p.z) * p.t) * ((((q.y * q.z) * q.t) * q.t) * ((r.y * r.y) * r.y)))));
    lemma_term_35(d, p, q, r);
    lemma_congruent_mul(16, 16, (((p.y * p.z) * p.z) * ((((q.x * q.z) * q.z) * q.z) * ((r.y * r.z) * r.z))), (((((((((((((((((((((((((((((((((((((((((((((0 - (((d * d) * d) * (((p.y * p.t) * p.t) * ((((q.x * q.z) * q.t) * q.t) * ((r.y * r.t) * r.t))))) - (((d * d) * d) * (((p.y * p.t) * p.t) * ((((q.y * q.t) * q.t) * q.t) * ((r.y * r.t) * r.t))))) - ((d * d) * (((p.x * p.z) * p.t) * ((((q.x * q.z) * q.t) * q.t) * ((r.y * r.t) * r.t))))) - ((d * d) * (((p.x * p.z) * p.t) * ((((q.y * q.t) * q.t) * q.t) * ((r.y * r.t) * r.t))))) + ((d * d) * (((p.y * p.y) * p.y) * ((((q.x * q.z) * q.t) * q.t) * ((r.y * r.t) * r.t))))) + ((d * d) * (((p.y * p.y) * p.y) * ((((q.y * q.t) * q.t) * q.t) * ((r.y * r.t) * r.t))))) - ((d * d) * (((p.y * p.t) * p.t) * ((((q.x * q.x) * q.x) * q.z) * ((r.y * r.t) * r.t))))) - ((d * d) * (((p.y * p.t) * p.t) * ((((q.x * q.z) * q.t) * q.t) * ((r.x * r.z) * r.t))))) + ((d * d) * (((p.y * p.t) * p.t) * ((((q.x * q.z) * q.t) * q.t) * ((r.y * r.y) * r.y))))) - ((d * d) * (((p.y * p.t) * p.t) * ((((q.x * q.z) * q.t) * q.t) * ((r.y * r.t) * r.t))))) + ((d * d) * (((p.y * p.t) * p.t) * ((((q.y * q.y) * q.y) * q.t) * ((r.y * r.t) * r.t))))) - ((d * d) * (((p.y * p.t) * p.t) * ((((q.y * q.t) * q.t) * q.t) * ((r.x * r.z) * r.t))))) + ((d * d) * (((p.y * p.t) * p.t) * ((((q.y * q.t) * q.t) * q.t) * ((r.y * r.y) * r.y))))) - (d * (((p.x * p.z) * p.t) * ((((q.x * q.x) * q.x) * q.z) * ((r.y * r.t) * r.t))))) - (d * (((p.x * p.z) * p.t) * ((((q.x * q.z) * q.t) * q.t) * ((r.x * r.z) * r.t))))) + (d * (((p.x * p.z) * p.t) * ((((q.x * q.z) * q.t) * q.t) * ((r.y * r.y) * r.y))))) - (d * (((p.x * p.z) * p.t) * ((((q.x * q.z) * q.t) * q.t) * ((r.y * r.t) * r.t))))) + (d * (((p.x * p.z) * p.t) * ((((q.y * q.y) * q.y) * q.t) * ((r.y * r.t) * r.t))))) - (d * (((p.x * p.z) * p.t) * ((((q.y * q.t) * q.t) * q.t) * ((r.x * r.z) * r.t))))) + (d * (((p.x * p.z) * p.t) * ((((q.y * q.t) * q.t) * q.t) * ((r.y * r.y) * r.y))))) + (d * (((p.y * p.y) * p.y) * ((((q.x * q.x) * q.x) * q.z) * ((r.y * r.t) * r.t))))) + (d * (((p.y * p.y) * p.y) * ((((q.x * q.z) * q.t) * q.t) * ((r.x * r.z) * r.t))))) - (d * (((p.y * p.y) * p.y) * ((((q.x * q.z) * q.t) * q.t) * ((r.y * r.y) * r.y))))) + (d * (((p.y * p.y) * p.y) * ((((q.x * q.z) * q.t) * q.t) * ((r.y * r.t) * r.t))))) - (d * (((p.y * p.y) * p.y) * ((((q.y * q.y) * q.y) * q.t) * ((r.y * r.t) * r.t))))) + (d * (((p.y * p.y) * p.y) * ((((q.y * q.t) * q.t) * q.t) * ((r.x * r.z) * r.t))))) - (d * (((p.y * p.y) * p.y) * ((((q.y * q.t) * q.t) * q.t) * ((r.y * r.y) * r.y))))) - (d * (((p.y * p.t) * p.t) * ((((q.x * q.x) * q.x) * q.z) * ((r.x * r.z) * r.t))))) + (d * (((p.y * p.t) * p.t) * ((((q.x * q.x) * q.x) * q.z) * ((r.y * r.y) * r.y))))) - (d * (((p.y * p.t) * p.t) * ((((q.x * q.z) * q.t) * q.t) * ((r.x * r.z) * r.t))))) + (d * (((p.y * p.t) * p.t) * ((((q.x * q.z) * q.t) * q.t) * ((r.y * r.y) * r.y))))) + (d * (((p.y * p.t) * p.t) * ((((q.y * q.y) * q.y) * q.t) * ((r.x * r.z) * r.t))))) - (d * (((p.y * p.t) * p.t) * ((((q.y * q.y) * q.y) * q.t) * ((r.y * r.y) * r.y))))) - (((p.x * p.z) * p.t) * ((((q.x * q.x) * q.x) * q.z) * ((r.x * r.z) * r.t)))) + (((p.x * p.z) * p.t) * ((((q.x * q.x) * q.x) * q.z) * ((r.y * r.y) * r.y)))) - (((p.x * p.z) * p.t) * ((((q.x * q.z) * q.t) * q.t) * ((r.x * r.z) * r.t)))) + (((p.x * p.z) * p.t) * ((((q.x * q.z) * q.t) * q.t) * ((r.y * r.y) * r.y)))) + (((p.x * p.z) * p.t) * ((((q.y * q.y) * q.y) * q.t) * ((r.x * r.z) * r.t)))) - (((p.x * p.z) * p.t) * ((((q.y * q.y) * q.y) * q.t) * ((r.y * r.y) * r.y)))) + (((p.y * p.y) * p.y) * ((((q.x * q.x) * q.x) * q.z) * ((r.x * r.z) * r.t)))) - (((p.y * p.y) * p.y) * ((((q.x * q.x) * q.x) * q.z) * ((r.y * r.y) * r.y)))) + (((p.y * p.y) * p.y) * ((((q.x * q.z) * q.t) * q.t) * ((r.x * r.z) * r.t)))) - (((p.y * p.y) * p.y) * ((((q.x * q.z) * q.t) * q.t) * ((r.y * r.y) * r.y)))) - (((p.y * p.y) * p.y) * ((((q.y * q.y) * q.y) * q.t) * ((r.x * r.z) * r.t)))) + (((p.y * p.y) * p.y) * ((((q.y * q.y) * q.y) * q.t) * ((r.y * r.y) * r.y)))));
    let s35 = s34 + 16 * (((p.y * p.z) * p.z) * ((((q.x * q.z) * q.z) * q.z) * ((r.y * r.z) * r.z)));
    let n35 = n34 + 16 * (((((((((((((((((((((((((((((((((((((((((((((0 - (((d * d) * d) * (((p.y * p.t) * p.t) * ((((q.x * q.z) * q.t) * q.t) * ((r.y * r.t) * r.t))))) - (((d * d) * d) * (((p.y * p.t) * p.t) * ((((q.y * q.t) * q.t) * q.t) * ((r.y * r.t) * r.t))))) - ((d * d) * (((p.x * p.z) * p.t) * ((((q.x * q.z) * q.t) * q.t) * ((r.y * r.t) * r.t))))) - ((d * d) * (((p.x * p.z) * p.t) * ((((q.y * q.t) * q.t) * q.t) * ((r.y * r.t) * r.t))))) + ((d * d) * (((p.y * p.y) * p.y) * ((((q.x * q.z) * q.t) * q.t) * ((r.y * r.t) * r.t))))) + ((d * d) * (((p.y * p.y) * p.y) * ((((q.y * q.t) * q.t) * q.t) * ((r.y * r.t) * r.t))))) - ((d * d) * (((p.y * p.t) * p.t) * ((((q.x * q.x) * q.x) * q.z) * ((r.y * r.t) * r.t))))) - ((d * d) * (((p.y * p.t) * p.t) * ((((q.x * q.z) * q.t) * q.t) * ((r.x * r.z) * r.t))))) + ((d * d) * (((p.y * p.t) * p.t) * ((((q.x * q.z) * q.t) * q.t) * ((r.y * r.y) * r.y))))) - ((d * d) * (((p.y * p.t) * p.t) * ((((q.x * q.z) * q.t) * q.t) * ((r.y * r.t) * r.t))))) + ((d * d) * (((p.y * p.t) * p.t) * ((((q.y * q.y) * q.y) * q.t) * ((r.y * r.t) * r.t))))) - ((d * d) * (((p.y * p.t) * p.t) * ((((q.y * q.t) * q.t) * q.t) * ((r.x * r.z) * r.t))))) + ((d * d) * (((p.y * p.t) * p.t) * ((((q.y * q.t) * q.t) * q.t) * ((r.y * r.y) * r.y))))) - (d * (((p.x * p.z) * p.t) * ((((q.x * q.x) * q.x) * q.z) * ((r.y * r.t) * r.t))))) - (d * (((p.x * p.z) * p.t) * ((((q.x * q.z) * q.t) * q.t) * ((r.x * r.z) * r.t))))) + (d * (((p.x * p.z) * p.t) * ((((q.x * q.z) * q.t) * q.t) * ((r.y * r.y) * r.y))))) - (d * (((p.x * p.z) * p.t) * ((((q.x * q.z) * q.t) * q.t) * ((r.y * r.t) * r.t))))) + (d * (((p.x * p.z) * p.t) * ((((q.y * q.y) * q.y) * q.t) * ((r.y * r.t) * r.t))))) - (d * (((p.x * p.z) * p.t) * ((((q.y * q.t) * q.t) * q.t) * ((r.x * r.z) * r.t))))) + (d * (((p.x * p.z) * p.t) * ((((q.y * q.t) * q.t) * q.t) * ((r.y * r.y) * r.y))))) + (d * (((p.y * p.y) * p.y) * ((((q.x * q.x) * q.x) * q.z) * ((r.y * r.t) * r.t))))) + (d * (((p.y * p.y) * p.y) * ((((q.x * q.z) * q.t) * q.t) * ((r.x * r.z) * r.t))))) - (d * (((p.y * p.y) * p.y) * ((((q.x * q.z) * q.t) * q.t) * ((r.y * r.y) * r.y))))) + (d * (((p.y * p.y) * p.y) * ((((q.x * q.z) * q.t) * q.t) * ((r.y * r.t) * r.t))))) - (d * (((p.y * p.y) * p.y) * ((((q.y * q.y) * q.y) * q.t) * ((r.y * r.t) * r.t))))) + (d * (((p.y * p.y) * p.y) * ((((q.y * q.t) * q.t) * q.t) * ((r.x * r.z) * r.t))))) - (d * (((p.y * p.y) * p.y) * ((((q.y * q.t) * q.t) * q.t) * ((r.y * r.y) * r.y))))) - (d * (((p.y * p.t) * p.t) * ((((q.x * q.x) * q.x) * q.z) * ((r.x * r.z) * r.t))))) + (d * (((p.y * p.t) * p.t) * ((((q.x * q.x) * q.x) * q.z) * ((r.y * r.y) * r.y))))) - (d * (((p.y * p.t) * p.t) * ((((q.x * q.z) * q.t) * q.t) * ((r.x * r.z) * r.t))))) + (d * (((p.y * p.t) * p.t) * ((((q.x * q.z) * q.t) * q.t) * ((r.y * r.y) * r.y))))) + (d * (((p.y * p.t) * p.t) * ((((q.y * q.y) * q.y) * q.t) * ((r.x * r.z) * r.t))))) - (d * (((p.y * p.t) * p.t) * ((((q.y * q.y) * q.y) * q.t) * ((r.y * r.y) * r.y))))) - (((p.x * p.z) * p.t) * ((((q.x * q.x) * q.x) * q.z) * ((r.x * r.z) * r.t)))) + (((p.x * p.z) * p.t) * ((((q.x * q.x) * q.x) * q.z) * ((r.y * r.y) * r.y)))) - (((p.x * p.z) * p.t) * ((((q.x * q.z) * q.t) * q.t) * ((r.x * r.z) * r.t)))) + (((p.x * p.z) * p.t) * ((((q.x * q.z) * q.t) * q.t) * ((r.y * r.y) * r.y)))) + (((p.x * p.z) * p.t) * ((((q.y * q.y) * q.y) * q.t) * ((r.x * r.z) * r.t)))) - (((p.x * p.z) * p.t) * ((((q.y * q.y) * q.y) * q.t) * ((r.y * r.y) * r.y)))) + (((p.y * p.y) * p.y) * ((((q.x * q.x) * q.x) * q.z) * ((r.x * r.z) * r.t)))) - (((p.y * p.y) * p.y) * ((((q.x * q.x) * q.x) * q.z) * ((r.y * r.y) * r.y)))) + (((p.y * p.y) * p.y) * ((((q.x * q.z) * q.t) * q.t) * ((r.x * r.z) * r.t)))) - (((p.y * p.y) * p.y) * ((((q.x * q.z) * q.t) * q.t) * ((r.y * r.y) * r.y)))) - (((p.y * p.y) * p.y) * ((((q.y * q.y) * q.y) * q.t) * ((r.x * r.z) * r.t)))) + (((p.y * p.y) * p.y) * ((((q.y * q.y) * q.y) * q.t) * ((r.y * r.y) * r.y))));
    lemma_congruent_add(s34, n34, 16 * (((p.y * p.z) * p.z) * ((((q.x * q.z) * q.z) * q.z) * ((r.y * r.z) * r.z))), 16 * (((((((((((((((((((((((((((((((((((((((((((((0 - (((d * d) * d) * (((p.y * p.t) * p.t) * ((((q.x * q.z) * q.t) * q.t) * ((r.y * r.t) * r.t))))) - (((d * d) * d) * (((p.y * p.t) * p.t) * ((((q.y * q.t) * q.t) * q.t) * ((r.y * r.t) * r.t))))) - ((d * d) * (((p.x * p.z) * p.t) * ((((q.x * q.z) * q.t) * q.t) * ((r.y * r.t) * r.t))))) - ((d * d) * (((p.x * p.z) * p.t) * ((((q.y * q.t) * q.t) * q.t) * ((r.y * r.t) * r.t))))) + ((d * d) * (((p.y * p.y) * p.y) * ((((q.x * q.z) * q.t) * q.t) * ((r.y * r.t) * r.t))))) + ((d * d) * (((p.y * p.y) * p.y) * ((((q.y * q.t) * q.t) * q.t) * ((r.y * r.t) * r.t))))) - ((d * d) * (((p.y * p.t) * p.t) * ((((q.x * q.x) * q.x) * q.z) * ((r.y * r.t) * r.t))))) - ((d * d) * (((p.y * p.t) * p.t) * ((((q.x * q.z) * q.t) * q.t) * ((r.x * r.z) * r.t))))) + ((d * d) * (((p.y * p.t) * p.t) * ((((q.x * q.z) * q.t) * q.t) * ((r.y * r.y) * r.y))))) - ((d * d) * (((p.y * p.t) * p.t) * ((((q.x * q.z) * q.t) * q.t) * ((r.y * r.t) * r.t))))) + ((d * d) * (((p.y * p.t) * p.t) * ((((q.y * q.y) * q.y) * q.t) * ((r.y * r.t) * r.t))))) - ((d * d) * (((p.y * p.t) * p.t) * ((((q.y * q.t) * q.t) * q.t) * ((r.x * r.z) * r.t))))) + ((d * d) * (((p.y * p.t) * p.t) * ((((q.y * q.t) * q.t) * q.t) * ((r.y * r.y) * r.y))))) - (d * (((p.x * p.z) * p.t) * ((((q.x * q.x) * q.x) * q.z) * ((r.y * r.t) * r.t))))) - (d * (((p.x * p.z) * p.t) * ((((q.x * q.z) * q.t) * q.t) * ((r.x * r.z) * r.t))))) + (d * (((p.x * p.z) * p.t) * ((((q.x * q.z) * q.t) * q.t) * ((r.y * r.y) * r.y))))) - (d * (((p.x * p.z) * p.t) * ((((q.x * q.z) * q.t) * q.t) * ((r.y * r.t) * r.t))))) + (d * (((p.x * p.z) * p.t) * ((((q.y * q.y) * q.y) * q.t) * ((r.y * r.t) * r.t))))) - (d * (((p.x * p.z) * p.t) * ((((q.y * q.t) * q.t) * q.t) * ((r.x * r.z) * r.t))))) + (d * (((p.x * p.z) * p.t) * ((((q.y * q.t) * q.t) * q.t) * ((r.y * r.y) * r.y))))) + (d * (((p.y * p.y) * p.y) * ((((q.x * q.x) * q.x) * q.z) * ((r.y * r.t) * r.t))))) + (d * (((p.y * p.y) * p.y) * ((((q.x * q.z) * q.t) * q.t) * ((r.x * r.z) * r.t))))) - (d * (((p.y * p.y) * p.y) * ((((q.x * q.z) * q.t) * q.t) * ((r.y * r.y) * r.y))))) + (d * (((p.y * p.y) * p.y) * ((((q.x * q.z) * q.t) * q.t) * ((r.y * r.t) * r.t))))) - (d * (((p.y * p.y) * p.y) * ((((q.y * q.y) * q.y) * q.t) * ((r.y * r.t) * r.t))))) + (d * (((p.y * p.y) * p.y) * ((((q.y * q.t) * q.t) * q.t) * ((r.x * r.z) * r.t))))) - (d * (((p.y * p.y) * p.y) * ((((q.y * q.t) * q.t) * q.t) * ((r.y * r.y) * r.y))))) - (d * (((p.y * p.t) * p.t) * ((((q.x * q.x) * q.x) * q.z) * ((r.x * r.z) * r.t))))) + (d * (((p.y * p.t) * p.t) * ((((q.x * q.x) * q.x) * q.z) * ((r.y * r.y) * r.y))))) - (d * (((p.y * p.t) * p.t) * ((((q.x * q.z) * q.t) * q.t) * ((r.x * r.z) * r.t))))) + (d * (((p.y * p.t) * p.t) * ((((q.x * q.z) * q.t) * q.t) * ((r.y * r.y) * r.y))))) + (d * (((p.y * p.t) * p.t) * ((((q.y * q.y) * q.y) * q.t) * ((r.x * r.z) * r.t))))) - (d * (((p.y * p.t) * p.t) * ((((q.y * q.y) * q.y) * q.t) * ((r.y * r.y) * r.y))))) - (((p.x * p.z) * p.t) * ((((q.x * q.x) * q.x) * q.z) * ((r.x * r.z) * r.t)))) + (((p.x * p.z) * p.t) * ((((q.x * q.x) * q.x) * q.z) * ((r.y * r.y) * r.y)))) - (((p.x * p.z) * p.t) * ((((q.x * q.z) * q.t) * q.t) * ((r.x * r.z) * r.t)))) + (((p.x * p.z) * p.t) * ((((q.x * q.z) * q.t) * q.t) * ((r.y * r.y) * r.y)))) + (((p.x * p.z) * p.t) * ((((q.y * q.y) * q.y) * q.t) * ((r.x * r.z) * r.t)))) - (((p.x * p.z) * p.t) * ((((q.y * q.y) * q.y) * q.t) * ((r.y * r.y) * r.y)))) + (((p.y * p.y) * p.y) * ((((q.x * q.x) * q.x) * q.z) * ((r.x * r.z) * r.t)))) - (((p.y * p.y) * p.y) * ((((q.x * q.x) * q.x) * q.z) * ((r.y * r.y) * r.y)))) + (((p.y * p.y) * p.y) * ((((q.x * q.z) * q.t) * q.t) * ((r.x * r.z) * r.t)))) - (((p.y * p.y) * p.y) * ((((q.x * q.z) * q.t) * q.t) * ((r.y * r.y) * r.y)))) - (((p.y * p.y) * p.y) * ((((q.y * q.y) * q.y) * q.t) * ((r.x * r.z) * r.t)))) + (((p.y * p.y) * p.y) * ((((q.y * q.y) * q.y) * q.t) * ((r.y * r.y) * r.y)))));
    lemma_term_36(d, p, q, r);
    lemma_congruent_mul(16, 16, (((p.y * p.z) * p.z) * ((((q.y * q.z) * q.z) * q.z) * ((r.x * r.z) * r.z))), (((((((((((((((((((((((((((((((((((((((((((((((d * d) * d) * (((p.y * p.t) * p.t) * ((((q.x * q.t) * q.t) * q.t) * ((r.x * r.t) * r.t)))) - (((d * d) * d) * (((p.y * p.t) * p.t) * ((((q.y * q.z) * q.t) * q.t) * ((r.x * r.t) * r.t))))) + ((d * d) * (((p.x * p.z) * p.t) * ((((q.x * q.t) * q.t) * q.t) * ((r.x * r.t) * r.t))))) - ((d * d) * (((p.x * p.z) * p.t) * ((((q.y * q.z) * q.t) * q.t) * ((r.x * r.t) * r.t))))) - ((d * d) * (((p.y * p.y) * p.y) * ((((q.x * q.t) * q.t) * q.t) * ((r.x * r.t) * r.t))))) + ((d * d) * (((p.y * p.y) * p.y) * ((((q.y * q.z) * q.t) * q.t) * ((r.x * r.t) * r.t))))) + ((d * d) * (((p.y * p.t) * p.t) * ((((q.x * q.x) * q.x) * q.t) * ((r.x * r.t) * r.t))))) + ((d * d) * (((p.y * p.t) * p.t) * ((((q.x * q.t) * q.t) * q.t) * ((r.x * r.x) * r.x))))) - ((d * d) * (((p.y * p.t) * p.t) * ((((q.x * q.t) * q.t) * q.t) * ((r.y * r.z) * r.t))))) + ((d * d) * (((p.y * p.t) * p.t) * ((((q.y * q.y) * q.y) * q.z) * ((r.x * r.t) * r.t))))) - ((d * d) * (((p.y * p.t) * p.t) * ((((q.y * q.z) * q.t) * q.t) * ((r.x * r.x) * r.x))))) - ((d * d) * (((p.y * p.t) * p.t) * ((((q.y * q.z) * q.t) * q.t) * ((r.x * r.t) * r.t))))) + ((d * d) * (((p.y * p.t) * p.t) * ((((q.y * q.z) * q.t) * q.t) * ((r.y * r.z) * r.t))))) + (d * (((p.x * p.z) * p.t) * ((((q.x * q.x) * q.x) * q.t) * ((r.x * r.t) * r.t))))) + (d * (((p.x * p.z) * p.t) * ((((q.x * q.t) * q.t) * q.t) * ((r.x * r.x) * r.x))))) - (d * (((p.x * p.z) * p.t) * ((((q.x * q.t) * q.t) * q.t) * ((r.y * r.z) * r.t))))) + (d * (((p.x * p.z) * p.t) * ((((q.y * q.y) * q.y) * q.z) * ((r.x * r.t) * r.t))))) - (d * (((p.x * p.z) * p.t) * ((((q.y * q.z) * q.t) * q.t) * ((r.x * r.x) * r.x))))) - (d * (((p.x * p.z) * p.t) * ((((q.y * q.z) * q.t) * q.t) * ((r.x * r.t) * r.t))))) + (d * (((p.x * p.z) * p.t) * ((((q.y * q.z) * q.t) * q.t) * ((r.y * r.z) * r.t))))) - (d * (((p.y * p.y) * p.y) * ((((q.x * q.x) * q.x) * q.t) * ((r.x * r.t) * r.t))))) - (d * (((p.y * p.y) * p.y) * ((((q.x * q.t) * q.t) * q.t) * ((r.x * r.x) * r.x))))) + (d * (((p.y * p.y) * p.y) * ((((q.x * q.t) * q.t) * q.t) * ((r.y * r.z) * r.t))))) - (d * (((p.y * p.y) * p.y) * ((((q.y * q.y) * q.y) * q.z) * ((r.x * r.t) * r.t))))) + (d * (((p.y * p.y) * p.y) * ((((q.y * q.z) * q.t) * q.t) * ((r.x * r.x) * r.x))))) + (d * (((p.y * p.y) * p.y) * ((((q.y * q.z) * q.t) * q.t) * ((r.x * r.t) * r.t))))) - (d * (((p.y * p.y) * p.y) * ((((q.y * q.z) * q.t) * q.t) * ((r.y * r.z) * r.t))))) + (d * (((p.y * p.t) * p.t) * ((((q.x * q.x) * q.x) * q.t) * ((r.x * r.x) * r.x))))) - (d * (((p.y * p.t) * p.t) * ((((q.x * q.x) * q.x) * q.t) * ((r.y * r.z) * r.t))))) + (d * (((p.y * p.t) * p.t) * ((((q.y * q.y) * q.y) * q.z) * ((r.x * r.x) * r.x))))) - (d * (((p.y * p.t) * p.t) * ((((q.y * q.y) * q.y) * q.z) * ((r.y * r.z) * r.t))))) - (d * (((p.y * p.t) * p.t) * ((((q.y * q.z) * q.t) * q.t) * ((r.x * r.x) * r.x))))) + (d * (((p.y * p.t) * p.t) * ((((q.y * q.z) * q.t) * q.t) * ((r.y * r.z) * r.t))))) + (((p.x * p.z) * p.t) * ((((q.x * q.x) * q.x) * q.t) * ((r.x * r.x) * r.x)))) - (((p.x * p.z) * p.t) * ((((q.x * q.x) * q.x) * q.t) * ((r.y * r.z) * r.t)))) + (((p.x * p.z) * p.t) * ((((q.y * q.y) * q.y) * q.z) * ((r.x * r.x) * r.x)))) - (((p.x * p.z) * p.t) * ((((q.y * q.y) * q.y) * q.z) * ((r.y * r.z) * r.t)))) - (((p.x * p.z) * p.t) * ((((q.y * q.z) * q.t) * q.t) * ((r.x * r.x) * r.x)))) + (((p.x * p.z) * p.t) * ((((q.y * q.z) * q.t) * q.t) * ((r.y * r.z) * r.t)))) - (((p.y * p.y) * p.y) * ((((q.x * q.x) * q.x) * q.t) * ((r.x * r.x) * r.x)))) + (((p.y * p.y) * p.y) * ((((q.x * q.x) * q.x) * q.t) * ((r.y * r.z) * r.t)))) - (((p.y * p.y) * p.y) * ((((q.y * q.y) * q.y) * q.z) * ((r.x * r.x) * r.x)))) + (((p.y * p.y) * p.y) * ((((q.y * q.y) * q.y) * q.z) * ((r.y * r.z) * r.t)))) + (((p.y * p.y) * p.y) * ((((q.y * q.z) * q.t) * q.t) * ((r.x * r.x) * r.x)))) - (((p.y * p.y) * p.y) * ((((q.y * q.z) * q.t) * q.t) * ((r.y * r.z) * r.t)))));
    let s36 = s35 + 16 * (((p.y * p.z) * p.z) * ((((q.y * q.z) * q.z) * q.z) * ((r.x * r.z) * r.z)));
    let n36 = n35 + 16 * (((((((((((((((((((((((((((((((((((((((((((((((d * d) * d) * (((p.y * p.t) * p.t) * ((((q.x * q.t) * q.t) * q.t) * ((r.x * r.t) * r.t)))) - (((d * d) * d) * (((p.y * p.t) * p.t) * ((((q.y * q.z) * q.t) * q.t) * ((r.x * r.t) * r.t))))) + ((d * d) * (((p.x * p.z) * p.t) * ((((q.x * q.t) * q.t) * q.t) * ((r.x * r.t) * r.t))))) - ((d * d) * (((p.x * p.z) * p.t) * ((((q.y * q.z) * q.t) * q.t) * ((r.x * r.t) * r.t))))) - ((d * d) * (((p.y * p.y) * p.y) * ((((q.x * q.t) * q.t) * q.t) * ((r.x * r.t) * r.t))))) + ((d * d) * (((p.y * p.y) * p.y) * ((((q.y * q.z) * q.t) * q.t) * ((r.x * r.t) * r.t))))) + ((d * d) * (((p.y * p.t) * p.t) * ((((q.x * q.x) * q.x) * q.t) * ((r.x * r.t) * r.t))))) + ((d * d) * (((p.y * p.t) * p.t) * ((((q.x * q.t) * q.t) * q.t) * ((r.x * r.x) * r.x))))) - ((d * d) * (((p.y * p.t) * p.t) * ((((q.x * q.t) * q.t) * q.t) * ((r.y * r.z) * r.t))))) + ((d * d) * (((p.y * p.t) * p.t) * ((((q.y * q.y) * q.y) * q.z) * ((r.x * r.t) * r.t))))) - ((d * d) * (((p.y * p.t) * p.t) * ((((q.y * q.z) * q.t) * q.t) * ((r.x * r.x) * r.x))))) - ((d * d) * (((p.y * p.t) * p.t) * ((((q.y * q.z) * q.t) * q.t) * ((r.x * r.t) * r.t))))) + ((d * d) * (((p.y * p.t) * p.t) * ((((q.y * q.z) * q.t) * q.t) * ((r.y * r.z) * r.t))))) + (d * (((p.x * p.z) * p.t) * ((((q.x * q.x) * q.x) * q.t) * ((r.x * r.t) * r.t))))) + (d * (((p.x * p.z) * p.t) * ((((q.x * q.t) * q.t) * q.t) * ((r.x * r.x) * r.x))))) - (d * (((p.x * p.z) * p.t) * ((((q.x * q.t) * q.t) * q.t) * ((r.y * r.z) * r.t))))) + (d * (((p.x * p.z) * p.t) * ((((q.y * q.y) * q.y) * q.z) * ((r.x * r.t) * r.t))))) - (d * (((p.x * p.z) * p.t) * ((((q.y * q.z) * q.t) * q.t) * ((r.x * r.x) * r.x))))) - (d * (((p.x * p.z) * p.t) * ((((q.y * q.z) * q.t) * q.t) * ((r.x * r.t) * r.t))))) + (d * (((p.x * p.z) * p.t) * ((((q.y * q.z) * q.t) * q.t) * ((r.y * r.z) * r.t))))) - (d * (((p.y * p.y) * p.y) * ((((q.x * q.x) * q.x) * q.t) * ((r.x * r.t) * r.t))))) - (d * (((p.y * p.y) * p.y) * ((((q.x * q.t) * q.t) * q.t) * ((r.x * r.x) * r.x))))) + (d * (((p.y * p.y) * p.y) * ((((q.x * q.t) * q.t) * q.t) * ((r.y * r.z) * r.t))))) - (d * (((p.y * p.y) * p.y) * ((((q.y * q.y) * q.y) * q.z) * ((r.x * r.t) * r.t))))) + (d * (((p.y * p.y) * p.y) * ((((q.y * q.z) * q.t) * q.t) * ((r.x * r.x) * r.x))))) + (d * (((p.y * p.y) * p.y) * ((((q.y * q.z) * q.t) * q.t) * ((r.x * r.t) * r.t))))) - (d * (((p.y * p.y) * p.y) * ((((q.y * q.z) * q.t) * q.t) * ((r.y * r.z) * r.t))))) + (d * (((p.y * p.t) * p.t) * ((((q.x * q.x) * q.x) * q.t) * ((r.x * r.x) * r.x))))) - (d * (((p.y * p.t) * p.t) * ((((q.x * q.x) * q.x) * q.t) * ((r.y * r.z) * r.t))))) + (d * (((p.y * p.t) * p.t) * ((((q.y * q.y) * q.y) * q.z) * ((r.x * r.x) * r.x))))) - (d * (((p.y * p.t) * p.t) * ((((q.y * q.y) * q.y) * q.z) * ((r.y * r.z) * r.t))))) - (d * (((p.y * p.t) * p.t) * ((((q.y * q.z) * q.t) * q.t) * ((r.x * r.x) * r.x))))) + (d * (((p.y * p.t) * p.t) * ((((q.y * q.z) * q.t) * q.t) * ((r.y * r.z) * r.t))))) + (((p.x * p.z) * p.t) * ((((q.x * q.x) * q.x) * q.t) * ((r.x * r.x) * r.x)))) - (((p.x * p.z) * p.t) * ((((q.x * q.x) * q.x) * q.t) * ((r.y * r.z) * r.t)))) + (((p.x * p.z) * p.t) * ((((q.y * q.y) * q.y) * q.z) * ((r.x * r.x) * r.x)))) - (((p.x * p.z) * p.t) * ((((q.y * q.y) * q.y) * q.z) * ((r.y * r.z) * r.t)))) - (((p.x * p.z) * p.t) * ((((q.y * q.z) * q.t) * q.t) * ((r.x * r.x) * r.x)))) + (((p.x * p.z) * p.t) * ((((q.y * q.z) * q.t) * q.t) * ((r.y * r.z) * r.t)))) - (((p.y * p.y) * p.y) * ((((q.x * q.x) * q.x) * q.t) * ((r.x * r.x) * r.x)))) + (((p.y * p.y) * p.y) * ((((q.x * q.x) * q.x) * q.t) * ((r.y * r.z) * r.t)))) - (((p.y * p.y) * p.y) * ((((q.y * q.y) * q.y) * q.z) * ((r.x * r.x) * r.x)))) + (((p.y * p.y) * p.y) * ((((q.y * q.y) * q.y) * q.z) * ((r.y * r.z) * r.t)))) + (((p.y * p.y) * p.y) * ((((q.y * q.z) * q.t) * q.t) * ((r.x * r.x) * r.x)))) - (((p.y * p.y) * p.y) * ((((q.y * q.z) * q.t) * q.t) * ((r.y * r.z) * r.t))));
    lemma_congruent_add(s35, n35, 16 * (((p.y * p.z) * p.z) * ((((q.y * q.z) * q.z) * q.z) * ((r.x * r.z) * r.z))), 16 * (((((((((((((((((((((((((((((((((((((((((((((((d * d) * d) * (((p.y * p.t) * p.t) * ((((q.x * q.t) * q.t) * q.t) * ((r.x * r.t) * r.t)))) - (((d * d) * d) * (((p.y * p.t) * p.t) * ((((q.y * q.z) * q.t) * q.t) * ((r.x * r.t) * r.t))))) + ((d * d) * (((p.x * p.z) * p.t) * ((((q.x * q.t) * q.t) * q.t) * ((r.x * r.t) * r.t))))) - ((d * d) * (((p.x * p.z) * p.t) * ((((q.y * q.z) * q.t) * q.t) * ((r.x * r.t) * r.t))))) - ((d * d) * (((p.y * p.y) * p.y) * ((((q.x * q.t) * q.t) * q.t) * ((r.x * r.t) * r.t))))) + ((d * d) * (((p.y * p.y) * p.y) * ((((q.y * q.z) * q.t) * q.t) * ((r.x * r.t) * r.t))))) + ((d * d) * (((p.y * p.t) * p.t) * ((((q.x * q.x) * q.x) * q.t) * ((r.x * r.t) * r.t))))) + ((d * d) * (((p.y * p.t) * p.t) * ((((q.x * q.t) * q.t) * q.t) * ((r.x * r.x) * r.x))))) - ((d * d) * (((p.y * p.t) * p.t) * ((((q.x * q.t) * q.t) * q.t) * ((r.y * r.z) * r.t))))) + ((d * d) * (((p.y * p.t) * p.t) * ((((q.y * q.y) * q.y) * q.z) * ((r.x * r.t) * r.t))))) - ((d * d) * (((p.y * p.t) * p.t) * ((((q.y * q.z) * q.t) * q.t) * ((r.x * r.x) * r.x))))) - ((d * d) * (((p.y * p.t) * p.t) * ((((q.y * q.z) * q.t) * q.t) * ((r.x * r.t) * r.t))))) + ((d * d) * (((p.y * p.t) * p.t) * ((((q.y * q.z) * q.t) * q.t) * ((r.y * r.z) * r.t))))) + (d * (((p.x * p.z) * p.t) * ((((q.x * q.x) * q.x) * q.t) * ((r.x * r.t) * r.t))))) + (d * (((p.x * p.z) * p.t) * ((((q.x * q.t) * q.t) * q.t) * ((r.x * r.x) * r.x))))) - (d * (((p.x * p.z) * p.t) * ((((q.x * q.t) * q.t) * q.t) * ((r.y * r.z) * r.t))))) + (d * (((p.x * p.z) * p.t) * ((((q.y * q.y) * q.y) * q.z) * ((r.x * r.t) * r.t))))) - (d * (((p.x * p.z) * p.t) * ((((q.y * q.z) * q.t) * q.t) * ((r.x * r.x) * r.x))))) - (d * (((p.x * p.z) * p.t) * ((((q.y * q.z) * q.t) * q.t) * ((r.x * r.t) * r.t))))) + (d * (((p.x * p.z) * p.t) * ((((q.y * q.z) * q.t) * q.t) * ((r.y * r.z) * r.t))))) - (d * (((p.y * p.y) * p.y) * ((((q.x * q.x) * q.x) * q.t) * ((r.x * r.t) * r.t))))) - (d * (((p.y * p.y) * p.y) * ((((q.x * q.t) * q.t) * q.t) * ((r.x * r.x) * r.x))))) + (d * (((p.y * p.y) * p.y) * ((((q.x * q.t) * q.t) * q.t) * ((r.y * r.z) * r.t))))) - (d * (((p.y * p.y) * p.y) * ((((q.y * q.y) * q.y) * q.z) * ((r.x * r.t) * r.t))))) + (d * (((p.y * p.y) * p.y) * ((((q.y * q.z) * q.t) * q.t) * ((r.x * r.x) * r.x))))) + (d * (((p.y * p.y) * p.y) * ((((q.y * q.z) * q.t) * q.t) * ((r.x * r.t) * r.t))))) - (d * (((p.y * p.y) * p.y) * ((((q.y * q.z) * q.t) * q.t) * ((r.y * r.z) * r.t))))) + (d * (((p.y * p.t) * p.t) * ((((q.x * q.x) * q.x) * q.t) * ((r.x * r.x) * r.x))))) - (d * (((p.y * p.t) * p.t) * ((((q.x * q.x) * q.x) * q.t) * ((r.y * r.z) * r.t))))) + (d * (((p.y * p.t) * p.t) * ((((q.y * q.y) * q.y) * q.z) * ((r.x * r.x) * r.x))))) - (d * (((p.y * p.t) * p.t) * ((((q.y * q.y) * q.y) * q.z) * ((r.y * r.z) * r.t))))) - (d * (((p.y * p.t) * p.t) * ((((q.y * q.z) * q.t) * q.t) * ((r.x * r.x) * r.x))))) + (d * (((p.y * p.t) * p.t) * ((((q.y * q.z) * q.t) * q.t) * ((r.y * r.z) * r.t))))) + (((p.x * p.z) * p.t) * ((((q.x * q.x) * q.x) * q.t) * ((r.x * r.x) * r.x)))) - (((p.x * p.z) * p.t) * ((((q.x * q.x) * q.x) * q.t) * ((r.y * r.z) * r.t)))) + (((p.x * p.z) * p.t) * ((((q.y * q.y) * q.y) * q.z) * ((r.x * r.x) * r.x)))) - (((p.x * p.z) * p.t) * ((((q.y * q.y) * q.y) * q.z) * ((r.y * r.z) * r.t)))) - (((p.x * p.z) * p.t) * ((((q.y * q.z) * q.t) * q.t) * ((r.x * r.x) * r.x)))) + (((p.x * p.z) * p.t) * ((((q.y * q.z) * q.t) * q.t) * ((r.y * r.z) * r.t)))) - (((p.y * p.y) * p.y) * ((((q.x * q.x) * q.x) * q.t) * ((r.x * r.x) * r.x)))) + (((p.y * p.y) * p.y) * ((((q.x * q.x) * q.x) * q.t) * ((r.y * r.z) * r.t)))) - (((p.y * p.y) * p.y) * ((((q.y * q.y) * q.y) * q.z) * ((r.x * r.x) * r.x)))) + (((p.y * p.y) * p.y) * ((((q.y * q.y) * q.y) * q.z) * ((r.y * r.z) * r.t)))) + (((p.y * p.y) * p.y) * ((((q.y * q.z) * q.t) * q.t) * ((r.x * r.x) * r.x)))) - (((p.y * p.y) * p.y) * ((((q.y * q.z) * q.t) * q.t) * ((r.y * r.z) * r.t)))));
    assert(cross(d, p, q, r) == s36);
    assert(n36 == normal(d, p, q, r));
}

/// A part of the normal form does not change where the first and the last
/// point are exchanged.
proof fn lemma_mirror_part_1(d: int, p: Lift, q: Lift, r: Lift)
    ensures
        normal_part_1(d, r, q, p) == normal_part_1(d, p, q, r),
{
    lemma_mirror(((r.x * r.t) * r.t), (((q.x * q.t) * q.t) * q.t), ((p.y * p.t) * p.t));
    lemma_mirror(((r.x * r.t) * r.t), (((q.y * q.t) * q.t) * q.t), ((p.x * p.t) * p.t));
    lemma_mirror(((r.y * r.t) * r.t), (((q.x * q.t) * q.t) * q.t), ((p.x * p.t) * p.t));
    lemma_mirror(((r.y * r.t) * r.t), (((q.y * q.t) * q.t) * q.t), ((p.y * p.t) * p.t));
    lemma_mirror(((r.x * r.x) * r.x), (((q.x * q.t) * q.t) * q.t), ((p.y * p.t) * p.t));
    lemma_mirror(((r.x * r.x) * r.x), (((q.y * q.t) * q.t) * q.t), ((p.x * p.t) * p.t));
    lemma_mirror(((r.x * r.z) * r.t), (((q.x * q.x) * q.x) * q.t), ((p.x * p.t) * p.t));
    lemma_mirror(((r.x * r.z) * r.t), (((q.x * q.z) * q.t) * q.t), ((p.y * p.t) * p.t));
    lemma_mirror(((r.x * r.z) * r.t), (((q.x * q.t) * q.t) * q.t), ((p.x * p.t) * p.t));
    lemma_mirror(((r.x * r.z) * r.t), (((q.x * q.t) * q.t) * q.t), ((p.y * p.z) * p.t));
    lemma_mirror(((r.x * r.z) * r.t), (((q.y * q.y) * q.y) * q.t), ((p.y * p.t) * p.t));
    lemma_mirror(((r.x * r.t) * r.t), (((q.x * q.x) * q.x) * q.t), ((p.x * p.z) * p.t));
    lemma_mirror(((r.x * r.t) * r.t), (((q.x * q.t) * q.t) * q.t), ((p.x * p.z) * p.t));
    lemma_mirror(((r.x * r.t) * r.t), (((q.y * q.t) * q.t) * q.t), ((p.x * p.x) * p.x));
    lemma_mirror(((r.y * r.z) * r.t), (((q.x * q.t) * q.t) * q.t), ((p.x * p.z) * p.t));
    lemma_mirror(((r.y * r.t) * r.t), (((q.x * q.z) * q.t) * q.t), ((p.x * p.z) * p.t));
    lemma_mirror(((r.y * r.t) * r.t), (((q.x * q.t) * q.t) * q.t), ((p.x * p.x) * p.x));
    lemma_mirror(((r.y * r.t) * r.t), (((q.y * q.y) * q.y) * q.t), ((p.x * p.z) * p.t));
}

/// A part of the normal form does not change where the first and the last
/// point are exchanged.
proof fn lemma_mirror_part_2(d: int, p: Lift, q: Lift, r: Lift)
    ensures
        normal_part_2(d, r, q, p) == normal_part_2(d, p, q, r),
{
    lemma_mirror(((r.x * r.z) * r.t), (((q.y * q.z) * q.t) * q.t), ((p.x * p.t) * p.t));
    lemma_mirror(((r.x * r.z) * r.t), (((q.y * q.t) * q.t) * q.t), ((p.x * p.z) * p.t));
    lemma_mirror(((r.x * r.z) * r.t), (((q.y * q.t) * q.t) * q.t), ((p.y * p.t) * p.t));
    lemma_mirror(((r.x * r.t) * r.t), (((q.x * q.x) * q.x) * q.z), ((p.x * p.t) * p.t));
    lemma_mirror(((r.x * r.t) * r.t), (((q.x * q.x) * q.x) * q.t), ((p.y * p.t) * p.t));
    lemma_mirror(((r.x * r.t) * r.t), (((q.x * q.z) * q.t) * q.t), ((p.x * p.t) * p.t));
    lemma_mirror(((r.x * r.t) * r.t), (((q.x * q.z) * q.t) * q.t), ((p.y * p.z) * p.t));
    lemma_mirror(((r.x * r.t) * r.t), (((q.x * q.t) * q.t) * q.t), ((p.y * p.y) * p.y));
    lemma_mirror(((r.x * r.t) * r.t), (((q.y * q.y) * q.y) * q.z), ((p.y * p.t) * p.t));
    lemma_mirror(((r.x * r.t) * r.t), (((q.y * q.y) * q.y) * q.t), ((p.x * p.t) * p.t));
    lemma_mirror(((r.x * r.t) * r.t), (((q.y * q.z) * q.t) * q.t), ((p.x * p.z) * p.t));
    lemma_mirror(((r.y * r.y) * r.y), (((q.x * q.t) * q.t) * q.t), ((p.x * p.t) * p.t));
    lemma_mirror(((r.y * r.z) * r.t), (((q.x * q.z) * q.t) * q.t), ((p.x * p.t) * p.t));
    lemma_mirror(((r.y * r.t) * r.t), (((q.x * q.x) * q.x) * q.t), ((p.x * p.t) * p.t));
    lemma_mirror(((r.y * r.t) * r.t), (((q.y * q.y) * q.y) * q.z), ((p.x * p.t) * p.t));
    lemma_mirror(((r.y * r.t) * r.t), (((q.y * q.t) * q.t) * q.t), ((p.x * p.z) * p.t));
}

/// A part of the normal form does not change where the first and the last
/// point are exchanged.
proof fn lemma_mirror_part_3(d: int, p: Lift, q: Lift, r: Lift)
    ensures
        normal_part_3(d, r, q, p) == normal_part_3(d, p, q, r),
{
    lemma_mirror(((r.x * r.t) * r.t), (((q.y * q.y) * q.y) * q.t), ((p.y * p.z) * p.t));
    lemma_mirror(((r.x * r.t) * r.t), (((q.y * q.z) * q.t) * q.t), ((p.y * p.t) * p.t));
    lemma_mirror(((r.x * r.t) * r.t), (((q.y * q.t) * q.t) * q.t), ((p.y * p.z) * p.t));
    lemma_mirror(((r.y * r.y) * r.y), (((q.y * q.t) * q.t) * q.t), ((p.y * p.t) * p.t));
    lemma_mirror(((r.y * r.z) * r.t), (((q.x * q.x) * q.x) * q.t), ((p.y * p.t) * p.t));
    lemma_mirror(((r.y * r.z) * r.t), (((q.x * q.t) * q.t) * q.t), ((p.y * p.t) * p.t));
    lemma_mirror(((r.y * r.z) * r.t), (((q.y * q.y) * q.y) * q.t), ((p.x * p.t) * p.t));
    lemma_mirror(((r.y * r.z) * r.t), (((q.y * q.z) * q.t) * q.t), ((p.y * p.t) * p.t));
    lemma_mirror(((r.y * r.z) * r.t), (((q.y * q.t) * q.t) * q.t), ((p.x * p.t) * p.t));
    lemma_mirror(((r.y * r.z) * r.t), (((q.y * q.t) * q.t) * q.t), ((p.y * p.z) * p.t));
    lemma_mirror(((r.y * r.t) * r.t), (((q.x * q.x) * q.x) * q.z), ((p.y * p.t) * p.t));
    lemma_mirror(((r.y * r.t) * r.t), (((q.x * q.x) * q.x) * q.t), ((p.y * p.z) * p.t));
    lemma_mirror(((r.y * r.t) * r.t), (((q.x * q.z) * q.t) * q.t), ((p.y * p.t) * p.t));
    lemma_mirror(((r.y * r.t) * r.t), (((q.x * q.t) * q.t) * q.t), ((p.y * p.z) * p.t));
    lemma_mirror(((r.y * r.t) * r.t), (((q.y * q.z) * q.t) * q.t), ((p.x * p.t) * p.t));
    lemma_mirror(((r.y * r.t) * r.t), (((q.y * q.z) * q.t) * q.t), ((p.y * p.z) * p.t));
    lemma_mirror(((r.y * r.t) * r.t), (((q.y * q.t) * q.t) * q.t), ((p.y * p.y) * p.y));
}

/// A part of the normal form does not change where the first and the last
/// point are exchanged.
proof fn lemma_mirror_part_4(d: int, p: Lift, q: Lift, r: Lift)
    ensures
        normal_part_4(d, r, q, p) == normal_part_4(d, p, q, r),
{
    lemma_mirror(((r.y * r.t) * r.t), (((q.y * q.y) * q.y) * q.t), ((p.y * p.t) * p.t));
    lemma_mirror(((r.x * r.x) * r.x), (((q.x * q.x) * q.x) * q.z), ((p.x * p.t) * p.t));
    lemma_mirror(((r.x * r.x) * r.x), (((q.x * q.x) * q.x) * q.t), ((p.y * p.t) * p.t));
    lemma_mirror(((r.x * r.x) * r.x), (((q.x * q.z) * q.t) * q.t), ((p.x * p.x) * p.x));
    lemma_mirror(((r.x * r.x) * r.x), (((q.x * q.z) * q.t) * q.t), ((p.x * p.t) * p.t));
    lemma_mirror(((r.x * r.x) * r.x), (((q.x * q.z) * q.t) * q.t), ((p.y * p.z) * p.t));
    lemma_mirror(((r.x * r.x) * r.x), (((q.x * q.t) * q.t) * q.t), ((p.x * p.z) * p.t));
    lemma_mirror(((r.x * r.x) * r.x), (((q.x * q.t) * q.t) * q.t), ((p.y * p.y) * p.y));
    lemma_mirror(((r.x * r.x) * r.x), (((q.y * q.y) * q.y) * q.z), ((p.y * p.t) * p.t));
    lemma_mirror(((r.x * r.x) * r.x), (((q.y * q.y) * q.y) * q.t), ((p.x * p.t) * p.t));
    lemma_mirror(((r.x * r.z) * r.t), (((q.x * q.t) * q.t) * q.t), ((p.x * p.x) * p.x));
    lemma_mirror(((r.x * r.t) * r.t), (((q.x * q.x) * q.x) * q.z), ((p.x * p.x) * p.x));
    lemma_mirror(((r.x * r.t) * r.t), (((q.x * q.z) * q.t) * q.t), ((p.x * p.x) * p.x));
    lemma_mirror(((r.x * r.t) * r.t), (((q.y * q.y) * q.y) * q.t), ((p.x * p.x) * p.x));
    lemma_mirror(((r.y * r.y) * r.y), (((q.x * q.t) * q.t) * q.t), ((p.x * p.x) * p.x));
    lemma_mirror(((r.y * r.z) * r.t), (((q.x * q.z) * q.t) * q.t), ((p.x * p.x) * p.x));
    lemma_mirror(((r.y * r.t) * r.t), (((q.x * q.x) * q.x) * q.t), ((p.x * p.x) * p.x));
    lemma_mirror(((r.y * r.t) * r.t), (((q.y * q.y) * q.y) * q.z), ((p.x * p.x) * p.x));
}

/// A part of the normal form does not change where the first and the last
/// point are exchanged.
proof fn lemma_mirror_part_5(d: int, p: Lift, q: Lift, r: Lift)
    ensures
        normal_part_5(d, r, q, p) == normal_part_5(d, p, q, r),
{
    lemma_mirror(((r.x * r.x) * r.x), (((q.y * q.z) * q.t) * q.t), ((p.x * p.z) * p.t));
    lemma_mirror(((r.x * r.x) * r.x), (((q.y * q.z) * q.t) * q.t), ((p.y * p.y) * p.y));
    lemma_mirror(((r.x * r.x) * r.x), (((q.y * q.z) * q.t) * q.t), ((p.y * p.t) * p.t));
    lemma_mirror(((r.x * r.x) * r.x), (((q.y * q.t) * q.t) * q.t), ((p.x * p.x) * p.x));
    lemma_mirror(((r.x * r.x) * r.x), (((q.y * q.t) * q.t) * q.t), ((p.y * p.z) * p.t));
    lemma_mirror(((r.x * r.z) * r.t), (((q.x * q.x) * q.x) * q.z), ((p.x * p.z) * p.t));
    lemma_mirror(((r.x * r.z) * r.t), (((q.x * q.x) * q.x) * q.z), ((p.y * p.t) * p.t));
    lemma_mirror(((r.x * r.z) * r.t), (((q.x * q.x) * q.x) * q.t), ((p.x * p.t) * p.t));
    lemma_mirror(((r.x * r.z) * r.t), (((q.x * q.x) * q.x) * q.t), ((p.y * p.z) * p.t));
    lemma_mirror(((r.x * r.z) * r.t), (((q.x * q.z) * q.t) * q.t), ((p.x * p.z) * p.t));
    lemma_mirror(((r.x * r.z) * r.t), (((q.y * q.z) * q.t) * q.t), ((p.x * p.x) * p.x));
    lemma_mirror(((r.x * r.t) * r.t), (((q.x * q.x) * q.x) * q.t), ((p.x * p.z) * p.t));
    lemma_mirror(((r.y * r.y) * r.y), (((q.y * q.z) * q.t) * q.t), ((p.x * p.x) * p.x));
    lemma_mirror(((r.y * r.z) * r.t), (((q.x * q.x) * q.x) * q.t), ((p.x * p.z) * p.t));
    lemma_mirror(((r.y * r.z) * r.t), (((q.y * q.t) * q.t) * q.t), ((p.x * p.x) * p.x));
    lemma_mirror(((r.y * r.t) * r.t), (((q.x * q.x) * q.x) * q.z), ((p.x * p.z) * p.t));
    lemma_mirror(((r.y * r.t) * r.t), (((q.y * q.z) * q.t) * q.t), ((p.x * p.x) * p.x));
}

/// A part of the normal form does not change where the first and the last
/// point are exchanged.
proof fn lemma_mirror_part_6(d: int, p: Lift, q: Lift, r: Lift)
    ensures
        normal_part_6(d, r, q, p) == normal_part_6(d, p, q, r),
{
    lemma_mirror(((r.x * r.z) * r.t), (((q.x * q.z) * q.t) * q.t), ((p.y * p.y) * p.y));
    lemma_mirror(((r.x * r.z) * r.t), (((q.x * q.z) * q.t) * q.t), ((p.y * p.t) * p.t));
    lemma_mirror(((r.x * r.z) * r.t), (((q.x * q.t) * q.t) * q.t), ((p.y * p.z) * p.t));
    lemma_mirror(((r.x * r.z) * r.t), (((q.y * q.y) * q.y) * q.z), ((p.x * p.t) * p.t));
    lemma_mirror(((r.x * r.z) * r.t), (((q.y * q.y) * q.y) * q.z), ((p.y * p.z) * p.t));
    lemma_mirror(((r.x * r.z) * r.t), (((q.y * q.y) * q.y) * q.t), ((p.x * p.z) * p.t));
    lemma_mirror(((r.x * r.z) * r.t), (((q.y * q.y) * q.y) * q.t), ((p.y * p.t) * p.t));
    lemma_mirror(((r.x * r.z) * r.t), (((q.y * q.z) * q.t) * q.t), ((p.x * p.t) * p.t));
    lemma_mirror(((r.x * r.z) * r.t), (((q.y * q.z) * q.t) * q.t), ((p.y * p.z) * p.t));
    lemma_mirror(((r.x * r.z) * r.t), (((q.y * q.t) * q.t) * q.t), ((p.x * p.z) * p.t));
    lemma_mirror(((r.x * r.t) * r.t), (((q.y * q.y) * q.y) * q.z), ((p.x * p.z) * p.t));
    lemma_mirror(((r.x * r.t) * r.t), (((q.y * q.z) * q.t) * q.t), ((p.x * p.z) * p.t));
    lemma_mirror(((r.y * r.y) * r.y), (((q.x * q.z) * q.t) * q.t), ((p.x * p.z) * p.t));
    lemma_mirror(((r.y * r.z) * r.t), (((q.x * q.t) * q.t) * q.t), ((p.x * p.z) * p.t));
    lemma_mirror(((r.y * r.z) * r.t), (((q.y * q.y) * q.y) * q.z), ((p.x * p.z) * p.t));
    lemma_mirror(((r.y * r.z) * r.t), (((q.y * q.z) * q.t) * q.t), ((p.x * p.z) * p.t));
    lemma_mirror(((r.y * r.t) * r.t), (((q.x * q.z) * q.t) * q.t), ((p.x * p.z) * p.t));
    lemma_mirror(((r.y * r.t) * r.t), (((q.y * q.y) * q.y) * q.t), ((p.x * p.z) * p.t));
}

/// A part of the normal form does not change where the first and the last
/// point are exchanged.
proof fn lemma_mirror_part_7(d: int, p: Lift, q: Lift, r: Lift)
    ensures
        normal_part_7(d, r, q, p) == normal_part_7(d, p, q, r),
{
    lemma_mirror(((r.x * r.z) * r.t), (((q.y * q.t) * q.t) * q.t), ((p.y * p.y) * p.y));
    lemma_mirror(((r.x * r.t) * r.t), (((q.x * q.x) * q.x) * q.z), ((p.y * p.z) * p.t));
    lemma_mirror(((r.x * r.t) * r.t), (((q.x * q.x) * q.x) * q.t), ((p.y * p.y) * p.y));
    lemma_mirror(((r.x * r.t) * r.t), (((q.x * q.z) * q.t) * q.t), ((p.y * p.z) * p.t));
    lemma_mirror(((r.x * r.t) * r.t), (((q.y * q.y) * q.y) * q.z), ((p.y * p.y) * p.y));
    lemma_mirror(((r.x * r.t) * r.t), (((q.y * q.y) * q.y) * q.t), ((p.y * p.z) * p.t));
    lemma_mirror(((r.x * r.t) * r.t), (((q.y * q.z) * q.t) * q.t), ((p.y * p.y) * p.y));
    lemma_mirror(((r.y * r.y) * r.y), (((q.x * q.x) * q.x) * q.z), ((p.y * p.t) * p.t));
    lemma_mirror(((r.y * r.y) * r.y), (((q.x * q.x) * q.x) * q.t), ((p.x * p.t) * p.t));
    lemma_mirror(((r.y * r.y) * r.y), (((q.x * q.z) * q.t) * q.t), ((p.y * p.y) * p.y));
    lemma_mirror(((r.y * r.y) * r.y), (((q.x * q.z) * q.t) * q.t), ((p.y * p.t) * p.t));
    lemma_mirror(((r.y * r.y) * r.y), (((q.y * q.y) * q.y) * q.z), ((p.x * p.t) * p.t));
    lemma_mirror(((r.y * r.y) * r.y), (((q.y * q.z) * q.t) * q.t), ((p.x * p.t) * p.t));
    lemma_mirror(((r.y * r.y) * r.y), (((q.y * q.t) * q.t) * q.t), ((p.x * p.z) * p.t));
    lemma_mirror(((r.y * r.z) * r.t), (((q.x * q.x) * q.x) * q.z), ((p.x * p.t) * p.t));
    lemma_mirror(((r.y * r.z) * r.t), (((q.x * q.z) * q.t) * q.t), ((p.x * p.t) * p.t));
    lemma_mirror(((r.y * r.z) * r.t), (((q.y * q.y) * q.y) * q.t), ((p.x * p.t) * p.t));
    lemma_mirror(((r.y * r.t) * r.t), (((q.x * q.x) * q.x) * q.z), ((p.y * p.y) * p.y));
    lemma_mirror(((r.y * r.t) * r.t), (((q.x * q.z) * q.t) * q.t), ((p.y * p.y) * p.y));
}

/// A part of the normal form does not change where the first and the last
/// point are exchanged.
proof fn lemma_mirror_part_8(d: int, p: Lift, q: Lift, r: Lift)
    ensures
        normal_part_8(d, r, q, p) == normal_part_8(d, p, q, r),
{
    lemma_mirror(((r.y * r.y) * r.y), (((q.x * q.t) * q.t) * q.t), ((p.y * p.z) * p.t));
    lemma_mirror(((r.y * r.y) * r.y), (((q.y * q.y) * q.y) * q.t), ((p.y * p.t) * p.t));
    lemma_mirror(((r.y * r.y) * r.y), (((q.y * q.z) * q.t) * q.t), ((p.y * p.z) * p.t));
    lemma_mirror(((r.y * r.y) * r.y), (((q.y * q.t) * q.t) * q.t), ((p.y * p.y) * p.y));
    lemma_mirror(((r.y * r.z) * r.t), (((q.x * q.x) * q.x) * q.z), ((p.y * p.z) * p.t));
    lemma_mirror(((r.y * r.z) * r.t), (((q.x * q.x) * q.x) * q.t), ((p.y * p.t) * p.t));
    lemma_mirror(((r.y * r.z) * r.t), (((q.x * q.z) * q.t) * q.t), ((p.y * p.z) * p.t));
    lemma_mirror(((r.y * r.z) * r.t), (((q.x * q.t) * q.t) * q.t), ((p.y * p.y) * p.y));
    lemma_mirror(((r.y * r.z) * r.t), (((q.y * q.y) * q.y) * q.z), ((p.y * p.t) * p.t));
    lemma_mirror(((r.y * r.z) * r.t), (((q.y * q.y) * q.y) * q.t), ((p.y * p.z) * p.t));
    lemma_mirror(((r.y * r.z) * r.t), (((q.y * q.z) * q.t) * q.t), ((p.y * p.y) * p.y));
    lemma_mirror(((r.y * r.z) * r.t), (((q.y * q.z) * q.t) * q.t), ((p.y * p.t) * p.t));
    lemma_mirror(((r.y * r.t) * r.t), (((q.x * q.x) * q.x) * q.t), ((p.y * p.z) * p.t));
    lemma_mirror(((r.y * r.t) * r.t), (((q.y * q.y) * q.y) * q.z), ((p.y * p.z) * p.t));
    lemma_mirror(((r.y * r.t) * r.t), (((q.y * q.y) * q.y) * q.t), ((p.y * p.y) * p.y));
    lemma_mirror(((r.y * r.t) * r.t), (((q.y * q.z) * q.t) * q.t), ((p.y * p.z) * p.t));
}

/// A part of the normal form does not change where the first and the last
/// point are exchanged.
proof fn lemma_mirror_part_9(d: int, p: Lift, q: Lift, r: Lift)
    ensures
        normal_part_9(d, r, q, p) == normal_part_9(d, p, q, r),
{
    lemma_mirror(((r.y * r.z) * r.t), (((q.y * q.t) * q.t) * q.t), ((p.y * p.z) * p.t));
    lemma_mirror(((r.x * r.x) * r.x), (((q.x * q.x) * q.x) * q.z), ((p.x * p.x) * p.x));
    lemma_mirror(((r.x * r.x) * r.x), (((q.x * q.x) * q.x) * q.z), ((p.y * p.z) * p.t));
    lemma_mirror(((r.x * r.x) * r.x), (((q.x * q.x) * q.x) * q.t), ((p.x * p.z) * p.t));
    lemma_mirror(((r.x * r.x) * r.x), (((q.x * q.x) * q.x) * q.t), ((p.y * p.y) * p.y));
    lemma_mirror(((r.x * r.x) * r.x), (((q.x * q.z) * q.t) * q.t), ((p.x * p.x) * p.x));
    lemma_mirror(((r.x * r.x) * r.x), (((q.x * q.z) * q.t) * q.t), ((p.y * p.z) * p.t));
    lemma_mirror(((r.x * r.x) * r.x), (((q.y * q.y) * q.y) * q.z), ((p.x * p.z) * p.t));
    lemma_mirror(((r.x * r.x) * r.x), (((q.y * q.y) * q.y) * q.z), ((p.y * p.y) * p.y));
    lemma_mirror(((r.x * r.x) * r.x), (((q.y * q.y) * q.y) * q.t), ((p.x * p.x) * p.x));
    lemma_mirror(((r.x * r.z) * r.t), (((q.x * q.x) * q.x) * q.t), ((p.x * p.x) * p.x));
    lemma_mirror(((r.x * r.z) * r.t), (((q.y * q.y) * q.y) * q.z), ((p.x * p.x) * p.x));
    lemma_mirror(((r.y * r.y) * r.y), (((q.x * q.x) * q.x) * q.t), ((p.x * p.x) * p.x));
    lemma_mirror(((r.y * r.y) * r.y), (((q.y * q.y) * q.y) * q.z), ((p.x * p.x) * p.x));
    lemma_mirror(((r.y * r.z) * r.t), (((q.x * q.x) * q.x) * q.z), ((p.x * p.x) * p.x));
    lemma_mirror(((r.y * r.z) * r.t), (((q.x * q.z) * q.t) * q.t), ((p.x * p.x) * p.x));
}

/// A part of the normal form does not change where the first and the last
/// point are exchanged.
proof fn lemma_mirror_part_10(d: int, p: Lift, q: Lift, r: Lift)
    ensures
        normal_part_10(d, r, q, p) == normal_part_10(d, p, q, r),
{
    lemma_mirror(((r.x * r.x) * r.x), (((q.y * q.y) * q.y) * q.t), ((p.y * p.z) * p.t));
    lemma_mirror(((r.x * r.x) * r.x), (((q.y * q.z) * q.t) * q.t), ((p.x * p.z) * p.t));
    lemma_mirror(((r.x * r.x) * r.x), (((q.y * q.z) * q.t) * q.t), ((p.y * p.y) * p.y));
    lemma_mirror(((r.x * r.z) * r.t), (((q.x * q.x) * q.x) * q.z), ((p.x * p.z) * p.t));
    lemma_mirror(((r.x * r.z) * r.t), (((q.x * q.x) * q.x) * q.z), ((p.y * p.y) * p.y));
    lemma_mirror(((r.x * r.z) * r.t), (((q.x * q.x) * q.x) * q.t), ((p.y * p.z) * p.t));
    lemma_mirror(((r.x * r.z) * r.t), (((q.x * q.z) * q.t) * q.t), ((p.x * p.z) * p.t));
    lemma_mirror(((r.x * r.z) * r.t), (((q.x * q.z) * q.t) * q.t), ((p.y * p.y) * p.y));
    lemma_mirror(((r.x * r.z) * r.t), (((q.y * q.y) * q.y) * q.z), ((p.y * p.z) * p.t));
    lemma_mirror(((r.x * r.z) * r.t), (((q.y * q.y) * q.y) * q.t), ((p.x * p.z) * p.t));
    lemma_mirror(((r.x * r.z) * r.t), (((q.y * q.z) * q.t) * q.t), ((p.x * p.x) * p.x));
    lemma_mirror(((r.y * r.y) * r.y), (((q.x * q.x) * q.x) * q.z), ((p.x * p.z) * p.t));
    lemma_mirror(((r.y * r.y) * r.y), (((q.x * q.z) * q.t) * q.t), ((p.x * p.z) * p.t));
    lemma_mirror(((r.y * r.y) * r.y), (((q.y * q.z) * q.t) * q.t), ((p.x * p.x) * p.x));
    lemma_mirror(((r.y * r.z) * r.t), (((q.x * q.x) * q.x) * q.t), ((p.x * p.z) * p.t));
    lemma_mirror(((r.y * r.z) * r.t), (((q.y * q.y) * q.y) * q.z), ((p.x * p.z) * p.t));
    lemma_mirror(((r.y * r.z) * r.t), (((q.y * q.y) * q.y) * q.t), ((p.x * p.x) * p.x));
}

/// A part of the normal form does not change where the first and the last
/// point are exchanged.
proof fn lemma_mirror_part_11(d: int, p: Lift, q: Lift, r: Lift)
    ensures
        normal_part_11(d, r, q, p) == normal_part_11(d, p, q, r),
{
    lemma_mirror(((r.x * r.z) * r.t), (((q.y * q.y) * q.y) * q.t), ((p.y * p.y) * p.y));
    lemma_mirror(((r.x * r.z) * r.t), (((q.y * q.z) * q.t) * q.t), ((p.y * p.z) * p.t));
    lemma_mirror(((r.y * r.y) * r.y), (((q.x * q.x) * q.x) * q.z), ((p.y * p.y) * p.y));
    lemma_mirror(((r.y * r.y) * r.y), (((q.x * q.x) * q.x) * q.t), ((p.y * p.z) * p.t));
    lemma_mirror(((r.y * r.y) * r.y), (((q.x * q.z) * q.t) * q.t), ((p.y * p.y) * p.y));
    lemma_mirror(((r.y * r.y) * r.y), (((q.y * q.y) * q.y) * q.z), ((p.y * p.z) * p.t));
    lemma_mirror(((r.y * r.y) * r.y), (((q.y * q.y) * q.y) * q.t), ((p.x * p.z) * p.t));
    lemma_mirror(((r.y * r.y) * r.y), (((q.y * q.y) * q.y) * q.t), ((p.y * p.y) * p.y));
    lemma_mirror(((r.y * r.y) * r.y), (((q.y * q.z) * q.t) * q.t), ((p.y * p.z) * p.t));
    lemma_mirror(((r.y * r.z) * r.t), (((q.x * q.x) * q.x) * q.z), ((p.y * p.z) * p.t));
    lemma_mirror(((r.y * r.z) * r.t), (((q.x * q.x) * q.x) * q.t), ((p.y * p.y) * p.y));
    lemma_mirror(((r.y * r.z) * r.t), (((q.x * q.z) * q.t) * q.t), ((p.y * p.z) * p.t));
    lemma_mirror(((r.y * r.z) * r.t), (((q.y * q.y) * q.y) * q.z), ((p.y * p.y) * p.y));
    lemma_mirror(((r.y * r.z) * r.t), (((q.y * q.z) * q.t) * q.t), ((p.x * p.z) * p.t));
    lemma_mirror(((r.y * r.z) * r.t), (((q.y * q.z) * q.t) * q.t), ((p.y * p.y) * p.y));
}

/// A part of the normal form does not change where the first and the last
/// point are exchanged.
proof fn lemma_mirror_part_12(d: int, p: Lift, q: Lift, r: Lift)
    ensures
        normal_part_12(d, r, q, p) == normal_part_12(d, p, q, r),
{
    lemma_mirror(((r.y * r.z) * r.t), (((q.y * q.y) * q.y) * q.t), ((p.y * p.z) * p.t));
}

/// The normal form does not change where the first and the last point are
/// exchanged.
pub proof fn lemma_normal_mirror(d: int, p: Lift, q: Lift, r: Lift)
    ensures
        normal(d, r, q, p) == normal(d, p, q, r),
{
    lemma_mirror_part_1(d, p, q, r);
    lemma_mirror_part_2(d, p, q, r);
    lemma_mirror_part_3(d, p, q, r);
    lemma_mirror_part_4(d, p, q, r);
    lemma_mirror_part_5(d, p, q, r);
    lemma_mirror_part_6(d, p, q, r);
    lemma_mirror_part_7(d, p, q, r);
    lemma_mirror_part_8(d, p, q, r);
    lemma_mirror_part_9(d, p, q, r);
    lemma_mirror_part_10(d, p, q, r);
    lemma_mirror_part_11(d, p, q, r);
    lemma_mirror_part_12(d, p, q, r);
}

} // verus!
