//! Point arithmetic for the doppio curve.
//!
//! The curve is the twisted Edwards curve -x^2 + y^2 = 1 + d x^2 y^2 over
//! the field of `FieldElement`. A point is kept in extended coordinates
//! (X, Y, Z, T), which stand for the affine point (X/Z, Y/Z) and keep
//! X Y = Z T. The formulas are those of Hisil, Wong, Carter and Dawson for
//! a = -1; they are complete, and treat no input as a special case.

use crate::closure::{
    lemma_add_on_curve, lemma_double_on_curve, lemma_neg_on_curve, lemma_sub_on_curve,
};
use crate::complete::{lemma_add_complete, lemma_double_complete, lemma_sub_complete};
use crate::field::FieldElement;
use crate::modular::{
    curve_d, field_add, field_mul, field_neg, field_sub, lemma_reduce_mul, lemma_reduce_neg,
    lemma_reduce_small, modulus,
};
use core::ops::Neg;
use vstd::prelude::*;

verus! {

/// The four coordinates of a point, as residues.
pub struct Coordinates {
    pub x: nat,
    pub y: nat,
    pub z: nat,
    pub t: nat,
}

/// The identity of the group: (0, 1, 1, 0).
pub open spec fn identity() -> Coordinates {
    Coordinates { x: 0, y: 1, z: 1, t: 0 }
}

/// Twice the curve parameter `d`.
pub open spec fn curve_k() -> nat {
    field_mul(curve_d(), 2)
}

/// The coordinates made of the four products that end every formula.
pub open spec fn completed(e: nat, f: nat, g: nat, h: nat) -> Coordinates {
    Coordinates { x: field_mul(e, f), y: field_mul(g, h), z: field_mul(f, g), t: field_mul(e, h) }
}

/// The double of a point, by the dedicated formula.
pub open spec fn point_double(p: Coordinates) -> Coordinates {
    let a = field_mul(p.x, p.x);
    let b = field_mul(p.y, p.y);
    let c = field_mul(field_mul(2, p.z), p.z);
    let d = field_neg(a);
    let e = field_sub(
        field_sub(field_mul(field_add(p.x, p.y), field_add(p.x, p.y)), a),
        b,
    );
    let g = field_add(d, b);
    let f = field_sub(g, c);
    let h = field_sub(d, b);
    completed(e, f, g, h)
}

/// The sum of two points, by the unified formula.
pub open spec fn point_add(p: Coordinates, q: Coordinates) -> Coordinates {
    let a = field_mul(field_sub(p.y, p.x), field_sub(q.y, q.x));
    let b = field_mul(field_add(p.y, p.x), field_add(q.y, q.x));
    let c = field_mul(field_mul(curve_k(), p.t), q.t);
    let d = field_mul(field_mul(2, p.z), q.z);
    let e = field_sub(b, a);
    let f = field_sub(d, c);
    let g = field_add(d, c);
    let h = field_add(b, a);
    completed(e, f, g, h)
}

/// The difference of two points, by the fused formula.
pub open spec fn point_sub(p: Coordinates, q: Coordinates) -> Coordinates {
    let a = field_mul(field_sub(p.y, p.x), field_add(q.y, q.x));
    let b = field_mul(field_add(p.y, p.x), field_sub(q.y, q.x));
    let c = field_mul(field_mul(curve_k(), p.t), q.t);
    let d = field_mul(field_mul(2, p.z), q.z);
    let e = field_sub(b, a);
    let f = field_add(d, c);
    let g = field_sub(d, c);
    let h = field_add(b, a);
    completed(e, f, g, h)
}

/// The negative of a point.
pub open spec fn point_neg(p: Coordinates) -> Coordinates {
    Coordinates { x: field_neg(p.x), y: p.y, z: p.z, t: field_neg(p.t) }
}

/// The ratios X/Z, Y/Z and T/Z of two sets of coordinates agree.
pub open spec fn same_ratios(p: Coordinates, q: Coordinates) -> bool {
    &&& field_mul(p.x, q.z) == field_mul(q.x, p.z)
    &&& field_mul(p.y, q.z) == field_mul(q.y, p.z)
    &&& field_mul(p.t, q.z) == field_mul(q.t, p.z)
}

/// The coordinates satisfy the curve's equation, -X^2 + Y^2 = Z^2 + d T^2.
pub open spec fn on_curve(p: Coordinates) -> bool {
    field_sub(field_mul(p.y, p.y), field_mul(p.x, p.x)) == field_add(
        field_mul(p.z, p.z),
        field_mul(curve_d(), field_mul(p.t, p.t)),
    )
}

/// The extended coordinates of the affine point (x, y).
pub open spec fn affine(x: nat, y: nat) -> Coordinates {
    Coordinates { x, y, z: 1, t: field_mul(x, y) }
}

/// Four residues below the modulus with x y = z t.
pub open spec fn coordinates_wf(p: Coordinates) -> bool {
    &&& p.x < modulus()
    &&& p.y < modulus()
    &&& p.z < modulus()
    &&& p.t < modulus()
    &&& field_mul(p.x, p.y) == field_mul(p.z, p.t)
}

/// The four products that end every formula keep x y = z t.
pub proof fn lemma_completed_wf(e: nat, f: nat, g: nat, h: nat)
    ensures
        coordinates_wf(completed(e, f, g, h)),
{
    let (ei, fi, gi, hi) = (e as int, f as int, g as int, h as int);
    lemma_reduce_mul(ei * fi, gi * hi);
    lemma_reduce_mul(fi * gi, ei * hi);
    assert((ei * fi) * (gi * hi) == (fi * gi) * (ei * hi)) by (nonlinear_arith);
}

/// Negation keeps x y = z t.
pub proof fn lemma_neg_wf(p: Coordinates)
    requires
        coordinates_wf(p),
    ensures
        coordinates_wf(point_neg(p)),
{
    let (x, y, z, t) = (p.x as int, p.y as int, p.z as int, p.t as int);
    lemma_reduce_small(p.y);
    lemma_reduce_small(p.z);
    lemma_reduce_mul(-x, y);
    lemma_reduce_mul(z, -t);
    lemma_reduce_neg(x * y);
    lemma_reduce_neg(z * t);
    assert((-x) * y == -(x * y)) by (nonlinear_arith);
    assert(z * (-t) == -(z * t)) by (nonlinear_arith);
}

/// An `EdwardsPoint` represents a point on the Edwards form of the doppio
/// curve.
#[derive(Copy, Clone)]
#[allow(non_snake_case)]
pub struct EdwardsPoint {
    pub(crate) X: FieldElement,
    pub(crate) Y: FieldElement,
    pub(crate) Z: FieldElement,
    pub(crate) T: FieldElement,
}

impl View for EdwardsPoint {
    type V = Coordinates;

    /// The residues that the four coordinates stand for.
    closed spec fn view(&self) -> Coordinates {
        Coordinates { x: self.X@, y: self.Y@, z: self.Z@, t: self.T@ }
    }
}

impl EdwardsPoint {
    /// Every coordinate is well formed, X Y = Z T, the coordinates satisfy
    /// the curve's equation, and Z is not zero.
    #[verifier::type_invariant]
    pub closed spec fn wf(self) -> bool {
        &&& self.X.wf()
        &&& self.Y.wf()
        &&& self.Z.wf()
        &&& self.T.wf()
        &&& coordinates_wf(self@)
        &&& on_curve(self@)
        &&& self@.z != 0
    }

    /// What a well-formed point's coordinates satisfy.
    pub proof fn lemma_wf(self)
        requires
            self.wf(),
        ensures
            coordinates_wf(self@),
            on_curve(self@),
            self@.z != 0,
    {
    }

    /// Add this point to itself.
    pub fn double(&self) -> (r: EdwardsPoint)
        ensures
            r.wf(),
            r@ == point_double(self@),
    {
        proof {
            use_type_invariant(self);
        }
        let two = FieldElement::from_u8(2);

        let a = self.X * self.X;
        let b = self.Y * self.Y;
        let c = two * self.Z * self.Z;
        // the curve's a is -1
        let d = a.neg();
        let e = (self.X + self.Y) * (self.X + self.Y) - a - b;
        let g = d + b;
        let f = g - c;
        let h = d - b;
        proof {
            lemma_completed_wf(e@, f@, g@, h@);
            lemma_double_on_curve(self@);
            lemma_double_complete(self@);
        }
        EdwardsPoint { X: e * f, Y: g * h, Z: f * g, T: e * h }
    }

    /// The point with the given coordinates.
    pub closed spec fn encode(c: Coordinates) -> EdwardsPoint {
        EdwardsPoint {
            X: FieldElement::encode(c.x),
            Y: FieldElement::encode(c.y),
            Z: FieldElement::encode(c.z),
            T: FieldElement::encode(c.t),
        }
    }

    /// A well-formed point is the only one with its coordinates.
    pub proof fn lemma_encode_view(self)
        requires
            self.wf(),
        ensures
            EdwardsPoint::encode(self@) == self,
            coordinates_wf(self@),
    {
        self.X.lemma_encode_view();
        self.Y.lemma_encode_view();
        self.Z.lemma_encode_view();
        self.T.lemma_encode_view();
    }

    /// The four coordinates, as field elements.
    pub fn coordinates(&self) -> (c: (FieldElement, FieldElement, FieldElement, FieldElement))
        ensures
            c.0.wf() && c.1.wf() && c.2.wf() && c.3.wf(),
            self@ == (Coordinates { x: c.0@, y: c.1@, z: c.2@, t: c.3@ }),
    {
        proof {
            use_type_invariant(self);
        }
        (self.X, self.Y, self.Z, self.T)
    }

    /// The point of the curve with the affine coordinates (x, y), which is
    /// (x, y, 1, x y) in extended coordinates; no point where (x, y) does not
    /// satisfy the curve's equation.
    pub fn from_affine(x: FieldElement, y: FieldElement) -> (r: Option<EdwardsPoint>)
        ensures
            r.is_some() <==> on_curve(affine(x@, y@)),
            r matches Some(p) ==> p.wf() && p@ == affine(x@, y@),
    {
        proof {
            use_type_invariant(&x);
            use_type_invariant(&y);
            crate::modular::lemma_field_bounds(x.raw(), y.raw(), 0);
            let p = field_mul(x@, y@);
            assert(1 * p == p) by (nonlinear_arith);
            vstd::arithmetic::div_mod::lemma_small_mod(p, modulus());
        }
        let one = FieldElement::one();
        let t = x * y;
        let left = y * y - x * x;
        let right = one * one + FieldElement::edwards_d() * (t * t);
        if left.equals(&right) {
            Some(EdwardsPoint { X: x, Y: y, Z: one, T: t })
        } else {
            None
        }
    }
}

impl Default for EdwardsPoint {
    /// The identity of the group.
    fn default() -> (r: EdwardsPoint)
        ensures
            r.wf(),
            r@ == identity(),
    {
        EdwardsPoint {
            X: FieldElement::zero(),
            Y: FieldElement::one(),
            Z: FieldElement::one(),
            T: FieldElement::zero(),
        }
    }
}

impl<'a, 'b> vstd::std_specs::ops::AddSpecImpl<&'b EdwardsPoint> for &'a EdwardsPoint {
    open spec fn obeys_add_spec() -> bool {
        true
    }

    open spec fn add_req(self, other: &'b EdwardsPoint) -> bool {
        true
    }

    open spec fn add_spec(self, other: &'b EdwardsPoint) -> EdwardsPoint {
        EdwardsPoint::encode(point_add(self@, other@))
    }
}

impl<'a, 'b> core::ops::Add<&'b EdwardsPoint> for &'a EdwardsPoint {
    type Output = EdwardsPoint;

    /// The sum of two points.
    fn add(self, other: &'b EdwardsPoint) -> (r: EdwardsPoint)
        ensures
            r.wf(),
            r@ == point_add(self@, other@),
    {
        proof {
            use_type_invariant(self);
            use_type_invariant(other);
        }
        // the curve's a is -1, so k is twice d
        let two = FieldElement::from_u8(2);
        let k = FieldElement::edwards_d() * two;

        let a = (self.Y - self.X) * (other.Y - other.X);
        let b = (self.Y + self.X) * (other.Y + other.X);
        let c = k * self.T * other.T;
        let d = two * self.Z * other.Z;
        let e = b - a;
        let f = d - c;
        let g = d + c;
        let h = b + a;
        proof {
            lemma_completed_wf(e@, f@, g@, h@);
            lemma_add_on_curve(self@, other@);
            lemma_add_complete(self@, other@);
        }
        let r = EdwardsPoint { X: e * f, Y: g * h, Z: f * g, T: e * h };
        proof {
            r.lemma_encode_view();
        }
        r
    }
}

impl<'a, 'b> vstd::std_specs::ops::SubSpecImpl<&'b EdwardsPoint> for &'a EdwardsPoint {
    open spec fn obeys_sub_spec() -> bool {
        true
    }

    open spec fn sub_req(self, other: &'b EdwardsPoint) -> bool {
        true
    }

    open spec fn sub_spec(self, other: &'b EdwardsPoint) -> EdwardsPoint {
        EdwardsPoint::encode(point_sub(self@, other@))
    }
}

impl<'a, 'b> core::ops::Sub<&'b EdwardsPoint> for &'a EdwardsPoint {
    type Output = EdwardsPoint;

    /// The difference of two points: the formula of the sum, with the
    /// second point's X and T negated.
    fn sub(self, other: &'b EdwardsPoint) -> (r: EdwardsPoint)
        ensures
            r.wf(),
            r@ == point_sub(self@, other@),
    {
        proof {
            use_type_invariant(self);
            use_type_invariant(other);
        }
        // the curve's a is -1, so k is twice d
        let two = FieldElement::from_u8(2);
        let k = FieldElement::edwards_d() * two;

        let a = (self.Y - self.X) * (other.Y + other.X);
        let b = (self.Y + self.X) * (other.Y - other.X);
        let c = k * self.T * other.T;
        let d = two * self.Z * other.Z;
        let e = b - a;
        let f = d + c;
        let g = d - c;
        let h = b + a;
        proof {
            lemma_completed_wf(e@, f@, g@, h@);
            lemma_sub_on_curve(self@, other@);
            lemma_sub_complete(self@, other@);
        }
        let r = EdwardsPoint { X: e * f, Y: g * h, Z: f * g, T: e * h };
        proof {
            r.lemma_encode_view();
        }
        r
    }
}

impl<'a> vstd::std_specs::ops::NegSpecImpl for &'a EdwardsPoint {
    open spec fn obeys_neg_spec() -> bool {
        true
    }

    open spec fn neg_req(self) -> bool {
        true
    }

    open spec fn neg_spec(self) -> EdwardsPoint {
        EdwardsPoint::encode(point_neg(self@))
    }
}

impl<'a> core::ops::Neg for &'a EdwardsPoint {
    type Output = EdwardsPoint;

    /// The negative of a point.
    fn neg(self) -> (r: EdwardsPoint)
        ensures
            r.wf(),
            r@ == point_neg(self@),
    {
        proof {
            use_type_invariant(self);
            lemma_neg_wf(self@);
            lemma_neg_on_curve(self@);
        }
        let r = EdwardsPoint { X: self.X.neg(), Y: self.Y, Z: self.Z, T: self.T.neg() };
        proof {
            r.lemma_encode_view();
        }
        r
    }
}

impl vstd::std_specs::ops::NegSpecImpl for EdwardsPoint {
    open spec fn obeys_neg_spec() -> bool {
        true
    }

    open spec fn neg_req(self) -> bool {
        true
    }

    open spec fn neg_spec(self) -> EdwardsPoint {
        EdwardsPoint::encode(point_neg(self@))
    }
}

impl core::ops::Neg for EdwardsPoint {
    type Output = EdwardsPoint;

    /// The negative of a point.
    fn neg(self) -> (r: EdwardsPoint)
        ensures
            r.wf(),
            r@ == point_neg(self@),
    {
        (&self).neg()
    }
}

} // verus!
