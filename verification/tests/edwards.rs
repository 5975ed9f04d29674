use doppio::edwards::EdwardsPoint;
use doppio::field::FieldElement;

// a point of the curve: y = 2, and x a root of (y^2 - 1) / (d y^2 + 1)
const TEST_X: [u8; 32] = [
    186, 11, 213, 189, 252, 40, 59, 26, 25, 91, 205, 149, 106, 207, 198, 60, 55, 188, 219, 75,
    154, 123, 48, 31, 180, 73, 61, 42, 186, 74, 100, 1,
];

fn fe(n: u8) -> FieldElement {
    FieldElement::from_u8(n)
}

fn test_point() -> EdwardsPoint {
    EdwardsPoint::from_affine(FieldElement::from_bytes(&TEST_X), fe(2)).unwrap()
}

fn limbs(p: &EdwardsPoint) -> [[u64; 5]; 4] {
    let (x, y, z, t) = p.coordinates();
    [x.to_limbs(), y.to_limbs(), z.to_limbs(), t.to_limbs()]
}

/// X/Z, Y/Z and T/Z are the same for both points, and neither Z is zero.
fn same_point(p: &EdwardsPoint, q: &EdwardsPoint) -> bool {
    let (px, py, pz, pt) = p.coordinates();
    let (qx, qy, qz, qt) = q.coordinates();
    pz.to_limbs() != [0; 5]
        && qz.to_limbs() != [0; 5]
        && (px * qz).to_limbs() == (qx * pz).to_limbs()
        && (py * qz).to_limbs() == (qy * pz).to_limbs()
        && (pt * qz).to_limbs() == (qt * pz).to_limbs()
}

fn on_curve(p: &EdwardsPoint) -> bool {
    let (x, y, z, t) = p.coordinates();
    let d = FieldElement::edwards_d();
    (x * y).to_limbs() == (z * t).to_limbs()
        && (y * y - x * x).to_limbs() == (z * z + d * t * t).to_limbs()
}

#[test]
fn identity_is_zero_one_one_zero() {
    let o = EdwardsPoint::default();
    let zero = FieldElement::zero().to_limbs();
    let one = FieldElement::one().to_limbs();
    assert_eq!(limbs(&o), [zero, one, one, zero]);
    assert!(on_curve(&o));
}

#[test]
fn the_test_point_is_on_the_curve() {
    let p = test_point();
    assert!(on_curve(&p));
    assert!(!same_point(&p, &EdwardsPoint::default()));
    let (x, y, z, t) = p.coordinates();
    assert_eq!(x.to_bytes(), TEST_X);
    assert_eq!(y.to_limbs(), fe(2).to_limbs());
    assert_eq!(z.to_limbs(), FieldElement::one().to_limbs());
    assert_eq!(t.to_limbs(), (x * y).to_limbs());
}

#[test]
fn double_of_the_identity_is_the_identity() {
    let o = EdwardsPoint::default();
    let r = o.double();
    let (x, y, z, t) = r.coordinates();
    assert_eq!(x.to_limbs(), [0; 5]);
    assert_eq!(t.to_limbs(), [0; 5]);
    assert_eq!(y.to_limbs(), z.to_limbs());
    assert_ne!(z.to_limbs(), [0; 5]);
    // with the formula's values: E = 0, G = 1, F = -1, H = -1
    assert_eq!(y.to_limbs(), (-fe(1)).to_limbs());
    assert!(same_point(&r, &o));
}

#[test]
fn from_affine_takes_only_points_of_the_curve() {
    assert!(EdwardsPoint::from_affine(fe(0), fe(1)).is_some());
    assert!(EdwardsPoint::from_affine(fe(0), -fe(1)).is_some());
    assert!(EdwardsPoint::from_affine(FieldElement::from_bytes(&TEST_X), fe(2)).is_some());
    assert!(EdwardsPoint::from_affine(-FieldElement::from_bytes(&TEST_X), fe(2)).is_some());
    assert!(EdwardsPoint::from_affine(fe(0), fe(2)).is_none());
    assert!(EdwardsPoint::from_affine(fe(1), fe(2)).is_none());
    assert!(EdwardsPoint::from_affine(FieldElement::from_bytes(&TEST_X), fe(3)).is_none());
    assert_eq!(
        limbs(&EdwardsPoint::from_affine(fe(0), fe(1)).unwrap()),
        limbs(&EdwardsPoint::default())
    );
}

#[test]
fn double_by_the_formula() {
    // from (0, -1, 1, 0): A = 0, B = 1, C = 2, E = 0, G = 1, F = -1, H = -1
    let p = EdwardsPoint::from_affine(fe(0), -fe(1)).unwrap();
    assert_eq!(
        limbs(&p.double()),
        [fe(0).to_limbs(), (-fe(1)).to_limbs(), (-fe(1)).to_limbs(), fe(0).to_limbs()]
    );
    let q = test_point();
    let (x, y, z, _) = q.coordinates();
    let a = x * x;
    let b = y * y;
    let c = fe(2) * z * z;
    let e = (x + y) * (x + y) - a - b;
    let g = b - a;
    let f = g - c;
    let h = -a - b;
    assert_eq!(
        limbs(&q.double()),
        [(e * f).to_limbs(), (g * h).to_limbs(), (f * g).to_limbs(), (e * h).to_limbs()]
    );
}

#[test]
fn add_by_the_formula() {
    let p = test_point();
    let q = p.double();
    let (x1, y1, z1, t1) = p.coordinates();
    let (x2, y2, z2, t2) = q.coordinates();
    let a = (y1 - x1) * (y2 - x2);
    let b = (y1 + x1) * (y2 + x2);
    let c = FieldElement::edwards_d() * fe(2) * t1 * t2;
    let d = fe(2) * z1 * z2;
    let (e, f, g, h) = (b - a, d - c, d + c, b + a);
    assert_eq!(
        limbs(&(&p + &q)),
        [(e * f).to_limbs(), (g * h).to_limbs(), (f * g).to_limbs(), (e * h).to_limbs()]
    );
    // with the identity: (x, y, 1, t) + (0, 1, 1, 0) = (4 x, 4 y, 4, 4 x y)
    let o = EdwardsPoint::default();
    assert_eq!(
        limbs(&(&p + &o)),
        [
            (fe(4) * x1).to_limbs(),
            (fe(4) * y1).to_limbs(),
            fe(4).to_limbs(),
            (fe(4) * x1 * y1).to_limbs()
        ]
    );
}

#[test]
fn sub_by_the_formula() {
    let p = test_point();
    let q = p.double();
    let (x1, y1, z1, t1) = p.coordinates();
    let (x2, y2, z2, t2) = q.coordinates();
    let a = (y1 - x1) * (y2 + x2);
    let b = (y1 + x1) * (y2 - x2);
    let c = FieldElement::edwards_d() * fe(2) * t1 * t2;
    let d = fe(2) * z1 * z2;
    let (e, f, g, h) = (b - a, d + c, d - c, b + a);
    assert_eq!(
        limbs(&(&p - &q)),
        [(e * f).to_limbs(), (g * h).to_limbs(), (f * g).to_limbs(), (e * h).to_limbs()]
    );
}

#[test]
fn neg_negates_x_and_t() {
    let p = test_point();
    let (x, y, z, t) = p.coordinates();
    assert_eq!(
        limbs(&(-&p)),
        [(-x).to_limbs(), y.to_limbs(), z.to_limbs(), (-t).to_limbs()]
    );
    assert_eq!(limbs(&(-p)), limbs(&(-&p)));
    assert_eq!(limbs(&(-(-p))), limbs(&p));
}

#[test]
fn point_plus_its_negative_is_the_identity() {
    let base = test_point();
    let p = &(&base + &base) + &base;
    assert!(on_curve(&p));
    let r = &p + &(-&p);
    let (x, y, z, t) = r.coordinates();
    assert_eq!(x.to_limbs(), [0; 5]);
    assert_eq!(t.to_limbs(), [0; 5]);
    assert_eq!(y.to_limbs(), z.to_limbs());
    assert_ne!(z.to_limbs(), [0; 5]);
    assert!(same_point(&r, &EdwardsPoint::default()));
}

#[test]
fn group_laws_on_values() {
    let o = EdwardsPoint::default();
    let p = test_point();
    let q = p.double();
    let r = &q + &p;
    assert!(on_curve(&q));
    assert!(on_curve(&r));
    assert!(same_point(&(&p + &o), &p));
    assert!(same_point(&(&o + &p), &p));
    assert_eq!(limbs(&(&p + &q)), limbs(&(&q + &p)));
    assert!(same_point(&(&(&p + &q) + &r), &(&p + &(&q + &r))));
    assert_eq!(limbs(&(&p - &q)), limbs(&(&p + &(-&q))));
    assert!(same_point(&p.double(), &(&p + &p)));
    assert!(same_point(&(&r - &q), &p));
    assert!(!same_point(&q, &p));
}

#[test]
fn addition_is_associative_on_values() {
    let p = test_point();
    let q = p.double();
    let r = &q + &p;
    let n = -&r;
    let o = EdwardsPoint::default();
    for (a, b, c) in [(p, q, r), (r, p, q), (p, p, p), (p, n, q), (o, p, q), (p, o, n), (q, n, o)] {
        let left = &(&a + &b) + &c;
        let right = &a + &(&b + &c);
        assert!(same_point(&left, &right));
        assert!(on_curve(&left));
    }
}

#[test]
fn no_sum_has_z_zero() {
    let p = test_point();
    let q = p.double();
    let o = EdwardsPoint::default();
    for (a, b) in [(p, p), (p, q), (p, -p), (q, -q), (o, o), (o, p), (q, o)] {
        for s in [&a + &b, &a - &b, a.double(), -&b] {
            let (_, _, z, _) = s.coordinates();
            assert_ne!(z.to_limbs(), [0; 5]);
            assert!(on_curve(&s));
        }
    }
}

#[test]
fn four_times_a_point_by_two_ways() {
    let p = test_point();
    let by_doubling = p.double().double();
    let by_adding = &(&(&p + &p) + &p) + &p;
    assert!(same_point(&by_doubling, &by_adding));
    assert!(same_point(&(&by_adding - &p), &(&p.double() + &p)));
}
