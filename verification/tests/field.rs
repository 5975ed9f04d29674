use doppio::field::FieldElement;

const L_MINUS_ONE: [u8; 32] = [
    236, 211, 245, 92, 26, 99, 18, 88, 214, 156, 247, 162, 222, 249, 222, 20, 0, 0, 0, 0, 0, 0, 0,
    0, 0, 0, 0, 0, 0, 0, 0, 16,
];

const L: [u8; 32] = [
    237, 211, 245, 92, 26, 99, 18, 88, 214, 156, 247, 162, 222, 249, 222, 20, 0, 0, 0, 0, 0, 0, 0,
    0, 0, 0, 0, 0, 0, 0, 0, 16,
];

const X1: [u8; 32] = [
    239, 205, 171, 137, 103, 69, 35, 1, 239, 205, 171, 137, 103, 69, 35, 1, 239, 205, 171, 137,
    103, 69, 35, 1, 239, 205, 171, 137, 103, 69, 35, 1,
];

const X2: [u8; 32] = [
    33, 67, 101, 135, 169, 203, 237, 15, 33, 67, 101, 135, 169, 203, 237, 15, 33, 67, 101, 135,
    169, 203, 237, 15, 33, 67, 101, 135, 169, 203, 237, 15,
];

fn small(n: u64) -> [u8; 32] {
    let mut bytes = [0u8; 32];
    bytes[..8].copy_from_slice(&n.to_le_bytes());
    bytes
}

fn fe(n: u64) -> FieldElement {
    FieldElement::from_bytes(&small(n))
}

#[test]
fn field_it_works() {
    assert_eq!(2 + 2, 4);
}

#[test]
fn sub() {
    let a = FieldElement::from_limbs([(1 << 52) - 3, 10, 0, 0, 0]).unwrap();
    let b = FieldElement::from_limbs([(1 << 52) - 1, 20, 0, 0, 0]).unwrap();
    let d = a - b;
    assert_eq!(
        d.to_limbs(),
        [0x2631a5cf5d3eb, 0xdea2f79cd6577, 0x14def9, 0x0, 0x100000000000]
    );
}

#[test]
fn sub_without_borrow() {
    let a = FieldElement::from_limbs([(1 << 52) - 3, 10, 0, 0, 0]).unwrap();
    let b = FieldElement::from_limbs([(1 << 52) - 1, 20, 0, 0, 0]).unwrap();
    assert_eq!((b - a).to_limbs(), [2, 10, 0, 0, 0]);
    assert_eq!((a - a).to_limbs(), [0, 0, 0, 0, 0]);
}

#[test]
fn add_on_limbs_carries() {
    let a = FieldElement::from_limbs([(1 << 52) - 3, 10, 0, 0, 0]).unwrap();
    let b = FieldElement::from_limbs([(1 << 52) - 1, 20, 0, 0, 0]).unwrap();
    assert_eq!((a + b).to_limbs(), [0xffffffffffffc, 0x1f, 0, 0, 0]);
}

#[test]
fn add_wraps_at_the_modulus() {
    let top = FieldElement::from_bytes(&L_MINUS_ONE);
    assert_eq!((top + fe(1)).to_bytes(), small(0));
    assert_eq!((top + fe(5)).to_bytes(), small(4));
    assert_eq!((top + top).to_bytes(), {
        let mut b = L_MINUS_ONE;
        b[0] -= 1;
        b
    });
}

#[test]
fn mul_on_limbs_is_a_montgomery_product() {
    let a = FieldElement::from_limbs([(1 << 52) - 3, 10, 0, 0, 0]).unwrap();
    let b = FieldElement::from_limbs([(1 << 52) - 1, 20, 0, 0, 0]).unwrap();
    assert_eq!(
        (a * b).to_limbs(),
        [0x128542023b0b0, 0xb788aeeadaf8e, 0xc48d2eaa63ec4, 0x6237c26f43466, 0x255646d3afc]
    );
}

#[test]
fn zero_is_all_zero_limbs() {
    assert_eq!(FieldElement::zero().to_limbs(), [0, 0, 0, 0, 0]);
    assert_eq!(FieldElement::zero().to_bytes(), small(0));
    assert_eq!(FieldElement::default().to_limbs(), [0, 0, 0, 0, 0]);
}

#[test]
fn one_is_the_radix_reduced() {
    assert_eq!(
        FieldElement::one().to_limbs(),
        [
            0x000f48bd6721e6ed,
            0x0003bab5ac67e45a,
            0x000fffffeb35e51b,
            0x000fffffffffffff,
            0x00000fffffffffff
        ]
    );
    assert_eq!(FieldElement::one().to_bytes(), small(1));
    assert_eq!(FieldElement::one().to_limbs(), fe(1).to_limbs());
}

#[test]
fn from_bytes_enters_montgomery_form() {
    assert_eq!(
        fe(5).to_limbs(),
        [0x2df498fd232ed, 0xafcce76d1dfc2, 0xfffff97b9fda0, 0xfffffffffffff, 0xfffffffffff]
    );
}

#[test]
fn from_bytes_reduces() {
    assert_eq!(FieldElement::from_bytes(&L).to_bytes(), small(0));
    assert_eq!(
        FieldElement::from_bytes(&[255u8; 32]).to_bytes(),
        [
            28, 149, 152, 141, 116, 49, 236, 214, 112, 207, 125, 115, 244, 91, 239, 198, 254, 255,
            255, 255, 255, 255, 255, 255, 255, 255, 255, 255, 255, 255, 255, 15
        ]
    );
}

#[test]
fn bytes_round_trip() {
    for bytes in [small(0), small(1), small(u64::MAX), X1, X2, L_MINUS_ONE] {
        assert_eq!(FieldElement::from_bytes(&bytes).to_bytes(), bytes);
    }
}

#[test]
fn two_plus_two_decodes_to_four() {
    let two = fe(2);
    assert_eq!((two + two).to_bytes(), small(4));
}

#[test]
fn five_times_three_decodes_to_fifteen() {
    assert_eq!((fe(5) * fe(3)).to_bytes(), small(15));
}

#[test]
fn arithmetic_on_large_values() {
    let a = FieldElement::from_bytes(&X1);
    let b = FieldElement::from_bytes(&X2);
    assert_eq!(
        (a * b).to_bytes(),
        [
            130, 225, 168, 203, 110, 57, 34, 253, 151, 215, 91, 4, 172, 2, 99, 74, 19, 66, 113,
            68, 105, 171, 218, 233, 209, 231, 84, 237, 232, 39, 231, 8
        ]
    );
    assert_eq!(
        (a + b).to_bytes(),
        [
            35, 61, 27, 180, 246, 173, 254, 184, 57, 116, 25, 110, 50, 23, 50, 252, 15, 17, 17,
            17, 17, 17, 17, 17, 16, 17, 17, 17, 17, 17, 17, 1
        ]
    );
    assert_eq!(
        (a - b).to_bytes(),
        [
            187, 94, 60, 95, 216, 220, 71, 73, 164, 39, 62, 165, 156, 115, 20, 6, 206, 138, 70,
            2, 190, 121, 53, 241, 205, 138, 70, 2, 190, 121, 53, 1
        ]
    );
    assert_eq!(
        (b - a).to_bytes(),
        [
            50, 117, 185, 253, 65, 134, 202, 14, 50, 117, 185, 253, 65, 134, 202, 14, 50, 117,
            185, 253, 65, 134, 202, 14, 50, 117, 185, 253, 65, 134, 202, 14
        ]
    );
    assert_eq!(
        (-a).to_bytes(),
        [
            254, 5, 74, 211, 178, 29, 239, 86, 231, 206, 75, 25, 119, 180, 187, 19, 17, 50, 84,
            118, 152, 186, 220, 254, 16, 50, 84, 118, 152, 186, 220, 14
        ]
    );
}

#[test]
fn neg_of_zero_is_zero() {
    assert_eq!((-FieldElement::zero()).to_limbs(), [0, 0, 0, 0, 0]);
    assert_eq!((-fe(1)).to_bytes(), L_MINUS_ONE);
}

#[test]
fn invert_gives_the_inverse() {
    let a = FieldElement::from_bytes(&X1);
    assert_eq!(
        a.invert().to_bytes(),
        [
            104, 246, 215, 184, 114, 97, 61, 83, 81, 50, 110, 99, 123, 153, 63, 199, 42, 223, 235,
            131, 139, 157, 207, 221, 106, 254, 40, 198, 244, 41, 241, 13
        ]
    );
    assert_eq!((a * a.invert()).to_bytes(), small(1));
    assert_eq!(
        fe(2).invert().to_bytes(),
        [
            247, 233, 122, 46, 141, 49, 9, 44, 107, 206, 123, 81, 239, 124, 111, 10, 0, 0, 0, 0,
            0, 0, 0, 0, 0, 0, 0, 0, 0, 0, 0, 8
        ]
    );
    assert_eq!(FieldElement::one().invert().to_bytes(), small(1));
    let top = FieldElement::from_bytes(&L_MINUS_ONE);
    assert_eq!(top.invert().to_bytes(), L_MINUS_ONE);
}

#[test]
fn invert_of_zero_is_zero() {
    assert_eq!(FieldElement::zero().invert().to_limbs(), [0, 0, 0, 0, 0]);
}

#[test]
fn from_limbs_accepts_only_reduced_bounded_limbs() {
    let top = [0x2631a5cf5d3ec, 0xdea2f79cd6581, 0x14def9, 0x0, 0x100000000000];
    assert_eq!(FieldElement::from_limbs(top).unwrap().to_limbs(), top);
    assert_eq!(FieldElement::from_limbs(top).unwrap().to_limbs(), (-FieldElement::from_limbs([1, 0, 0, 0, 0]).unwrap()).to_limbs());
    // the modulus itself
    assert!(FieldElement::from_limbs([0x2631a5cf5d3ed, 0xdea2f79cd6581, 0x14def9, 0x0, 0x100000000000]).is_none());
    assert!(FieldElement::from_limbs([0, 0, 0, 0, 0x100000000001]).is_none());
    // a limb of 52 bits and more
    assert!(FieldElement::from_limbs([1 << 52, 0, 0, 0, 0]).is_none());
    assert!(FieldElement::from_limbs([0, 0, 0, u64::MAX, 0]).is_none());
    assert!(FieldElement::from_limbs([0, 0, 0, 0, 1 << 52]).is_none());
    assert!(FieldElement::from_limbs([(1 << 52) - 1, (1 << 52) - 1, (1 << 52) - 1, (1 << 52) - 1, (1 << 44) - 1]).is_some());
}

#[test]
fn field_axioms_on_values() {
    let a = FieldElement::from_bytes(&X1);
    let b = FieldElement::from_bytes(&X2);
    let c = FieldElement::from_bytes(&L_MINUS_ONE);
    let zero = FieldElement::zero();
    let one = FieldElement::one();
    assert_eq!((a + b).to_limbs(), (b + a).to_limbs());
    assert_eq!(((a + b) + c).to_limbs(), (a + (b + c)).to_limbs());
    assert_eq!((a + zero).to_limbs(), a.to_limbs());
    assert_eq!((a + (-a)).to_limbs(), zero.to_limbs());
    assert_eq!((a * (b + c)).to_limbs(), (a * b + a * c).to_limbs());
    assert_eq!((a * one).to_limbs(), a.to_limbs());
    assert_eq!((a * b).to_limbs(), (b * a).to_limbs());
    assert_eq!(((a * b) * c).to_limbs(), (a * (b * c)).to_limbs());
    assert_eq!((c * c.invert()).to_limbs(), one.to_limbs());
    assert_eq!((a - b).to_limbs(), (a + (-b)).to_limbs());
    assert_eq!((-(-a)).to_limbs(), a.to_limbs());
}

#[test]
fn equals_compares_residues() {
    let a = FieldElement::from_bytes(&X1);
    let b = FieldElement::from_bytes(&X2);
    assert!(a.equals(&a));
    assert!(!a.equals(&b));
    assert!((a + b).equals(&(b + a)));
    assert!(!fe(1).equals(&fe(1 << 52)));
    assert!(!FieldElement::zero().equals(&FieldElement::from_limbs([0, 0, 0, 0, 1]).unwrap()));
    assert!(FieldElement::zero().equals(&FieldElement::from_bytes(&L)));
}

#[test]
fn edwards_d_is_the_curve_parameter() {
    let d = FieldElement::edwards_d();
    assert_eq!(
        d.to_bytes(),
        [
            45, 83, 141, 90, 95, 86, 3, 148, 251, 2, 104, 100, 33, 118, 240, 242, 112, 35, 250,
            95, 145, 201, 171, 27, 217, 237, 255, 251, 136, 69, 168, 2
        ]
    );
    assert_eq!((d * fe(86650)).to_bytes(), (-fe(86649)).to_bytes());
}
