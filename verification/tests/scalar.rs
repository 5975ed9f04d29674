use curve25519_dalek::scalar::Scalar;
use doppio::field::FieldElement;

const X1: [u8; 32] = [
    239, 205, 171, 137, 103, 69, 35, 1, 239, 205, 171, 137, 103, 69, 35, 1, 239, 205, 171, 137,
    103, 69, 35, 1, 239, 205, 171, 137, 103, 69, 35, 1,
];

const L_MINUS_ONE: [u8; 32] = [
    236, 211, 245, 92, 26, 99, 18, 88, 214, 156, 247, 162, 222, 249, 222, 20, 0, 0, 0, 0, 0, 0, 0,
    0, 0, 0, 0, 0, 0, 0, 0, 16,
];

#[test]
fn scalar_round_trip() {
    for bytes in [[0u8; 32], X1, L_MINUS_ONE] {
        let s = Scalar::from_bytes_mod_order(bytes);
        assert_eq!(s.to_bytes(), bytes);
        let f = FieldElement::from(s);
        let back: Scalar = f.into();
        assert_eq!(back, s);
        assert_eq!(back.to_bytes(), bytes);
    }
}

#[test]
fn from_scalar_reads_the_scalars_bytes() {
    let f = FieldElement::from(Scalar::from(15u8));
    let g = FieldElement::from(Scalar::from(5u8)) * FieldElement::from(Scalar::from(3u8));
    assert_eq!(f.to_limbs(), g.to_limbs());
    let mut fifteen = [0u8; 32];
    fifteen[0] = 15;
    assert_eq!(f.to_bytes(), fifteen);
    assert_eq!(FieldElement::from(Scalar::from_bytes_mod_order(X1)).to_bytes(), X1);
}

#[test]
fn into_scalar_agrees_with_scalar_arithmetic() {
    let a = Scalar::from_bytes_mod_order(X1);
    let b = Scalar::from_bytes_mod_order(L_MINUS_ONE);
    let fa = FieldElement::from(a);
    let fb = FieldElement::from(b);
    let product: Scalar = (fa * fb).into();
    let sum: Scalar = (fa + fb).into();
    let difference: Scalar = (fa - fb).into();
    assert_eq!(product, a * b);
    assert_eq!(sum, a + b);
    assert_eq!(difference, a - b);
    let inverse: Scalar = fa.invert().into();
    assert_eq!(inverse, a.invert());
}

#[test]
fn encode_two_add_decode_four() {
    let two = FieldElement::from(Scalar::from(2u8));
    let four: Scalar = (two + two).into();
    assert_eq!(four, Scalar::from(4u8));
}

#[test]
fn encode_five_and_three_multiply_decode_fifteen() {
    let five = FieldElement::from(Scalar::from(5u8));
    let three = FieldElement::from(Scalar::from(3u8));
    let fifteen: Scalar = (five * three).into();
    assert_eq!(fifteen, Scalar::from(15u8));
}

#[test]
fn from_u8_is_the_small_number() {
    for x in [0u8, 1, 2, 200, 255] {
        let mut bytes = [0u8; 32];
        bytes[0] = x;
        assert_eq!(FieldElement::from_u8(x).to_bytes(), bytes);
    }
    assert_eq!(FieldElement::from_u8(1).to_limbs(), FieldElement::one().to_limbs());
}
