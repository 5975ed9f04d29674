use doppio::Ristretto255Scalar;

#[test]
fn lib_it_works() {
    assert_eq!(2 + 2, 4);
}

#[test]
fn the_scalar_type_is_the_ristretto255_scalar() {
    let s: Ristretto255Scalar = curve25519_dalek::scalar::Scalar::from(7u8);
    assert_eq!(s.to_bytes()[0], 7);
}
