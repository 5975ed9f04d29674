//! The boundary with the 255-bit scalar type of `curve25519-dalek`: a field
//! element is made from a scalar's 32 bytes, and a scalar from a field
//! element's.

use crate::bytes::bytes_value;
use crate::field::FieldElement;
use crate::modular::modulus;
use curve25519_dalek::scalar::Scalar;
use vstd::prelude::*;

verus! {

#[verifier::external_type_specification]
#[verifier::external_body]
pub struct ExScalar(curve25519_dalek::scalar::Scalar);

/// The scalars of the ristretto255 group.
pub type Ristretto255Scalar = curve25519_dalek::scalar::Scalar;

/// The 32 bytes that a scalar holds, least significant first.
pub uninterp spec fn scalar_bytes(s: Scalar) -> Seq<u8>;

/// The 32 bytes that stand for a number below 256.
pub open spec fn small_bytes(x: u8) -> Seq<u8> {
    Seq::new(
        32,
        |i: int|
            if i == 0 {
                x
            } else {
                0u8
            },
    )
}

/// `Scalar::as_bytes`: a view of the 32 bytes that the scalar holds, copied
/// out here.
#[verifier::external_body]
fn scalar_as_bytes(s: &Scalar) -> (bytes: [u8; 32])
    ensures
        bytes@ == scalar_bytes(*s),
{
    *s.as_bytes()
}

/// `Scalar::from_bits`: the scalar that holds the given bytes, but for the
/// top bit of the last byte, which it clears. It does not reduce.
#[verifier::external_body]
#[allow(deprecated)]
fn scalar_from_bits(bytes: [u8; 32]) -> (s: Scalar)
    ensures
        scalar_bytes(s) == bytes@.update(31, bytes[31] & 0x7f),
{
    Scalar::from_bits(bytes)
}

/// `Scalar::from` a `u8`: the scalar whose first byte is the number and
/// whose other bytes are zero.
#[verifier::external_body]
fn scalar_from_u8(x: u8) -> (s: Scalar)
    ensures
        scalar_bytes(s) == small_bytes(x),
{
    Scalar::from(x)
}

/// Clearing the top bit of a byte below 128 changes nothing.
proof fn lemma_clear_top_bit(b: u8)
    by (bit_vector)
    requires
        b < 128,
    ensures
        b & 0x7f == b,
{
}

impl vstd::std_specs::convert::FromSpecImpl<Scalar> for FieldElement {
    open spec fn obeys_from_spec() -> bool {
        true
    }

    open spec fn from_spec(packed: Scalar) -> FieldElement {
        FieldElement::encode(bytes_value(scalar_bytes(packed)) % modulus())
    }
}

impl From<Scalar> for FieldElement {
    /// The element that stands for the number a scalar holds, reduced. A
    /// scalar holds 32 bytes.
    fn from(packed: Scalar) -> (r: FieldElement)
        ensures
            scalar_bytes(packed).len() == 32,
            r.wf(),
            r@ == bytes_value(scalar_bytes(packed)) % modulus(),
    {
        let bytes = scalar_as_bytes(&packed);
        let r = FieldElement::from_bytes(&bytes);
        proof {
            r.lemma_encode_view();
        }
        r
    }
}

impl FieldElement {
    /// The element that stands for a number below 256.
    pub fn from_u8(x: u8) -> (r: FieldElement)
        ensures
            r.wf(),
            r@ == x,
    {
        proof {
            vstd::arithmetic::div_mod::lemma_small_mod(x as nat, modulus());
        }
        FieldElement::from(scalar_from_u8(x))
    }
}

impl vstd::std_specs::convert::IntoSpecImpl<Scalar> for FieldElement {
    open spec fn obeys_into_spec() -> bool {
        false
    }

    open spec fn into_spec(self) -> Scalar {
        arbitrary()
    }
}

impl Into<Scalar> for FieldElement {
    /// The scalar that holds the residue the element stands for.
    fn into(self) -> (s: Scalar)
        ensures
            scalar_bytes(s).len() == 32,
            bytes_value(scalar_bytes(s)) == self@,
    {
        let bytes = self.to_bytes();
        proof {
            crate::modular::lemma_field_bounds(self.raw(), 0, 0);
            assert(bytes[31] < 128) by {
                assert(bytes[31] * 0x100000000000000000000000000000000000000000000000000000000000000
                    <= bytes_value(bytes@));
            }
            lemma_clear_top_bit(bytes[31]);
            assert(bytes@.update(31, bytes[31] & 0x7f) =~= bytes@);
        }
        scalar_from_bits(bytes)
    }
}

} // verus!
