//! Arithmetic for the doppio curve: the field of integers modulo the order of
//! the ristretto255 group, and the points of a twisted Edwards curve over it.
//!
//! `field` and `edwards` hold the arithmetic, and `scalar` the boundary with
//! the scalars of `curve25519-dalek`. `field_laws` and `edwards_laws` state
//! the laws that the arithmetic obeys.
//!
//! The other modules hold what the proofs rest on. For the field: `limbs`,
//! `montgomery` and `bytes` are the arithmetic on limbs; `modular` is the
//! field as mathematics; `number_theory`, `order`, `primality`, `primes`,
//! `generator` and `fermat` show that the modulus is prime and that every
//! residue but zero has an inverse. For the curve: `lift` takes coordinates
//! to integers; `closure` shows that the formulas stay on the curve,
//! `nonsquare` and `complete` that they never give Z zero, `associativity`
//! and `grouping` that addition is associative; `algebra` holds the small
//! identities that these are put together from.

pub mod algebra;
pub mod associativity;
pub mod bytes;
pub mod closure;
pub mod complete;
pub mod edwards;
pub mod edwards_laws;
pub mod fermat;
pub mod field;
pub mod field_laws;
pub mod generator;
pub mod grouping;
pub mod lift;
pub mod limbs;
pub mod modular;
pub mod montgomery;
pub mod nonsquare;
pub mod number_theory;
pub mod order;
pub mod primality;
pub mod primes;
pub mod scalar;

pub use scalar::Ristretto255Scalar;
