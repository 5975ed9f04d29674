//! The prime field as mathematics: the modulus, the Montgomery radix, and the
//! field operations on natural numbers.

use vstd::arithmetic::div_mod::*;
use vstd::arithmetic::power::*;
use vstd::prelude::*;

verus! {

/// The modulus: the prime 2^252 + 27742317777372353535851937790883648493.
pub open spec fn modulus() -> nat {
    0x1000000000000000000000000000000014def9dea2f79cd65812631a5cf5d3ednat
}

/// The Montgomery radix, 2^260.
pub open spec fn radix() -> nat {
    0x100000000000000000000000000000000000000000000000000000000000000000nat
}

/// The inverse of the radix modulo the modulus.
pub open spec fn radix_inverse() -> nat {
    0xc9db6c6f26fe9183614e75438ffa36bfb2697cda3adacf58e84371e098e4fc4nat
}

/// The sum of two residues.
pub open spec fn field_add(a: nat, b: nat) -> nat {
    (a + b) % modulus()
}

/// The difference of two residues.
pub open spec fn field_sub(a: nat, b: nat) -> nat {
    ((a as int - b as int) % (modulus() as int)) as nat
}

/// The additive inverse of a residue.
pub open spec fn field_neg(a: nat) -> nat {
    field_sub(0, a)
}

/// The product of two residues.
pub open spec fn field_mul(a: nat, b: nat) -> nat {
    (a * b) % modulus()
}

/// The `e`-th power of a residue.
pub open spec fn field_pow(a: nat, e: nat) -> nat {
    (pow(a as int, e) % (modulus() as int)) as nat
}

/// The power that inverts every nonzero residue, and sends zero to zero.
pub open spec fn field_inv(a: nat) -> nat {
    field_pow(a, (modulus() - 2) as nat)
}

/// The residue that a stored Montgomery representative stands for.
pub open spec fn from_montgomery(raw: nat) -> nat {
    (raw * radix_inverse()) % modulus()
}

/// The Montgomery representative of a residue.
pub open spec fn to_montgomery(a: nat) -> nat {
    (a * radix()) % modulus()
}

/// Congruent factors give congruent products.
pub proof fn lemma_mul_congruent(a: int, b: int, c: int, m: int)
    requires
        m > 0,
        a % m == b % m,
    ensures
        (a * c) % m == (b * c) % m,
{
    lemma_mul_mod_noop_left(a, c, m);
    lemma_mul_mod_noop_left(b, c, m);
}

/// The radix and its inverse multiply to one.
pub proof fn lemma_radix_inverse()
    ensures
        (radix() * radix_inverse()) % modulus() == 1,
{
}

/// Multiplying by the radix and then by its inverse changes nothing modulo
/// the modulus.
pub proof fn lemma_cancel_radix(x: int)
    ensures
        (x * radix() * radix_inverse()) % (modulus() as int) == x % (modulus() as int),
{
    let m = modulus() as int;
    let r = radix() as int;
    let k = radix_inverse() as int;
    let u = r * k;
    lemma_radix_inverse();
    assert(x * r * k == x * u) by (nonlinear_arith)
        requires
            u == r * k,
    ;
    lemma_mul_mod_noop_right(x, u, m);
}

/// Encoding after decoding gives a reduced representative back.
pub proof fn lemma_montgomery_round_trip_raw(raw: nat)
    ensures
        to_montgomery(from_montgomery(raw)) == raw % modulus(),
{
    let m = modulus() as int;
    lemma_mul_mod_noop_left((raw * radix_inverse()) as int, radix() as int, m);
    assert(raw * radix_inverse() * radix() == raw * radix() * radix_inverse());
    lemma_cancel_radix(raw as int);
}

/// Two reduced representatives of one residue are equal.
pub proof fn lemma_from_montgomery_injective(x: nat, y: nat)
    requires
        x < modulus(),
        y < modulus(),
        from_montgomery(x) == from_montgomery(y),
    ensures
        x == y,
{
    lemma_montgomery_round_trip_raw(x);
    lemma_montgomery_round_trip_raw(y);
    lemma_small_mod(x, modulus());
    lemma_small_mod(y, modulus());
}

/// The exact quotient of a Montgomery reduction: where `q * radix` is the
/// input plus a multiple of the modulus, `q` is congruent to the input times
/// the inverse of the radix.
pub proof fn lemma_montgomery_quotient(t: int, n: int, q: int)
    requires
        q * radix() == t + n * modulus(),
    ensures
        q % (modulus() as int) == (t * radix_inverse()) % (modulus() as int),
{
    let m = modulus() as int;
    let k = radix_inverse() as int;
    lemma_cancel_radix(q);
    assert(q * radix() * k == t * k + m * (n * k)) by (nonlinear_arith)
        requires
            q * radix() == t + n * m,
    ;
    lemma_mod_multiples_vanish(n * k, t * k, m);
}

/// Decoding commutes with addition.
pub proof fn lemma_from_montgomery_add(x: nat, y: nat)
    ensures
        from_montgomery((x + y) % modulus()) == field_add(from_montgomery(x), from_montgomery(y)),
{
    let m = modulus() as int;
    let k = radix_inverse() as int;
    lemma_mul_mod_noop_left((x + y) as int, k, m);
    assert((x + y) * k == x * k + y * k);
    lemma_add_mod_noop(x * k, y * k, m);
}

/// Decoding commutes with subtraction.
pub proof fn lemma_from_montgomery_sub(x: nat, y: nat)
    ensures
        from_montgomery(((x as int - y as int) % (modulus() as int)) as nat) == field_sub(
            from_montgomery(x),
            from_montgomery(y),
        ),
{
    let m = modulus() as int;
    let k = radix_inverse() as int;
    lemma_mul_mod_noop_left(x as int - y as int, k, m);
    assert((x as int - y as int) * k == x * k - y * k);
    lemma_sub_mod_noop(x * k, y * k, m);
}

/// A Montgomery product decodes to the product of what its factors decode to.
pub proof fn lemma_from_montgomery_mul(x: nat, y: nat)
    ensures
        from_montgomery(from_montgomery(x * y)) == field_mul(from_montgomery(x), from_montgomery(y)),
{
    let m = modulus() as int;
    let k = radix_inverse() as int;
    lemma_mul_mod_noop_left(x * y * k, k, m);
    assert((x * y * k) * k == (x * k) * (y * k)) by (nonlinear_arith);
    lemma_mul_mod_noop(x * k, y * k, m);
}

/// The residue of an integer.
pub open spec fn reduce(x: int) -> nat {
    (x % (modulus() as int)) as nat
}

/// A residue below the modulus is its own residue.
pub proof fn lemma_reduce_small(a: nat)
    requires
        a < modulus(),
    ensures
        reduce(a as int) == a,
{
    lemma_small_mod(a, modulus());
}

/// Integers that differ by a multiple of the modulus have one residue.
pub proof fn lemma_reduce_congruent(x: int, y: int, k: int)
    requires
        x == y + k * modulus(),
    ensures
        reduce(x) == reduce(y),
{
    let m = modulus() as int;
    assert(x == m * k + y) by (nonlinear_arith)
        requires
            x == y + k * m,
    ;
    lemma_mod_multiples_vanish(k, y, m);
}

/// The sum of two residues is the residue of the sum.
pub proof fn lemma_reduce_add(x: int, y: int)
    ensures
        field_add(reduce(x), reduce(y)) == reduce(x + y),
{
    lemma_add_mod_noop(x, y, modulus() as int);
}

/// The difference of two residues is the residue of the difference.
pub proof fn lemma_reduce_sub(x: int, y: int)
    ensures
        field_sub(reduce(x), reduce(y)) == reduce(x - y),
{
    lemma_sub_mod_noop(x, y, modulus() as int);
}

/// The negation of a residue is the residue of the negation.
pub proof fn lemma_reduce_neg(x: int)
    ensures
        field_neg(reduce(x)) == reduce(-x),
{
    lemma_sub_mod_noop_right(0, x, modulus() as int);
}

/// The product of two residues is the residue of the product.
pub proof fn lemma_reduce_mul(x: int, y: int)
    ensures
        field_mul(reduce(x), reduce(y)) == reduce(x * y),
{
    lemma_mul_mod_noop(x, y, modulus() as int);
}

/// A power of a residue is the residue of the power.
pub proof fn lemma_reduce_pow(x: int, e: nat)
    ensures
        field_pow(reduce(x), e) == reduce(pow(x, e)),
{
    lemma_pow_mod_noop(x, e, modulus() as int);
}

/// Every field operation gives a residue below the modulus.
pub proof fn lemma_field_bounds(a: nat, b: nat, e: nat)
    ensures
        field_add(a, b) < modulus(),
        field_sub(a, b) < modulus(),
        field_neg(a) < modulus(),
        field_mul(a, b) < modulus(),
        field_pow(a, e) < modulus(),
        from_montgomery(a) < modulus(),
{
}

/// One step of square-and-multiply from the low bit up: with the base
/// squared and the exponent halved, and the result multiplied by the base
/// where the exponent was odd, the result times the power is unchanged.
pub proof fn lemma_square_and_multiply(r: nat, b: nat, e: nat)
    ensures
        field_mul(
            if e % 2 == 1 {
                field_mul(r, b)
            } else {
                r % modulus()
            },
            field_pow(field_mul(b, b), e / 2),
        ) == field_mul(r, field_pow(b, e)),
{
    let h = e / 2;
    let ri = r as int;
    let bi = b as int;
    let sq = pow(bi * bi, h);
    // the power splits into the power of the square and one more factor
    lemma_square_is_pow2(bi);
    lemma_pow_multiplies(bi, 2, h);
    lemma_reduce_pow(bi * bi, h);
    assert(field_pow(field_mul(b, b), h) == reduce(sq));
    if e % 2 == 1 {
        assert(e == 2 * h + 1);
        lemma_pow_adds(bi, 2 * h, 1);
        lemma_pow1(bi);
        assert(pow(bi, e) == sq * bi);
        lemma_reduce_mul(ri * bi, sq);
        lemma_reduce_mul(ri, sq * bi);
        lemma_mul_mod_noop_right(ri, sq * bi, modulus() as int);
        assert((ri * bi) * sq == ri * (sq * bi)) by (nonlinear_arith);
    } else {
        assert(e == 2 * h);
        assert(pow(bi, e) == sq);
        lemma_reduce_mul(ri, sq);
        lemma_mul_mod_noop_right(ri, sq, modulus() as int);
    }
}

/// The square of a power is the power with the exponent doubled.
pub proof fn lemma_field_pow_double(a: nat, k: nat)
    ensures
        field_mul(field_pow(a, k), field_pow(a, k)) == field_pow(a, 2 * k),
{
    lemma_field_pow_add(a, k, k);
}

/// The product of two powers is the power with the exponents added.
pub proof fn lemma_field_pow_add(a: nat, j: nat, k: nat)
    ensures
        field_mul(field_pow(a, j), field_pow(a, k)) == field_pow(a, j + k),
{
    let ai = a as int;
    lemma_pow_adds(ai, j, k);
    lemma_reduce_mul(pow(ai, j), pow(ai, k));
}

/// The square of the radix modulo the modulus: the factor that takes a
/// number into Montgomery form.
pub open spec fn radix_squared() -> nat {
    0x9411b7c309a3dceec73d217f5be65cb687604d63c715bea69f9d265e952d13bnat
}

/// The factor that takes a number into Montgomery form is the square of
/// the radix, reduced.
pub proof fn lemma_radix_squared()
    ensures
        radix_squared() == (radix() * radix()) % modulus(),
        (radix_squared() * radix_inverse() * radix_inverse()) % modulus() == 1,
{
}

/// A Montgomery product with the square of the radix stands for the other
/// factor, reduced.
pub proof fn lemma_enter_montgomery(v: nat)
    ensures
        from_montgomery(from_montgomery(v * radix_squared())) == v % modulus(),
{
    let m = modulus() as int;
    let k = radix_inverse() as int;
    let rr = radix_squared() as int;
    let u = rr * k * k;
    lemma_radix_squared();
    lemma_mul_mod_noop_left(v * rr * k, k, m);
    assert((v * rr * k) * k == v * u) by (nonlinear_arith)
        requires
            u == rr * k * k,
    ;
    lemma_mul_mod_noop_right(v as int, u, m);
}

/// The parameter `d` of the doppio curve: -86649/86650 in the field.
pub open spec fn curve_d() -> nat {
    0x2a84588fbffedd91babc9915ffa2370f2f07621646802fb9403565f5a8d532dnat
}

/// The parameter `d` is -86649/86650: multiplied by 86650 it is -86649.
pub proof fn lemma_curve_d()
    ensures
        curve_d() < modulus(),
        field_mul(curve_d(), 86650) == field_neg(86649),
{
}

/// Subtracting a negative is adding.
pub proof fn lemma_sub_negative(a: nat, b: nat)
    ensures
        field_sub(a, field_neg(b)) == field_add(a, b),
{
    lemma_sub_mod_noop_right(a as int, -(b as int), modulus() as int);
}

/// Adding a negative is subtracting.
pub proof fn lemma_add_negative(a: nat, b: nat)
    ensures
        field_add(a, field_neg(b)) == field_sub(a, b),
{
    lemma_add_mod_noop_right(a as int, -(b as int), modulus() as int);
}

/// A product with a negative is the negative of the product.
pub proof fn lemma_mul_negative(a: nat, b: nat)
    ensures
        field_mul(a, field_neg(b)) == field_neg(field_mul(a, b)),
{
    let (x, y) = (a as int, b as int);
    let m = modulus() as int;
    lemma_mul_mod_noop_right(x, -y, m);
    lemma_sub_mod_noop_right(0, x * y, m);
    assert(x * (-y) == 0 - x * y) by (nonlinear_arith);
}

/// Integers with one residue differ by a multiple of the modulus.
pub proof fn lemma_reduce_difference(x: int, y: int) -> (k: int)
    requires
        reduce(x) == reduce(y),
    ensures
        x - y == k * modulus(),
{
    let m = modulus() as int;
    lemma_fundamental_div_mod(x, m);
    lemma_fundamental_div_mod(y, m);
    let k = x / m - y / m;
    assert(x - y == k * m) by (nonlinear_arith)
        requires
            x == m * (x / m) + x % m,
            y == m * (y / m) + y % m,
            x % m == y % m,
            k == x / m - y / m,
    ;
    k
}

/// Two integers have one residue.
pub open spec fn congruent(x: int, y: int) -> bool {
    reduce(x) == reduce(y)
}

/// Sums of congruent integers are congruent.
pub proof fn lemma_congruent_add(a: int, b: int, c: int, d: int)
    requires
        congruent(a, b),
        congruent(c, d),
    ensures
        congruent(a + c, b + d),
{
    lemma_reduce_add(a, c);
    lemma_reduce_add(b, d);
}

/// Differences of congruent integers are congruent.
pub proof fn lemma_congruent_sub(a: int, b: int, c: int, d: int)
    requires
        congruent(a, b),
        congruent(c, d),
    ensures
        congruent(a - c, b - d),
{
    lemma_reduce_sub(a, c);
    lemma_reduce_sub(b, d);
}

/// Products of congruent integers are congruent.
pub proof fn lemma_congruent_mul(a: int, b: int, c: int, d: int)
    requires
        congruent(a, b),
        congruent(c, d),
    ensures
        congruent(a * c, b * d),
{
    lemma_reduce_mul(a, c);
    lemma_reduce_mul(b, d);
}

} // verus!
