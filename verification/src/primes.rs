//! The primes that the order of the field's multiplicative group is made
//! of, each with the proof that it is prime: by trial division for the
//! small ones, and for the others from prime factors of the predecessor,
//! with a witness whose powers are evaluated here bit by bit.

use crate::number_theory::{
    is_prime, lemma_prime_by_trial, lemma_prime_factor, lemma_product_divides,
};
use crate::order::{lemma_order_exists, lemma_pow_mod_divisor, lemma_pow_mod_mul, pow_mod};
use crate::primality::{
    lemma_pocklington_bound, lemma_pocklington_factor, lemma_square_start, lemma_square_step,
    square_step,
};
use vstd::arithmetic::div_mod::{lemma_fundamental_div_mod_converse, lemma_small_mod};
use vstd::prelude::*;

verus! {

/// 2 is prime.
pub proof fn lemma_prime_2()
    ensures
        is_prime(2),
{
    lemma_prime_by_trial(2, 1);
}

/// 3 is prime.
pub proof fn lemma_prime_3()
    ensures
        is_prime(3),
{
    lemma_prime_by_trial(3, 1);
}

/// 5 is prime.
pub proof fn lemma_prime_5()
    ensures
        is_prime(5),
{
    assert forall|d: int| 1 < d <= 2 implies #[trigger] (5int % d) != 0 by {
        if d == 2 {
            assert(5int % 2 != 0);
        }
    }
    lemma_prime_by_trial(5, 2);
}

/// 7 is prime.
pub proof fn lemma_prime_7()
    ensures
        is_prime(7),
{
    assert forall|d: int| 1 < d <= 2 implies #[trigger] (7int % d) != 0 by {
        if d == 2 {
            assert(7int % 2 != 0);
        }
    }
    lemma_prime_by_trial(7, 2);
}

/// 11 is prime.
pub proof fn lemma_prime_11()
    ensures
        is_prime(11),
{
    assert forall|d: int| 1 < d <= 3 implies #[trigger] (11int % d) != 0 by {
        if d == 2 {
            assert(11int % 2 != 0);
        } else if d == 3 {
            assert(11int % 3 != 0);
        }
    }
    lemma_prime_by_trial(11, 3);
}

/// 17 is prime.
pub proof fn lemma_prime_17()
    ensures
        is_prime(17),
{
    assert forall|d: int| 1 < d <= 4 implies #[trigger] (17int % d) != 0 by {
        if d == 2 {
            assert(17int % 2 != 0);
        } else if d == 3 {
            assert(17int % 3 != 0);
        } else if d == 4 {
            assert(17int % 4 != 0);
        }
    }
    lemma_prime_by_trial(17, 4);
}

/// 41 is prime.
pub proof fn lemma_prime_41()
    ensures
        is_prime(41),
{
    assert forall|d: int| 1 < d <= 6 implies #[trigger] (41int % d) != 0 by {
        if d == 2 {
            assert(41int % 2 != 0);
        } else if d == 3 {
            assert(41int % 3 != 0);
        } else if d == 4 {
            assert(41int % 4 != 0);
        } else if d == 5 {
            assert(41int % 5 != 0);
        } else if d == 6 {
            assert(41int % 6 != 0);
        }
    }
    lemma_prime_by_trial(41, 6);
}

/// 67 is prime.
pub proof fn lemma_prime_67()
    ensures
        is_prime(67),
{
    assert forall|d: int| 1 < d <= 8 implies #[trigger] (67int % d) != 0 by {
        if d == 2 {
            assert(67int % 2 != 0);
        } else if d == 3 {
            assert(67int % 3 != 0);
        } else if d == 4 {
            assert(67int % 4 != 0);
        } else if d == 5 {
            assert(67int % 5 != 0);
        } else if d == 6 {
            assert(67int % 6 != 0);
        } else if d == 7 {
            assert(67int % 7 != 0);
        } else if d == 8 {
            assert(67int % 8 != 0);
        }
    }
    lemma_prime_by_trial(67, 8);
}

/// 73 is prime.
pub proof fn lemma_prime_73()
    ensures
        is_prime(73),
{
    assert forall|d: int| 1 < d <= 8 implies #[trigger] (73int % d) != 0 by {
        if d == 2 {
            assert(73int % 2 != 0);
        } else if d == 3 {
            assert(73int % 3 != 0);
        } else if d == 4 {
            assert(73int % 4 != 0);
        } else if d == 5 {
            assert(73int % 5 != 0);
        } else if d == 6 {
            assert(73int % 6 != 0);
        } else if d == 7 {
            assert(73int % 7 != 0);
        } else if d == 8 {
            assert(73int % 8 != 0);
        }
    }
    lemma_prime_by_trial(73, 8);
}

/// 79 is prime.
pub proof fn lemma_prime_79()
    ensures
        is_prime(79),
{
    assert forall|d: int| 1 < d <= 8 implies #[trigger] (79int % d) != 0 by {
        if d == 2 {
            assert(79int % 2 != 0);
        } else if d == 3 {
            assert(79int % 3 != 0);
        } else if d == 4 {
            assert(79int % 4 != 0);
        } else if d == 5 {
            assert(79int % 5 != 0);
        } else if d == 6 {
            assert(79int % 6 != 0);
        } else if d == 7 {
            assert(79int % 7 != 0);
        } else if d == 8 {
            assert(79int % 8 != 0);
        }
    }
    lemma_prime_by_trial(79, 8);
}

/// One step of square-and-multiply modulo 2551. The power before is
/// given twice, as `s.1` and as `x`; `q` is the quotient of its square, and
/// `p` the quotient of the product with `a` that follows where the bit is
/// set.
proof fn lemma_step_2551(a: int, s: (nat, int), x: int, q: int, p: int, bit: int) -> (r: (
    nat,
    int,
))
    requires
        s.1 == pow_mod(a, s.0, 2551),
        s.1 == x,
        0 <= x * x - q * 2551 < 2551,
        bit == 0 || bit == 1,
        bit == 1 ==> 0 <= (x * x - q * 2551) * a - p * 2551 < 2551,
    ensures
        r.0 == 2 * s.0 + bit,
        r.1 == pow_mod(a, r.0, 2551),
        r.1 == if bit == 1 {
            (x * x - q * 2551) * a - p * 2551
        } else {
            x * x - q * 2551
        },
{
    lemma_square_step(a, s.0, 2551, bit, x);
    let y = x * x - q * 2551;
    lemma_fundamental_div_mod_converse(x * x, 2551, q, y);
    if bit == 1 {
        lemma_fundamental_div_mod_converse(y * a, 2551, p, y * a - p * 2551);
    }
    ((2 * s.0 + bit) as nat, square_step(x, a, 2551, bit))
}

/// The power 50 of 2 modulo 2551.
proof fn lemma_power_2551_1()
    ensures
        pow_mod(2, 50, 2551) == 1692,
{
    let s = lemma_square_start(2, 2551);
    let s = lemma_step_2551(2, s, 1, 0, 0, 1);
    let s = lemma_step_2551(2, s, 2, 0, 0, 1);
    let s = lemma_step_2551(2, s, 8, 0, 0, 0);
    let s = lemma_step_2551(2, s, 64, 1, 0, 0);
    let s = lemma_step_2551(2, s, 1545, 935, 1, 1);
    let s = lemma_step_2551(2, s, 1129, 499, 0, 0);
    assert(s.0 == 50);
}

/// The power 3 of 1692 modulo 2551.
proof fn lemma_power_2551_2()
    ensures
        pow_mod(1692, 3, 2551) == 2089,
{
    let s = lemma_square_start(1692, 2551);
    let s = lemma_step_2551(1692, s, 1, 0, 0, 1);
    let s = lemma_step_2551(1692, s, 1692, 1122, 425, 1);
    assert(s.0 == 3);
}

/// The power 17 of 2089 modulo 2551.
proof fn lemma_power_2551_3()
    ensures
        pow_mod(2089, 17, 2551) == 1,
{
    let s = lemma_square_start(2089, 2551);
    let s = lemma_step_2551(2089, s, 1, 0, 0, 1);
    let s = lemma_step_2551(2089, s, 2089, 1710, 0, 0);
    let s = lemma_step_2551(2089, s, 1711, 1147, 0, 0);
    let s = lemma_step_2551(2089, s, 1524, 910, 0, 0);
    let s = lemma_step_2551(2089, s, 1166, 532, 1985, 1);
    assert(s.0 == 17);
}

/// The power 17 of 1692 modulo 2551.
proof fn lemma_power_2551_4()
    ensures
        pow_mod(1692, 17, 2551) == 2500,
{
    let s = lemma_square_start(1692, 2551);
    let s = lemma_step_2551(1692, s, 1, 0, 0, 1);
    let s = lemma_step_2551(1692, s, 1692, 1122, 0, 0);
    let s = lemma_step_2551(1692, s, 642, 161, 0, 0);
    let s = lemma_step_2551(1692, s, 1453, 827, 0, 0);
    let s = lemma_step_2551(1692, s, 1532, 920, 68, 1);
    assert(s.0 == 17);
}

/// 2551 is prime: the product of the primes 3 and 17, of square above it,
/// divides its predecessor.
pub proof fn lemma_prime_2551()
    ensures
        is_prime(2551),
{
    lemma_prime_3();
    lemma_prime_17();
    if !is_prime(2551) {
        lemma_power_2551_1();
        lemma_power_2551_2();
        lemma_pow_mod_mul(2, 50, 3, 2551);
        assert(50 * 3 == 150);
        lemma_power_2551_3();
        lemma_pow_mod_mul(2, 150, 17, 2551);
        assert(150 * 17 == 2550);
        lemma_power_2551_1();
        lemma_power_2551_4();
        lemma_pow_mod_mul(2, 50, 17, 2551);
        assert(50 * 17 == 850);
        lemma_power_2551_1();
        lemma_power_2551_2();
        lemma_pow_mod_mul(2, 50, 3, 2551);
        assert(50 * 3 == 150);
        let p = lemma_prime_factor(2551);
        lemma_pow_mod_divisor(2, 2550, 2551, p);
        lemma_small_mod(1, p as nat);
        let d = lemma_order_exists(2, p, 2550);
        assert((2551 - 1) / 3 == 850);
        lemma_pocklington_factor(2551, 2, 3, 2500, -834, 817, p, d);
        assert((2551 - 1) / 17 == 150);
        lemma_pocklington_factor(2551, 2, 17, 2089, 1135, -929, p, d);
        lemma_product_divides(3, 17, d as int);
        assert(3 * 17 == 51);
        lemma_pocklington_bound(2551, 2, 51, p, d);
    }
}

/// One step of square-and-multiply modulo 0x12af21. The power before is
/// given twice, as `s.1` and as `x`; `q` is the quotient of its square, and
/// `p` the quotient of the product with `a` that follows where the bit is
/// set.
proof fn lemma_step_1224481(a: int, s: (nat, int), x: int, q: int, p: int, bit: int) -> (r: (
    nat,
    int,
))
    requires
        s.1 == pow_mod(a, s.0, 0x12af21),
        s.1 == x,
        0 <= x * x - q * 0x12af21 < 0x12af21,
        bit == 0 || bit == 1,
        bit == 1 ==> 0 <= (x * x - q * 0x12af21) * a - p * 0x12af21 < 0x12af21,
    ensures
        r.0 == 2 * s.0 + bit,
        r.1 == pow_mod(a, r.0, 0x12af21),
        r.1 == if bit == 1 {
            (x * x - q * 0x12af21) * a - p * 0x12af21
        } else {
            x * x - q * 0x12af21
        },
{
    lemma_square_step(a, s.0, 0x12af21, bit, x);
    let y = x * x - q * 0x12af21;
    lemma_fundamental_div_mod_converse(x * x, 0x12af21, q, y);
    if bit == 1 {
        lemma_fundamental_div_mod_converse(y * a, 0x12af21, p, y * a - p * 0x12af21);
    }
    ((2 * s.0 + bit) as nat, square_step(x, a, 0x12af21, bit))
}

/// The power 480 of 2 modulo 0x12af21.
proof fn lemma_power_1224481_1()
    ensures
        pow_mod(2, 480, 0x12af21) == 921659,
{
    let s = lemma_square_start(2, 0x12af21);
    let s = lemma_step_1224481(2, s, 1, 0, 0, 1);
    let s = lemma_step_1224481(2, s, 2, 0, 0, 1);
    let s = lemma_step_1224481(2, s, 8, 0, 0, 1);
    let s = lemma_step_1224481(2, s, 128, 0, 0, 1);
    let s = lemma_step_1224481(2, s, 32768, 876, 0, 0);
    let s = lemma_step_1224481(2, s, 0x10bb14, 981838, 0, 0);
    let s = lemma_step_1224481(2, s, 98946, 7995, 0, 0);
    let s = lemma_step_1224481(2, s, 585321, 279792, 0, 0);
    let s = lemma_step_1224481(2, s, 685089, 383302, 0, 0);
    assert(s.0 == 480);
}

/// The power 2551 of 921659 modulo 0x12af21.
proof fn lemma_power_1224481_2()
    ensures
        pow_mod(921659, 2551, 0x12af21) == 1,
{
    let s = lemma_square_start(921659, 0x12af21);
    let s = lemma_step_1224481(921659, s, 1, 0, 0, 1);
    let s = lemma_step_1224481(921659, s, 921659, 693726, 0, 0);
    let s = lemma_step_1224481(921659, s, 0xf59fb, 826625, 0, 0);
    let s = lemma_step_1224481(921659, s, 299000, 73011, 314406, 1);
    let s = lemma_step_1224481(921659, s, 0x1091f9, 963082, 701949, 1);
    let s = lemma_step_1224481(921659, s, 301728, 74349, 638370, 1);
    let s = lemma_step_1224481(921659, s, 886815, 642264, 586529, 1);
    let s = lemma_step_1224481(921659, s, 864370, 610165, 35779, 1);
    let s = lemma_step_1224481(921659, s, 354866, 102843, 0, 0);
    let s = lemma_step_1224481(921659, s, 578473, 273283, 881107, 1);
    let s = lemma_step_1224481(921659, s, 774887, 490370, 839102, 1);
    let s = lemma_step_1224481(921659, s, 75479, 4652, 597510, 1);
    assert(s.0 == 2551);
}

/// 0x12af21 is prime: the prime 2551, of square above it, divides its
/// predecessor.
pub proof fn lemma_prime_1224481()
    ensures
        is_prime(0x12af21),
{
    lemma_prime_2551();
    if !is_prime(0x12af21) {
        lemma_power_1224481_1();
        lemma_power_1224481_2();
        lemma_pow_mod_mul(2, 480, 2551, 0x12af21);
        assert(480 * 2551 == 0x12af20);
        lemma_power_1224481_1();
        let p = lemma_prime_factor(0x12af21);
        lemma_pow_mod_divisor(2, 0x12af20, 0x12af21, p);
        lemma_small_mod(1, p as nat);
        let d = lemma_order_exists(2, p, 0x12af20);
        assert((0x12af21 - 1) / 2551 == 480);
        lemma_pocklington_factor(0x12af21, 2, 2551, 921659, -123850, 93221, p, d);
        lemma_pocklington_bound(0x12af21, 2, 2551, p, d);
    }
}

/// One step of square-and-multiply modulo 3797. The power before is
/// given twice, as `s.1` and as `x`; `q` is the quotient of its square, and
/// `p` the quotient of the product with `a` that follows where the bit is
/// set.
proof fn lemma_step_3797(a: int, s: (nat, int), x: int, q: int, p: int, bit: int) -> (r: (
    nat,
    int,
))
    requires
        s.1 == pow_mod(a, s.0, 3797),
        s.1 == x,
        0 <= x * x - q * 3797 < 3797,
        bit == 0 || bit == 1,
        bit == 1 ==> 0 <= (x * x - q * 3797) * a - p * 3797 < 3797,
    ensures
        r.0 == 2 * s.0 + bit,
        r.1 == pow_mod(a, r.0, 3797),
        r.1 == if bit == 1 {
            (x * x - q * 3797) * a - p * 3797
        } else {
            x * x - q * 3797
        },
{
    lemma_square_step(a, s.0, 3797, bit, x);
    let y = x * x - q * 3797;
    lemma_fundamental_div_mod_converse(x * x, 3797, q, y);
    if bit == 1 {
        lemma_fundamental_div_mod_converse(y * a, 3797, p, y * a - p * 3797);
    }
    ((2 * s.0 + bit) as nat, square_step(x, a, 3797, bit))
}

/// The power 52 of 2 modulo 3797.
proof fn lemma_power_3797_1()
    ensures
        pow_mod(2, 52, 3797) == 3565,
{
    let s = lemma_square_start(2, 3797);
    let s = lemma_step_3797(2, s, 1, 0, 0, 1);
    let s = lemma_step_3797(2, s, 2, 0, 0, 1);
    let s = lemma_step_3797(2, s, 8, 0, 0, 0);
    let s = lemma_step_3797(2, s, 64, 1, 0, 1);
    let s = lemma_step_3797(2, s, 598, 94, 0, 0);
    let s = lemma_step_3797(2, s, 686, 123, 0, 0);
    assert(s.0 == 52);
}

/// The power 73 of 3565 modulo 3797.
proof fn lemma_power_3797_2()
    ensures
        pow_mod(3565, 73, 3797) == 1,
{
    let s = lemma_square_start(3565, 3797);
    let s = lemma_step_3797(3565, s, 1, 0, 0, 1);
    let s = lemma_step_3797(3565, s, 3565, 3347, 0, 0);
    let s = lemma_step_3797(3565, s, 666, 116, 0, 0);
    let s = lemma_step_3797(3565, s, 3104, 2537, 1715, 1);
    let s = lemma_step_3797(3565, s, 1400, 516, 0, 0);
    let s = lemma_step_3797(3565, s, 748, 147, 0, 0);
    let s = lemma_step_3797(3565, s, 1345, 476, 1552, 1);
    assert(s.0 == 73);
}

/// 3797 is prime: the prime 73, of square above it, divides its
/// predecessor.
pub proof fn lemma_prime_3797()
    ensures
        is_prime(3797),
{
    lemma_prime_73();
    if !is_prime(3797) {
        lemma_power_3797_1();
        lemma_power_3797_2();
        lemma_pow_mod_mul(2, 52, 73, 3797);
        assert(52 * 73 == 3796);
        lemma_power_3797_1();
        let p = lemma_prime_factor(3797);
        lemma_pow_mod_divisor(2, 3796, 3797, p);
        lemma_small_mod(1, p as nat);
        let d = lemma_order_exists(2, p, 3796);
        assert((3797 - 1) / 73 == 52);
        lemma_pocklington_factor(3797, 2, 73, 3565, -440, 413, p, d);
        lemma_pocklington_bound(3797, 2, 73, p, d);
    }
}

/// One step of square-and-multiply modulo 531581. The power before is
/// given twice, as `s.1` and as `x`; `q` is the quotient of its square, and
/// `p` the quotient of the product with `a` that follows where the bit is
/// set.
proof fn lemma_step_531581(a: int, s: (nat, int), x: int, q: int, p: int, bit: int) -> (r: (
    nat,
    int,
))
    requires
        s.1 == pow_mod(a, s.0, 531581),
        s.1 == x,
        0 <= x * x - q * 531581 < 531581,
        bit == 0 || bit == 1,
        bit == 1 ==> 0 <= (x * x - q * 531581) * a - p * 531581 < 531581,
    ensures
        r.0 == 2 * s.0 + bit,
        r.1 == pow_mod(a, r.0, 531581),
        r.1 == if bit == 1 {
            (x * x - q * 531581) * a - p * 531581
        } else {
            x * x - q * 531581
        },
{
    lemma_square_step(a, s.0, 531581, bit, x);
    let y = x * x - q * 531581;
    lemma_fundamental_div_mod_converse(x * x, 531581, q, y);
    if bit == 1 {
        lemma_fundamental_div_mod_converse(y * a, 531581, p, y * a - p * 531581);
    }
    ((2 * s.0 + bit) as nat, square_step(x, a, 531581, bit))
}

/// The power 140 of 2 modulo 531581.
proof fn lemma_power_531581_1()
    ensures
        pow_mod(2, 140, 531581) == 32301,
{
    let s = lemma_square_start(2, 531581);
    let s = lemma_step_531581(2, s, 1, 0, 0, 1);
    let s = lemma_step_531581(2, s, 2, 0, 0, 0);
    let s = lemma_step_531581(2, s, 4, 0, 0, 0);
    let s = lemma_step_531581(2, s, 16, 0, 0, 0);
    let s = lemma_step_531581(2, s, 256, 0, 0, 1);
    let s = lemma_step_531581(2, s, 131072, 32318, 0, 1);
    let s = lemma_step_531581(2, s, 468852, 413525, 0, 0);
    let s = lemma_step_531581(2, s, 164879, 51140, 0, 0);
    assert(s.0 == 140);
}

/// The power 3797 of 32301 modulo 531581.
proof fn lemma_power_531581_2()
    ensures
        pow_mod(32301, 3797, 531581) == 1,
{
    let s = lemma_square_start(32301, 531581);
    let s = lemma_step_531581(32301, s, 1, 0, 0, 1);
    let s = lemma_step_531581(32301, s, 32301, 1962, 23860, 1);
    let s = lemma_step_531581(32301, s, 401719, 303581, 16005, 1);
    let s = lemma_step_531581(32301, s, 129495, 31545, 0, 0);
    let s = lemma_step_531581(32301, s, 232380, 101584, 20665, 1);
    let s = lemma_step_531581(32301, s, 319531, 192068, 21902, 1);
    let s = lemma_step_531581(32301, s, 305291, 175330, 0, 0);
    let s = lemma_step_531581(32301, s, 497951, 466448, 18479, 1);
    let s = lemma_step_531581(32301, s, 68714, 8882, 0, 0);
    let s = lemma_step_531581(32301, s, 111354, 23326, 3336, 1);
    let s = lemma_step_531581(32301, s, 293694, 162263, 0, 0);
    let s = lemma_step_531581(32301, s, 237833, 106408, 3940, 1);
    assert(s.0 == 3797);
}

/// 531581 is prime: the prime 3797, of square above it, divides its
/// predecessor.
pub proof fn lemma_prime_531581()
    ensures
        is_prime(531581),
{
    lemma_prime_3797();
    if !is_prime(531581) {
        lemma_power_531581_1();
        lemma_power_531581_2();
        lemma_pow_mod_mul(2, 140, 3797, 531581);
        assert(140 * 3797 == 531580);
        lemma_power_531581_1();
        let p = lemma_prime_factor(531581);
        lemma_pow_mod_divisor(2, 531580, 531581, p);
        lemma_small_mod(1, p as nat);
        let d = lemma_order_exists(2, p, 531580);
        assert((531581 - 1) / 3797 == 140);
        lemma_pocklington_factor(531581, 2, 3797, 32301, 50673, -3079, p, d);
        lemma_pocklington_bound(531581, 2, 3797, p, d);
    }
}

/// One step of square-and-multiply modulo 0x477be711ecedd. The power before is
/// given twice, as `s.1` and as `x`; `q` is the quotient of its square, and
/// `p` the quotient of the product with `a` that follows where the bit is
/// set.
proof fn lemma_step_of_51_bits(a: int, s: (nat, int), x: int, q: int, p: int, bit: int) -> (r: (
    nat,
    int,
))
    requires
        s.1 == pow_mod(a, s.0, 0x477be711eceddint),
        s.1 == x,
        0 <= x * x - q * 0x477be711eceddint < 0x477be711eceddint,
        bit == 0 || bit == 1,
        bit == 1 ==> 0 <= (x * x - q * 0x477be711eceddint) * a - p * 0x477be711eceddint < 0x477be711eceddint,
    ensures
        r.0 == 2 * s.0 + bit,
        r.1 == pow_mod(a, r.0, 0x477be711eceddint),
        r.1 == if bit == 1 {
            (x * x - q * 0x477be711eceddint) * a - p * 0x477be711eceddint
        } else {
            x * x - q * 0x477be711eceddint
        },
{
    lemma_square_step(a, s.0, 0x477be711eceddint, bit, x);
    let y = x * x - q * 0x477be711eceddint;
    lemma_fundamental_div_mod_converse(x * x, 0x477be711eceddint, q, y);
    if bit == 1 {
        lemma_fundamental_div_mod_converse(y * a, 0x477be711eceddint, p, y * a - p * 0x477be711eceddint);
    }
    ((2 * s.0 + bit) as nat, square_step(x, a, 0x477be711eceddint, bit))
}

/// The power 1932 of 2 modulo 0x477be711ecedd.
proof fn lemma_power_of_51_bits_1()
    ensures
        pow_mod(2, 1932, 0x477be711eceddint) == 0x32eee2b5f3cd5int,
{
    let s = lemma_square_start(2, 0x477be711eceddint);
    let s = lemma_step_of_51_bits(2, s, 1, 0, 0, 1);
    let s = lemma_step_of_51_bits(2, s, 2, 0, 0, 1);
    let s = lemma_step_of_51_bits(2, s, 8, 0, 0, 1);
    let s = lemma_step_of_51_bits(2, s, 128, 0, 0, 1);
    let s = lemma_step_of_51_bits(2, s, 32768, 0, 0, 0);
    let s = lemma_step_of_51_bits(2, s, 0x40000000, 916, 0, 0);
    let s = lemma_step_of_51_bits(2, s, 0x38a933dc3d13cint, 0x2ce960d356a9fint, 0, 0);
    let s = lemma_step_of_51_bits(2, s, 0x1a0e7f3e008cdint, 0x97f7673f9c7bint, 0, 1);
    let s = lemma_step_of_51_bits(2, s, 0xe681439cc7f4int, 0x2e7475510be0int, 1, 1);
    let s = lemma_step_of_51_bits(2, s, 0x1c3921470b183int, 0xb249c6a0939cint, 0, 0);
    let s = lemma_step_of_51_bits(2, s, 0x1577d6e07735dint, 0x67283a6cdd84int, 0, 0);
    assert(s.0 == 1932);
}

/// The first 16 bits of the exponent of the same power.
proof fn lemma_power_of_51_bits_2_part_1()
    ensures
        pow_mod(0x32eee2b5f3cd5int, 38265, 0x477be711eceddint) == 0x2e177d63705a7int,
{
    let s = lemma_square_start(0x32eee2b5f3cd5int, 0x477be711eceddint);
    let s = lemma_step_of_51_bits(0x32eee2b5f3cd5int, s, 1, 0, 0, 1);
    let s = lemma_step_of_51_bits(0x32eee2b5f3cd5int, s, 0x32eee2b5f3cd5int, 0x244a5a1e88567int, 0, 0);
    let s = lemma_step_of_51_bits(0x32eee2b5f3cd5int, s, 0x3bf0fc8647d4eint, 0x3243349e50f72int, 0, 0);
    let s = lemma_step_of_51_bits(0x32eee2b5f3cd5int, s, 0x27f5dc3bd325aint, 0x16569ca7bed64int, 0x2c2e7e0ddf4e6int, 1);
    let s = lemma_step_of_51_bits(0x32eee2b5f3cd5int, s, 0x17f653babe402int, 0x8084b1adb414int, 0, 0);
    let s = lemma_step_of_51_bits(0x32eee2b5f3cd5int, s, 0x368e0398b02c0int, 0x29a2808235c86int, 0x246f37b521052int, 1);
    let s = lemma_step_of_51_bits(0x32eee2b5f3cd5int, s, 0x3eb77f4ea7570int, 0x37065bd70837bint, 0, 0);
    let s = lemma_step_of_51_bits(0x32eee2b5f3cd5int, s, 0x40ef09f4715d1int, 0x3afbd4869a14bint, 0x27227ee117ca3int, 1);
    let s = lemma_step_of_51_bits(0x32eee2b5f3cd5int, s, 0x240c8a79b7d53int, 0x122de71c07b4aint, 0, 0);
    let s = lemma_step_of_51_bits(0x32eee2b5f3cd5int, s, 0x1422c16d02e07int, 0x5ac00a61afebint, 0x2bfee46d663f2int, 1);
    let s = lemma_step_of_51_bits(0x32eee2b5f3cd5int, s, 0x2f5073580f450int, 0x1f510ff03edcdint, 0x11034cb16d751int, 1);
    let s = lemma_step_of_51_bits(0x32eee2b5f3cd5int, s, 0x2c06be7a6a7e6int, 0x1b1d8c8e4ea3cint, 0x2b9cd3681141int, 1);
    let s = lemma_step_of_51_bits(0x32eee2b5f3cd5int, s, 0xdbf35d86549bint, 0x2a4c5590109aint, 0x28958ab24030int, 1);
    let s = lemma_step_of_51_bits(0x32eee2b5f3cd5int, s, 0xd506cd73ec3int, 0x27ad4f7d2dint, 0, 0);
    let s = lemma_step_of_51_bits(0x32eee2b5f3cd5int, s, 0x41220e64dc2b0int, 0x3b58a84bd2364int, 0, 0);
    let s = lemma_step_of_51_bits(0x32eee2b5f3cd5int, s, 0x1430cde7533acint, 0x5b3ed897280bint, 0x2e81478caab96int, 1);
    assert(s.0 == 38265);
}

/// The power 0x12af21 of 0x32eee2b5f3cd5 modulo 0x477be711ecedd.
proof fn lemma_power_of_51_bits_2()
    ensures
        pow_mod(0x32eee2b5f3cd5int, 0x12af21, 0x477be711eceddint) == 0x40cae279246b8int,
{
    lemma_power_of_51_bits_2_part_1();
    let s = (38265nat, 0x2e177d63705a7int);
    let s = lemma_step_of_51_bits(0x32eee2b5f3cd5int, s, 0x2e177d63705a7int, 0x1db8202e388b2int, 0, 0);
    let s = lemma_step_of_51_bits(0x32eee2b5f3cd5int, s, 0xc2dc7499b547int, 0x2132e158aa36int, 0, 0);
    let s = lemma_step_of_51_bits(0x32eee2b5f3cd5int, s, 0x342bedc651513int, 0x2613a3712f397int, 0, 0);
    let s = lemma_step_of_51_bits(0x32eee2b5f3cd5int, s, 0x463f34ca8540eint, 0x4507fd9378402int, 0, 0);
    let s = lemma_step_of_51_bits(0x32eee2b5f3cd5int, s, 0x8abf32969f0aint, 0x10d4cfd60cc8int, 0xdc8daf0b8a44int, 1);
    assert(s.0 == 0x12af21);
}

/// The first 16 bits of the exponent of the same power.
proof fn lemma_power_of_51_bits_3_part_1()
    ensures
        pow_mod(0x40cae279246b8int, 33223, 0x477be711eceddint) == 0xad96da33daa0int,
{
    let s = lemma_square_start(0x40cae279246b8int, 0x477be711eceddint);
    let s = lemma_step_of_51_bits(0x40cae279246b8int, s, 1, 0, 0, 1);
    let s = lemma_step_of_51_bits(0x40cae279246b8int, s, 0x40cae279246b8int, 0x3aba380d44c07int, 0, 0);
    let s = lemma_step_of_51_bits(0x40cae279246b8int, s, 0x40ccdc123e035int, 0x3abdcca57b0bdint, 0, 0);
    let s = lemma_step_of_51_bits(0x40cae279246b8int, s, 0xaefb9bc921d0int, 0x1ac55666fc61int, 0, 0);
    let s = lemma_step_of_51_bits(0x40cae279246b8int, s, 0x2567f22bb5b43int, 0x1392e308aca7bint, 0, 0);
    let s = lemma_step_of_51_bits(0x40cae279246b8int, s, 0x1edf8a440ed5aint, 0xd5575353e9c0int, 0, 0);
    let s = lemma_step_of_51_bits(0x40cae279246b8int, s, 0x3c6ff3f0678e4int, 0x331904325fa09int, 0, 0);
    let s = lemma_step_of_51_bits(0x40cae279246b8int, s, 0x472d04ebc734bint, 0x46de79d21a219int, 0x1e37cce7d3f68int, 1);
    let s = lemma_step_of_51_bits(0x40cae279246b8int, s, 0x4527fb76e6318int, 0x42e777b2e7010int, 0x1b889908697f3int, 1);
    let s = lemma_step_of_51_bits(0x40cae279246b8int, s, 0x3c6cf83fd99b9int, 0x3313f8f92d89aint, 0x265d19cc1ee5bint, 1);
    let s = lemma_step_of_51_bits(0x40cae279246b8int, s, 0x10b60532554b9int, 0x3e815c106f96int, 0, 0);
    let s = lemma_step_of_51_bits(0x40cae279246b8int, s, 0x306dd91f4e533int, 0x20cf508679c6fint, 0, 0);
    let s = lemma_step_of_51_bits(0x40cae279246b8int, s, 0x2ac188716ea56int, 0x1992bd44db26eint, 0, 0);
    let s = lemma_step_of_51_bits(0x40cae279246b8int, s, 0x171258dbdc7eeint, 0x7724a724e9d0int, 0x3ad7254eeeec5int, 1);
    let s = lemma_step_of_51_bits(0x40cae279246b8int, s, 0xebc93265d34fint, 0x309ba010f90eint, 0x2b7c6c630c9baint, 1);
    let s = lemma_step_of_51_bits(0x40cae279246b8int, s, 0x257fb748c3e56int, 0x13abcb5b367b2int, 0x4ecbf6569e50int, 1);
    assert(s.0 == 33223);
}

/// The power 531581 of 0x40cae279246b8 modulo 0x477be711ecedd.
proof fn lemma_power_of_51_bits_3()
    ensures
        pow_mod(0x40cae279246b8int, 531581, 0x477be711eceddint) == 1,
{
    lemma_power_of_51_bits_3_part_1();
    let s = (33223nat, 0xad96da33daa0int);
    let s = lemma_step_of_51_bits(0x40cae279246b8int, s, 0xad96da33daa0int, 0x1a589c6bfc46int, 0x2b56848daaae1int, 1);
    let s = lemma_step_of_51_bits(0x40cae279246b8int, s, 0x3ec1cf3c8cab3int, 0x371875a249c4cint, 0x1169ce92f50bfint, 1);
    let s = lemma_step_of_51_bits(0x40cae279246b8int, s, 0x1cec7b61b475int, 0xbb3fdd45e8int, 0, 0);
    let s = lemma_step_of_51_bits(0x40cae279246b8int, s, 0x32766e468b431int, 0x239f7e7b6138aint, 0x159529cc86a73int, 1);
    assert(s.0 == 531581);
}

/// The first 16 bits of the exponent of the same power.
proof fn lemma_power_of_51_bits_4_part_1()
    ensures
        pow_mod(0x32eee2b5f3cd5int, 33223, 0x477be711eceddint) == 0x1e68f4d6a2c54int,
{
    let s = lemma_square_start(0x32eee2b5f3cd5int, 0x477be711eceddint);
    let s = lemma_step_of_51_bits(0x32eee2b5f3cd5int, s, 1, 0, 0, 1);
    let s = lemma_step_of_51_bits(0x32eee2b5f3cd5int, s, 0x32eee2b5f3cd5int, 0x244a5a1e88567int, 0, 0);
    let s = lemma_step_of_51_bits(0x32eee2b5f3cd5int, s, 0x3bf0fc8647d4eint, 0x3243349e50f72int, 0, 0);
    let s = lemma_step_of_51_bits(0x32eee2b5f3cd5int, s, 0x27f5dc3bd325aint, 0x16569ca7bed64int, 0, 0);
    let s = lemma_step_of_51_bits(0x32eee2b5f3cd5int, s, 0x3e0220310e050int, 0x35c9e6f2e44e0int, 0, 0);
    let s = lemma_step_of_51_bits(0x32eee2b5f3cd5int, s, 0x2d74e85ee63a0int, 0x1ce7e8cc34673int, 0, 0);
    let s = lemma_step_of_51_bits(0x32eee2b5f3cd5int, s, 0x37f27f886c8b9int, 0x2bc990b9b2097int, 0, 0);
    let s = lemma_step_of_51_bits(0x32eee2b5f3cd5int, s, 0xf422dd36f156int, 0x341c9a94daf5int, 0x2a8aa6c82fbd4int, 1);
    let s = lemma_step_of_51_bits(0x32eee2b5f3cd5int, s, 0x43e08f52695bint, 0x4073ce2f8dfint, 0x21afe59b8a3dint, 1);
    let s = lemma_step_of_51_bits(0x32eee2b5f3cd5int, s, 0x412da4092c465int, 0x3b6dc67ebd5e1int, 0x690a56d3f606int, 1);
    let s = lemma_step_of_51_bits(0x32eee2b5f3cd5int, s, 0x2360ca1e7d09eint, 0x118249c3d8c46int, 0, 0);
    let s = lemma_step_of_51_bits(0x32eee2b5f3cd5int, s, 0x2fb724eeb516int, 0x1fd994e47e5int, 0, 0);
    let s = lemma_step_of_51_bits(0x32eee2b5f3cd5int, s, 0xddce8cbbc733int, 0x2b03de599c40int, 0, 0);
    let s = lemma_step_of_51_bits(0x32eee2b5f3cd5int, s, 0xfc74c8eaf0e9int, 0x37b9603966d1int, 0x12979c4731baeint, 1);
    let s = lemma_step_of_51_bits(0x32eee2b5f3cd5int, s, 0x1d23f43854e3eint, 0xbe10cb973b7dint, 0x941058d0a301int, 1);
    let s = lemma_step_of_51_bits(0x32eee2b5f3cd5int, s, 0xcf492337429aint, 0x259139e34e0aint, 0xdc875d23484eint, 1);
    assert(s.0 == 33223);
}

/// The power 531581 of 0x32eee2b5f3cd5 modulo 0x477be711ecedd.
proof fn lemma_power_of_51_bits_4()
    ensures
        pow_mod(0x32eee2b5f3cd5int, 531581, 0x477be711eceddint) == 0x4735c3113b127int,
{
    lemma_power_of_51_bits_4_part_1();
    let s = (33223nat, 0x1e68f4d6a2c54int);
    let s = lemma_step_of_51_bits(0x32eee2b5f3cd5int, s, 0x1e68f4d6a2c54int, 0xcefcbcd53d8eint, 0x1c67b36f8e1c4int, 1);
    let s = lemma_step_of_51_bits(0x32eee2b5f3cd5int, s, 0x37164d37318ceint, 0x2a738a10470c1int, 0x225c3690d283fint, 1);
    let s = lemma_step_of_51_bits(0x32eee2b5f3cd5int, s, 0x16ab176dfc910int, 0x73038a95e372int, 0, 0);
    let s = lemma_step_of_51_bits(0x32eee2b5f3cd5int, s, 0x101f56e030b96int, 0x3a2e01dd52d7int, 0x1b27f7395c38eint, 1);
    assert(s.0 == 531581);
}

/// 0x477be711ecedd is prime: the product of the primes 0x12af21 and 531581, of square above it,
/// divides its predecessor.
pub proof fn lemma_prime_of_51_bits()
    ensures
        is_prime(0x477be711eceddint),
{
    lemma_prime_1224481();
    lemma_prime_531581();
    if !is_prime(0x477be711eceddint) {
        lemma_power_of_51_bits_1();
        lemma_power_of_51_bits_2();
        lemma_pow_mod_mul(2, 1932, 0x12af21, 0x477be711eceddint);
        assert(1932 * 0x12af21 == 0x8d01ad0cnat);
        lemma_power_of_51_bits_3();
        lemma_pow_mod_mul(2, 0x8d01ad0cnat, 531581, 0x477be711eceddint);
        assert(0x8d01ad0cnat * 531581 == 0x477be711ecedcnat);
        lemma_power_of_51_bits_1();
        lemma_power_of_51_bits_4();
        lemma_pow_mod_mul(2, 1932, 531581, 0x477be711eceddint);
        assert(1932 * 531581 == 0x3d36ff5c);
        lemma_power_of_51_bits_1();
        lemma_power_of_51_bits_2();
        lemma_pow_mod_mul(2, 1932, 0x12af21, 0x477be711eceddint);
        assert(1932 * 0x12af21 == 0x8d01ad0cnat);
        let p = lemma_prime_factor(0x477be711eceddint);
        lemma_pow_mod_divisor(2, 0x477be711ecedcnat, 0x477be711eceddint, p);
        lemma_small_mod(1, p as nat);
        let d = lemma_order_exists(2, p, 0x477be711ecedcnat);
        assert((0x477be711eceddint - 1) / 0x12af21 == 0x3d36ff5c);
        lemma_pocklington_factor(0x477be711eceddint, 2, 0x12af21, 0x4735c3113b127int, -0x1a86ca464590cint, 0x1a6cc31993bddint, p, d);
        assert((0x477be711eceddint - 1) / 531581 == 0x8d01ad0cint);
        lemma_pocklington_factor(0x477be711eceddint, 2, 531581, 0x40cae279246b8int, 0xc1a8109e02f6int, -0xaf8758c8492dint, p, d);
        lemma_product_divides(0x12af21, 531581, d as int);
        assert(0x12af21 * 531581 == 0x978d4f1f1dint);
        lemma_pocklington_bound(0x477be711eceddint, 2, 0x978d4f1f1dint, p, d);
    }
}

/// One step of square-and-multiply modulo 0x3d89490a0e5537ef. The power before is
/// given twice, as `s.1` and as `x`; `q` is the quotient of its square, and
/// `p` the quotient of the product with `a` that follows where the bit is
/// set.
proof fn lemma_step_of_62_bits(a: int, s: (nat, int), x: int, q: int, p: int, bit: int) -> (r: (
    nat,
    int,
))
    requires
        s.1 == pow_mod(a, s.0, 0x3d89490a0e5537efint),
        s.1 == x,
        0 <= x * x - q * 0x3d89490a0e5537efint < 0x3d89490a0e5537efint,
        bit == 0 || bit == 1,
        bit == 1 ==> 0 <= (x * x - q * 0x3d89490a0e5537efint) * a - p * 0x3d89490a0e5537efint < 0x3d89490a0e5537efint,
    ensures
        r.0 == 2 * s.0 + bit,
        r.1 == pow_mod(a, r.0, 0x3d89490a0e5537efint),
        r.1 == if bit == 1 {
            (x * x - q * 0x3d89490a0e5537efint) * a - p * 0x3d89490a0e5537efint
        } else {
            x * x - q * 0x3d89490a0e5537efint
        },
{
    lemma_square_step(a, s.0, 0x3d89490a0e5537efint, bit, x);
    let y = x * x - q * 0x3d89490a0e5537efint;
    lemma_fundamental_div_mod_converse(x * x, 0x3d89490a0e5537efint, q, y);
    if bit == 1 {
        lemma_fundamental_div_mod_converse(y * a, 0x3d89490a0e5537efint, p, y * a - p * 0x3d89490a0e5537efint);
    }
    ((2 * s.0 + bit) as nat, square_step(x, a, 0x3d89490a0e5537efint, bit))
}

/// The power 3526 of 2 modulo 0x3d89490a0e5537ef.
proof fn lemma_power_of_62_bits_1()
    ensures
        pow_mod(2, 3526, 0x3d89490a0e5537efint) == 0x5c52cd00a1f4ba7int,
{
    let s = lemma_square_start(2, 0x3d89490a0e5537efint);
    let s = lemma_step_of_62_bits(2, s, 1, 0, 0, 1);
    let s = lemma_step_of_62_bits(2, s, 2, 0, 0, 1);
    let s = lemma_step_of_62_bits(2, s, 8, 0, 0, 0);
    let s = lemma_step_of_62_bits(2, s, 64, 0, 0, 1);
    let s = lemma_step_of_62_bits(2, s, 8192, 0, 0, 1);
    let s = lemma_step_of_62_bits(2, s, 0x8000000, 0, 0, 1);
    let s = lemma_step_of_62_bits(2, s, 0x80000000000000int, 0x10a3fddd46bb4int, 0, 0);
    let s = lemma_step_of_62_bits(2, s, 0x1c26e743a8c7c6f4int, 0xce10e367ebaa305int, 0, 0);
    let s = lemma_step_of_62_bits(2, s, 0x13b13e905a0913e5int, 0x64d428f1ebc73fbint, 0, 0);
    let s = lemma_step_of_62_bits(2, s, 0x16ca2eff00739684int, 0x870ac48e3224ee4int, 1, 1);
    let s = lemma_step_of_62_bits(2, s, 0x1e75ec5cec7b6a79int, 0xf13fecdc1e2d18cint, 0, 1);
    let s = lemma_step_of_62_bits(2, s, 0x2666d99336976efaint, 0x17f6f31251208253int, 0, 0);
    assert(s.0 == 3526);
}

/// The first 16 bits of the exponent of the same power.
proof fn lemma_power_of_62_bits_2_part_1()
    ensures
        pow_mod(0x5c52cd00a1f4ba7int, 36599, 0x3d89490a0e5537efint) == 0x2b2c1c7ae20592e7int,
{
    let s = lemma_square_start(0x5c52cd00a1f4ba7int, 0x3d89490a0e5537efint);
    let s = lemma_step_of_62_bits(0x5c52cd00a1f4ba7int, s, 1, 0, 0, 1);
    let s = lemma_step_of_62_bits(0x5c52cd00a1f4ba7int, s, 0x5c52cd00a1f4ba7int, 0x8a83830e0d6502int, 0, 0);
    let s = lemma_step_of_62_bits(0x5c52cd00a1f4ba7int, s, 0x2b08f3b0cfee8c13int, 0x1e18a132a030104cint, 0, 0);
    let s = lemma_step_of_62_bits(0x5c52cd00a1f4ba7int, s, 0x189bd270085d3e75int, 0x9d755051e83f5bfint, 0, 0);
    let s = lemma_step_of_62_bits(0x5c52cd00a1f4ba7int, s, 0xfe5ad30ded56b28int, 0x41b5a6bc93a8250int, 0x4a134eba1175decint, 1);
    let s = lemma_step_of_62_bits(0x5c52cd00a1f4ba7int, s, 0x2a7e2f8f022959cint, 0x1d57c301007087int, 0x1a52070730b6735int, 1);
    let s = lemma_step_of_62_bits(0x5c52cd00a1f4ba7int, s, 0x2f4914ff9352ac16int, 0x2455be330b1358efint, 0x47296142f5dfcd7int, 1);
    let s = lemma_step_of_62_bits(0x5c52cd00a1f4ba7int, s, 0x2f8a3cf5cf6597cint, 0x24ba257fc66f6aint, 0, 0);
    let s = lemma_step_of_62_bits(0x5c52cd00a1f4ba7int, s, 0x2762e9548333aa1aint, 0x193594be5651fef1int, 0x29e32498b8e98a7int, 1);
    let s = lemma_step_of_62_bits(0x5c52cd00a1f4ba7int, s, 0x252d0447a20f9dbaint, 0x167581843d12ae9cint, 0x55353448d71fd96int, 1);
    let s = lemma_step_of_62_bits(0x5c52cd00a1f4ba7int, s, 0x1401af293a77af76int, 0x6812779fd4d60c4int, 0x42e165a145710a5int, 1);
    let s = lemma_step_of_62_bits(0x5c52cd00a1f4ba7int, s, 0x1746c2fb02babfcdint, 0x8cdeeb2616054cdint, 0x37f489c0229995cint, 1);
    let s = lemma_step_of_62_bits(0x5c52cd00a1f4ba7int, s, 0x1c1bb8e6a45fb746int, 0xcd6d5437e5f708bint, 0, 0);
    let s = lemma_step_of_62_bits(0x5c52cd00a1f4ba7int, s, 0x30d6e7f3c4ba385fint, 0x26c32da99ae270d3int, 0x414a7a0fb64a315int, 1);
    let s = lemma_step_of_62_bits(0x5c52cd00a1f4ba7int, s, 0x1af681e829033c1int, 0xbd06c76171bf9int, 0x1ad7ce644bf9444int, 1);
    let s = lemma_step_of_62_bits(0x5c52cd00a1f4ba7int, s, 0x39b9ac8e26cbca0aint, 0x36267ba75aff0537int, 0x3efc3822df0921aint, 1);
    assert(s.0 == 36599);
}

/// The first 32 bits of the exponent of the same power.
proof fn lemma_power_of_62_bits_2_part_2()
    ensures
        pow_mod(0x5c52cd00a1f4ba7int, 0x8ef7ce23nat, 0x3d89490a0e5537efint) == 0x154f0d8bdd3ad738int,
{
    lemma_power_of_62_bits_2_part_1();
    let s = (36599nat, 0x2b2c1c7ae20592e7int);
    let s = lemma_step_of_62_bits(0x5c52cd00a1f4ba7int, s, 0x2b2c1c7ae20592e7int, 0x1e49e2911b420e1cint, 0x21bf85cef525d80int, 1);
    let s = lemma_step_of_62_bits(0x5c52cd00a1f4ba7int, s, 0xbff082e91593abbint, 0x256af0ff9dc84abint, 0x5018143c87f55dint, 1);
    let s = lemma_step_of_62_bits(0x5c52cd00a1f4ba7int, s, 0x92ac06ad7979b59int, 0x15d97e369546c90int, 0, 0);
    let s = lemma_step_of_62_bits(0x5c52cd00a1f4ba7int, s, 0x9bd98e3ba4e9a81int, 0x18ab689ba56846aint, 0, 0);
    let s = lemma_step_of_62_bits(0x5c52cd00a1f4ba7int, s, 0x76e7fb2a771100bint, 0xe5c2ff60e56a46int, 0x435cd4fd66dda32int, 1);
    let s = lemma_step_of_62_bits(0x5c52cd00a1f4ba7int, s, 0x23de926dae3ef8bint, 0x14e882bda631fdint, 0x4d97d2c9340f811int, 1);
    let s = lemma_step_of_62_bits(0x5c52cd00a1f4ba7int, s, 0x8da10b49fbb79cbint, 0x145f78fc6bf30eeint, 0x278bd3d6ef6882dint, 1);
    let s = lemma_step_of_62_bits(0x5c52cd00a1f4ba7int, s, 0x22b6000ca3fdbbceint, 0x139459ebfec4642aint, 0, 0);
    let s = lemma_step_of_62_bits(0x5c52cd00a1f4ba7int, s, 0xeecd4927a22108eint, 0x39eb60bd312f139int, 0, 0);
    let s = lemma_step_of_62_bits(0x5c52cd00a1f4ba7int, s, 0x1e92432f685a9b8dint, 0xf301a2c0a16dcfaint, 0, 0);
    let s = lemma_step_of_62_bits(0x5c52cd00a1f4ba7int, s, 0x7a83f80edd40843int, 0xf3ec0688cb94a1int, 0x5c2018e22997d10int, 1);
    let s = lemma_step_of_62_bits(0x5c52cd00a1f4ba7int, s, 0x185d01be42a449e6int, 0x9a557a1a4ba12cdint, 0, 0);
    let s = lemma_step_of_62_bits(0x5c52cd00a1f4ba7int, s, 0x38b202d324326241int, 0x343c3a42b831887fint, 0, 0);
    let s = lemma_step_of_62_bits(0x5c52cd00a1f4ba7int, s, 0x384e0cf6f05d1cf0int, 0x3384ab1b574e6705int, 0, 0);
    let s = lemma_step_of_62_bits(0x5c52cd00a1f4ba7int, s, 0x32027d3b34a82055int, 0x28a46a6ca60bf3caint, 0x4173810062f0697int, 1);
    let s = lemma_step_of_62_bits(0x5c52cd00a1f4ba7int, s, 0x3121495b842e975cint, 0x273998be34256bc7int, 0x34b4d84faa36d77int, 1);
    assert(s.0 == 0x8ef7ce23nat);
}

/// The first 48 bits of the exponent of the same power.
proof fn lemma_power_of_62_bits_2_part_3()
    ensures
        pow_mod(0x5c52cd00a1f4ba7int, 0x8ef7ce23d9dbnat, 0x3d89490a0e5537efint) == 0x198e2106b867e94aint,
{
    lemma_power_of_62_bits_2_part_2();
    let s = (0x8ef7ce23nat, 0x154f0d8bdd3ad738int);
    let s = lemma_step_of_62_bits(0x5c52cd00a1f4ba7int, s, 0x154f0d8bdd3ad738int, 0x760fa40ce05fdffint, 0x43f1437efd097adint, 1);
    let s = lemma_step_of_62_bits(0x5c52cd00a1f4ba7int, s, 0xbbe6cd12656bc26int, 0x23dc2580822f39fint, 0x27c593355cb4d3eint, 1);
    let s = lemma_step_of_62_bits(0x5c52cd00a1f4ba7int, s, 0x362ed3b1a3842063int, 0x2fb550b431053b2cint, 0, 0);
    let s = lemma_step_of_62_bits(0x5c52cd00a1f4ba7int, s, 0x65e05e28afc3435int, 0xa8a9614352abb8int, 0x4d5d3617f54aa4int, 1);
    let s = lemma_step_of_62_bits(0x5c52cd00a1f4ba7int, s, 0x113cf7dfed74e5dbint, 0x4d43475e662c4b6int, 0x4a79cf36e841283int, 1);
    let s = lemma_step_of_62_bits(0x5c52cd00a1f4ba7int, s, 0x3194f3c82e0f7f1cint, 0x27f32390aff9579fint, 0, 0);
    let s = lemma_step_of_62_bits(0x5c52cd00a1f4ba7int, s, 0x1a1238b08efdd49fint, 0xb0badc9ee16315aint, 0, 0);
    let s = lemma_step_of_62_bits(0x5c52cd00a1f4ba7int, s, 0x1edb00ecfca951bbint, 0xf78b6ca9971839dint, 0x2fd45e12ac10600int, 1);
    let s = lemma_step_of_62_bits(0x5c52cd00a1f4ba7int, s, 0xbcd3f85111987eaint, 0x2436e4f39a029f4int, 0x12a40172e255e46int, 1);
    let s = lemma_step_of_62_bits(0x5c52cd00a1f4ba7int, s, 0xfce5e1e8eaf374eint, 0x40f5834414c204aint, 0x41a6eec9d49dd59int, 1);
    let s = lemma_step_of_62_bits(0x5c52cd00a1f4ba7int, s, 0x3cf02e349d10966bint, 0x3c58904d8f31f6b4int, 0, 0);
    let s = lemma_step_of_62_bits(0x5c52cd00a1f4ba7int, s, 0xee348c1365792adint, 0x39a16123eea5a4bint, 0x5a26150376aa82int, 1);
    let s = lemma_step_of_62_bits(0x5c52cd00a1f4ba7int, s, 0x4391369f8153c5eint, 0x4a3074efa5595dint, 0x5785142b8fc8b80int, 1);
    let s = lemma_step_of_62_bits(0x5c52cd00a1f4ba7int, s, 0x3d4e9bf8b25db0f7int, 0x3d1426da38b41c71int, 0, 0);
    let s = lemma_step_of_62_bits(0x5c52cd00a1f4ba7int, s, 0x2a463a424802b9d2int, 0x1d0aadaa1f96c346int, 0x49c8248a4cec225int, 1);
    let s = lemma_step_of_62_bits(0x5c52cd00a1f4ba7int, s, 0xeb53f2a0758341bint, 0x383f1ccd9c5132fint, 0x416975f135c3162int, 1);
    assert(s.0 == 0x8ef7ce23d9dbnat);
}

/// The power 0x477be711ecedd of 0x5c52cd00a1f4ba7 modulo 0x3d89490a0e5537ef.
proof fn lemma_power_of_62_bits_2()
    ensures
        pow_mod(0x5c52cd00a1f4ba7int, 0x477be711eceddnat, 0x3d89490a0e5537efint) == 1,
{
    lemma_power_of_62_bits_2_part_3();
    let s = (0x8ef7ce23d9dbnat, 0x198e2106b867e94aint);
    let s = lemma_step_of_62_bits(0x5c52cd00a1f4ba7int, s, 0x198e2106b867e94aint, 0xa9cdbdaebb1b599int, 0x2a22916a13f1005int, 1);
    let s = lemma_step_of_62_bits(0x5c52cd00a1f4ba7int, s, 0x230deee621c74350int, 0x13f80b178a69bcf4int, 0, 0);
    let s = lemma_step_of_62_bits(0x5c52cd00a1f4ba7int, s, 0x34dc918452bf2534int, 0x2d68e714409652d0int, 0x11e88de2233651int, 1);
    assert(s.0 == 0x477be711eceddnat);
}

/// 0x3d89490a0e5537ef is prime: the prime 0x477be711ecedd, of square above it, divides its
/// predecessor.
pub proof fn lemma_prime_of_62_bits()
    ensures
        is_prime(0x3d89490a0e5537efint),
{
    lemma_prime_of_51_bits();
    if !is_prime(0x3d89490a0e5537efint) {
        lemma_power_of_62_bits_1();
        lemma_power_of_62_bits_2();
        lemma_pow_mod_mul(2, 3526, 0x477be711eceddnat, 0x3d89490a0e5537efint);
        assert(3526 * 0x477be711eceddnat == 0x3d89490a0e5537eenat);
        lemma_power_of_62_bits_1();
        let p = lemma_prime_factor(0x3d89490a0e5537efint);
        lemma_pow_mod_divisor(2, 0x3d89490a0e5537eenat, 0x3d89490a0e5537efint, p);
        lemma_small_mod(1, p as nat);
        let d = lemma_order_exists(2, p, 0x3d89490a0e5537eenat);
        assert((0x3d89490a0e5537efint - 1) / 0x477be711eceddint == 3526);
        lemma_pocklington_factor(0x3d89490a0e5537efint, 2, 0x477be711eceddint, 0x5c52cd00a1f4ba7int, 0xe0605543c5b9ae3int, -0x150a24461ac39dfint, p, d);
        lemma_pocklington_bound(0x3d89490a0e5537efint, 2, 0x477be711eceddint, p, d);
    }
}

/// One step of square-and-multiply modulo 0x8e51fa3a480f89f9de5163. The power before is
/// given twice, as `s.1` and as `x`; `q` is the quotient of its square, and
/// `p` the quotient of the product with `a` that follows where the bit is
/// set.
proof fn lemma_step_of_88_bits(a: int, s: (nat, int), x: int, q: int, p: int, bit: int) -> (r: (
    nat,
    int,
))
    requires
        s.1 == pow_mod(a, s.0, 0x8e51fa3a480f89f9de5163int),
        s.1 == x,
        0 <= x * x - q * 0x8e51fa3a480f89f9de5163int < 0x8e51fa3a480f89f9de5163int,
        bit == 0 || bit == 1,
        bit == 1 ==> 0 <= (x * x - q * 0x8e51fa3a480f89f9de5163int) * a - p * 0x8e51fa3a480f89f9de5163int < 0x8e51fa3a480f89f9de5163int,
    ensures
        r.0 == 2 * s.0 + bit,
        r.1 == pow_mod(a, r.0, 0x8e51fa3a480f89f9de5163int),
        r.1 == if bit == 1 {
            (x * x - q * 0x8e51fa3a480f89f9de5163int) * a - p * 0x8e51fa3a480f89f9de5163int
        } else {
            x * x - q * 0x8e51fa3a480f89f9de5163int
        },
{
    lemma_square_step(a, s.0, 0x8e51fa3a480f89f9de5163int, bit, x);
    let y = x * x - q * 0x8e51fa3a480f89f9de5163int;
    lemma_fundamental_div_mod_converse(x * x, 0x8e51fa3a480f89f9de5163int, q, y);
    if bit == 1 {
        lemma_fundamental_div_mod_converse(y * a, 0x8e51fa3a480f89f9de5163int, p, y * a - p * 0x8e51fa3a480f89f9de5163int);
    }
    ((2 * s.0 + bit) as nat, square_step(x, a, 0x8e51fa3a480f89f9de5163int, bit))
}

/// The first 16 bits of the exponent of the same power.
proof fn lemma_power_of_88_bits_1_part_1()
    ensures
        pow_mod(2, 37892, 0x8e51fa3a480f89f9de5163int) == 0x4a8e8d4c18d4c2ef28dd16int,
{
    let s = lemma_square_start(2, 0x8e51fa3a480f89f9de5163int);
    let s = lemma_step_of_88_bits(2, s, 1, 0, 0, 1);
    let s = lemma_step_of_88_bits(2, s, 2, 0, 0, 0);
    let s = lemma_step_of_88_bits(2, s, 4, 0, 0, 0);
    let s = lemma_step_of_88_bits(2, s, 16, 0, 0, 1);
    let s = lemma_step_of_88_bits(2, s, 512, 0, 0, 0);
    let s = lemma_step_of_88_bits(2, s, 262144, 0, 0, 1);
    let s = lemma_step_of_88_bits(2, s, 0x2000000000int, 0, 0, 0);
    let s = lemma_step_of_88_bits(2, s, 0x4000000000000000000int, 0x1cc7b91abfdab646int, 0, 0);
    let s = lemma_step_of_88_bits(2, s, 0x1a74e286fa3389740b5ceeint, 0x4eb0b2f689f7f4b2f7beeint, 0, 0);
    let s = lemma_step_of_88_bits(2, s, 0x18022a3c94fb5abe38b23aint, 0x40cd0fd43bfde1bda228cint, 0, 0);
    let s = lemma_step_of_88_bits(2, s, 0x106296d204c47fa1c30d00int, 0x1e2eab04a85b094080da7int, 0, 0);
    let s = lemma_step_of_88_bits(2, s, 0x7c15f12b56f334bd67e16bint, 0x6c2ffd71221a945b973730int, 0, 0);
    let s = lemma_step_of_88_bits(2, s, 0x743f84f02c2f9d5906bb29int, 0x5ef3c6d61bc6ad25dd25b4int, 0, 0);
    let s = lemma_step_of_88_bits(2, s, 0x7b28d1a4405e26d3563f5int, 0x6a940c83fecb3aae2b50int, 0, 1);
    let s = lemma_step_of_88_bits(2, s, 0x6254eb9f6323640014b112int, 0x43f071ba21eaa3b6b05c77int, 0, 0);
    let s = lemma_step_of_88_bits(2, s, 0x7758808a374e0fc3a27c3fint, 0x641476a01fd83f02b50559int, 0, 0);
    assert(s.0 == 37892);
}

/// The power 0x25012be of 2 modulo 0x8e51fa3a480f89f9de5163.
proof fn lemma_power_of_88_bits_1()
    ensures
        pow_mod(2, 0x25012be, 0x8e51fa3a480f89f9de5163int) == 0x43d06a01b28fc1632b40ebint,
{
    lemma_power_of_88_bits_1_part_1();
    let s = (37892nat, 0x4a8e8d4c18d4c2ef28dd16int);
    let s = lemma_step_of_88_bits(2, s, 0x4a8e8d4c18d4c2ef28dd16int, 0x270ecfb0a384c04a4deeb9int, 0, 1);
    let s = lemma_step_of_88_bits(2, s, 0x6c974deb57ac0b1f6a46b2int, 0x52db0199da62908ef2243aint, 0, 0);
    let s = lemma_step_of_88_bits(2, s, 0x36e290adea0d2601877756int, 0x152a8624af8c7163ba0ecbint, 1, 1);
    let s = lemma_step_of_88_bits(2, s, 0x132576847a09341973e963int, 0x29364d09c4e41a1f09a15int, 0, 0);
    let s = lemma_step_of_88_bits(2, s, 0x8a89765b0f71e90db5212aint, 0x86dab167f5842f5ff20064int, 0, 1);
    let s = lemma_step_of_88_bits(2, s, 0x24ee0d6fa12915cc842070int, 0x9952e1ae99141e1e61dfcint, 1, 1);
    let s = lemma_step_of_88_bits(2, s, 0x183b962288e9ed655567b5int, 0x42047b40cede79a3242a8int, 1, 1);
    let s = lemma_step_of_88_bits(2, s, 0x16bed9a81722043e1e1c9fint, 0x3a29a7af33ac61df994baint, 0, 1);
    let s = lemma_step_of_88_bits(2, s, 0x5e841c09f42548932f99a6int, 0x3ec4d6c5e32dbe64d76869int, 1, 1);
    let s = lemma_step_of_88_bits(2, s, 0x17f67aa7544fa935b02aafint, 0x408e0a1194510d3567b52int, 0, 0);
    assert(s.0 == 0x25012be);
}

/// The first 16 bits of the exponent of the same power.
proof fn lemma_power_of_88_bits_2_part_1()
    ensures
        pow_mod(0x43d06a01b28fc1632b40ebint, 63013, 0x8e51fa3a480f89f9de5163int) == 0x7cfbd4b5d1cc1d739029a8int,
{
    let s = lemma_square_start(0x43d06a01b28fc1632b40ebint, 0x8e51fa3a480f89f9de5163int);
    let s = lemma_step_of_88_bits(0x43d06a01b28fc1632b40ebint, s, 1, 0, 0, 1);
    let s = lemma_step_of_88_bits(0x43d06a01b28fc1632b40ebint, s, 0x43d06a01b28fc1632b40ebint, 0x20500edde37225b6fae378int, 0x17940b5f2a0a140f6af2c0int, 1);
    let s = lemma_step_of_88_bits(0x43d06a01b28fc1632b40ebint, s, 0x7f09a68d16f42ecb17621bint, 0x71656f32986dd606610428int, 0x189ecd17c6c7d27615fc2eint, 1);
    let s = lemma_step_of_88_bits(0x43d06a01b28fc1632b40ebint, s, 0x8ad0264862f3696ce5be41int, 0x8764724a449b650e7b9497int, 0x2f932d696d89665aabec07int, 1);
    let s = lemma_step_of_88_bits(0x43d06a01b28fc1632b40ebint, s, 0x27f19b1b8eb74d760120ffint, 0xb35ee7006a17b21c9914fint, 0, 0);
    let s = lemma_step_of_88_bits(0x43d06a01b28fc1632b40ebint, s, 0x31760b543c4e1aa8cf8d74int, 0x11307d84e2c876709d5a86int, 0xafcab2704bc882bbc610fint, 1);
    let s = lemma_step_of_88_bits(0x43d06a01b28fc1632b40ebint, s, 0x7f9fff7af4771802eac29dint, 0x727275e721f2da022591f6int, 0xcec999f518c31ecce8c2eint, 1);
    let s = lemma_step_of_88_bits(0x43d06a01b28fc1632b40ebint, s, 0x77cc19a5b43314be272403int, 0x64d6b4672be228e8772dfbint, 0, 0);
    let s = lemma_step_of_88_bits(0x43d06a01b28fc1632b40ebint, s, 0x838c7c7bbeb722d3ada4f8int, 0x7997b1d83c2a88c8de6479int, 0, 0);
    let s = lemma_step_of_88_bits(0x43d06a01b28fc1632b40ebint, s, 0x41e9b6917afecf53c58c75int, 0x1e86be630cc9905cce630aint, 0, 0);
    let s = lemma_step_of_88_bits(0x43d06a01b28fc1632b40ebint, s, 0x83a3d990e092e1894fb69bint, 0x79c2e67e5275d36e932848int, 0x24a4d18694587be2b1391bint, 1);
    let s = lemma_step_of_88_bits(0x43d06a01b28fc1632b40ebint, s, 0x2b74dbda16cd3d60b5427aint, 0xd44e5bbf17ced6701c508int, 0, 0);
    let s = lemma_step_of_88_bits(0x43d06a01b28fc1632b40ebint, s, 0x6b46ff1a1217a87d0680cint, 0x50dce6c4c4cb7e05e8a7int, 0, 0);
    let s = lemma_step_of_88_bits(0x43d06a01b28fc1632b40ebint, s, 0x7467dec770ea7b1b11f0fbint, 0x5f35bd3e9ececa0c36a655int, 0x2f832a5c9f5727623fa4bbint, 1);
    let s = lemma_step_of_88_bits(0x43d06a01b28fc1632b40ebint, s, 0x5472f07359f6732cf91fedint, 0x321c186543375fc21f362bint, 0, 0);
    let s = lemma_step_of_88_bits(0x43d06a01b28fc1632b40ebint, s, 0x4d653e1287d51ed885b3c8int, 0x2a16aefc8be85e3693b7e0int, 0x383f60875449d28b8de368int, 1);
    assert(s.0 == 63013);
}

/// The first 32 bits of the exponent of the same power.
proof fn lemma_power_of_88_bits_2_part_2()
    ensures
        pow_mod(0x43d06a01b28fc1632b40ebint, 0xf6252428nat, 0x8e51fa3a480f89f9de5163int) == 0x44d135ee1312e5f12204ccint,
{
    lemma_power_of_88_bits_2_part_1();
    let s = (63013nat, 0x7cfbd4b5d1cc1d739029a8int);
    let s = lemma_step_of_88_bits(0x43d06a01b28fc1632b40ebint, s, 0x7cfbd4b5d1cc1d739029a8int, 0x6dc24f5fb221a81b0fcb54int, 0, 0);
    let s = lemma_step_of_88_bits(0x43d06a01b28fc1632b40ebint, s, 0x8d3bd708e741ae567e08c4int, 0x8c27d36874456993812563int, 0, 0);
    let s = lemma_step_of_88_bits(0x43d06a01b28fc1632b40ebint, s, 0x88271a3e9ec889b29d0dc7int, 0x8240a6040331c1d77cac3fint, 0x1f9a8de7c1e8a552e3535aint, 1);
    let s = lemma_step_of_88_bits(0x43d06a01b28fc1632b40ebint, s, 0x6984217d4c9f0a3d44ee4eint, 0x4e3ac766d2a88f3cb1202cint, 0, 0);
    let s = lemma_step_of_88_bits(0x43d06a01b28fc1632b40ebint, s, 0x3c43b65949372f6d6fc2c0int, 0x1984c1b0ccc8326d6cb3aaint, 0, 0);
    let s = lemma_step_of_88_bits(0x43d06a01b28fc1632b40ebint, s, 0x7d151e28ca440419594b42int, 0x6deebda8c4ba4fa75f9ba1int, 0x9c2be2c0a62e9c42e389dint, 1);
    let s = lemma_step_of_88_bits(0x43d06a01b28fc1632b40ebint, s, 0x270dfef42acba155759374int, 0xab797392855faa5f4aa13int, 0, 0);
    let s = lemma_step_of_88_bits(0x43d06a01b28fc1632b40ebint, s, 0x7c44201282269f960ea437int, 0x6c8094a8e285b32e9e81b3int, 0, 0);
    let s = lemma_step_of_88_bits(0x43d06a01b28fc1632b40ebint, s, 0x3a95f2205a942710cab898int, 0x181ddce11b73facff03574int, 0, 0);
    let s = lemma_step_of_88_bits(0x43d06a01b28fc1632b40ebint, s, 0x2eb1d25ece62c13b947a64int, 0xf51fe8f6746a11bcd2f4aint, 0, 0);
    let s = lemma_step_of_88_bits(0x43d06a01b28fc1632b40ebint, s, 0x1b50c2ecf543ae2da7c372int, 0x53e1e51063ebebdb51e61int, 0x196bf1e5e5798cbc3bc6e1int, 1);
    let s = lemma_step_of_88_bits(0x43d06a01b28fc1632b40ebint, s, 0xc115a06a7222f01065ba8int, 0x105f4b2e4f858b312d21fint, 0, 0);
    let s = lemma_step_of_88_bits(0x43d06a01b28fc1632b40ebint, s, 0x2f9b23338c5d502a0bcd43int, 0xfec9690b41842d2d347faint, 0x2cd0644590bfca1e177900int, 1);
    let s = lemma_step_of_88_bits(0x43d06a01b28fc1632b40ebint, s, 0x18429b2ebcfac1008ea309int, 0x422ac0376181a1bff921aint, 0, 0);
    let s = lemma_step_of_88_bits(0x43d06a01b28fc1632b40ebint, s, 0x21dc212de78f709834bc43int, 0x80e4384f5e3df82179e3aint, 0, 0);
    let s = lemma_step_of_88_bits(0x43d06a01b28fc1632b40ebint, s, 0x70b2c5e31a8b082d2bef1bint, 0x593de714f0cd9ee459d3cfint, 0, 0);
    assert(s.0 == 0xf6252428nat);
}

/// The first 48 bits of the exponent of the same power.
proof fn lemma_power_of_88_bits_2_part_3()
    ensures
        pow_mod(0x43d06a01b28fc1632b40ebint, 0xf62524283954nat, 0x8e51fa3a480f89f9de5163int) == 0x3831f97d04d8d12109bdd1int,
{
    lemma_power_of_88_bits_2_part_2();
    let s = (0xf6252428nat, 0x44d135ee1312e5f12204ccint);
    let s = lemma_step_of_88_bits(0x43d06a01b28fc1632b40ebint, s, 0x44d135ee1312e5f12204ccint, 0x214697025251891f6d3872int, 0, 0);
    let s = lemma_step_of_88_bits(0x43d06a01b28fc1632b40ebint, s, 0x7daa0027040becd3521c7aint, 0x6ef50cb5924f2488cff469int, 0, 0);
    let s = lemma_step_of_88_bits(0x43d06a01b28fc1632b40ebint, s, 0x5e514cd0936b8b94842c89int, 0x3e816c7fdbe42a14e9a7b5int, 0x1eeb37b1f4f054c3370242int, 1);
    let s = lemma_step_of_88_bits(0x43d06a01b28fc1632b40ebint, s, 0x5cd054287601dc7d94b4c0int, 0x3c873d6b8f661c7d0484d3int, 0x19aa5282abe3d9de3759e2int, 1);
    let s = lemma_step_of_88_bits(0x43d06a01b28fc1632b40ebint, s, 0x485ff9cd32ba0b0082bf27int, 0x24ce22ca11534eb8845967int, 0x41913b085122b8f0a9b9b5int, 1);
    let s = lemma_step_of_88_bits(0x43d06a01b28fc1632b40ebint, s, 0x646d84178ded4f5a5bddb5int, 0x46ddd5cb3ebbaa8a40873aint, 0, 0);
    let s = lemma_step_of_88_bits(0x43d06a01b28fc1632b40ebint, s, 0xfcbe0bab5bc5812a65c8bint, 0x1c0d67d3fd6bf18b73f6fint, 0, 0);
    let s = lemma_step_of_88_bits(0x43d06a01b28fc1632b40ebint, s, 0x312ed454d0f6f42e868c8cint, 0x10ff215f56f93c73d8e4cbint, 0x28b009697032af24e2d657int, 1);
    let s = lemma_step_of_88_bits(0x43d06a01b28fc1632b40ebint, s, 0x447748785d934251426020int, 0x20efd85524a05bcc86b820int, 0, 0);
    let s = lemma_step_of_88_bits(0x43d06a01b28fc1632b40ebint, s, 0x27a8ad2558448707cafa0int, 0xb0d23f07122756dbbaaint, 0x34bf7315bf88ed87d41d6int, 1);
    let s = lemma_step_of_88_bits(0x43d06a01b28fc1632b40ebint, s, 0x30a3fe0325184588993dd4int, 0x109fb36e2ee260678c1793int, 0, 0);
    let s = lemma_step_of_88_bits(0x43d06a01b28fc1632b40ebint, s, 0x75f8e16998ec936b3a16b7int, 0x61ca231452a6edd9f64222int, 0x3eb701c75c9b94024baf96int, 1);
    let s = lemma_step_of_88_bits(0x43d06a01b28fc1632b40ebint, s, 0x816968afe8f717d8a9caf7int, 0x75ac90bdb13b03755d39bfint, 0, 0);
    let s = lemma_step_of_88_bits(0x43d06a01b28fc1632b40ebint, s, 0x103c9a1ade9acdae13f674int, 0x1da35a4e628a25de6ff19int, 0x325e71adeb26466d637173int, 1);
    let s = lemma_step_of_88_bits(0x43d06a01b28fc1632b40ebint, s, 0x587f7d6a06cde03d4fabbeint, 0x3707b52802b8d26fa63ea4int, 0, 0);
    let s = lemma_step_of_88_bits(0x43d06a01b28fc1632b40ebint, s, 0xaf902c9b1339361274398int, 0xd8922bb4e97c0e6ccc85int, 0, 0);
    assert(s.0 == 0xf62524283954nat);
}

/// The power 0x3d89490a0e5537ef of 0x43d06a01b28fc1632b40eb modulo 0x8e51fa3a480f89f9de5163.
proof fn lemma_power_of_88_bits_2()
    ensures
        pow_mod(0x43d06a01b28fc1632b40ebint, 0x3d89490a0e5537efnat, 0x8e51fa3a480f89f9de5163int) == 1,
{
    lemma_power_of_88_bits_2_part_3();
    let s = (0xf62524283954nat, 0x3831f97d04d8d12109bdd1int);
    let s = lemma_step_of_88_bits(0x43d06a01b28fc1632b40ebint, s, 0x3831f97d04d8d12109bdd1int, 0x16304f34093aa8a6c1d5a3int, 0x340d4cb88efc2a5c13422bint, 1);
    let s = lemma_step_of_88_bits(0x43d06a01b28fc1632b40ebint, s, 0x3ec7a4c0d46ab479abcae7int, 0x1bb179480baa405bc5318cint, 0x1a634b7200ee5610429433int, 1);
    let s = lemma_step_of_88_bits(0x43d06a01b28fc1632b40ebint, s, 0x5ac47e4df58617612a20f6int, 0x39e3891a805dc2d5f681f8int, 0, 0);
    let s = lemma_step_of_88_bits(0x43d06a01b28fc1632b40ebint, s, 0x6ab7c969261a2a9672b17cint, 0x500591974e6ec52daf4923int, 0x109570759a40c091ed3c84int, 1);
    let s = lemma_step_of_88_bits(0x43d06a01b28fc1632b40ebint, s, 0x3c1c579b87b28f946ad8e1int, 0x196375097657e3667487b4int, 0x2b3c50599d94346f26d7eint, 1);
    let s = lemma_step_of_88_bits(0x43d06a01b28fc1632b40ebint, s, 0x4a86da45ef457a1505993dint, 0x2706beff8fc6bac20b7cf1int, 0x336a5bafba2cd81fa425acint, 1);
    let s = lemma_step_of_88_bits(0x43d06a01b28fc1632b40ebint, s, 0x1f5b78cc6a3cd42e3736eint, 0x6e8afe36d5fc47d6040int, 0x363496ab81ca5a518d8c60int, 1);
    let s = lemma_step_of_88_bits(0x43d06a01b28fc1632b40ebint, s, 0x1fbee565d1805310897e0cint, 0x714c5404d17d854b879f8int, 0xa8e1437399b23842191f7int, 1);
    let s = lemma_step_of_88_bits(0x43d06a01b28fc1632b40ebint, s, 0xf3e5089fde9d426524fb3int, 0x1a1f68fbc6cf091aeacb8int, 0x20cb4888ec8a3232bc05fcint, 1);
    let s = lemma_step_of_88_bits(0x43d06a01b28fc1632b40ebint, s, 0x5c1e5687012a092cd03077int, 0x3b9ff4fe6ddfc6c98c30c5int, 0, 0);
    let s = lemma_step_of_88_bits(0x43d06a01b28fc1632b40ebint, s, 0x50b27d644f77417e11a622int, 0x2dc19abed8ef824fb87f37int, 0x34ebe3c8e8a4de4414f460int, 1);
    let s = lemma_step_of_88_bits(0x43d06a01b28fc1632b40ebint, s, 0x15c571829053a3b58859b5int, 0x3549739df4ba0d0368803int, 0x1c5b7deda38dc9f970f8abint, 1);
    let s = lemma_step_of_88_bits(0x43d06a01b28fc1632b40ebint, s, 0x22576b62349256b80fa8cfint, 0x8495876870ec2cf3905c2int, 0x190d5a4a800b18c029f4ceint, 1);
    let s = lemma_step_of_88_bits(0x43d06a01b28fc1632b40ebint, s, 0x38c52be32bfebc68cae2dfint, 0x16a52545d6bed22a9e96e8int, 0x7ec96ac1db24d5e37b1d6int, 1);
    assert(s.0 == 0x3d89490a0e5537efnat);
}

/// 0x8e51fa3a480f89f9de5163 is prime: the prime 0x3d89490a0e5537ef, of square above it, divides its
/// predecessor.
pub proof fn lemma_prime_of_88_bits()
    ensures
        is_prime(0x8e51fa3a480f89f9de5163int),
{
    lemma_prime_of_62_bits();
    if !is_prime(0x8e51fa3a480f89f9de5163int) {
        lemma_power_of_88_bits_1();
        lemma_power_of_88_bits_2();
        lemma_pow_mod_mul(2, 0x25012be, 0x3d89490a0e5537efnat, 0x8e51fa3a480f89f9de5163int);
        assert(0x25012be * 0x3d89490a0e5537efnat == 0x8e51fa3a480f89f9de5162nat);
        lemma_power_of_88_bits_1();
        let p = lemma_prime_factor(0x8e51fa3a480f89f9de5163int);
        lemma_pow_mod_divisor(2, 0x8e51fa3a480f89f9de5162nat, 0x8e51fa3a480f89f9de5163int, p);
        lemma_small_mod(1, p as nat);
        let d = lemma_order_exists(2, p, 0x8e51fa3a480f89f9de5162nat);
        assert((0x8e51fa3a480f89f9de5163int - 1) / 0x3d89490a0e5537efint == 0x25012be);
        lemma_pocklington_factor(0x8e51fa3a480f89f9de5163int, 2, 0x3d89490a0e5537efint, 0x43d06a01b28fc1632b40ebint, -0xeb4e6b7c3d3c29ab295b3int, 0x701efc3136f16ef7f1d95int, p, d);
        lemma_pocklington_bound(0x8e51fa3a480f89f9de5163int, 2, 0x3d89490a0e5537efint, p, d);
    }
}

/// One step of square-and-multiply modulo 0x3a0fc367dcf0ff0a5a1db0b1b7c3093f33. The power before is
/// given twice, as `s.1` and as `x`; `q` is the quotient of its square, and
/// `p` the quotient of the product with `a` that follows where the bit is
/// set.
proof fn lemma_step_of_134_bits(a: int, s: (nat, int), x: int, q: int, p: int, bit: int) -> (r: (
    nat,
    int,
))
    requires
        s.1 == pow_mod(a, s.0, 0x3a0fc367dcf0ff0a5a1db0b1b7c3093f33int),
        s.1 == x,
        0 <= x * x - q * 0x3a0fc367dcf0ff0a5a1db0b1b7c3093f33int < 0x3a0fc367dcf0ff0a5a1db0b1b7c3093f33int,
        bit == 0 || bit == 1,
        bit == 1 ==> 0 <= (x * x - q * 0x3a0fc367dcf0ff0a5a1db0b1b7c3093f33int) * a - p * 0x3a0fc367dcf0ff0a5a1db0b1b7c3093f33int < 0x3a0fc367dcf0ff0a5a1db0b1b7c3093f33int,
    ensures
        r.0 == 2 * s.0 + bit,
        r.1 == pow_mod(a, r.0, 0x3a0fc367dcf0ff0a5a1db0b1b7c3093f33int),
        r.1 == if bit == 1 {
            (x * x - q * 0x3a0fc367dcf0ff0a5a1db0b1b7c3093f33int) * a - p * 0x3a0fc367dcf0ff0a5a1db0b1b7c3093f33int
        } else {
            x * x - q * 0x3a0fc367dcf0ff0a5a1db0b1b7c3093f33int
        },
{
    lemma_square_step(a, s.0, 0x3a0fc367dcf0ff0a5a1db0b1b7c3093f33int, bit, x);
    let y = x * x - q * 0x3a0fc367dcf0ff0a5a1db0b1b7c3093f33int;
    lemma_fundamental_div_mod_converse(x * x, 0x3a0fc367dcf0ff0a5a1db0b1b7c3093f33int, q, y);
    if bit == 1 {
        lemma_fundamental_div_mod_converse(y * a, 0x3a0fc367dcf0ff0a5a1db0b1b7c3093f33int, p, y * a - p * 0x3a0fc367dcf0ff0a5a1db0b1b7c3093f33int);
    }
    ((2 * s.0 + bit) as nat, square_step(x, a, 0x3a0fc367dcf0ff0a5a1db0b1b7c3093f33int, bit))
}

/// The first 16 bits of the exponent of the same power.
proof fn lemma_power_of_134_bits_1_part_1()
    ensures
        pow_mod(2, 53472, 0x3a0fc367dcf0ff0a5a1db0b1b7c3093f33int) == 0x91a892c3cc5954db04f56c3e78fbacd36int,
{
    let s = lemma_square_start(2, 0x3a0fc367dcf0ff0a5a1db0b1b7c3093f33int);
    let s = lemma_step_of_134_bits(2, s, 1, 0, 0, 1);
    let s = lemma_step_of_134_bits(2, s, 2, 0, 0, 1);
    let s = lemma_step_of_134_bits(2, s, 8, 0, 0, 0);
    let s = lemma_step_of_134_bits(2, s, 64, 0, 0, 1);
    let s = lemma_step_of_134_bits(2, s, 8192, 0, 0, 0);
    let s = lemma_step_of_134_bits(2, s, 0x4000000, 0, 0, 0);
    let s = lemma_step_of_134_bits(2, s, 0x10000000000000int, 0, 0, 0);
    let s = lemma_step_of_134_bits(2, s, 0x100000000000000000000000000int, 0x468bb939cce552e87b1int, 0, 0);
    let s = lemma_step_of_134_bits(2, s, 0x3718e0424cdff11c5d39192b68fc1d68bdint, 0x3448bc10320052e1265e3335d58edf488eint, 1, 1);
    let s = lemma_step_of_134_bits(2, s, 0x39f4a2f3d9f444bd1bb07f75e9f7a62b4bint, 0x39d98f2c561a33ff6e23c89ce21cd87f0bint, 0, 1);
    let s = lemma_step_of_134_bits(2, s, 0x364cdc1328bd9f8cdf1ec263120f9c8790int, 0x32c855b624e8e2314774f48af40f061a99int, 1, 1);
    let s = lemma_step_of_134_bits(2, s, 0x396017ec5fe7f2898124ae2da509413bd7int, 0x38b27ff1a2af3ef4bf08a47050cbb07c80int, 0, 0);
    let s = lemma_step_of_134_bits(2, s, 0x80e27c11b810e824a46180637abde8111int, 0x11e18f0ff34fae25a8a700265ad705bf2int, 0, 0);
    let s = lemma_step_of_134_bits(2, s, 0x3546ccd4f2966a2015416008340b0943ebint, 0x30e2ca1c4580cb6eb79ad2765348a45c09int, 0, 0);
    let s = lemma_step_of_134_bits(2, s, 0x3746c147c6d4c2bcb53e1d3edb07d54ceeint, 0x349ff30bd8582c0d3fc3ed73d4b2eae135int, 0, 0);
    let s = lemma_step_of_134_bits(2, s, 0x31e8f1349b0b2b7374bebf020a631644b5int, 0x2ae71a855c6d1a4fdf42ef7c2439683631int, 0, 0);
    assert(s.0 == 53472);
}

/// The first 32 bits of the exponent of the same power.
proof fn lemma_power_of_134_bits_1_part_2()
    ensures
        pow_mod(2, 0xd0e0b376nat, 0x3a0fc367dcf0ff0a5a1db0b1b7c3093f33int) == 0x3272326df9a7050fe73c88ef624e7e7925int,
{
    lemma_power_of_134_bits_1_part_1();
    let s = (53472nat, 0x91a892c3cc5954db04f56c3e78fbacd36int);
    let s = lemma_step_of_134_bits(2, s, 0x91a892c3cc5954db04f56c3e78fbacd36int, 0x16d6977e1bef88aa6f1bafead57e37773int, 0, 1);
    let s = lemma_step_of_134_bits(2, s, 0x7bd0fb9af14fbefc25005d55c46cdcf6int, 0x10809d502bc7c19afe2ab900c62e741int, 0, 0);
    let s = lemma_step_of_134_bits(2, s, 0x156fa298c7b15763001164b1296b61ab71int, 0x7ea02ab7d9c1d5b9191de587b48ad8ed1int, 0, 1);
    let s = lemma_step_of_134_bits(2, s, 0xa4be7f579ea410797eed54a12d6c08a7cint, 0x1d3721388256de964b06e40ede63189dbint, 1, 1);
    let s = lemma_step_of_134_bits(2, s, 0x152f6e583de57149b001b2072779cde1abint, 0x7bae148ccbf5a604a911de4083d0564a6int, 0, 0);
    let s = lemma_step_of_134_bits(2, s, 0xbf3d1957f1c267413d868f2d3611e2127int, 0x275e30e917546784d5b7c0b39f9b95fdaint, 0, 0);
    let s = lemma_step_of_134_bits(2, s, 0x1da88ad406cc5c9f7a5d7b7f968c405583int, 0xf2656895f89df6d404f44e9e677325dddint, 0, 1);
    let s = lemma_step_of_134_bits(2, s, 0xba204b26404bf84f36fdbb16ebc525604int, 0x254a89ebc3665055884bf433da0f95b61int, 1, 1);
    let s = lemma_step_of_134_bits(2, s, 0x242b38eb1323c8376b675d2d955abdfa47int, 0x1687eef9d0561ac094d08edf05b3041fd5int, 0, 0);
    let s = lemma_step_of_134_bits(2, s, 0x1bf9e530dd18bbcec4cb9522c3625ffd42int, 0xd7adbc6bcc09af8d7aa0621ace05d5254int, 0, 1);
    let s = lemma_step_of_134_bits(2, s, 0x31b2516d2506aa9c9d7087a97ddd72e490int, 0x2a8964e6cd26a0095f147ba033ca6bf10cint, 0, 1);
    let s = lemma_step_of_134_bits(2, s, 0x24c3c2221f30ae8bf9888c9766f623af38int, 0x17478a4a81bbd030aa79b4f0e073c1f3d0int, 0, 1);
    let s = lemma_step_of_134_bits(2, s, 0x154d8970ad3c45cb2e20e051d86893b3a0int, 0x7d0e929e1b0d66913a7c0b005c5d8d45aint, 0, 0);
    let s = lemma_step_of_134_bits(2, s, 0x2b305b690bb22fe2437e54139cfc2ab012int, 0x20203b496d7b610ac48c180363f2e61f25int, 1, 1);
    let s = lemma_step_of_134_bits(2, s, 0x2f0eb2525df85c82ad9ca11c50159a497int, 0x26238963ee5e1014b86894a0418bce44int, 1, 1);
    let s = lemma_step_of_134_bits(2, s, 0x10566007adfee76ffbba0513094894bbd7int, 0x498d6dffa23e856e7476c66d4b77ac4e4int, 0, 0);
    assert(s.0 == 0xd0e0b376nat);
}

/// The power 0x687059bb73a6 of 2 modulo 0x3a0fc367dcf0ff0a5a1db0b1b7c3093f33.
proof fn lemma_power_of_134_bits_1()
    ensures
        pow_mod(2, 0x687059bb73a6nat, 0x3a0fc367dcf0ff0a5a1db0b1b7c3093f33int) == 0x1ae2c2ca6b6676caa5c3933f166ac4090cint,
{
    lemma_power_of_134_bits_1_part_2();
    let s = (0xd0e0b376nat, 0x3272326df9a7050fe73c88ef624e7e7925int);
    let s = lemma_step_of_134_bits(2, s, 0x3272326df9a7050fe73c88ef624e7e7925int, 0x2bd457248b914823a773b430441a4f2b40int, 1, 1);
    let s = lemma_step_of_134_bits(2, s, 0x127e6b56de661fb2e1b1b810824b2203ffint, 0x5e402f1ec5da06ea3113a38da1edb7628int, 0, 1);
    let s = lemma_step_of_134_bits(2, s, 0xefb581d7c78a6ef6b15a502f9652f2c12int, 0x3dda565b1e5925ef025186ca1de71240bint, 0, 1);
    let s = lemma_step_of_134_bits(2, s, 0xf6e910dae538a419d6b1ed66538cc9c26int, 0x41a006eb76cc107ac8875357e1cb936feint, 0, 0);
    let s = lemma_step_of_134_bits(2, s, 0x2193ecd76461a314632b252fac2571df0aint, 0x136b253c829292eed436f7e7d6f5f29a10int, 0, 0);
    let s = lemma_step_of_134_bits(2, s, 0x222db58da9c2188663d9fec5e43f57cb34int, 0x141e9b860bb6174ba9c14c985eb9432b93int, 0, 1);
    let s = lemma_step_of_134_bits(2, s, 0x29ec4697b0f87d8e5a17265f4ccabb4e8eint, 0x1e452a0a8e4ae09b49de671ad7bd827a4bint, 1, 1);
    let s = lemma_step_of_134_bits(2, s, 0x3670ac32de02b2b66529ce18ff8ea0ca73int, 0x330b6830ea7ba5cf9b7b6bf20b64a6c165int, 0, 1);
    let s = lemma_step_of_134_bits(2, s, 0x39ab85367547dc37d288a9fa8ae2f89b14int, 0x3947f416aa9f415e1e1f9cf1566db5f718int, 0, 0);
    let s = lemma_step_of_134_bits(2, s, 0x194a50590af4db732cf9df1acf89ca17c8int, 0xb040ff91e9678da4fc83b415b6b36e1beint, 1, 1);
    let s = lemma_step_of_134_bits(2, s, 0x235044a2aaefd0cf15c967aa8a624c6399int, 0x157a5e53d97cd968ba31de2f95076c2b36int, 0, 0);
    let s = lemma_step_of_134_bits(2, s, 0x106ef48637eb6783ff424e1f2aad82cbafint, 0x4a6b673ea18779aaa4464e6941c771c99int, 0, 0);
    let s = lemma_step_of_134_bits(2, s, 0x2ba89369dc0251d1658a5e9af7da5a826int, 0x20d40d719fb8a20f0e6711de006a56eeint, 0, 1);
    let s = lemma_step_of_134_bits(2, s, 0xfcfa47a120b7fa49be0d8b3e164f80474int, 0x44e3d037d05e92b98e7a6167eaf601a2fint, 1, 1);
    let s = lemma_step_of_134_bits(2, s, 0x2d0f4c7cb628677ee2f84a52fc2022d933int, 0x22f82ea76a7c0775dea288aabb6afeb06fint, 0, 0);
    assert(s.0 == 0x687059bb73a6nat);
}

/// The first 16 bits of the exponent of the same power.
proof fn lemma_power_of_134_bits_2_part_1()
    ensures
        pow_mod(0x1ae2c2ca6b6676caa5c3933f166ac4090cint, 36433, 0x3a0fc367dcf0ff0a5a1db0b1b7c3093f33int) == 0x135507b31bcff12e42c6029d111ca78951int,
{
    let s = lemma_square_start(0x1ae2c2ca6b6676caa5c3933f166ac4090cint, 0x3a0fc367dcf0ff0a5a1db0b1b7c3093f33int);
    let s = lemma_step_of_134_bits(0x1ae2c2ca6b6676caa5c3933f166ac4090cint, s, 1, 0, 0, 1);
    let s = lemma_step_of_134_bits(0x1ae2c2ca6b6676caa5c3933f166ac4090cint, s, 0x1ae2c2ca6b6676caa5c3933f166ac4090cint, 0xc731b47eb98f618b8d92e57c9c338dc76int, 0, 0);
    let s = lemma_step_of_134_bits(0x1ae2c2ca6b6676caa5c3933f166ac4090cint, s, 0x334a11ddb34626865e6f9ee42745f6e30eint, 0x2d4e97aa1471fb087d5eabcd9a24be5998int, 0, 0);
    let s = lemma_step_of_134_bits(0x1ae2c2ca6b6676caa5c3933f166ac4090cint, s, 0x2cd5965fd9bb194a9c1951d16a9bf9937cint, 0x229ed491d5c1a871731b6d05a0c0e57b3cint, 0, 0);
    let s = lemma_step_of_134_bits(0x1ae2c2ca6b6676caa5c3933f166ac4090cint, s, 0x151e7ed66fcf06be0894ceef457408531cint, 0x7ae8a6102351bbb4edede90428c7713ecint, 0x8360a87880db186382b705f7434a7a6adint, 1);
    let s = lemma_step_of_134_bits(0x1ae2c2ca6b6676caa5c3933f166ac4090cint, s, 0x754678ff7c8036caa955d9aa2b07d1919int, 0xece0b0a920a2d3d2c23e97e25e9556e9int, 0xe601791ffaa4b188e318b6b45b2ee16eeint, 1);
    let s = lemma_step_of_134_bits(0x1ae2c2ca6b6676caa5c3933f166ac4090cint, s, 0x644015095959dc68130cde324eed2eedeint, 0xad1823098c9f63f182a64904e8add5edint, 0x4800f650dd403d8434d6c34d625d9e829int, 1);
    let s = lemma_step_of_134_bits(0x1ae2c2ca6b6676caa5c3933f166ac4090cint, s, 0x8efe863f059569b3c108a73d2ea2c7571int, 0x1602aaab5dc0fc5eed73f40f83e678e5eint, 0, 0);
    let s = lemma_step_of_134_bits(0x1ae2c2ca6b6676caa5c3933f166ac4090cint, s, 0xbd516e7f89a5cb081278da2b7a2bffd27int, 0x2694c7d511a0e0c8f620bf3c9f6d7e359int, 0, 0);
    let s = lemma_step_of_134_bits(0x1ae2c2ca6b6676caa5c3933f166ac4090cint, s, 0x1e0ba24ddb39f1a54fd41a63c4ff71ea36int, 0xf8c3b845877002dbf2b20720deb8d6b60int, 0xf510d03afd5e86c2e8bd780f7c8fb266fint, 1);
    let s = lemma_step_of_134_bits(0x1ae2c2ca6b6676caa5c3933f166ac4090cint, s, 0x1b65cc2505541066d4f056eb093c196213int, 0xced9dcb3623eb2e20110a78d745e290cdint, 0, 0);
    let s = lemma_step_of_134_bits(0x1ae2c2ca6b6676caa5c3933f166ac4090cint, s, 0x3556f22207c279ffa4d31459ef494e4192int, 0x31006fede3003aca468035ee6e979a7a44int, 0xcbf391ebb1d9e43f89d8eee8bc9231a7cint, 1);
    let s = lemma_step_of_134_bits(0x1ae2c2ca6b6676caa5c3933f166ac4090cint, s, 0xd6e1fdc4404e10621cff0559ba87b29ecint, 0x31b450774effb3e98f8b51118fba4e5c6int, 0, 0);
    let s = lemma_step_of_134_bits(0x1ae2c2ca6b6676caa5c3933f166ac4090cint, s, 0x2478935d404c1f362d77a835cb7349f11eint, 0x16e8b5797e298b721efb3d5930e4ff4b09int, 0, 0);
    let s = lemma_step_of_134_bits(0x1ae2c2ca6b6676caa5c3933f166ac4090cint, s, 0x2e68bd51effe71c8a0ac8428e7699155b9int, 0x251861bfd9a0cf86955d1956c2b271c392int, 0, 0);
    let s = lemma_step_of_134_bits(0x1ae2c2ca6b6676caa5c3933f166ac4090cint, s, 0x3242461d8fc11ab498c04d2ea858597b9bint, 0x2b81385a03d0a24bd2862aa8179c399962int, 0x180186c97c9a519eac1bd99bd358578c21int, 1);
    assert(s.0 == 36433);
}

/// The first 32 bits of the exponent of the same power.
proof fn lemma_power_of_134_bits_2_part_2()
    ensures
        pow_mod(0x1ae2c2ca6b6676caa5c3933f166ac4090cint, 0x8e51fa3anat, 0x3a0fc367dcf0ff0a5a1db0b1b7c3093f33int) == 0x371fb6c1f8834014118643105e4351a7e1int,
{
    lemma_power_of_134_bits_2_part_1();
    let s = (36433nat, 0x135507b31bcff12e42c6029d111ca78951int);
    let s = lemma_step_of_134_bits(0x1ae2c2ca6b6676caa5c3933f166ac4090cint, s, 0x135507b31bcff12e42c6029d111ca78951int, 0x66fd38246a7aa92da5e4827e5aa519ff9int, 0x12e25970e9446db54eaddb699b6cd65a7aint, 1);
    let s = lemma_step_of_134_bits(0x1ae2c2ca6b6676caa5c3933f166ac4090cint, s, 0x1e739cea8a7a51b11a0658c4a7d597f1faint, 0xff892b0258c0473e99c5f807b0ff3d142int, 0x15609d3a0cf2857ffe3d8c7608f27548fdint, 1);
    let s = lemma_step_of_134_bits(0x1ae2c2ca6b6676caa5c3933f166ac4090cint, s, 0x2db236e9ad030418fd98126a8e11d1d881int, 0x23f6d5de89f921cea0bf634469e5d6c6e1int, 0x26766471ba31ad7b5d9999ba01b09bca5int, 1);
    let s = lemma_step_of_134_bits(0x1ae2c2ca6b6676caa5c3933f166ac4090cint, s, 0xdd7debaaa615305d49238c98502b9d449int, 0x34cf119688739fa91845377112e2238a7int, 0xfcd59f68e4721b4f87f80eea805f0524fint, 1);
    let s = lemma_step_of_134_bits(0x1ae2c2ca6b6676caa5c3933f166ac4090cint, s, 0x2a0b57796a5309b7aa08e1107223a953d3int, 0x1e72174ec989d1f03052c1ca0d496ef548int, 0x131711c6ebb6014c230b756943dc91ae3fint, 1);
    let s = lemma_step_of_134_bits(0x1ae2c2ca6b6676caa5c3933f166ac4090cint, s, 0x236c94caa6ef4f461ccc612f6aed8fe03fint, 0x159cdcea59c880bc10d100f2897dda25f5int, 0, 0);
    let s = lemma_step_of_134_bits(0x1ae2c2ca6b6676caa5c3933f166ac4090cint, s, 0x546eda4615402d2fe7c46283a6674b2int, 0x7ac845afe2a28a2412b0dd101638int, 0x18591b8d93c7962bc8b51ce2746e58ebd6int, 1);
    let s = lemma_step_of_134_bits(0x1ae2c2ca6b6676caa5c3933f166ac4090cint, s, 0x1d025adde0a52a00165ab7176b5837e5aeint, 0xe7e6a8a95ef2fecb213c171197008c146int, 0, 0);
    let s = lemma_step_of_134_bits(0x1ae2c2ca6b6676caa5c3933f166ac4090cint, s, 0x313f8093ea003936b8c88bc85b88100752int, 0x29c5bb98bb9c71a28155477b4501b0610bint, 0, 0);
    let s = lemma_step_of_134_bits(0x1ae2c2ca6b6676caa5c3933f166ac4090cint, s, 0x912e29ec80c98e543892a6fee820d8c13int, 0x16b044d1e96df61aac67974194ed69445int, 0, 0);
    let s = lemma_step_of_134_bits(0x1ae2c2ca6b6676caa5c3933f166ac4090cint, s, 0x131117a2d1118c638edce96a0e89e944aaint, 0x642e54cbafb89e61f0a3155b9f9c62b5dint, 0x11ef74f283a0e94654a88ec0176b2f4440int, 1);
    let s = lemma_step_of_134_bits(0x1ae2c2ca6b6676caa5c3933f166ac4090cint, s, 0x770a30c51e686b031b117a7c89531a89cint, 0xf40f3773d90c9f43daf5f3d456267b48int, 0x18da809d3edfae3d8aca06046aac3db10int, 1);
    let s = lemma_step_of_134_bits(0x1ae2c2ca6b6676caa5c3933f166ac4090cint, s, 0x72fb5b304c111a48476ab739f7ec60070int, 0xe3b41d5b2d381987cc5614d5b736e937int, 0xb78275dac3fc275256cad34ed963f530bint, 1);
    let s = lemma_step_of_134_bits(0x1ae2c2ca6b6676caa5c3933f166ac4090cint, s, 0x1d30535e7a91289795da4a1135c3907b53int, 0xeac7eb09391fef4df8e46370840aeff5fint, 0, 0);
    let s = lemma_step_of_134_bits(0x1ae2c2ca6b6676caa5c3933f166ac4090cint, s, 0x1a356ee9b36b42ac3fff84b6a41fbc9bfcint, 0xbd49b571ada63b580f836003bc08b7803int, 0x912d186743d43031362550d65ba28394int, 1);
    let s = lemma_step_of_134_bits(0x1ae2c2ca6b6676caa5c3933f166ac4090cint, s, 0x1d3e49f81294f34c35e5f7fbfaf4624a18int, 0xeba8c19c11917bdb6c91d774c0f0d8825int, 0, 0);
    assert(s.0 == 0x8e51fa3anat);
}

/// The first 48 bits of the exponent of the same power.
proof fn lemma_power_of_134_bits_2_part_3()
    ensures
        pow_mod(0x1ae2c2ca6b6676caa5c3933f166ac4090cint, 0x8e51fa3a480fnat, 0x3a0fc367dcf0ff0a5a1db0b1b7c3093f33int) == 0x27d9f727f4e85584b4f6d6557f2b376259int,
{
    lemma_power_of_134_bits_2_part_2();
    let s = (0x8e51fa3anat, 0x371fb6c1f8834014118643105e4351a7e1int);
    let s = lemma_step_of_134_bits(0x1ae2c2ca6b6676caa5c3933f166ac4090cint, s, 0x371fb6c1f8834014118643105e4351a7e1int, 0x3455b71e4c6d7297ba26eaeb6d2f500e51int, 0, 0);
    let s = lemma_step_of_134_bits(0x1ae2c2ca6b6676caa5c3933f166ac4090cint, s, 0x373cf4f659a902a58eeff9a231c278a9eint, 0x348d4cb59f718f120c88a0d7580c946bint, 0xfe9eaed1954671bcf65f322055f7a84e0int, 1);
    let s = lemma_step_of_134_bits(0x1ae2c2ca6b6676caa5c3933f166ac4090cint, s, 0x18d2e09ebcd462af337069cfabc85b18c4int, 0xa9cf97e099a4959eadeaa44fecdaba0c7int, 0, 0);
    let s = lemma_step_of_134_bits(0x1ae2c2ca6b6676caa5c3933f166ac4090cint, s, 0x387859ed7683914921df2795d36bfc556bint, 0x36ec1b37990c32952dcc8a95237826768eint, 0, 0);
    let s = lemma_step_of_134_bits(0x1ae2c2ca6b6676caa5c3933f166ac4090cint, s, 0x103d32bb42cc3d496f2b5f60b4fd53aa6fint, 0x48ab6a0bf7d714614403fb9d3d5c1231eint, 0xd45d33b0c39a8ff84ea418801419f873cint, 1);
    let s = lemma_step_of_134_bits(0x1ae2c2ca6b6676caa5c3933f166ac4090cint, s, 0xa989ce1b1f5ce61daf3b4bc98f8036fe0int, 0x1ef0c267ea9e33eebd375187a878848e4int, 0, 0);
    let s = lemma_step_of_134_bits(0x1ae2c2ca6b6676caa5c3933f166ac4090cint, s, 0x3040e7cd1e30d10c34e33528be0a096294int, 0x281a3198538058b01782e4062ce60ce474int, 0, 0);
    let s = lemma_step_of_134_bits(0x1ae2c2ca6b6676caa5c3933f166ac4090cint, s, 0x271af0a6b297f293bff1bb9cc83f7f9674int, 0x1a567ff07d702c3d8e159cee269d1fec3fint, 0, 0);
    let s = lemma_step_of_134_bits(0x1ae2c2ca6b6676caa5c3933f166ac4090cint, s, 0x18904294e378cbc226538d476b43cd9303int, 0xa644f4dc2fc15707bedee98e02defc799int, 0, 0);
    let s = lemma_step_of_134_bits(0x1ae2c2ca6b6676caa5c3933f166ac4090cint, s, 0x9760b9f3bcd05aae23c0874bca0f6078eint, 0x18aabe819da8f23cd3d2d0049e79f5ed0int, 0, 0);
    let s = lemma_step_of_134_bits(0x1ae2c2ca6b6676caa5c3933f166ac4090cint, s, 0x2f09328a59b8f8ae57babcdf37e2bbff54int, 0x261a9ff8685d343e09a29a4c063a527688int, 0, 0);
    let s = lemma_step_of_134_bits(0x1ae2c2ca6b6676caa5c3933f166ac4090cint, s, 0x324cd8da2acf184a796d4e38f7a6ff5e78int, 0x2b938840adeed529e401ec200afd55ff04int, 0, 0);
    let s = lemma_step_of_134_bits(0x1ae2c2ca6b6676caa5c3933f166ac4090cint, s, 0x26f68dda0ca4ae9419d659692650e48e74int, 0x1a2593763fea2c1c41bbc302e530dc4dafint, 0x1629bb78efe0ca91465ae86eff5569ad04int, 1);
    let s = lemma_step_of_134_bits(0x1ae2c2ca6b6676caa5c3933f166ac4090cint, s, 0x23d97d44897e2efd292fb9558e24420b98int, 0x16228db3d6869cc0e1918550ef7e1f4d25int, 0xb6e0970772bb2fe1484746373210beafint, 1);
    let s = lemma_step_of_134_bits(0x1ae2c2ca6b6676caa5c3933f166ac4090cint, s, 0x311c15b2560609dbb7c85c2373f5dd25afint, 0x2989bc12b142afeb51beb0ca5e196c9c52int, 0x1792f85e9e0f35e125aeb41bf0013570acint, 1);
    let s = lemma_step_of_134_bits(0x1ae2c2ca6b6676caa5c3933f166ac4090cint, s, 0x4cb2cdde88c5177271101f0defc0ea440int, 0x655146b8f467b033ea16435d175ca0d4int, 0x135726b26be34e7b53e7cd692770079cdint, 1);
    assert(s.0 == 0x8e51fa3a480fnat);
}

/// The first 64 bits of the exponent of the same power.
proof fn lemma_power_of_134_bits_2_part_4()
    ensures
        pow_mod(0x1ae2c2ca6b6676caa5c3933f166ac4090cint, 0x8e51fa3a480f89f9nat, 0x3a0fc367dcf0ff0a5a1db0b1b7c3093f33int) == 0xad883b9dc6bb8408805598cb096cf5e00int,
{
    lemma_power_of_134_bits_2_part_3();
    let s = (0x8e51fa3a480fnat, 0x27d9f727f4e85584b4f6d6557f2b376259int);
    let s = lemma_step_of_134_bits(0x1ae2c2ca6b6676caa5c3933f166ac4090cint, s, 0x27d9f727f4e85584b4f6d6557f2b376259int, 0x1b5a4561f061ea00275aeb177ce7d4aa87int, 0x1468652af18114b78db5df7e39b4398d59int, 1);
    let s = lemma_step_of_134_bits(0x1ae2c2ca6b6676caa5c3933f166ac4090cint, s, 0x65f3d23d4a555ee5e8466200f2ec128d5int, 0xb3059f7f915c1c6d95d06879b6a6c3dcint, 0, 0);
    let s = lemma_step_of_134_bits(0x1ae2c2ca6b6676caa5c3933f166ac4090cint, s, 0x38a1e6dbd6c3ae2f60899afdd3f851865int, 0x373d0bb3f707d6d3b55dea9caeb89e40int, 0, 0);
    let s = lemma_step_of_134_bits(0x1ae2c2ca6b6676caa5c3933f166ac4090cint, s, 0x140b15b10a0127aacdbd348a97834bd119int, 0x6eb4a286a771e22c8ee2b5178116965c5int, 0, 0);
    let s = lemma_step_of_134_bits(0x1ae2c2ca6b6676caa5c3933f166ac4090cint, s, 0x197096472aa814b079b80facb0ba781332int, 0xb2580b570481b9f666286523ae8155dffint, 0xe9c7c68d977f1b07f4826164c656c475fint, 1);
    let s = lemma_step_of_134_bits(0x1ae2c2ca6b6676caa5c3933f166ac4090cint, s, 0x332fbf55f2db69057e2c70e08bcafcd9a7int, 0x2d20227cb46bcf80876281680e2119e481int, 0, 0);
    let s = lemma_step_of_134_bits(0x1ae2c2ca6b6676caa5c3933f166ac4090cint, s, 0x657c66796da3f11f83c43fb6e82e7463eint, 0xb16330faef021aea196d338a8fc20748int, 0, 0);
    let s = lemma_step_of_134_bits(0x1ae2c2ca6b6676caa5c3933f166ac4090cint, s, 0x145abdf701cdfd4589b9d571bd522fcbacint, 0x722b694a7c6c4d1067d6775062b9b513eint, 0x1431ba3ed7e4424e2a01e26ea9253ee21eint, 1);
    let s = lemma_step_of_134_bits(0x1ae2c2ca6b6676caa5c3933f166ac4090cint, s, 0x184c15d2fd662c16754b495ffc9332f28eint, 0xa2af03c1ada23f1994c1b6165e8d1d580int, 0x127b32aabf89779110cd3ac0fdb3c69988int, 1);
    let s = lemma_step_of_134_bits(0x1ae2c2ca6b6676caa5c3933f166ac4090cint, s, 0x2cc413b48cb33e1fafbf5dbc3179e84118int, 0x2283cef17ee0ddd4d7320d9f68207f0f8aint, 0x5fe7e6e3936b4fd7042edbc94262d7bb4int, 1);
    let s = lemma_step_of_134_bits(0x1ae2c2ca6b6676caa5c3933f166ac4090cint, s, 0x33ad1d715d29b6659af4582f41f4b68e3cint, 0x2dfe3ce180ab617f4543928b722276cf0cint, 0x3b6d75f80d01d7973d9232ec8a56d115fint, 1);
    let s = lemma_step_of_134_bits(0x1ae2c2ca6b6676caa5c3933f166ac4090cint, s, 0x266f46f89befa335feb852d6d190a13523int, 0x19713f7c20b07ebe1b6912e8785c3cfeb3int, 0x171ac9df13dbe7fa0f9e2e423b8f30458cint, 1);
    let s = lemma_step_of_134_bits(0x1ae2c2ca6b6676caa5c3933f166ac4090cint, s, 0x173d250a697a68739ecb7e9816e176729cint, 0x94d1d50d48ab81ff7245859f1b7ad6563int, 0x1a4b7185dbe4015038ba6f055f9d130a37int, 1);
    let s = lemma_step_of_134_bits(0x1ae2c2ca6b6676caa5c3933f166ac4090cint, s, 0x390cdbbea9b311fd76e6af3733a6dd751fint, 0x380e769403daa5ae041cda74a83502a495int, 0, 0);
    let s = lemma_step_of_134_bits(0x1ae2c2ca6b6676caa5c3933f166ac4090cint, s, 0x3340d56740eaee55ba6911c14b22d6e512int, 0x2d3e47c8fad09e0fe6353e159c02352a10int, 0, 0);
    let s = lemma_step_of_134_bits(0x1ae2c2ca6b6676caa5c3933f166ac4090cint, s, 0x2f20b403e56735db981880bed05e8fe414int, 0x2640bf0cc89da388690dacb9e2384826ecint, 0x1e21a337acb4d262567789fe9542b8930int, 1);
    assert(s.0 == 0x8e51fa3a480f89f9nat);
}

/// The first 80 bits of the exponent of the same power.
proof fn lemma_power_of_134_bits_2_part_5()
    ensures
        pow_mod(0x1ae2c2ca6b6676caa5c3933f166ac4090cint, 0x8e51fa3a480f89f9de51nat, 0x3a0fc367dcf0ff0a5a1db0b1b7c3093f33int) == 0xa8616bf5a31802fcf7f2ef9954130b01dint,
{
    lemma_power_of_134_bits_2_part_4();
    let s = (0x8e51fa3a480f89f9nat, 0xad883b9dc6bb8408805598cb096cf5e00int);
    let s = lemma_step_of_134_bits(0x1ae2c2ca6b6676caa5c3933f166ac4090cint, s, 0xad883b9dc6bb8408805598cb096cf5e00int, 0x206a567b5a045e731a3e79f5abc9dfb53int, 0x13b012b9870c953f6c04190e8610f1623cint, 1);
    let s = lemma_step_of_134_bits(0x1ae2c2ca6b6676caa5c3933f166ac4090cint, s, 0x183dcb732d5220593575f443349797eaa0int, 0xa1efde3b9f8035d90ecf9224888c6b955int, 0x7635e34d7c92ae6d0d4cf1ad72013a27int, 1);
    let s = lemma_step_of_134_bits(0x1ae2c2ca6b6676caa5c3933f166ac4090cint, s, 0x163134acb14ad6e51dfbbdcabb2bb90707int, 0x87b764d1dfc4da55a4647124b984c0a69int, 0, 0);
    let s = lemma_step_of_134_bits(0x1ae2c2ca6b6676caa5c3933f166ac4090cint, s, 0x15fbaa64e5f19339fecb236e1e1be87846int, 0x852ba1556379960e4cf63ce5f005ae62eint, 0x11fcda85f741978eaa1be4e4ac0b6f85e2int, 1);
    let s = lemma_step_of_134_bits(0x1ae2c2ca6b6676caa5c3933f166ac4090cint, s, 0x2203144a0510271da7ef0bbe7e861fc7b2int, 0x13ec8a68ed373a8d064567330adbdc51b1int, 0xbc601538dd1dedfbc7b01a495a049f897int, 1);
    let s = lemma_step_of_134_bits(0x1ae2c2ca6b6676caa5c3933f166ac4090cint, s, 0x31721ef8310b3bd6bfde2eb8fe20fe77f7int, 0x2a1bc6719b84cd747490db52d1f7a07d0aint, 0xd80b861e79f0cfb8ca457fde9847cd8c0int, 1);
    let s = lemma_step_of_134_bits(0x1ae2c2ca6b6676caa5c3933f166ac4090cint, s, 0x1e7eeccb078713353c7eeb4315b877cca4int, 0x1004727fbadbe688c74e07b1d938933f1aint, 0xe3fe8d20c36896e189ed505b4b5da8842int, 1);
    let s = lemma_step_of_134_bits(0x1ae2c2ca6b6676caa5c3933f166ac4090cint, s, 0x25f3e79434b788d9b02a39ca153f4e5972int, 0x18ceef7e1d219ca987f238c9d462866de4int, 0, 0);
    let s = lemma_step_of_134_bits(0x1ae2c2ca6b6676caa5c3933f166ac4090cint, s, 0x19de6cc8ac620e1043791bb4bb7de17658int, 0xb8690d9f608271ee256de4a4721fc32e6int, 0, 0);
    let s = lemma_step_of_134_bits(0x1ae2c2ca6b6676caa5c3933f166ac4090cint, s, 0x2c371a2a4c7849819bd5b7961d5b8a806eint, 0x21abc29a078f4033149ab8b1d323a604c7int, 0x14c6754d72c8e3d7cb21e652d5c69d46dcint, 1);
    let s = lemma_step_of_134_bits(0x1ae2c2ca6b6676caa5c3933f166ac4090cint, s, 0x194a3c0b7b186dbe9fc846219906e974a0int, 0xb03fe4945206c1bdb57f127e865838269int, 0, 0);
    let s = lemma_step_of_134_bits(0x1ae2c2ca6b6676caa5c3933f166ac4090cint, s, 0x338a0cbda247fe9345e515b950d9659215int, 0x2dbfe7162683e41e78f7c5468995fe523fint, 0x17831f9a1fe5c218557fb5a251937d1b9aint, 1);
    let s = lemma_step_of_134_bits(0x1ae2c2ca6b6676caa5c3933f166ac4090cint, s, 0x3901ad9e94ce7063e215952bff20e70062int, 0x37f880303b909584eb5dd1ba31efa46ff7int, 0, 0);
    let s = lemma_step_of_134_bits(0x1ae2c2ca6b6676caa5c3933f166ac4090cint, s, 0x37d5a9a9cfdb42e62bd8f65f37e6dd0e4fint, 0x35b16dadca818818c7623b69600cf91bfaint, 0, 0);
    let s = lemma_step_of_134_bits(0x1ae2c2ca6b6676caa5c3933f166ac4090cint, s, 0x29649b69079391d4dfc44f0c6e5be5a393int, 0x1d827c3cd25c9d49cce32590c62d75a27eint, 0, 0);
    let s = lemma_step_of_134_bits(0x1ae2c2ca6b6676caa5c3933f166ac4090cint, s, 0x3f1199c8583ab778152a053f6dda8254fint, 0x4481fb8c92497efdade043c5ebfc8001int, 0x1a39c662603249e2dff2ef997b80da67c9int, 1);
    assert(s.0 == 0x8e51fa3a480f89f9de51nat);
}

/// The power 0x8e51fa3a480f89f9de5163 of 0x1ae2c2ca6b6676caa5c3933f166ac4090c modulo 0x3a0fc367dcf0ff0a5a1db0b1b7c3093f33.
proof fn lemma_power_of_134_bits_2()
    ensures
        pow_mod(0x1ae2c2ca6b6676caa5c3933f166ac4090cint, 0x8e51fa3a480f89f9de5163nat, 0x3a0fc367dcf0ff0a5a1db0b1b7c3093f33int) == 1,
{
    lemma_power_of_134_bits_2_part_5();
    let s = (0x8e51fa3a480f89f9de51nat, 0xa8616bf5a31802fcf7f2ef9954130b01dint);
    let s = lemma_step_of_134_bits(0x1ae2c2ca6b6676caa5c3933f166ac4090cint, s, 0xa8616bf5a31802fcf7f2ef9954130b01dint, 0x1e84f3253dd823e1ad4617a5ccc672cb7int, 0, 0);
    let s = lemma_step_of_134_bits(0x1ae2c2ca6b6676caa5c3933f166ac4090cint, s, 0x1326784f7d9a8f78ba8451b3282a09f1d4int, 0x650f77ffed0d7cb03c96f636156b062a8int, 0x158296a77a28484d5e06a94252df00fbc7int, 1);
    let s = lemma_step_of_134_bits(0x1ae2c2ca6b6676caa5c3933f166ac4090cint, s, 0x1fd09445e83a8d4b34d9597f759d17d77bint, 0x116ecfae9d6a0ca6f3aa222f9f7531a5e8int, 0x13d93d058121b1665b0ae2945a4e131078int, 1);
    let s = lemma_step_of_134_bits(0x1ae2c2ca6b6676caa5c3933f166ac4090cint, s, 0xdcce9fabbfdd0845c9d51aac9219557a4int, 0x347b9baf4aea13189eff011eccd39088aint, 0, 0);
    let s = lemma_step_of_134_bits(0x1ae2c2ca6b6676caa5c3933f166ac4090cint, s, 0x39ff89ecdac2ceb10530aa416914983792int, 0x39ef54fa7b13ec95d9aa986697115885b1int, 0, 0);
    let s = lemma_step_of_134_bits(0x1ae2c2ca6b6676caa5c3933f166ac4090cint, s, 0x2cd7dc38f576cbde3c041d431e15adde01int, 0x22a2573f921e606f4183046ade91ceac33int, 0, 0);
    let s = lemma_step_of_134_bits(0x1ae2c2ca6b6676caa5c3933f166ac4090cint, s, 0x30109f4a1b44c12e63a81691a12887e0d8int, 0x27ca18b76b9717e221a1192fcf7dea6e43int, 0x5468df5ba98cb526d3c83a11ac94eaec3int, 1);
    let s = lemma_step_of_134_bits(0x1ae2c2ca6b6676caa5c3933f166ac4090cint, s, 0x37faa9a88a9c9fc6a012bf055085d267fbint, 0x35f8aea6412f6675572443d6090fa2856aint, 0x1aa953ce3568645c36b628378738a7f631int, 1);
    assert(s.0 == 0x8e51fa3a480f89f9de5163nat);
}

/// 0x3a0fc367dcf0ff0a5a1db0b1b7c3093f33 is prime: the prime 0x8e51fa3a480f89f9de5163, of square above it, divides its
/// predecessor.
pub proof fn lemma_prime_of_134_bits()
    ensures
        is_prime(0x3a0fc367dcf0ff0a5a1db0b1b7c3093f33int),
{
    lemma_prime_of_88_bits();
    if !is_prime(0x3a0fc367dcf0ff0a5a1db0b1b7c3093f33int) {
        lemma_power_of_134_bits_1();
        lemma_power_of_134_bits_2();
        lemma_pow_mod_mul(2, 0x687059bb73a6nat, 0x8e51fa3a480f89f9de5163nat, 0x3a0fc367dcf0ff0a5a1db0b1b7c3093f33int);
        assert(0x687059bb73a6nat * 0x8e51fa3a480f89f9de5163nat == 0x3a0fc367dcf0ff0a5a1db0b1b7c3093f32nat);
        lemma_power_of_134_bits_1();
        let p = lemma_prime_factor(0x3a0fc367dcf0ff0a5a1db0b1b7c3093f33int);
        lemma_pow_mod_divisor(2, 0x3a0fc367dcf0ff0a5a1db0b1b7c3093f32nat, 0x3a0fc367dcf0ff0a5a1db0b1b7c3093f33int, p);
        lemma_small_mod(1, p as nat);
        let d = lemma_order_exists(2, p, 0x3a0fc367dcf0ff0a5a1db0b1b7c3093f32nat);
        assert((0x3a0fc367dcf0ff0a5a1db0b1b7c3093f33int - 1) / 0x8e51fa3a480f89f9de5163int == 0x687059bb73a6int);
        lemma_pocklington_factor(0x3a0fc367dcf0ff0a5a1db0b1b7c3093f33int, 2, 0x8e51fa3a480f89f9de5163int, 0x1ae2c2ca6b6676caa5c3933f166ac4090cint, -0x9f3197458aa4f1397177177d0d3c180e1int, 0x49b736299a7868a0a0c09d6deefc832a4int, p, d);
        lemma_pocklington_bound(0x3a0fc367dcf0ff0a5a1db0b1b7c3093f33int, 2, 0x8e51fa3a480f89f9de5163int, p, d);
    }
}

/// One step of square-and-multiply modulo 0x32cdcafae152df290ed9fa9b80caa8174cb. The power before is
/// given twice, as `s.1` and as `x`; `q` is the quotient of its square, and
/// `p` the quotient of the product with `a` that follows where the bit is
/// set.
proof fn lemma_step_of_138_bits(a: int, s: (nat, int), x: int, q: int, p: int, bit: int) -> (r: (
    nat,
    int,
))
    requires
        s.1 == pow_mod(a, s.0, 0x32cdcafae152df290ed9fa9b80caa8174cbint),
        s.1 == x,
        0 <= x * x - q * 0x32cdcafae152df290ed9fa9b80caa8174cbint < 0x32cdcafae152df290ed9fa9b80caa8174cbint,
        bit == 0 || bit == 1,
        bit == 1 ==> 0 <= (x * x - q * 0x32cdcafae152df290ed9fa9b80caa8174cbint) * a - p * 0x32cdcafae152df290ed9fa9b80caa8174cbint < 0x32cdcafae152df290ed9fa9b80caa8174cbint,
    ensures
        r.0 == 2 * s.0 + bit,
        r.1 == pow_mod(a, r.0, 0x32cdcafae152df290ed9fa9b80caa8174cbint),
        r.1 == if bit == 1 {
            (x * x - q * 0x32cdcafae152df290ed9fa9b80caa8174cbint) * a - p * 0x32cdcafae152df290ed9fa9b80caa8174cbint
        } else {
            x * x - q * 0x32cdcafae152df290ed9fa9b80caa8174cbint
        },
{
    lemma_square_step(a, s.0, 0x32cdcafae152df290ed9fa9b80caa8174cbint, bit, x);
    let y = x * x - q * 0x32cdcafae152df290ed9fa9b80caa8174cbint;
    lemma_fundamental_div_mod_converse(x * x, 0x32cdcafae152df290ed9fa9b80caa8174cbint, q, y);
    if bit == 1 {
        lemma_fundamental_div_mod_converse(y * a, 0x32cdcafae152df290ed9fa9b80caa8174cbint, p, y * a - p * 0x32cdcafae152df290ed9fa9b80caa8174cbint);
    }
    ((2 * s.0 + bit) as nat, square_step(x, a, 0x32cdcafae152df290ed9fa9b80caa8174cbint, bit))
}

/// The power 14 of 2 modulo 0x32cdcafae152df290ed9fa9b80caa8174cb.
proof fn lemma_power_of_138_bits_1()
    ensures
        pow_mod(2, 14, 0x32cdcafae152df290ed9fa9b80caa8174cbint) == 16384,
{
    let s = lemma_square_start(2, 0x32cdcafae152df290ed9fa9b80caa8174cbint);
    let s = lemma_step_of_138_bits(2, s, 1, 0, 0, 1);
    let s = lemma_step_of_138_bits(2, s, 2, 0, 0, 1);
    let s = lemma_step_of_138_bits(2, s, 8, 0, 0, 1);
    let s = lemma_step_of_138_bits(2, s, 128, 0, 0, 0);
    assert(s.0 == 14);
}

/// The first 16 bits of the exponent of the same power.
proof fn lemma_power_of_138_bits_2_part_1()
    ensures
        pow_mod(16384, 59455, 0x32cdcafae152df290ed9fa9b80caa8174cbint) == 0x22182d7a923348203cb188eec81c9632ffcint,
{
    let s = lemma_square_start(16384, 0x32cdcafae152df290ed9fa9b80caa8174cbint);
    let s = lemma_step_of_138_bits(16384, s, 1, 0, 0, 1);
    let s = lemma_step_of_138_bits(16384, s, 16384, 0, 0, 1);
    let s = lemma_step_of_138_bits(16384, s, 0x40000000000int, 0, 0, 1);
    let s = lemma_step_of_138_bits(16384, s, 0x4000000000000000000000000int, 0x509faf1d7c73cc7int, 0, 0);
    let s = lemma_step_of_138_bits(16384, s, 0x1784b39dc4f7061d71864d3815dd731a233int, 0xae32186d37a5387746eacdfef9f7ae5b36int, 2680, 1);
    let s = lemma_step_of_138_bits(16384, s, 0x271878a756acb6b6f13286ef6c6775712d8int, 0x1e15e9f94f6352c261dd79f0e34b0f5f9eeint, 0, 0);
    let s = lemma_step_of_138_bits(16384, s, 0x1cc27d3c1528c687e70c140e837daf80e86int, 0x1047daa62344ca03332538c8f25a3d5617eint, 0, 0);
    let s = lemma_step_of_138_bits(16384, s, 0x6fcaa75f14e44ffc01fedd926af593873aint, 0xf5fe0ab2c9a00b22826c82d1510e61d66int, 0, 0);
    let s = lemma_step_of_138_bits(16384, s, 0x2a192f9c6d64b754f5b05e18a425fd8b142int, 0x22e2763dee5583876ef499cf062f744f671int, 0, 0);
    let s = lemma_step_of_138_bits(16384, s, 0x1f46f6982ee2c6917e8fa5577ca09d0b569int, 0x13417447b8a1f7561b23742a702900bb958int, 0, 0);
    let s = lemma_step_of_138_bits(16384, s, 0x1fc46d4015de4efd0f8ffca57324e8dcc49int, 0x13dd258f1b7db2e436505275d7ca79dea97int, 7641, 1);
    let s = lemma_step_of_138_bits(16384, s, 0x3811691944a83b0547195d5aa74cce00edint, 0x3de0a9f69a14938a165b31846e9ab3808int, 3853, 1);
    let s = lemma_step_of_138_bits(16384, s, 0x3d0a57c7ca98ddf81e193c9bacb4d96cb1int, 0x4956e8fbbf7d2c3100eb7c00c838161deint, 9463, 1);
    let s = lemma_step_of_138_bits(16384, s, 0x260528d5d369b872a52f9ed912770818423int, 0x1c7403e92b72a0a102c61266b93e8359079int, 678, 1);
    let s = lemma_step_of_138_bits(16384, s, 0x161c2a55ae98d8a34395a6f6e989b5a2e5eint, 0x99f52c08649238d8bd9a6078b4445fc45cint, 1945, 1);
    let s = lemma_step_of_138_bits(16384, s, 0x2b748eccff6c4d92e59c8b21b926fd3a5adint, 0x252b6f8d1f213f51c7b7d1111dd7d976ef1int, 13196, 1);
    assert(s.0 == 59455);
}

/// The first 32 bits of the exponent of the same power.
proof fn lemma_power_of_138_bits_2_part_2()
    ensures
        pow_mod(16384, 0xe83f0d9fnat, 0x32cdcafae152df290ed9fa9b80caa8174cbint) == 0x6fd382b50d6f6daee224bc0b5a51392e92int,
{
    lemma_power_of_138_bits_2_part_1();
    let s = (59455nat, 0x22182d7a923348203cb188eec81c9632ffcint);
    let s = lemma_step_of_138_bits(16384, s, 0x22182d7a923348203cb188eec81c9632ffcint, 0x16e1792cc828119662570ffceafcfdf8647int, 0, 0);
    let s = lemma_step_of_138_bits(16384, s, 0x444beb3193c6f96e68606cd202ef07d9c3int, 0x5bcff164840aaa92169618c358653dc2eint, 0, 0);
    let s = lemma_step_of_138_bits(16384, s, 0x22372e67013a7053d50047ec9f3b873ba0fint, 0x170b29059969a3da6c471a3e0e6d4bf64caint, 0, 0);
    let s = lemma_step_of_138_bits(16384, s, 0x1450628605d38fb31e684512ff6e57958b3int, 0x81f619d9263c312644ec271e8a9f649f77int, 0, 0);
    let s = lemma_step_of_138_bits(16384, s, 0x26d843fb412b55eefecb24d56e5d7ee2dccint, 0x1db369c7ac71025f46e6f2a73158097b1d4int, 13316, 1);
    let s = lemma_step_of_138_bits(16384, s, 0xbfc967e478b4a4584fb3a3bcdedc1df0d4int, 0x2d400bc9a18eb7b5195d2daf3e8e4f41dbint, 7886, 1);
    let s = lemma_step_of_138_bits(16384, s, 0x1a3914ecf93c9dccbf9bae206764eddfaa6int, 0xd8907c1d5f8513acc0e862c93a4850a13dint, 0, 0);
    let s = lemma_step_of_138_bits(16384, s, 0xd0ef9f58cb4a3b9a3829ee81b43d482445int, 0x35b4530bae81836c229c05f5e85a70a988int, 14276, 1);
    let s = lemma_step_of_138_bits(16384, s, 0x30f9b99b383cf920c74f43090bc7fbb3794int, 0x2f3680a666bb52d31b2299450634e23a51fint, 4425, 1);
    let s = lemma_step_of_138_bits(16384, s, 0x1e1446b8365427075e01a6f78b5c4d2f71dint, 0x11cf109f7c98e46194fb832e0ba85c0c0a5int, 0, 0);
    let s = lemma_step_of_138_bits(16384, s, 0x24039a9e7b63b84d565300d98f2b5d47272int, 0x1987a23662fa8d665d6f85ef24604476301int, 0, 0);
    let s = lemma_step_of_138_bits(16384, s, 0x3191c9e34322e40d3d7e3ee1671a900c4f9int, 0x305d765e2788d2be42f99528bab93fa062fint, 10286, 1);
    let s = lemma_step_of_138_bits(16384, s, 0x1d1283626f09b4d2cb62cddcc08e4384b86int, 0x10a2f2d5856eb97b2e070734babad25f9bdint, 12161, 1);
    let s = lemma_step_of_138_bits(16384, s, 0xc574016a61491c598ed5666b6957a420b5int, 0x2ff6aad47b508e37258fe2ed6a5f1cdd3aint, 3520, 1);
    let s = lemma_step_of_138_bits(16384, s, 0x223a6fa7ba5e1bf7cbe81716ec60eb8d8c0int, 0x170f8b97ff4a49f63642c2b52603b138656int, 613, 1);
    let s = lemma_step_of_138_bits(16384, s, 0x1f2778fa2ff275257babedbbce0bc76d5e9int, 0x131ac198a438f618b7996aede63396d307bint, 5258, 1);
    assert(s.0 == 0xe83f0d9fnat);
}

/// The first 48 bits of the exponent of the same power.
proof fn lemma_power_of_138_bits_2_part_3()
    ensures
        pow_mod(16384, 0xe83f0d9f73c3nat, 0x32cdcafae152df290ed9fa9b80caa8174cbint) == 0x8d25ecef6f39a46c43ef351303698d9013int,
{
    lemma_power_of_138_bits_2_part_2();
    let s = (0xe83f0d9fnat, 0x6fd382b50d6f6daee224bc0b5a51392e92int);
    let s = lemma_step_of_138_bits(16384, s, 0x6fd382b50d6f6daee224bc0b5a51392e92int, 0xf625069498d151ba15fdd3f8932f22f5fint, 0, 0);
    let s = lemma_step_of_138_bits(16384, s, 0x1ead4a417266a72c3537519fa12111b2eefint, 0x12860dad937794c67287b5b449316d9388eint, 14125, 1);
    let s = lemma_step_of_138_bits(16384, s, 0x10a9d651f99cb3c38ad99a44289dbc89b51int, 0x5772c898726b2c88aeb2a19dcc6a3c657aint, 10724, 1);
    let s = lemma_step_of_138_bits(16384, s, 0x9c305f0229e79019bb9e950585c4f83834int, 0x1e02dfccd5068782a4d939d7018a804b29int, 3324, 1);
    let s = lemma_step_of_138_bits(16384, s, 0x1c3972e91003be4ef5e32a1dbf2fe5ac42cint, 0xfae2495ebf1efb0ec24433a52e0ca029daint, 0, 0);
    let s = lemma_step_of_138_bits(16384, s, 0x241889e9da3e60fd67f126a30b164716fb2int, 0x19a5591465ab582b9e15808571e282faf65int, 0, 0);
    let s = lemma_step_of_138_bits(16384, s, 0x2a38f95ffd820620cfded9d8b4eeeb0feadint, 0x231738c47cec591950675e94226539710c3int, 11783, 1);
    let s = lemma_step_of_138_bits(16384, s, 0x28f95b8a0e41037bb32ff347ba99a0b5473int, 0x210bd10b70b31b204dc4c4e547e36da6fe8int, 11658, 1);
    let s = lemma_step_of_138_bits(16384, s, 0x2326b79199c0862a1e84998022dc85b9b92int, 0x185237f23dceadaf640787e9fccfb4f374dint, 7630, 1);
    let s = lemma_step_of_138_bits(16384, s, 0x763a7d6240c00d6d556935b16879e645a6int, 0x11322cc74cfe3f5c16ea64c24b7b5616e7int, 1601, 1);
    let s = lemma_step_of_138_bits(16384, s, 0xd23359a6e298ec9b80b703d21571025675int, 0x365b3f9462ba4b6e925ea422cbe3a873e3int, 0, 0);
    let s = lemma_step_of_138_bits(16384, s, 0x208c0d05737a1478e9347f80d39c28d1078int, 0x14d9db91a15f3202bd8c02b243bc7f343ccint, 0, 0);
    let s = lemma_step_of_138_bits(16384, s, 0x1170c489bc74d3968387181b3f49ad4057cint, 0x5fcb6965ba5006e13221402c3eb251dd2aint, 0, 0);
    let s = lemma_step_of_138_bits(16384, s, 0x1e8df1526ba13729b1256f95df77032abc2int, 0x126045a04cd7522b520151ed3f8f9b06ebfint, 0, 0);
    let s = lemma_step_of_138_bits(16384, s, 0x216a8901ae882e58c68dc6968b4b5af618fint, 0x15fabaa083ac177541543a23a30be95b35dint, 7278, 1);
    let s = lemma_step_of_138_bits(16384, s, 0xecaf311a891586edda8fc3b09e67621cc6int, 0x44ea954ae66cc2727ed045d0e39e3793a1int, 3879, 1);
    assert(s.0 == 0xe83f0d9f73c3nat);
}

/// The first 64 bits of the exponent of the same power.
proof fn lemma_power_of_138_bits_2_part_4()
    ensures
        pow_mod(16384, 0xe83f0d9f73c3fc29nat, 0x32cdcafae152df290ed9fa9b80caa8174cbint) == 0x2c3ce21b879b43caa5b17545bf314e1e320int,
{
    lemma_power_of_138_bits_2_part_3();
    let s = (0xe83f0d9f73c3nat, 0x8d25ecef6f39a46c43ef351303698d9013int);
    let s = lemma_step_of_138_bits(16384, s, 0x8d25ecef6f39a46c43ef351303698d9013int, 0x18826b1a8e99f91132631d84955185490eint, 4104, 1);
    let s = lemma_step_of_138_bits(16384, s, 0x1113ee6316b3c02326757c0927d1b7b69a8int, 0x5bda2d5cba5705e3cfd8a3cb10ed95eb76int, 2199, 1);
    let s = lemma_step_of_138_bits(16384, s, 0x1447ccdf9004c739cc154f8fe33e5e94443int, 0x818859952eeea1a980f618a2d1ee3b52eeint, 3827, 1);
    let s = lemma_step_of_138_bits(16384, s, 0x91d68e4e7347dc48af158aff0e566ec94fint, 0x1a2a4f0adcde4f4922aa2541e6a77d4428int, 12590, 1);
    let s = lemma_step_of_138_bits(16384, s, 0x18bed316db5f53291570178cecb140c6886int, 0xc0d8c5e2e97f145dea4253864f2daa4e28int, 9972, 1);
    let s = lemma_step_of_138_bits(16384, s, 0xa5d142bedb201b5f9e3ec2d78608618c84int, 0x21d3502b1b2f6c51f772f4c00d4e5b4395int, 1874, 1);
    let s = lemma_step_of_138_bits(16384, s, 0x1b737776c299c4b706050a9964d3a9149faint, 0xed52d1d52d80e34503ff464ab6f5fd4b9dint, 0, 0);
    let s = lemma_step_of_138_bits(16384, s, 0x2eb4861e023caf813b6078fed9cf8596ea5int, 0x2aefe825cb80b549af1a2759a1f6da33065int, 0, 0);
    let s = lemma_step_of_138_bits(16384, s, 0x1b7310b501800eab2421547d20177521242int, 0xed4be125edf54b8298b26ca517c74f4edbint, 0, 0);
    let s = lemma_step_of_138_bits(16384, s, 0x31839ac50801f80978fa28df009e99b955bint, 0x3041cc8b2c93db5935e23390b41f14b6326int, 0, 0);
    let s = lemma_step_of_138_bits(16384, s, 0x314e9379e0b8a6cb198e1b74997277a3737int, 0x2fdaa699b38c4dad19c98649b1ce5ea0f36int, 11534, 1);
    let s = lemma_step_of_138_bits(16384, s, 0x3a3c1def681ada30d27376177df4e3ade6int, 0x42c0b0656e5e67a6a81cb3df2bd28a465int, 0, 0);
    let s = lemma_step_of_138_bits(16384, s, 0x20e9112a9dbc14e8ada2afa3c03f9678a8dint, 0x1551b3f7f5f48888b2ec2016e7f2667589dint, 822, 1);
    let s = lemma_step_of_138_bits(16384, s, 0xf22b5e9dd5850585738297bfa33e9d7c2eint, 0x4825c754da1ebf95be44fe9b45fb4cfda6int, 0, 0);
    let s = lemma_step_of_138_bits(16384, s, 0x11b29314701d9c8e2438b86a33a9f063da2int, 0x62a3a598c48dfa194c0ac67d87e59ff78eint, 0, 0);
    let s = lemma_step_of_138_bits(16384, s, 0x20402da185801a6ef657d4740a691daf4eaint, 0x147916050d377984d05e71e53e9bca56312int, 6816, 1);
    assert(s.0 == 0xe83f0d9f73c3fc29nat);
}

/// The first 80 bits of the exponent of the same power.
proof fn lemma_power_of_138_bits_2_part_5()
    ensures
        pow_mod(16384, 0xe83f0d9f73c3fc296876nat, 0x32cdcafae152df290ed9fa9b80caa8174cbint) == 0x16558cabf3893517a959284844cd0c7c7bcint,
{
    lemma_power_of_138_bits_2_part_4();
    let s = (0xe83f0d9f73c3fc29nat, 0x2c3ce21b879b43caa5b17545bf314e1e320int);
    let s = lemma_step_of_138_bits(16384, s, 0x2c3ce21b879b43caa5b17545bf314e1e320int, 0x2685383a0c26b0e223a1f28ed832d643418int, 0, 0);
    let s = lemma_step_of_138_bits(16384, s, 0x17cb508926454ab47688cb41ec1719994f8int, 0xb24e42ca4545b41b35f775c1ac1dca98d2int, 5065, 1);
    let s = lemma_step_of_138_bits(16384, s, 0x68c7966f3f46fc6d15e921aa805b1ebb9dint, 0xd819e0196707c2962b46a6b75a808dcfcint, 6152, 1);
    let s = lemma_step_of_138_bits(16384, s, 0x231ab68c7f2dbcd322b7497da27dd9e91a8int, 0x18419e5555f12f5edea12a96f2f3a9ccaaeint, 0, 0);
    let s = lemma_step_of_138_bits(16384, s, 0x2327380af877dc23c0e2413e21ffa662e46int, 0x1852e9bbddb5c141c507564fd5bce63f851int, 1119, 1);
    let s = lemma_step_of_138_bits(16384, s, 0x7c8be4fab6873595ce0b12f0851bdcbcabint, 0x13153d74074cfe46421aeeb8c93fc79e7eint, 0, 0);
    let s = lemma_step_of_138_bits(16384, s, 0x305bbdb23e1b48faa246ef18e945259d44fint, 0x2e07d3326878d17275ede1a3db9666cc597int, 0, 0);
    let s = lemma_step_of_138_bits(16384, s, 0x22083501428424106632a9c33589220d5a4int, 0x16cc0ea6ec4bd2668be2a1f93e0fd575409int, 0, 0);
    let s = lemma_step_of_138_bits(16384, s, 0x2426616e4391ee5cb05b6e46b35626d99edint, 0x19b908259e5e65f9bce738560144fdd66e1int, 0, 0);
    let s = lemma_step_of_138_bits(16384, s, 0x2d649d0edcd6e54b0fb34a0bf2dfbcf9cfeint, 0x288ef65e86288edef830c51b59330402609int, 11010, 1);
    let s = lemma_step_of_138_bits(16384, s, 0xbac28d47201992dc0b47be66dcc0173d6aint, 0x2ae8c35d3180c279c3c075c1cae6a20ca4int, 8899, 1);
    let s = lemma_step_of_138_bits(16384, s, 0x1bb7e62cd4504e8e1bfd658ffef4457135fint, 0xf1f7d30444a14f584fdbb212f8c095984fint, 9633, 1);
    let s = lemma_step_of_138_bits(16384, s, 0x1644ce83a4e7580e13ebdcc6709b95b3555int, 0x9c2d321e7cf8c637be302396e1d86e46dcint, 0, 0);
    let s = lemma_step_of_138_bits(16384, s, 0x2e40b4e299ca1cac46c538d61756b206dc5int, 0x2a1bfdbc9848a3eb0257443880766529606int, 2443, 1);
    let s = lemma_step_of_138_bits(16384, s, 0x1a47f6a2252adc43e66096c6995c95032c7int, 0xd9868f5ee45cb0bf3fcd26429d182992e8int, 12566, 1);
    let s = lemma_step_of_138_bits(16384, s, 0xa11b831435197f35f80896cdc6ffb35b8eint, 0x1fee5f8c27a4d71cacbba8357e864d9818int, 0, 0);
    assert(s.0 == 0xe83f0d9f73c3fc296876nat);
}

/// The first 96 bits of the exponent of the same power.
proof fn lemma_power_of_138_bits_2_part_6()
    ensures
        pow_mod(16384, 0xe83f0d9f73c3fc296876c2c6nat, 0x32cdcafae152df290ed9fa9b80caa8174cbint) == 0x2dcec424d952b4166dc1254c44d9426a845int,
{
    lemma_power_of_138_bits_2_part_5();
    let s = (0xe83f0d9f73c3fc296876nat, 0x16558cabf3893517a959284844cd0c7c7bcint);
    let s = lemma_step_of_138_bits(16384, s, 0x16558cabf3893517a959284844cd0c7c7bcint, 0x9d186235bcd439361bcdfa00adbb3f1633int, 9411, 1);
    let s = lemma_step_of_138_bits(16384, s, 0x128849a94d19f1102f9a4bb673531df3d5fint, 0x6c2a247b0574f2de8c9a2042f792289577int, 15266, 1);
    let s = lemma_step_of_138_bits(16384, s, 0x19d1cfce39e54e9cd818319ca8682224e8aint, 0xd1f3e0f8b7be6c9bb020a75fc76c35aadcint, 0, 0);
    let s = lemma_step_of_138_bits(16384, s, 0x107e314ef115dd3db73b2f03fd8cbea35f0int, 0x55ab0a4c64fdeab109c9c55e71b93c946bint, 0, 0);
    let s = lemma_step_of_138_bits(16384, s, 0x1fc41ca8b0d181951acb26f919a17e81427int, 0x13dcc0c649a2471221636976e6ff8578788int, 0, 0);
    let s = lemma_step_of_138_bits(16384, s, 0x3194445650effd70be9fa58452257ec0519int, 0x30624c8e8ec1895156c775aa246f0dfed3fint, 0, 0);
    let s = lemma_step_of_138_bits(16384, s, 0x50dd09e0f24696263f741ccaf788614f7cint, 0x80b564f36c68aa8a6523797d6373e8154int, 16059, 1);
    let s = lemma_step_of_138_bits(16384, s, 0x1b1b38e02b39f2bfa4a5b13fd7de2c385b7int, 0xe76697c2e121af7bc3c4c07461ebd1eb87int, 0, 0);
    let s = lemma_step_of_138_bits(16384, s, 0x18d463cd59ac0d2c7697bbb221da36bb8c4int, 0xc22978c540ebfdf67a4ad5b1f5950f5a6bint, 7257, 1);
    let s = lemma_step_of_138_bits(16384, s, 0x1c70ca700114fc4ee2b895a13bb1a05f16dint, 0xfebde960116a2755894792a341121e62f1int, 7227, 1);
    let s = lemma_step_of_138_bits(16384, s, 0x190e0e5cb1b179f994ba3144dd2fb376137int, 0xc5b36f8b40abf68e111fbc2e0e1bff8d9dint, 0, 0);
    let s = lemma_step_of_138_bits(16384, s, 0xd632593316dfa1c984a84103cc269f4a52int, 0x38715bb4deb7fc715c1ecdbc5147d2013cint, 0, 0);
    let s = lemma_step_of_138_bits(16384, s, 0xe91b6458992704bf97c49d0e6a2c1d57b0int, 0x42d94c9a6884db5d0b6a811a5f1871b729int, 0, 0);
    let s = lemma_step_of_138_bits(16384, s, 0x154f9910f9207ef8f0d2cd913eb0d15477dint, 0x8f07be5c9a08a5d296ead028d88b293c2dint, 1302, 1);
    let s = lemma_step_of_138_bits(16384, s, 0x124b7a290c859f84e47294bc049ef6e7f8eint, 0x6968d8f32c2449b47827b03281a237a521int, 11054, 1);
    let s = lemma_step_of_138_bits(16384, s, 0x152799e7c38f182e7ec616a4f5631852a86int, 0x8cf0d40cc6d174dcffbdb3d98b1a8794bdint, 0, 0);
    assert(s.0 == 0xe83f0d9f73c3fc296876c2c6nat);
}

/// The first 112 bits of the exponent of the same power.
proof fn lemma_power_of_138_bits_2_part_7()
    ensures
        pow_mod(16384, 0xe83f0d9f73c3fc296876c2c6df0cnat, 0x32cdcafae152df290ed9fa9b80caa8174cbint) == 0x106e8591ff208a0a0bbf071f6cf4dd4726aint,
{
    lemma_power_of_138_bits_2_part_6();
    let s = (0xe83f0d9f73c3fc296876c2c6nat, 0x2dcec424d952b4166dc1254c44d9426a845int);
    let s = lemma_step_of_138_bits(16384, s, 0x2dcec424d952b4166dc1254c44d9426a845int, 0x294d85c9dfc5cc9b31381531de964977af7int, 8320, 1);
    let s = lemma_step_of_138_bits(16384, s, 0x14e0f18fe37bc532a5c974e560cdddb3a80int, 0x8949794d125a7d448d1361d5550b72d5e2int, 10429, 1);
    let s = lemma_step_of_138_bits(16384, s, 0x8a93800cc3ac6b25fd592f22739f8e21int, 0x179fd6d89fdb48206a07bc3e2203ffint, 0, 0);
    let s = lemma_step_of_138_bits(16384, s, 0x60b0064b25944d98e863acfbb799ee90cint, 0xb802e9132c071791280bcd1fdbf6e0eint, 7314, 1);
    let s = lemma_step_of_138_bits(16384, s, 0x3b2484a2e1213c42c2ba056e702842b03aint, 0x44d9a13002c2471b3d8574f8dc72bfccdint, 14015, 1);
    let s = lemma_step_of_138_bits(16384, s, 0x218f2ed0c2bf5020c9c0a448774976c4a8bint, 0x162b0acbe4a41f0c56e5c118138cefb9d61int, 13550, 1);
    let s = lemma_step_of_138_bits(16384, s, 0x296226b841bd6f47094afd657a8a9cfaf46int, 0x21b5b2362359eaa9171a633923f3fd39c35int, 10276, 1);
    let s = lemma_step_of_138_bits(16384, s, 0x1c87604eab7cfc9cc957816df4e84d31b74int, 0x10053223b52aaef69c8e5e8e8ac792663e4int, 8937, 1);
    let s = lemma_step_of_138_bits(16384, s, 0x21a327d662f1dde4974011979b7e85abd3dint, 0x1645759fc039b30017d10d07c42d091c482int, 0, 0);
    let s = lemma_step_of_138_bits(16384, s, 0x1e66f00e054f85da356dbb72d660a36573int, 0x123178e548ac1bcdd0ad011b78846ed83int, 0, 0);
    let s = lemma_step_of_138_bits(16384, s, 0x164898153b816c4f2593080b6c0b7c53ec8int, 0x9c62564bea39568b091877ec64cfcec93dint, 0, 0);
    let s = lemma_step_of_138_bits(16384, s, 0x12a66507b474847fd757f71b1ef394f44e1int, 0x6d8ab2692df8533a80b6882da3476930e5int, 0, 0);
    let s = lemma_step_of_138_bits(16384, s, 0x1d3a73d901d71dc6e48631b3d4ac76fc42aint, 0x10d0c80c882e2804421ff921beee90ec54fint, 14524, 1);
    let s = lemma_step_of_138_bits(16384, s, 0x2de8e981d300397fb918b4ef85a3cb192ecint, 0x297cb97b6654f65e5739e33e97b00380fa3int, 14045, 1);
    let s = lemma_step_of_138_bits(16384, s, 0xb27ce908892a1f5e39a86e0c18b16f1ac1int, 0x27313b35ada938287ea974909cfc23f428int, 0, 0);
    let s = lemma_step_of_138_bits(16384, s, 0xcab9d52d4fe43a0c917919008a44dd09c9int, 0x328f32ef5fdafe587e2985084fd401d255int, 0, 0);
    assert(s.0 == 0xe83f0d9f73c3fc296876c2c6df0cnat);
}

/// The first 128 bits of the exponent of the same power.
proof fn lemma_power_of_138_bits_2_part_8()
    ensures
        pow_mod(16384, 0xe83f0d9f73c3fc296876c2c6df0c24fcnat, 0x32cdcafae152df290ed9fa9b80caa8174cbint) == 0x1b1d1947a0e70e4690a5a21122d381b7f20int,
{
    lemma_power_of_138_bits_2_part_7();
    let s = (0xe83f0d9f73c3fc296876c2c6df0cnat, 0x106e8591ff208a0a0bbf071f6cf4dd4726aint);
    let s = lemma_step_of_138_bits(16384, s, 0x106e8591ff208a0a0bbf071f6cf4dd4726aint, 0x55088bdb7d3f547810a9d27cb9a9b4071eint, 0, 0);
    let s = lemma_step_of_138_bits(16384, s, 0x13c0e2beff514b70e9d25a93e94cf99571aint, 0x7ae353b97a7d67994733a44230b5b775e0int, 0, 0);
    let s = lemma_step_of_138_bits(16384, s, 0x32473eac1092198766815822994e6f2b604int, 0x31c216b2ef3a8e507422ea929a3c28534f2int, 4064, 1);
    let s = lemma_step_of_138_bits(16384, s, 0x28915d88775b218aa9f02812bc77bec6960int, 0x2064e7daa3bce0aa0629c332dbac7f47a0cint, 0, 0);
    let s = lemma_step_of_138_bits(16384, s, 0x2e298ed5431867a1152c55fc14fe629ac7cint, 0x29f1e1eaa2f654d40de208d82b1ff7faf2fint, 0, 0);
    let s = lemma_step_of_138_bits(16384, s, 0x2b130fa1d196328613af9098273919ea5cbint, 0x248560cd7b2be8bfdba0118c1c8248f0d5aint, 9300, 1);
    let s = lemma_step_of_138_bits(16384, s, 0x2d869aa891dd13e844307b24265153fe164int, 0x28cbcac9898afc0196951d7956b23b89424int, 0, 0);
    let s = lemma_step_of_138_bits(16384, s, 0x18e52465c2bfe5785081830879b99072684int, 0xc32fd0c4130434525a1922e6324d152995int, 0, 0);
    let s = lemma_step_of_138_bits(16384, s, 0xf873abc62fd02883566f7f23014c4ef6e9int, 0x4bf0815965d192c2d1b88ced81ecef6377int, 15189, 1);
    let s = lemma_step_of_138_bits(16384, s, 0x2f09fda0c861c5f7b49603879082466f99int, 0x2b8d9c99bcb494899cc0903fb736f520dint, 945, 1);
    let s = lemma_step_of_138_bits(16384, s, 0x1d717c0b8609d85224467fcc312dd685ea5int, 0x1110560467ce0b08dcca5340694c2145e4bint, 15607, 1);
    let s = lemma_step_of_138_bits(16384, s, 0x29690f594d82314e9075d53d1e99af0bc23int, 0x21c0f48061efe61eae301228fce434a6687int, 2461, 1);
    let s = lemma_step_of_138_bits(16384, s, 0x1c5081d8de1ec8cb380bc90ef96de6f3c81int, 0xfc7cde097f69630182f954bb96fb1abad7int, 105, 1);
    let s = lemma_step_of_138_bits(16384, s, 0x14e375907e488f8c817ccb7c98c1a0818bdint, 0x896a90853253991833e804d284ee074a3dint, 2941, 1);
    let s = lemma_step_of_138_bits(16384, s, 0x19edbe37a66736743f18cf255000d0fbfe1int, 0xd3bb163d71e2d6a0e32ac6588c73a00cfdint, 0, 0);
    let s = lemma_step_of_138_bits(16384, s, 0x3d476d2dd71fa90b0b79a8288e22e59322int, 0x49e9fad04900d723eb704ffc4af102bacint, 0, 0);
    assert(s.0 == 0xe83f0d9f73c3fc296876c2c6df0c24fcnat);
}

/// The power 0x3a0fc367dcf0ff0a5a1db0b1b7c3093f33 of 16384 modulo 0x32cdcafae152df290ed9fa9b80caa8174cb.
proof fn lemma_power_of_138_bits_2()
    ensures
        pow_mod(16384, 0x3a0fc367dcf0ff0a5a1db0b1b7c3093f33nat, 0x32cdcafae152df290ed9fa9b80caa8174cbint) == 1,
{
    lemma_power_of_138_bits_2_part_8();
    let s = (0xe83f0d9f73c3fc296876c2c6df0c24fcnat, 0x1b1d1947a0e70e4690a5a21122d381b7f20int);
    let s = lemma_step_of_138_bits(16384, s, 0x1b1d1947a0e70e4690a5a21122d381b7f20int, 0xe786a3138f8b8e8a3f59220d733ea2ef0bint, 7094, 1);
    let s = lemma_step_of_138_bits(16384, s, 0x262efb70fdf01241b60f55a44776f374eaeint, 0x1cb2bf5e825766071ee8b0f6ddba6c906a8int, 15404, 1);
    let s = lemma_step_of_138_bits(16384, s, 0x262117c25fcc2ed99909e17c7d3e023591cint, 0x1c9de25be751d2591054e68f5d83c918ed6int, 0, 0);
    let s = lemma_step_of_138_bits(16384, s, 0x3106b18ff5cd8372730e481aed56ab13f5eint, 0x2f4f84e850e3d2ac1c1216173461a23432eint, 0, 0);
    let s = lemma_step_of_138_bits(16384, s, 0x282801c229a0ca8c21e34cb84a66d16490aint, 0x1fbd7f6e5600c04269e905432af11cb7f27int, 1185, 1);
    let s = lemma_step_of_138_bits(16384, s, 0x274b2afe0a461899c17c97d4459cbe02055int, 0x1e6423407bf23706eba65d6e2dd73af5901int, 12061, 1);
    assert(s.0 == 0x3a0fc367dcf0ff0a5a1db0b1b7c3093f33nat);
}

/// 0x32cdcafae152df290ed9fa9b80caa8174cb is prime: the prime 0x3a0fc367dcf0ff0a5a1db0b1b7c3093f33, of square above it, divides its
/// predecessor.
pub proof fn lemma_prime_of_138_bits()
    ensures
        is_prime(0x32cdcafae152df290ed9fa9b80caa8174cbint),
{
    lemma_prime_of_134_bits();
    if !is_prime(0x32cdcafae152df290ed9fa9b80caa8174cbint) {
        lemma_power_of_138_bits_1();
        lemma_power_of_138_bits_2();
        lemma_pow_mod_mul(2, 14, 0x3a0fc367dcf0ff0a5a1db0b1b7c3093f33nat, 0x32cdcafae152df290ed9fa9b80caa8174cbint);
        assert(14 * 0x3a0fc367dcf0ff0a5a1db0b1b7c3093f33nat == 0x32cdcafae152df290ed9fa9b80caa8174canat);
        lemma_power_of_138_bits_1();
        let p = lemma_prime_factor(0x32cdcafae152df290ed9fa9b80caa8174cbint);
        lemma_pow_mod_divisor(2, 0x32cdcafae152df290ed9fa9b80caa8174canat, 0x32cdcafae152df290ed9fa9b80caa8174cbint, p);
        lemma_small_mod(1, p as nat);
        let d = lemma_order_exists(2, p, 0x32cdcafae152df290ed9fa9b80caa8174canat);
        assert((0x32cdcafae152df290ed9fa9b80caa8174cbint - 1) / 0x3a0fc367dcf0ff0a5a1db0b1b7c3093f33int == 14);
        lemma_pocklington_factor(0x32cdcafae152df290ed9fa9b80caa8174cbint, 2, 0x3a0fc367dcf0ff0a5a1db0b1b7c3093f33int, 16384, 0x114761f57a17276184231256cbd81b2ad93int, -5572, p, d);
        lemma_pocklington_bound(0x32cdcafae152df290ed9fa9b80caa8174cbint, 2, 0x3a0fc367dcf0ff0a5a1db0b1b7c3093f33int, p, d);
    }
}

/// One step of square-and-multiply modulo 1723. The power before is
/// given twice, as `s.1` and as `x`; `q` is the quotient of its square, and
/// `p` the quotient of the product with `a` that follows where the bit is
/// set.
proof fn lemma_step_1723(a: int, s: (nat, int), x: int, q: int, p: int, bit: int) -> (r: (
    nat,
    int,
))
    requires
        s.1 == pow_mod(a, s.0, 1723),
        s.1 == x,
        0 <= x * x - q * 1723 < 1723,
        bit == 0 || bit == 1,
        bit == 1 ==> 0 <= (x * x - q * 1723) * a - p * 1723 < 1723,
    ensures
        r.0 == 2 * s.0 + bit,
        r.1 == pow_mod(a, r.0, 1723),
        r.1 == if bit == 1 {
            (x * x - q * 1723) * a - p * 1723
        } else {
            x * x - q * 1723
        },
{
    lemma_square_step(a, s.0, 1723, bit, x);
    let y = x * x - q * 1723;
    lemma_fundamental_div_mod_converse(x * x, 1723, q, y);
    if bit == 1 {
        lemma_fundamental_div_mod_converse(y * a, 1723, p, y * a - p * 1723);
    }
    ((2 * s.0 + bit) as nat, square_step(x, a, 1723, bit))
}

/// The power 6 of 2 modulo 1723.
proof fn lemma_power_1723_1()
    ensures
        pow_mod(2, 6, 1723) == 64,
{
    let s = lemma_square_start(2, 1723);
    let s = lemma_step_1723(2, s, 1, 0, 0, 1);
    let s = lemma_step_1723(2, s, 2, 0, 0, 1);
    let s = lemma_step_1723(2, s, 8, 0, 0, 0);
    assert(s.0 == 6);
}

/// The power 7 of 64 modulo 1723.
proof fn lemma_power_1723_2()
    ensures
        pow_mod(64, 7, 1723) == 924,
{
    let s = lemma_square_start(64, 1723);
    let s = lemma_step_1723(64, s, 1, 0, 0, 1);
    let s = lemma_step_1723(64, s, 64, 2, 24, 1);
    let s = lemma_step_1723(64, s, 248, 35, 44, 1);
    assert(s.0 == 7);
}

/// The power 41 of 924 modulo 1723.
proof fn lemma_power_1723_3()
    ensures
        pow_mod(924, 41, 1723) == 1,
{
    let s = lemma_square_start(924, 1723);
    let s = lemma_step_1723(924, s, 1, 0, 0, 1);
    let s = lemma_step_1723(924, s, 924, 495, 0, 0);
    let s = lemma_step_1723(924, s, 891, 460, 697, 1);
    let s = lemma_step_1723(924, s, 1193, 826, 0, 0);
    let s = lemma_step_1723(924, s, 51, 1, 0, 0);
    let s = lemma_step_1723(924, s, 878, 447, 377, 1);
    assert(s.0 == 41);
}

/// The power 41 of 64 modulo 1723.
proof fn lemma_power_1723_4()
    ensures
        pow_mod(64, 41, 1723) == 317,
{
    let s = lemma_square_start(64, 1723);
    let s = lemma_step_1723(64, s, 1, 0, 0, 1);
    let s = lemma_step_1723(64, s, 64, 2, 0, 0);
    let s = lemma_step_1723(64, s, 650, 245, 13, 1);
    let s = lemma_step_1723(64, s, 961, 535, 0, 0);
    let s = lemma_step_1723(64, s, 1716, 1709, 0, 0);
    let s = lemma_step_1723(64, s, 49, 1, 25, 1);
    assert(s.0 == 41);
}

/// 1723 is prime: the product of the primes 7 and 41, of square above it,
/// divides its predecessor.
pub proof fn lemma_prime_1723()
    ensures
        is_prime(1723),
{
    lemma_prime_7();
    lemma_prime_41();
    if !is_prime(1723) {
        lemma_power_1723_1();
        lemma_power_1723_2();
        lemma_pow_mod_mul(2, 6, 7, 1723);
        assert(6 * 7 == 42);
        lemma_power_1723_3();
        lemma_pow_mod_mul(2, 42, 41, 1723);
        assert(42 * 41 == 1722);
        lemma_power_1723_1();
        lemma_power_1723_4();
        lemma_pow_mod_mul(2, 6, 41, 1723);
        assert(6 * 41 == 246);
        lemma_power_1723_1();
        lemma_power_1723_2();
        lemma_pow_mod_mul(2, 6, 7, 1723);
        assert(6 * 7 == 42);
        let p = lemma_prime_factor(1723);
        lemma_pow_mod_divisor(2, 1722, 1723, p);
        lemma_small_mod(1, p as nat);
        let d = lemma_order_exists(2, p, 1722);
        assert((1723 - 1) / 7 == 246);
        lemma_pocklington_factor(1723, 2, 7, 317, 747, -137, p, d);
        assert((1723 - 1) / 41 == 42);
        lemma_pocklington_factor(1723, 2, 41, 924, -28, 15, p, d);
        lemma_product_divides(7, 41, d as int);
        assert(7 * 41 == 287);
        lemma_pocklington_bound(1723, 2, 287, p, d);
    }
}

/// One step of square-and-multiply modulo 17231. The power before is
/// given twice, as `s.1` and as `x`; `q` is the quotient of its square, and
/// `p` the quotient of the product with `a` that follows where the bit is
/// set.
proof fn lemma_step_17231(a: int, s: (nat, int), x: int, q: int, p: int, bit: int) -> (r: (
    nat,
    int,
))
    requires
        s.1 == pow_mod(a, s.0, 17231),
        s.1 == x,
        0 <= x * x - q * 17231 < 17231,
        bit == 0 || bit == 1,
        bit == 1 ==> 0 <= (x * x - q * 17231) * a - p * 17231 < 17231,
    ensures
        r.0 == 2 * s.0 + bit,
        r.1 == pow_mod(a, r.0, 17231),
        r.1 == if bit == 1 {
            (x * x - q * 17231) * a - p * 17231
        } else {
            x * x - q * 17231
        },
{
    lemma_square_step(a, s.0, 17231, bit, x);
    let y = x * x - q * 17231;
    lemma_fundamental_div_mod_converse(x * x, 17231, q, y);
    if bit == 1 {
        lemma_fundamental_div_mod_converse(y * a, 17231, p, y * a - p * 17231);
    }
    ((2 * s.0 + bit) as nat, square_step(x, a, 17231, bit))
}

/// The power 10 of 2 modulo 17231.
proof fn lemma_power_17231_1()
    ensures
        pow_mod(2, 10, 17231) == 1024,
{
    let s = lemma_square_start(2, 17231);
    let s = lemma_step_17231(2, s, 1, 0, 0, 1);
    let s = lemma_step_17231(2, s, 2, 0, 0, 0);
    let s = lemma_step_17231(2, s, 4, 0, 0, 1);
    let s = lemma_step_17231(2, s, 32, 0, 0, 0);
    assert(s.0 == 10);
}

/// The power 1723 of 1024 modulo 17231.
proof fn lemma_power_17231_2()
    ensures
        pow_mod(1024, 1723, 17231) == 1,
{
    let s = lemma_square_start(1024, 17231);
    let s = lemma_step_17231(1024, s, 1, 0, 0, 1);
    let s = lemma_step_17231(1024, s, 1024, 60, 874, 1);
    let s = lemma_step_17231(1024, s, 9290, 5008, 0, 0);
    let s = lemma_step_17231(1024, s, 11252, 7347, 674, 1);
    let s = lemma_step_17231(1024, s, 5634, 1842, 0, 0);
    let s = lemma_step_17231(1024, s, 2454, 349, 504, 1);
    let s = lemma_step_17231(1024, s, 16504, 15807, 689, 1);
    let s = lemma_step_17231(1024, s, 5217, 1579, 555, 1);
    let s = lemma_step_17231(1024, s, 955, 52, 0, 0);
    let s = lemma_step_17231(1024, s, 16013, 14881, 98, 1);
    let s = lemma_step_17231(1024, s, 9154, 4863, 81, 1);
    assert(s.0 == 1723);
}

/// 17231 is prime: the prime 1723, of square above it, divides its
/// predecessor.
pub proof fn lemma_prime_17231()
    ensures
        is_prime(17231),
{
    lemma_prime_1723();
    if !is_prime(17231) {
        lemma_power_17231_1();
        lemma_power_17231_2();
        lemma_pow_mod_mul(2, 10, 1723, 17231);
        assert(10 * 1723 == 17230);
        lemma_power_17231_1();
        let p = lemma_prime_factor(17231);
        lemma_pow_mod_divisor(2, 17230, 17231, p);
        lemma_small_mod(1, p as nat);
        let d = lemma_order_exists(2, p, 17230);
        assert((17231 - 1) / 1723 == 10);
        lemma_pocklington_factor(17231, 2, 1723, 1024, 3554, -211, p, d);
        lemma_pocklington_bound(17231, 2, 1723, p, d);
    }
}

/// One step of square-and-multiply modulo 137849. The power before is
/// given twice, as `s.1` and as `x`; `q` is the quotient of its square, and
/// `p` the quotient of the product with `a` that follows where the bit is
/// set.
proof fn lemma_step_137849(a: int, s: (nat, int), x: int, q: int, p: int, bit: int) -> (r: (
    nat,
    int,
))
    requires
        s.1 == pow_mod(a, s.0, 137849),
        s.1 == x,
        0 <= x * x - q * 137849 < 137849,
        bit == 0 || bit == 1,
        bit == 1 ==> 0 <= (x * x - q * 137849) * a - p * 137849 < 137849,
    ensures
        r.0 == 2 * s.0 + bit,
        r.1 == pow_mod(a, r.0, 137849),
        r.1 == if bit == 1 {
            (x * x - q * 137849) * a - p * 137849
        } else {
            x * x - q * 137849
        },
{
    lemma_square_step(a, s.0, 137849, bit, x);
    let y = x * x - q * 137849;
    lemma_fundamental_div_mod_converse(x * x, 137849, q, y);
    if bit == 1 {
        lemma_fundamental_div_mod_converse(y * a, 137849, p, y * a - p * 137849);
    }
    ((2 * s.0 + bit) as nat, square_step(x, a, 137849, bit))
}

/// The power 8 of 2 modulo 137849.
proof fn lemma_power_137849_1()
    ensures
        pow_mod(2, 8, 137849) == 256,
{
    let s = lemma_square_start(2, 137849);
    let s = lemma_step_137849(2, s, 1, 0, 0, 1);
    let s = lemma_step_137849(2, s, 2, 0, 0, 0);
    let s = lemma_step_137849(2, s, 4, 0, 0, 0);
    let s = lemma_step_137849(2, s, 16, 0, 0, 0);
    assert(s.0 == 8);
}

/// The power 17231 of 256 modulo 137849.
proof fn lemma_power_137849_2()
    ensures
        pow_mod(256, 17231, 137849) == 1,
{
    let s = lemma_square_start(256, 137849);
    let s = lemma_step_137849(256, s, 1, 0, 0, 1);
    let s = lemma_step_137849(256, s, 256, 0, 0, 0);
    let s = lemma_step_137849(256, s, 65536, 31157, 0, 0);
    let s = lemma_step_137849(256, s, 6003, 261, 0, 0);
    let s = lemma_step_137849(256, s, 57420, 23917, 0, 0);
    let s = lemma_step_137849(256, s, 121867, 107737, 237, 1);
    let s = lemma_step_137849(256, s, 91643, 60924, 235, 1);
    let s = lemma_step_137849(256, s, 110573, 88694, 0, 0);
    let s = lemma_step_137849(256, s, 9123, 603, 197, 1);
    let s = lemma_step_137849(256, s, 26339, 5032, 0, 0);
    let s = lemma_step_137849(256, s, 86753, 54596, 0, 0);
    let s = lemma_step_137849(256, s, 79005, 45279, 232, 1);
    let s = lemma_step_137849(256, s, 58456, 24788, 191, 1);
    let s = lemma_step_137849(256, s, 19385, 2726, 3, 1);
    let s = lemma_step_137849(256, s, 60309, 26385, 55, 1);
    assert(s.0 == 17231);
}

/// 137849 is prime: the prime 17231, of square above it, divides its
/// predecessor.
pub proof fn lemma_prime_137849()
    ensures
        is_prime(137849),
{
    lemma_prime_17231();
    if !is_prime(137849) {
        lemma_power_137849_1();
        lemma_power_137849_2();
        lemma_pow_mod_mul(2, 8, 17231, 137849);
        assert(8 * 17231 == 137848);
        lemma_power_137849_1();
        let p = lemma_prime_factor(137849);
        lemma_pow_mod_divisor(2, 137848, 137849, p);
        lemma_small_mod(1, p as nat);
        let d = lemma_order_exists(2, p, 137848);
        assert((137849 - 1) / 17231 == 8);
        lemma_pocklington_factor(137849, 2, 17231, 256, -48112, 89, p, d);
        lemma_pocklington_bound(137849, 2, 17231, p, d);
    }
}

/// One step of square-and-multiply modulo 22111. The power before is
/// given twice, as `s.1` and as `x`; `q` is the quotient of its square, and
/// `p` the quotient of the product with `a` that follows where the bit is
/// set.
proof fn lemma_step_22111(a: int, s: (nat, int), x: int, q: int, p: int, bit: int) -> (r: (
    nat,
    int,
))
    requires
        s.1 == pow_mod(a, s.0, 22111),
        s.1 == x,
        0 <= x * x - q * 22111 < 22111,
        bit == 0 || bit == 1,
        bit == 1 ==> 0 <= (x * x - q * 22111) * a - p * 22111 < 22111,
    ensures
        r.0 == 2 * s.0 + bit,
        r.1 == pow_mod(a, r.0, 22111),
        r.1 == if bit == 1 {
            (x * x - q * 22111) * a - p * 22111
        } else {
            x * x - q * 22111
        },
{
    lemma_square_step(a, s.0, 22111, bit, x);
    let y = x * x - q * 22111;
    lemma_fundamental_div_mod_converse(x * x, 22111, q, y);
    if bit == 1 {
        lemma_fundamental_div_mod_converse(y * a, 22111, p, y * a - p * 22111);
    }
    ((2 * s.0 + bit) as nat, square_step(x, a, 22111, bit))
}

/// The power 110 of 2 modulo 22111.
proof fn lemma_power_22111_1()
    ensures
        pow_mod(2, 110, 22111) == 13859,
{
    let s = lemma_square_start(2, 22111);
    let s = lemma_step_22111(2, s, 1, 0, 0, 1);
    let s = lemma_step_22111(2, s, 2, 0, 0, 1);
    let s = lemma_step_22111(2, s, 8, 0, 0, 0);
    let s = lemma_step_22111(2, s, 64, 0, 0, 1);
    let s = lemma_step_22111(2, s, 8192, 3035, 0, 1);
    let s = lemma_step_22111(2, s, 3958, 708, 1, 1);
    let s = lemma_step_22111(2, s, 241, 2, 0, 0);
    assert(s.0 == 110);
}

/// The power 3 of 13859 modulo 22111.
proof fn lemma_power_22111_2()
    ensures
        pow_mod(13859, 3, 22111) == 12683,
{
    let s = lemma_square_start(13859, 22111);
    let s = lemma_step_22111(13859, s, 1, 0, 0, 1);
    let s = lemma_step_22111(13859, s, 13859, 8686, 9862, 1);
    assert(s.0 == 3);
}

/// The power 67 of 12683 modulo 22111.
proof fn lemma_power_22111_3()
    ensures
        pow_mod(12683, 67, 22111) == 1,
{
    let s = lemma_square_start(12683, 22111);
    let s = lemma_step_22111(12683, s, 1, 0, 0, 1);
    let s = lemma_step_22111(12683, s, 12683, 7275, 0, 0);
    let s = lemma_step_22111(12683, s, 964, 42, 0, 0);
    let s = lemma_step_22111(12683, s, 634, 18, 0, 0);
    let s = lemma_step_22111(12683, s, 3958, 708, 0, 0);
    let s = lemma_step_22111(12683, s, 11176, 5648, 11499, 1);
    let s = lemma_step_22111(12683, s, 14395, 9371, 7941, 1);
    assert(s.0 == 67);
}

/// The power 67 of 13859 modulo 22111.
proof fn lemma_power_22111_4()
    ensures
        pow_mod(13859, 67, 22111) == 7858,
{
    let s = lemma_square_start(13859, 22111);
    let s = lemma_step_22111(13859, s, 1, 0, 0, 1);
    let s = lemma_step_22111(13859, s, 13859, 8686, 0, 0);
    let s = lemma_step_22111(13859, s, 15735, 11197, 0, 0);
    let s = lemma_step_22111(13859, s, 13358, 8070, 0, 0);
    let s = lemma_step_22111(13859, s, 394, 7, 0, 0);
    let s = lemma_step_22111(13859, s, 459, 9, 7322, 1);
    let s = lemma_step_22111(13859, s, 4096, 758, 10704, 1);
    assert(s.0 == 67);
}

/// 22111 is prime: the product of the primes 3 and 67, of square above it,
/// divides its predecessor.
pub proof fn lemma_prime_22111()
    ensures
        is_prime(22111),
{
    lemma_prime_3();
    lemma_prime_67();
    if !is_prime(22111) {
        lemma_power_22111_1();
        lemma_power_22111_2();
        lemma_pow_mod_mul(2, 110, 3, 22111);
        assert(110 * 3 == 330);
        lemma_power_22111_3();
        lemma_pow_mod_mul(2, 330, 67, 22111);
        assert(330 * 67 == 22110);
        lemma_power_22111_1();
        lemma_power_22111_4();
        lemma_pow_mod_mul(2, 110, 67, 22111);
        assert(110 * 67 == 7370);
        lemma_power_22111_1();
        lemma_power_22111_2();
        lemma_pow_mod_mul(2, 110, 3, 22111);
        assert(110 * 3 == 330);
        let p = lemma_prime_factor(22111);
        lemma_pow_mod_divisor(2, 22110, 22111, p);
        lemma_small_mod(1, p as nat);
        let d = lemma_order_exists(2, p, 22110);
        assert((22111 - 1) / 3 == 7370);
        lemma_pocklington_factor(22111, 2, 3, 7858, -2620, 931, p, d);
        assert((22111 - 1) / 67 == 330);
        lemma_pocklington_factor(22111, 2, 67, 12683, -469, 269, p, d);
        lemma_product_divides(3, 67, d as int);
        assert(3 * 67 == 201);
        lemma_pocklington_bound(22111, 2, 201, p, d);
    }
}

/// One step of square-and-multiply modulo 132667. The power before is
/// given twice, as `s.1` and as `x`; `q` is the quotient of its square, and
/// `p` the quotient of the product with `a` that follows where the bit is
/// set.
proof fn lemma_step_132667(a: int, s: (nat, int), x: int, q: int, p: int, bit: int) -> (r: (
    nat,
    int,
))
    requires
        s.1 == pow_mod(a, s.0, 132667),
        s.1 == x,
        0 <= x * x - q * 132667 < 132667,
        bit == 0 || bit == 1,
        bit == 1 ==> 0 <= (x * x - q * 132667) * a - p * 132667 < 132667,
    ensures
        r.0 == 2 * s.0 + bit,
        r.1 == pow_mod(a, r.0, 132667),
        r.1 == if bit == 1 {
            (x * x - q * 132667) * a - p * 132667
        } else {
            x * x - q * 132667
        },
{
    lemma_square_step(a, s.0, 132667, bit, x);
    let y = x * x - q * 132667;
    lemma_fundamental_div_mod_converse(x * x, 132667, q, y);
    if bit == 1 {
        lemma_fundamental_div_mod_converse(y * a, 132667, p, y * a - p * 132667);
    }
    ((2 * s.0 + bit) as nat, square_step(x, a, 132667, bit))
}

/// The power 6 of 2 modulo 132667.
proof fn lemma_power_132667_1()
    ensures
        pow_mod(2, 6, 132667) == 64,
{
    let s = lemma_square_start(2, 132667);
    let s = lemma_step_132667(2, s, 1, 0, 0, 1);
    let s = lemma_step_132667(2, s, 2, 0, 0, 1);
    let s = lemma_step_132667(2, s, 8, 0, 0, 0);
    assert(s.0 == 6);
}

/// The power 22111 of 64 modulo 132667.
proof fn lemma_power_132667_2()
    ensures
        pow_mod(64, 22111, 132667) == 1,
{
    let s = lemma_square_start(64, 132667);
    let s = lemma_step_132667(64, s, 1, 0, 0, 1);
    let s = lemma_step_132667(64, s, 64, 0, 0, 0);
    let s = lemma_step_132667(64, s, 4096, 126, 29, 1);
    let s = lemma_step_132667(64, s, 67793, 34642, 0, 0);
    let s = lemma_step_132667(64, s, 40635, 12446, 14, 1);
    let s = lemma_step_132667(64, s, 46214, 16098, 29, 1);
    let s = lemma_step_132667(64, s, 20177, 3068, 0, 0);
    let s = lemma_step_132667(64, s, 88973, 59669, 0, 0);
    let s = lemma_step_132667(64, s, 87506, 57718, 12, 1);
    let s = lemma_step_132667(64, s, 80316, 48622, 0, 0);
    let s = lemma_step_132667(64, s, 124982, 117742, 10, 1);
    let s = lemma_step_132667(64, s, 107570, 87220, 43, 1);
    let s = lemma_step_132667(64, s, 1559, 18, 20, 1);
    let s = lemma_step_132667(64, s, 65060, 31905, 30, 1);
    let s = lemma_step_132667(64, s, 49750, 18656, 13, 1);
    assert(s.0 == 22111);
}

/// 132667 is prime: the prime 22111, of square above it, divides its
/// predecessor.
pub proof fn lemma_prime_132667()
    ensures
        is_prime(132667),
{
    lemma_prime_22111();
    if !is_prime(132667) {
        lemma_power_132667_1();
        lemma_power_132667_2();
        lemma_pow_mod_mul(2, 6, 22111, 132667);
        assert(6 * 22111 == 132666);
        lemma_power_132667_1();
        let p = lemma_prime_factor(132667);
        lemma_pow_mod_divisor(2, 132666, 132667, p);
        lemma_small_mod(1, p as nat);
        let d = lemma_order_exists(2, p, 132666);
        assert((132667 - 1) / 22111 == 6);
        lemma_pocklington_factor(132667, 2, 22111, 64, 48434, -23, p, d);
        lemma_pocklington_bound(132667, 2, 22111, p, d);
    }
}

/// One step of square-and-multiply modulo 41081. The power before is
/// given twice, as `s.1` and as `x`; `q` is the quotient of its square, and
/// `p` the quotient of the product with `a` that follows where the bit is
/// set.
proof fn lemma_step_41081(a: int, s: (nat, int), x: int, q: int, p: int, bit: int) -> (r: (
    nat,
    int,
))
    requires
        s.1 == pow_mod(a, s.0, 41081),
        s.1 == x,
        0 <= x * x - q * 41081 < 41081,
        bit == 0 || bit == 1,
        bit == 1 ==> 0 <= (x * x - q * 41081) * a - p * 41081 < 41081,
    ensures
        r.0 == 2 * s.0 + bit,
        r.1 == pow_mod(a, r.0, 41081),
        r.1 == if bit == 1 {
            (x * x - q * 41081) * a - p * 41081
        } else {
            x * x - q * 41081
        },
{
    lemma_square_step(a, s.0, 41081, bit, x);
    let y = x * x - q * 41081;
    lemma_fundamental_div_mod_converse(x * x, 41081, q, y);
    if bit == 1 {
        lemma_fundamental_div_mod_converse(y * a, 41081, p, y * a - p * 41081);
    }
    ((2 * s.0 + bit) as nat, square_step(x, a, 41081, bit))
}

/// The power 104 of 2 modulo 41081.
proof fn lemma_power_41081_1()
    ensures
        pow_mod(2, 104, 41081) == 20265,
{
    let s = lemma_square_start(2, 41081);
    let s = lemma_step_41081(2, s, 1, 0, 0, 1);
    let s = lemma_step_41081(2, s, 2, 0, 0, 1);
    let s = lemma_step_41081(2, s, 8, 0, 0, 0);
    let s = lemma_step_41081(2, s, 64, 0, 0, 1);
    let s = lemma_step_41081(2, s, 8192, 1633, 0, 0);
    let s = lemma_step_41081(2, s, 23591, 13547, 0, 0);
    let s = lemma_step_41081(2, s, 10974, 2931, 0, 0);
    assert(s.0 == 104);
}

/// The power 5 of 20265 modulo 41081.
proof fn lemma_power_41081_2()
    ensures
        pow_mod(20265, 5, 41081) == 6277,
{
    let s = lemma_square_start(20265, 41081);
    let s = lemma_step_41081(20265, s, 1, 0, 0, 1);
    let s = lemma_step_41081(20265, s, 20265, 9996, 0, 0);
    let s = lemma_step_41081(20265, s, 24549, 14669, 17863, 1);
    assert(s.0 == 5);
}

/// The power 79 of 6277 modulo 41081.
proof fn lemma_power_41081_3()
    ensures
        pow_mod(6277, 79, 41081) == 1,
{
    let s = lemma_square_start(6277, 41081);
    let s = lemma_step_41081(6277, s, 1, 0, 0, 1);
    let s = lemma_step_41081(6277, s, 6277, 959, 0, 0);
    let s = lemma_step_41081(6277, s, 4050, 399, 0, 0);
    let s = lemma_step_41081(6277, s, 11181, 3043, 806, 1);
    let s = lemma_step_41081(6277, s, 18720, 8530, 2669, 1);
    let s = lemma_step_41081(6277, s, 14001, 4771, 4667, 1);
    let s = lemma_step_41081(6277, s, 37323, 33908, 4856, 1);
    assert(s.0 == 79);
}

/// The power 79 of 20265 modulo 41081.
proof fn lemma_power_41081_4()
    ensures
        pow_mod(20265, 79, 41081) == 13479,
{
    let s = lemma_square_start(20265, 41081);
    let s = lemma_step_41081(20265, s, 1, 0, 0, 1);
    let s = lemma_step_41081(20265, s, 20265, 9996, 0, 0);
    let s = lemma_step_41081(20265, s, 24549, 14669, 0, 0);
    let s = lemma_step_41081(20265, s, 36212, 31920, 1689, 1);
    let s = lemma_step_41081(20265, s, 1551, 58, 11297, 1);
    let s = lemma_step_41081(20265, s, 37238, 33754, 10147, 1);
    let s = lemma_step_41081(20265, s, 2143, 111, 16011, 1);
    assert(s.0 == 79);
}

/// 41081 is prime: the product of the primes 5 and 79, of square above it,
/// divides its predecessor.
pub proof fn lemma_prime_41081()
    ensures
        is_prime(41081),
{
    lemma_prime_5();
    lemma_prime_79();
    if !is_prime(41081) {
        lemma_power_41081_1();
        lemma_power_41081_2();
        lemma_pow_mod_mul(2, 104, 5, 41081);
        assert(104 * 5 == 520);
        lemma_power_41081_3();
        lemma_pow_mod_mul(2, 520, 79, 41081);
        assert(520 * 79 == 41080);
        lemma_power_41081_1();
        lemma_power_41081_4();
        lemma_pow_mod_mul(2, 104, 79, 41081);
        assert(104 * 79 == 8216);
        lemma_power_41081_1();
        lemma_power_41081_2();
        lemma_pow_mod_mul(2, 104, 5, 41081);
        assert(104 * 5 == 520);
        let p = lemma_prime_factor(41081);
        lemma_pow_mod_divisor(2, 41080, 41081, p);
        lemma_small_mod(1, p as nat);
        let d = lemma_order_exists(2, p, 41080);
        assert((41081 - 1) / 5 == 8216);
        lemma_pocklington_factor(41081, 2, 5, 13479, 11683, -3833, p, d);
        assert((41081 - 1) / 79 == 520);
        lemma_pocklington_factor(41081, 2, 79, 6277, 10807, -1651, p, d);
        lemma_product_divides(5, 79, d as int);
        assert(5 * 79 == 395);
        lemma_pocklington_bound(41081, 2, 395, p, d);
    }
}

/// One step of square-and-multiply modulo 82163. The power before is
/// given twice, as `s.1` and as `x`; `q` is the quotient of its square, and
/// `p` the quotient of the product with `a` that follows where the bit is
/// set.
proof fn lemma_step_82163(a: int, s: (nat, int), x: int, q: int, p: int, bit: int) -> (r: (
    nat,
    int,
))
    requires
        s.1 == pow_mod(a, s.0, 82163),
        s.1 == x,
        0 <= x * x - q * 82163 < 82163,
        bit == 0 || bit == 1,
        bit == 1 ==> 0 <= (x * x - q * 82163) * a - p * 82163 < 82163,
    ensures
        r.0 == 2 * s.0 + bit,
        r.1 == pow_mod(a, r.0, 82163),
        r.1 == if bit == 1 {
            (x * x - q * 82163) * a - p * 82163
        } else {
            x * x - q * 82163
        },
{
    lemma_square_step(a, s.0, 82163, bit, x);
    let y = x * x - q * 82163;
    lemma_fundamental_div_mod_converse(x * x, 82163, q, y);
    if bit == 1 {
        lemma_fundamental_div_mod_converse(y * a, 82163, p, y * a - p * 82163);
    }
    ((2 * s.0 + bit) as nat, square_step(x, a, 82163, bit))
}

/// The power 2 of 2 modulo 82163.
proof fn lemma_power_82163_1()
    ensures
        pow_mod(2, 2, 82163) == 4,
{
    let s = lemma_square_start(2, 82163);
    let s = lemma_step_82163(2, s, 1, 0, 0, 1);
    let s = lemma_step_82163(2, s, 2, 0, 0, 0);
    assert(s.0 == 2);
}

/// The power 41081 of 4 modulo 82163.
proof fn lemma_power_82163_2()
    ensures
        pow_mod(4, 41081, 82163) == 1,
{
    let s = lemma_square_start(4, 82163);
    let s = lemma_step_82163(4, s, 1, 0, 0, 1);
    let s = lemma_step_82163(4, s, 4, 0, 0, 0);
    let s = lemma_step_82163(4, s, 16, 0, 0, 1);
    let s = lemma_step_82163(4, s, 1024, 12, 0, 0);
    let s = lemma_step_82163(4, s, 62620, 47725, 0, 0);
    let s = lemma_step_82163(4, s, 35225, 15101, 0, 0);
    let s = lemma_step_82163(4, s, 57162, 39768, 0, 0);
    let s = lemma_step_82163(4, s, 36060, 15826, 0, 0);
    let s = lemma_step_82163(4, s, 11962, 1741, 0, 0);
    let s = lemma_step_82163(4, s, 43661, 23201, 0, 1);
    let s = lemma_step_82163(4, s, 76632, 71473, 1, 1);
    let s = lemma_step_82163(4, s, 27137, 8962, 3, 1);
    let s = lemma_step_82163(4, s, 41363, 20823, 0, 1);
    let s = lemma_step_82163(4, s, 70480, 60458, 0, 0);
    let s = lemma_step_82163(4, s, 19746, 4745, 0, 0);
    let s = lemma_step_82163(4, s, 41081, 20540, 1, 1);
    assert(s.0 == 41081);
}

/// 82163 is prime: the prime 41081, of square above it, divides its
/// predecessor.
pub proof fn lemma_prime_82163()
    ensures
        is_prime(82163),
{
    lemma_prime_41081();
    if !is_prime(82163) {
        lemma_power_82163_1();
        lemma_power_82163_2();
        lemma_pow_mod_mul(2, 2, 41081, 82163);
        assert(2 * 41081 == 82162);
        lemma_power_82163_1();
        let p = lemma_prime_factor(82163);
        lemma_pow_mod_divisor(2, 82162, 82163, p);
        lemma_small_mod(1, p as nat);
        let d = lemma_order_exists(2, p, 82162);
        assert((82163 - 1) / 41081 == 2);
        lemma_pocklington_factor(82163, 2, 41081, 4, 27388, -1, p, d);
        lemma_pocklington_bound(82163, 2, 41081, p, d);
    }
}

/// One step of square-and-multiply modulo 0xa50ff1a5a74bfaf5af. The power before is
/// given twice, as `s.1` and as `x`; `q` is the quotient of its square, and
/// `p` the quotient of the product with `a` that follows where the bit is
/// set.
proof fn lemma_step_of_72_bits(a: int, s: (nat, int), x: int, q: int, p: int, bit: int) -> (r: (
    nat,
    int,
))
    requires
        s.1 == pow_mod(a, s.0, 0xa50ff1a5a74bfaf5afint),
        s.1 == x,
        0 <= x * x - q * 0xa50ff1a5a74bfaf5afint < 0xa50ff1a5a74bfaf5afint,
        bit == 0 || bit == 1,
        bit == 1 ==> 0 <= (x * x - q * 0xa50ff1a5a74bfaf5afint) * a - p * 0xa50ff1a5a74bfaf5afint < 0xa50ff1a5a74bfaf5afint,
    ensures
        r.0 == 2 * s.0 + bit,
        r.1 == pow_mod(a, r.0, 0xa50ff1a5a74bfaf5afint),
        r.1 == if bit == 1 {
            (x * x - q * 0xa50ff1a5a74bfaf5afint) * a - p * 0xa50ff1a5a74bfaf5afint
        } else {
            x * x - q * 0xa50ff1a5a74bfaf5afint
        },
{
    lemma_square_step(a, s.0, 0xa50ff1a5a74bfaf5afint, bit, x);
    let y = x * x - q * 0xa50ff1a5a74bfaf5afint;
    lemma_fundamental_div_mod_converse(x * x, 0xa50ff1a5a74bfaf5afint, q, y);
    if bit == 1 {
        lemma_fundamental_div_mod_converse(y * a, 0xa50ff1a5a74bfaf5afint, p, y * a - p * 0xa50ff1a5a74bfaf5afint);
    }
    ((2 * s.0 + bit) as nat, square_step(x, a, 0xa50ff1a5a74bfaf5afint, bit))
}

/// The first 16 bits of the exponent of the same power.
proof fn lemma_power_of_72_bits_1_part_1()
    ensures
        pow_mod(2, 63324, 0xa50ff1a5a74bfaf5afint) == 0x9bcfa3ccc3e2c24e8fint,
{
    let s = lemma_square_start(2, 0xa50ff1a5a74bfaf5afint);
    let s = lemma_step_of_72_bits(2, s, 1, 0, 0, 1);
    let s = lemma_step_of_72_bits(2, s, 2, 0, 0, 1);
    let s = lemma_step_of_72_bits(2, s, 8, 0, 0, 1);
    let s = lemma_step_of_72_bits(2, s, 128, 0, 0, 1);
    let s = lemma_step_of_72_bits(2, s, 32768, 0, 0, 0);
    let s = lemma_step_of_72_bits(2, s, 0x40000000, 0, 0, 1);
    let s = lemma_step_of_72_bits(2, s, 0x2000000000000000int, 0x63426ecc64e65int, 0, 1);
    let s = lemma_step_of_72_bits(2, s, 0x8570fd128e6b8f7feaint, 0x6be0c7e04d21fcbd3cint, 1, 1);
    let s = lemma_step_of_72_bits(2, s, 0x1ad20782f73fc17e11int, 0x45ba37651940c50efint, 0, 0);
    let s = lemma_step_of_72_bits(2, s, 0x6b27035bffa570aec0int, 0x458f35d792ed9e90d0int, 0, 1);
    let s = lemma_step_of_72_bits(2, s, 0x41fcaa231aa85b03a0int, 0x1a612ed1561da1cc17int, 0, 0);
    let s = lemma_step_of_72_bits(2, s, 0x9c56d440966e6a9d47int, 0x9413ba7ebf33685d92int, 1, 1);
    let s = lemma_step_of_72_bits(2, s, 0x2b0d676eba1ebfc17int, 0xb3aa8340322b213int, 0, 1);
    let s = lemma_step_of_72_bits(2, s, 0x17aee099adcf8ac028int, 0x365e69e584b4006ddint, 1, 1);
    let s = lemma_step_of_72_bits(2, s, 0x9efd98f239366cb2abint, 0x99246d1a300c18f4dfint, 0, 0);
    let s = lemma_step_of_72_bits(2, s, 0x826aae6aabc2cb6ec8int, 0x670b05b8665ef54a9fint, 0, 0);
    assert(s.0 == 63324);
}

/// The power 0x1eeb9e of 2 modulo 0xa50ff1a5a74bfaf5af.
proof fn lemma_power_of_72_bits_1()
    ensures
        pow_mod(2, 0x1eeb9e, 0xa50ff1a5a74bfaf5afint) == 0x14714bd21c5c9e673bint,
{
    lemma_power_of_72_bits_1_part_1();
    let s = (63324nat, 0x9bcfa3ccc3e2c24e8fint);
    let s = lemma_step_of_72_bits(2, s, 0x9bcfa3ccc3e2c24e8fint, 0x9314123e41994fc359int, 1, 1);
    let s = lemma_step_of_72_bits(2, s, 0x97e4e660ec06ea8465int, 0x8bc6c9793373f96324int, 0, 1);
    let s = lemma_step_of_72_bits(2, s, 0x8efe0ca0d71302c7aint, 0x7bdf9517754b8851int, 0, 1);
    let s = lemma_step_of_72_bits(2, s, 0x65e4e2dfc82e90eb8aint, 0x3ee6616b5a0b0962cfint, 0, 1);
    let s = lemma_step_of_72_bits(2, s, 0x93f79c81783abffc6int, 0x84a4860888d39be7int, 0, 0);
    assert(s.0 == 0x1eeb9e);
}

/// The first 16 bits of the exponent of the same power.
proof fn lemma_power_of_72_bits_2_part_1()
    ensures
        pow_mod(0x14714bd21c5c9e673bint, 34462, 0xa50ff1a5a74bfaf5afint) == 0x73dc9c9830303791aaint,
{
    let s = lemma_square_start(0x14714bd21c5c9e673bint, 0xa50ff1a5a74bfaf5afint);
    let s = lemma_step_of_72_bits(0x14714bd21c5c9e673bint, s, 1, 0, 0, 1);
    let s = lemma_step_of_72_bits(0x14714bd21c5c9e673bint, s, 0x14714bd21c5c9e673bint, 0x288218bc878ace7e0int, 0, 0);
    let s = lemma_step_of_72_bits(0x14714bd21c5c9e673bint, s, 0x3edd230facf598a579int, 0x17f10e66366f6fd8d6int, 0, 0);
    let s = lemma_step_of_72_bits(0x14714bd21c5c9e673bint, s, 0x59348f1f1fd9af2ae7int, 0x3035a8942f0f4bed66int, 0, 0);
    let s = lemma_step_of_72_bits(0x14714bd21c5c9e673bint, s, 0x62beeda47d764cb5b7int, 0x3b12b4ba605ab3cd94int, 0, 0);
    let s = lemma_step_of_72_bits(0x14714bd21c5c9e673bint, s, 0x88df885c2de6741ca5int, 0x717f87b1659c15018eint, 0x1db3da68048e44e7cint, 1);
    let s = lemma_step_of_72_bits(0x14714bd21c5c9e673bint, s, 0x6800111bfbc4c99299int, 0x4186f0b44a1411a2afint, 0x6389a1dd6fa56fcdeint, 1);
    let s = lemma_step_of_72_bits(0x14714bd21c5c9e673bint, s, 0x5aa4328fcc65f2282eint, 0x31c639d293360d177cint, 0, 0);
    let s = lemma_step_of_72_bits(0x14714bd21c5c9e673bint, s, 0x1f1e54b4298bc1ae80int, 0x5dddba61efd00f487int, 0x7ecfb2af0a9da260aint, 1);
    let s = lemma_step_of_72_bits(0x14714bd21c5c9e673bint, s, 0xa654f208d8475c457int, 0xa79c725683f2da64int, 0, 0);
    let s = lemma_step_of_72_bits(0x14714bd21c5c9e673bint, s, 0x431634ceb0966e5735int, 0x1b4429a2fefe57700eint, 0, 0);
    let s = lemma_step_of_72_bits(0x14714bd21c5c9e673bint, s, 0x65911e8e17921167int, 0x3e7f207a24c511int, 0x1973881a0804a6174int, 1);
    let s = lemma_step_of_72_bits(0x14714bd21c5c9e673bint, s, 0x6ae7a456fdd737851aint, 0x453d0763d50b58794eint, 0x3e4f1c7c3ca28634int, 1);
    let s = lemma_step_of_72_bits(0x14714bd21c5c9e673bint, s, 0x39ae9a056b214d4b5aint, 0x142847cfdd9621ff5bint, 0xaea0b0c9172ab545eint, 1);
    let s = lemma_step_of_72_bits(0x14714bd21c5c9e673bint, s, 0x5b087001b3d1415753int, 0x32348dde109aea1a56int, 0xa4e12efd2ff4c0cb7int, 1);
    let s = lemma_step_of_72_bits(0x14714bd21c5c9e673bint, s, 0x68ed06133a77441e0cint, 0x42b2ddca35e4404efaint, 0, 0);
    assert(s.0 == 34462);
}

/// The power 137849 of 0x14714bd21c5c9e673b modulo 0xa50ff1a5a74bfaf5af.
proof fn lemma_power_of_72_bits_2()
    ensures
        pow_mod(0x14714bd21c5c9e673bint, 137849, 0xa50ff1a5a74bfaf5afint) == 0x9b5f351d47329578eeint,
{
    lemma_power_of_72_bits_2_part_1();
    let s = (34462nat, 0x73dc9c9830303791aaint);
    let s = lemma_step_of_72_bits(0x14714bd21c5c9e673bint, s, 0x73dc9c9830303791aaint, 0x515399d1518a990c91int, 0, 0);
    let s = lemma_step_of_72_bits(0x14714bd21c5c9e673bint, s, 0x35c6ee6a51b1ada8c5int, 0x11853f8bed5703c175int, 0xc9c139dabbf044int, 1);
    assert(s.0 == 137849);
}

/// The first 16 bits of the exponent of the same power.
proof fn lemma_power_of_72_bits_3_part_1()
    ensures
        pow_mod(0x9b5f351d47329578eeint, 33166, 0xa50ff1a5a74bfaf5afint) == 0x6e4b3f34a2d50bc151int,
{
    let s = lemma_square_start(0x9b5f351d47329578eeint, 0xa50ff1a5a74bfaf5afint);
    let s = lemma_step_of_72_bits(0x9b5f351d47329578eeint, s, 1, 0, 0, 1);
    let s = lemma_step_of_72_bits(0x9b5f351d47329578eeint, s, 0x9b5f351d47329578eeint, 0x92401bcd4410d8c6b9int, 0, 0);
    let s = lemma_step_of_72_bits(0x9b5f351d47329578eeint, s, 0x4638566f46b82317cdint, 0x1ddf6a17235cb40f49int, 0, 0);
    let s = lemma_step_of_72_bits(0x9b5f351d47329578eeint, s, 0x6ceb9e4a4d32432a42int, 0x47dfb00b4bd96d7364int, 0, 0);
    let s = lemma_step_of_72_bits(0x9b5f351d47329578eeint, s, 0x34ec5571f8909d23a8int, 0x10f7f105549953545aint, 0, 0);
    let s = lemma_step_of_72_bits(0x9b5f351d47329578eeint, s, 0x201a56c4b3737292baint, 0x63e61848dc2d2345eint, 0, 0);
    let s = lemma_step_of_72_bits(0x9b5f351d47329578eeint, s, 0x3b1f8644ea1624ece2int, 0x152d58a150c450177eint, 0, 0);
    let s = lemma_step_of_72_bits(0x9b5f351d47329578eeint, s, 0x1ea07e32d09e79d262int, 0x5aec90f5ba8e2a1deint, 0x30aa672a7f22156f1cint, 1);
    let s = lemma_step_of_72_bits(0x9b5f351d47329578eeint, s, 0x3b54f10180c8064438int, 0x1553ae239ec8ff1041int, 0x71fa8df01659cd9209int, 1);
    let s = lemma_step_of_72_bits(0x9b5f351d47329578eeint, s, 0x7c11411f557f33b527int, 0x5d4106d960fdf07e21int, 0, 0);
    let s = lemma_step_of_72_bits(0x9b5f351d47329578eeint, s, 0x195f23ab69c8645e62int, 0x3e65d50db22cd6a17int, 0, 0);
    let s = lemma_step_of_72_bits(0x9b5f351d47329578eeint, s, 0x4e5caf226c46f294cbint, 0x2533a7c644d701eaf3int, 0, 0);
    let s = lemma_step_of_72_bits(0x9b5f351d47329578eeint, s, 0x78204d307737cf2ddcint, 0x576c611373cfe806e7int, 0x8109c75fe0cce1a9e7int, 1);
    let s = lemma_step_of_72_bits(0x9b5f351d47329578eeint, s, 0x27624c24c71ed50059int, 0x965a4a4bc009bcebbint, 0x493c92103d1073f261int, 1);
    let s = lemma_step_of_72_bits(0x9b5f351d47329578eeint, s, 0x9efe727e06fb3ca8b9int, 0x99261031c53e90eae0int, 0x95293cb76b750db4c2int, 1);
    let s = lemma_step_of_72_bits(0x9b5f351d47329578eeint, s, 0x2d8d2da37755441830int, 0xc9214e88f7b494e01int, 0, 0);
    assert(s.0 == 33166);
}

/// The power 132667 of 0x9b5f351d47329578ee modulo 0xa50ff1a5a74bfaf5af.
proof fn lemma_power_of_72_bits_3()
    ensures
        pow_mod(0x9b5f351d47329578eeint, 132667, 0xa50ff1a5a74bfaf5afint) == 0x82e626eb227917206int,
{
    lemma_power_of_72_bits_3_part_1();
    let s = (33166nat, 0x6e4b3f34a2d50bc151int);
    let s = lemma_step_of_72_bits(0x9b5f351d47329578eeint, s, 0x6e4b3f34a2d50bc151int, 0x49b2acd69624ee871bint, 0x20f54abce3b699bd12int, 1);
    let s = lemma_step_of_72_bits(0x9b5f351d47329578eeint, s, 0x2735f9d9fac662ad9aint, 0x9508a13fd747b6717int, 0x23b665343098bacfccint, 1);
    assert(s.0 == 132667);
}

/// The first 16 bits of the exponent of the same power.
proof fn lemma_power_of_72_bits_4_part_1()
    ensures
        pow_mod(0x82e626eb227917206int, 41081, 0xa50ff1a5a74bfaf5afint) == 0x4a09cf5ee6be2fdc0eint,
{
    let s = lemma_square_start(0x82e626eb227917206int, 0xa50ff1a5a74bfaf5afint);
    let s = lemma_step_of_72_bits(0x82e626eb227917206int, s, 1, 0, 0, 1);
    let s = lemma_step_of_72_bits(0x82e626eb227917206int, s, 0x82e626eb227917206int, 0x67ce7e3919579c85int, 0, 0);
    let s = lemma_step_of_72_bits(0x82e626eb227917206int, s, 0x7bc7932f4235041039int, 0x5cd264f7809de6c2beint, 0x6f16a3ecd4fd5d79fint, 1);
    let s = lemma_step_of_72_bits(0x82e626eb227917206int, s, 0x15e407544b3cb0e629int, 0x2e73658ae6d04fb41int, 0, 0);
    let s = lemma_step_of_72_bits(0x82e626eb227917206int, s, 0xa3e2a4e3b3cbf6bc22int, 0xa2b77e1d9e77e4aa77int, 0, 0);
    let s = lemma_step_of_72_bits(0x82e626eb227917206int, s, 0x4efc3fbdc5e5ef8a2bint, 0x25cbc325fb844b849fint, 0, 0);
    let s = lemma_step_of_72_bits(0x82e626eb227917206int, s, 0x6212cf94a3670a8f88int, 0x3a457962689e308984int, 0, 0);
    let s = lemma_step_of_72_bits(0x82e626eb227917206int, s, 0x19bf96a56a6967e304int, 0x4043c25c20df68c20int, 0, 0);
    let s = lemma_step_of_72_bits(0x82e626eb227917206int, s, 0x4163a21bfb07a3ae30int, 0x19e761e2020c30cb52int, 0, 0);
    let s = lemma_step_of_72_bits(0x82e626eb227917206int, s, 0x2e50d5e9874ba0d1f2int, 0xcfefa179c2f311305int, 0xff738563ba2eea01int, 1);
    let s = lemma_step_of_72_bits(0x82e626eb227917206int, s, 0x41ae371da948e33267int, 0x1a229aeb003ec8d2f0int, 0xa44252e33b6aed09int, 1);
    let s = lemma_step_of_72_bits(0x82e626eb227917206int, s, 0x90e7aca913d0da01fint, 0x7f3592e89563b0a2int, 0x4a1377cf06ba25e52int, 1);
    let s = lemma_step_of_72_bits(0x82e626eb227917206int, s, 0x81091a3ed580934404int, 0x64df4059efe383a353int, 0x1c1cd5cccfdf3b666int, 1);
    let s = lemma_step_of_72_bits(0x82e626eb227917206int, s, 0x8643d16d00772eec38int, 0x6d36b6f14411200d94int, 0, 0);
    let s = lemma_step_of_72_bits(0x82e626eb227917206int, s, 0x37dda4e976cda76014int, 0x12e86e9c997209b831int, 0, 0);
    let s = lemma_step_of_72_bits(0x82e626eb227917206int, s, 0x5fb189d4b09613311int, 0x377a3f71522d7732int, 0x53aa8843a523d619cint, 1);
    assert(s.0 == 41081);
}

/// The power 82163 of 0x82e626eb227917206 modulo 0xa50ff1a5a74bfaf5af.
proof fn lemma_power_of_72_bits_4()
    ensures
        pow_mod(0x82e626eb227917206int, 82163, 0xa50ff1a5a74bfaf5afint) == 1,
{
    lemma_power_of_72_bits_4_part_1();
    let s = (41081nat, 0x4a09cf5ee6be2fdc0eint);
    let s = lemma_step_of_72_bits(0x82e626eb227917206int, s, 0x4a09cf5ee6be2fdc0eint, 0x2135b08374293d33c6int, 0x2d4b5df31c8ff6f5int, 1);
    assert(s.0 == 82163);
}

/// The first 16 bits of the exponent of the same power.
proof fn lemma_power_of_72_bits_5_part_1()
    ensures
        pow_mod(0x14714bd21c5c9e673bint, 33166, 0xa50ff1a5a74bfaf5afint) == 0x335c7efc468bd555b4int,
{
    let s = lemma_square_start(0x14714bd21c5c9e673bint, 0xa50ff1a5a74bfaf5afint);
    let s = lemma_step_of_72_bits(0x14714bd21c5c9e673bint, s, 1, 0, 0, 1);
    let s = lemma_step_of_72_bits(0x14714bd21c5c9e673bint, s, 0x14714bd21c5c9e673bint, 0x288218bc878ace7e0int, 0, 0);
    let s = lemma_step_of_72_bits(0x14714bd21c5c9e673bint, s, 0x3edd230facf598a579int, 0x17f10e66366f6fd8d6int, 0, 0);
    let s = lemma_step_of_72_bits(0x14714bd21c5c9e673bint, s, 0x59348f1f1fd9af2ae7int, 0x3035a8942f0f4bed66int, 0, 0);
    let s = lemma_step_of_72_bits(0x14714bd21c5c9e673bint, s, 0x62beeda47d764cb5b7int, 0x3b12b4ba605ab3cd94int, 0, 0);
    let s = lemma_step_of_72_bits(0x14714bd21c5c9e673bint, s, 0x88df885c2de6741ca5int, 0x717f87b1659c15018eint, 0, 0);
    let s = lemma_step_of_72_bits(0x14714bd21c5c9e673bint, s, 0xefd4de1b489378c47int, 0x15c782b0b83eb7643int, 0, 0);
    let s = lemma_step_of_72_bits(0x14714bd21c5c9e673bint, s, 0x42e8d1fb9deccdc4e4int, 0x1b1f51922465716aa9int, 0x4197eda6cac437925int, 1);
    let s = lemma_step_of_72_bits(0x14714bd21c5c9e673bint, s, 0xa3888fc06f454eb148int, 0xa204cddeebe1a80d70int, 0x29776bd3034f50d27int, 1);
    let s = lemma_step_of_72_bits(0x14714bd21c5c9e673bint, s, 0x4ee7ee0b6fb63f53e7int, 0x25b8536f19aeba9fc1int, 0, 0);
    let s = lemma_step_of_72_bits(0x14714bd21c5c9e673bint, s, 0x4f095a458d4140b082int, 0x25d84e9916f3278152int, 0, 0);
    let s = lemma_step_of_72_bits(0x14714bd21c5c9e673bint, s, 0x721f3d91d467da20f6int, 0x4ee70ef119c8e97b5fint, 0, 0);
    let s = lemma_step_of_72_bits(0x14714bd21c5c9e673bint, s, 0xa0ab8b4ca00c32b73int, 0x9c65105522ef6364int, 0x457e606776589308eint, 1);
    let s = lemma_step_of_72_bits(0x14714bd21c5c9e673bint, s, 0x3096a868b503d605adint, 0xe4d806d16ee3918c1int, 0x3c8802435e37eb0b1int, 1);
    let s = lemma_step_of_72_bits(0x14714bd21c5c9e673bint, s, 0x2222f5830ed4aaf89fint, 0x70f4e3d1b23902ca3int, 0x73ae6de921f10d5c3int, 1);
    let s = lemma_step_of_72_bits(0x14714bd21c5c9e673bint, s, 0x9a545247b73f26700fint, 0x904b5bc4909a885fe3int, 0, 0);
    assert(s.0 == 33166);
}

/// The power 132667 of 0x14714bd21c5c9e673b modulo 0xa50ff1a5a74bfaf5af.
proof fn lemma_power_of_72_bits_5()
    ensures
        pow_mod(0x14714bd21c5c9e673bint, 132667, 0xa50ff1a5a74bfaf5afint) == 0x99582a279345e7d026int,
{
    lemma_power_of_72_bits_5_part_1();
    let s = (33166nat, 0x335c7efc468bd555b4int);
    let s = lemma_step_of_72_bits(0x14714bd21c5c9e673bint, s, 0x335c7efc468bd555b4int, 0xffb541913287d6730int, 0xfb83ab7b19cd04888int, 1);
    let s = lemma_step_of_72_bits(0x14714bd21c5c9e673bint, s, 0x21dcbf27bbd0cff348int, 0x6f2618b92e57a3beaint, 0xd3c9b2b673ce1ca98int, 1);
    assert(s.0 == 132667);
}

/// The first 16 bits of the exponent of the same power.
proof fn lemma_power_of_72_bits_6_part_1()
    ensures
        pow_mod(0x99582a279345e7d026int, 41081, 0xa50ff1a5a74bfaf5afint) == 0x149b849c521c424eb1int,
{
    let s = lemma_square_start(0x99582a279345e7d026int, 0xa50ff1a5a74bfaf5afint);
    let s = lemma_step_of_72_bits(0x99582a279345e7d026int, s, 1, 0, 0, 1);
    let s = lemma_step_of_72_bits(0x99582a279345e7d026int, s, 0x99582a279345e7d026int, 0x8e75578328f196dc89int, 0, 0);
    let s = lemma_step_of_72_bits(0x99582a279345e7d026int, s, 0x5fe3904540c1d7e6fdint, 0x37b44f761bad031e6bint, 0x154378160bba299542int, 1);
    let s = lemma_step_of_72_bits(0x99582a279345e7d026int, s, 0x80ccd6c1fcb9b8e1baint, 0x64811dd3face2354acint, 0, 0);
    let s = lemma_step_of_72_bits(0x99582a279345e7d026int, s, 0x516cebe5b64840fd90int, 0x282ad4dd09d83129b6int, 0, 0);
    let s = lemma_step_of_72_bits(0x99582a279345e7d026int, s, 0x91b9853749dee33f96int, 0x80a70e287cd7b6a08fint, 0, 0);
    let s = lemma_step_of_72_bits(0x99582a279345e7d026int, s, 0x8c910f6a190da88f23int, 0x77b4ca6c97cc9742acint, 0, 0);
    let s = lemma_step_of_72_bits(0x99582a279345e7d026int, s, 0x8b0c3c85569dcaef35int, 0x7522202e1c7055d6e6int, 0, 0);
    let s = lemma_step_of_72_bits(0x99582a279345e7d026int, s, 0x1a7a294f1b3133fbbfint, 0x43f44381b30c4b85dint, 0, 0);
    let s = lemma_step_of_72_bits(0x99582a279345e7d026int, s, 0x84619152a7eed0feeint, 0x6a2baca4152a59a1int, 0x11be3d2e44f7509988int, 1);
    let s = lemma_step_of_72_bits(0x99582a279345e7d026int, s, 0x217f26d9410cc345e6int, 0x6cc2fc549ebcd8b06int, 0x85289ad9d31ab3273aint, 1);
    let s = lemma_step_of_72_bits(0x99582a279345e7d026int, s, 0x87fe2471fc02fa53d6int, 0x700aef73f319621c1eint, 0x67b66e32917832b31int, 1);
    let s = lemma_step_of_72_bits(0x99582a279345e7d026int, s, 0x58eaa7de33d1b730dint, 0x2fe5e8714d8786d6int, 0x1750137de9d43fa46dint, 1);
    let s = lemma_step_of_72_bits(0x99582a279345e7d026int, s, 0x83df54c8d5753e97int, 0x695b2cb3909e95int, 0, 0);
    let s = lemma_step_of_72_bits(0x99582a279345e7d026int, s, 0x9821f6e27ddf307c36int, 0x8c3742da8eb065d10cint, 0, 0);
    let s = lemma_step_of_72_bits(0x99582a279345e7d026int, s, 0x9fc5adfd743421f830int, 0x9aa6d17ba3e7cc5b22int, 0x2a81bdffb3f235e955int, 1);
    assert(s.0 == 41081);
}

/// The power 82163 of 0x99582a279345e7d026 modulo 0xa50ff1a5a74bfaf5af.
proof fn lemma_power_of_72_bits_6()
    ensures
        pow_mod(0x99582a279345e7d026int, 82163, 0xa50ff1a5a74bfaf5afint) == 0x924397328acc4c03bfint,
{
    lemma_power_of_72_bits_6_part_1();
    let s = (41081nat, 0x149b849c521c424eb1int);
    let s = lemma_step_of_72_bits(0x99582a279345e7d026int, s, 0x149b849c521c424eb1int, 0x292a1a183e299feb8int, 0x417832c32c3144cd39int, 1);
    assert(s.0 == 82163);
}

/// The first 16 bits of the exponent of the same power.
proof fn lemma_power_of_72_bits_7_part_1()
    ensures
        pow_mod(0x9b5f351d47329578eeint, 41081, 0xa50ff1a5a74bfaf5afint) == 0x7b65ff867ce612bd96int,
{
    let s = lemma_square_start(0x9b5f351d47329578eeint, 0xa50ff1a5a74bfaf5afint);
    let s = lemma_step_of_72_bits(0x9b5f351d47329578eeint, s, 1, 0, 0, 1);
    let s = lemma_step_of_72_bits(0x9b5f351d47329578eeint, s, 0x9b5f351d47329578eeint, 0x92401bcd4410d8c6b9int, 0, 0);
    let s = lemma_step_of_72_bits(0x9b5f351d47329578eeint, s, 0x4638566f46b82317cdint, 0x1ddf6a17235cb40f49int, 0x6686a4c879a7764721int, 1);
    let s = lemma_step_of_72_bits(0x9b5f351d47329578eeint, s, 0x52d46080ade58304cdint, 0x299087752a34ec6423int, 0, 0);
    let s = lemma_step_of_72_bits(0x9b5f351d47329578eeint, s, 0x3aba3ed8313749193cint, 0x14e5090be956602b81int, 0, 0);
    let s = lemma_step_of_72_bits(0x9b5f351d47329578eeint, s, 0x19e997e5b2d25a93e1int, 0x41161adc3c4c1fc6fint, 0, 0);
    let s = lemma_step_of_72_bits(0x9b5f351d47329578eeint, s, 0xa5429939e430860e0int, 0xa5755059a494f26aint, 0, 0);
    let s = lemma_step_of_72_bits(0x9b5f351d47329578eeint, s, 0x6291d9ae119b539b8aint, 0x3adcd1d9b5002709d4int, 0, 0);
    let s = lemma_step_of_72_bits(0x9b5f351d47329578eeint, s, 0x8750bfeace29dcca78int, 0x6eedef4b089c3f623cint, 0, 0);
    let s = lemma_step_of_72_bits(0x9b5f351d47329578eeint, s, 0x7eeba93f2a1372053cint, 0x6197a86427582a76e0int, 0x3cb5004d29b02b4ca0int, 1);
    let s = lemma_step_of_72_bits(0x9b5f351d47329578eeint, s, 0x8ec7b66cb1a2a939c0int, 0x7b8182573c943550b3int, 0x55abc1654250283da7int, 1);
    let s = lemma_step_of_72_bits(0x9b5f351d47329578eeint, s, 0x203f76cb03bfa87b61int, 0x64cdabc085eb8794cint, 0x7525a38a6e86a14946int, 1);
    let s = lemma_step_of_72_bits(0x9b5f351d47329578eeint, s, 0x1bd12a512b77f92bbcint, 0x4b0176680efe4d857int, 0x9022152f5afbc845c8int, 1);
    let s = lemma_step_of_72_bits(0x9b5f351d47329578eeint, s, 0x3e5e148784726572aaint, 0x1790a8cd6c3207701cint, 0, 0);
    let s = lemma_step_of_72_bits(0x9b5f351d47329578eeint, s, 0x8d9275dd6c14c769c0int, 0x796cc2eda91d8adc24int, 0, 0);
    let s = lemma_step_of_72_bits(0x9b5f351d47329578eeint, s, 0xa2d727d664f66c1f64int, 0xa0a6060428a4f8e034int, 0x6bab95c7c111395d7eint, 1);
    assert(s.0 == 41081);
}

/// The power 82163 of 0x9b5f351d47329578ee modulo 0xa50ff1a5a74bfaf5af.
proof fn lemma_power_of_72_bits_7()
    ensures
        pow_mod(0x9b5f351d47329578eeint, 82163, 0xa50ff1a5a74bfaf5afint) == 0x378ff8f120ee4b92ebint,
{
    lemma_power_of_72_bits_7_part_1();
    let s = (41081nat, 0x7b65ff867ce612bd96int);
    let s = lemma_step_of_72_bits(0x9b5f351d47329578eeint, s, 0x7b65ff867ce612bd96int, 0x5c404657b5b57d1ed7int, 0x3448e109b95bdd4221int, 1);
    assert(s.0 == 82163);
}

/// 0xa50ff1a5a74bfaf5af is prime: the product of the primes 137849 and 132667 and 82163, of square above it,
/// divides its predecessor.
pub proof fn lemma_prime_of_72_bits()
    ensures
        is_prime(0xa50ff1a5a74bfaf5afint),
{
    lemma_prime_137849();
    lemma_prime_132667();
    lemma_prime_82163();
    if !is_prime(0xa50ff1a5a74bfaf5afint) {
        lemma_power_of_72_bits_1();
        lemma_power_of_72_bits_2();
        lemma_pow_mod_mul(2, 0x1eeb9e, 137849, 0xa50ff1a5a74bfaf5afint);
        assert(0x1eeb9e * 137849 == 0x4109c769aenat);
        lemma_power_of_72_bits_3();
        lemma_pow_mod_mul(2, 0x4109c769aenat, 132667, 0xa50ff1a5a74bfaf5afint);
        assert(0x4109c769aenat * 132667 == 0x83a8c6c0cb6f1anat);
        lemma_power_of_72_bits_4();
        lemma_pow_mod_mul(2, 0x83a8c6c0cb6f1anat, 82163, 0xa50ff1a5a74bfaf5afint);
        assert(0x83a8c6c0cb6f1anat * 82163 == 0xa50ff1a5a74bfaf5aenat);
        lemma_power_of_72_bits_1();
        lemma_power_of_72_bits_5();
        lemma_pow_mod_mul(2, 0x1eeb9e, 132667, 0xa50ff1a5a74bfaf5afint);
        assert(0x1eeb9e * 132667 == 0x3e97e2016anat);
        lemma_power_of_72_bits_6();
        lemma_pow_mod_mul(2, 0x3e97e2016anat, 82163, 0xa50ff1a5a74bfaf5afint);
        assert(0x3e97e2016anat * 82163 == 0x4e7944ad4bd79enat);
        lemma_power_of_72_bits_1();
        lemma_power_of_72_bits_2();
        lemma_pow_mod_mul(2, 0x1eeb9e, 137849, 0xa50ff1a5a74bfaf5afint);
        assert(0x1eeb9e * 137849 == 0x4109c769aenat);
        lemma_power_of_72_bits_7();
        lemma_pow_mod_mul(2, 0x4109c769aenat, 82163, 0xa50ff1a5a74bfaf5afint);
        assert(0x4109c769aenat * 82163 == 0x5189f58c62d02anat);
        lemma_power_of_72_bits_1();
        lemma_power_of_72_bits_2();
        lemma_pow_mod_mul(2, 0x1eeb9e, 137849, 0xa50ff1a5a74bfaf5afint);
        assert(0x1eeb9e * 137849 == 0x4109c769aenat);
        lemma_power_of_72_bits_3();
        lemma_pow_mod_mul(2, 0x4109c769aenat, 132667, 0xa50ff1a5a74bfaf5afint);
        assert(0x4109c769aenat * 132667 == 0x83a8c6c0cb6f1anat);
        let p = lemma_prime_factor(0xa50ff1a5a74bfaf5afint);
        lemma_pow_mod_divisor(2, 0xa50ff1a5a74bfaf5aenat, 0xa50ff1a5a74bfaf5afint, p);
        lemma_small_mod(1, p as nat);
        let d = lemma_order_exists(2, p, 0xa50ff1a5a74bfaf5aenat);
        assert((0xa50ff1a5a74bfaf5afint - 1) / 137849 == 0x4e7944ad4bd79eint);
        lemma_pocklington_factor(0xa50ff1a5a74bfaf5afint, 2, 137849, 0x924397328acc4c03bfint, 0x4aa722ddb5c67ea804int, -0x4226a607b7d4c66539int, p, d);
        assert((0xa50ff1a5a74bfaf5afint - 1) / 132667 == 0x5189f58c62d02aint);
        lemma_pocklington_factor(0xa50ff1a5a74bfaf5afint, 2, 132667, 0x378ff8f120ee4b92ebint, -0x15d978688294cc1e70int, 0x75ad82b795739ecefint, p, d);
        assert((0xa50ff1a5a74bfaf5afint - 1) / 82163 == 0x83a8c6c0cb6f1aint);
        lemma_pocklington_factor(0xa50ff1a5a74bfaf5afint, 2, 82163, 0x82e626eb227917206int, -0x2ad3e4ba0de4a092c9int, 0x21f6ad06df5dd8872int, p, d);
        lemma_product_divides(137849, 132667, d as int);
        assert(137849 * 132667 == 0x4420cefe3int);
        lemma_product_divides(0x4420cefe3int, 82163, d as int);
        assert(0x4420cefe3int * 82163 == 0x5569ade237479int);
        lemma_pocklington_bound(0xa50ff1a5a74bfaf5afint, 2, 0x5569ade237479int, p, d);
    }
}

/// One step of square-and-multiply modulo 0x9c5c7a67bb0f1fef559a72f9c71. The power before is
/// given twice, as `s.1` and as `x`; `q` is the quotient of its square, and
/// `p` the quotient of the product with `a` that follows where the bit is
/// set.
proof fn lemma_step_of_108_bits(a: int, s: (nat, int), x: int, q: int, p: int, bit: int) -> (r: (
    nat,
    int,
))
    requires
        s.1 == pow_mod(a, s.0, 0x9c5c7a67bb0f1fef559a72f9c71int),
        s.1 == x,
        0 <= x * x - q * 0x9c5c7a67bb0f1fef559a72f9c71int < 0x9c5c7a67bb0f1fef559a72f9c71int,
        bit == 0 || bit == 1,
        bit == 1 ==> 0 <= (x * x - q * 0x9c5c7a67bb0f1fef559a72f9c71int) * a - p * 0x9c5c7a67bb0f1fef559a72f9c71int < 0x9c5c7a67bb0f1fef559a72f9c71int,
    ensures
        r.0 == 2 * s.0 + bit,
        r.1 == pow_mod(a, r.0, 0x9c5c7a67bb0f1fef559a72f9c71int),
        r.1 == if bit == 1 {
            (x * x - q * 0x9c5c7a67bb0f1fef559a72f9c71int) * a - p * 0x9c5c7a67bb0f1fef559a72f9c71int
        } else {
            x * x - q * 0x9c5c7a67bb0f1fef559a72f9c71int
        },
{
    lemma_square_step(a, s.0, 0x9c5c7a67bb0f1fef559a72f9c71int, bit, x);
    let y = x * x - q * 0x9c5c7a67bb0f1fef559a72f9c71int;
    lemma_fundamental_div_mod_converse(x * x, 0x9c5c7a67bb0f1fef559a72f9c71int, q, y);
    if bit == 1 {
        lemma_fundamental_div_mod_converse(y * a, 0x9c5c7a67bb0f1fef559a72f9c71int, p, y * a - p * 0x9c5c7a67bb0f1fef559a72f9c71int);
    }
    ((2 * s.0 + bit) as nat, square_step(x, a, 0x9c5c7a67bb0f1fef559a72f9c71int, bit))
}

/// The first 16 bits of the exponent of the same power.
proof fn lemma_power_of_108_bits_1_part_1()
    ensures
        pow_mod(2, 62081, 0x9c5c7a67bb0f1fef559a72f9c71int) == 0x1949c2ea5a8f9f220d6e0eab5f9int,
{
    let s = lemma_square_start(2, 0x9c5c7a67bb0f1fef559a72f9c71int);
    let s = lemma_step_of_108_bits(2, s, 1, 0, 0, 1);
    let s = lemma_step_of_108_bits(2, s, 2, 0, 0, 1);
    let s = lemma_step_of_108_bits(2, s, 8, 0, 0, 1);
    let s = lemma_step_of_108_bits(2, s, 128, 0, 0, 1);
    let s = lemma_step_of_108_bits(2, s, 32768, 0, 0, 0);
    let s = lemma_step_of_108_bits(2, s, 0x40000000, 0, 0, 0);
    let s = lemma_step_of_108_bits(2, s, 0x1000000000000000int, 6706, 0, 1);
    let s = lemma_step_of_108_bits(2, s, 0x23031d7bdb9ae91f305059fefdcint, 0x7d701c70b0cb34ed9ef2c84d95int, 0, 0);
    let s = lemma_step_of_108_bits(2, s, 0x4bd98f86a9104811b97c0f87a4bint, 0x24cb55dd53248aaf2de0a229f35int, 1, 1);
    let s = lemma_step_of_108_bits(2, s, 0x16dedadcc53184c7b2ef03862b7int, 0x3585f9af8db7f78480bce963bdint, 0, 0);
    let s = lemma_step_of_108_bits(2, s, 0x52ffbd31d9b0d34acb63fa16c64int, 0x2c0ea1684ef1b63fe6408fcc91fint, 0, 0);
    let s = lemma_step_of_108_bits(2, s, 0x4f424b8ae8bdf1bf34d93d7dc61int, 0x282d1451922abda1c833eb0b0faint, 0, 0);
    let s = lemma_step_of_108_bits(2, s, 0x4564f56e5e71695368562e86667int, 0x1ecc3b1240151ac3082abdfe2b3int, 0, 0);
    let s = lemma_step_of_108_bits(2, s, 0x81914639a1848b7d7c3efd1186eint, 0x6b5d735a9b7982c39c095dac32eint, 0, 0);
    let s = lemma_step_of_108_bits(2, s, 0x79f1caa37bc772f1f2bfdfe9ff6int, 0x5f1a6de0f4537506262a867ec78int, 0, 0);
    let s = lemma_step_of_108_bits(2, s, 0x5662bff06b3ffb445d7b01aff6cint, 0x2fb9dafa293cbc39bb9de5e6b8bint, 1, 1);
    assert(s.0 == 62081);
}

/// The first 32 bits of the exponent of the same power.
proof fn lemma_power_of_108_bits_1_part_2()
    ensures
        pow_mod(2, 0xf2815b69nat, 0x9c5c7a67bb0f1fef559a72f9c71int) == 0x5144c671c3dd28f8b365e50ef50int,
{
    lemma_power_of_108_bits_1_part_1();
    let s = (62081nat, 0x1949c2ea5a8f9f220d6e0eab5f9int);
    let s = lemma_step_of_108_bits(2, s, 0x1949c2ea5a8f9f220d6e0eab5f9int, 0x416fe874443c1248b62b9f178cint, 0, 0);
    let s = lemma_step_of_108_bits(2, s, 0x31447b813497b3e00b512475765int, 0xf8609db3c0fb41436929309b7eint, 1, 1);
    let s = lemma_step_of_108_bits(2, s, 0x558af536bcec2a4eb44d9d92a05int, 0x2ecc944b4d5010584a7ff62a509int, 0, 0);
    let s = lemma_step_of_108_bits(2, s, 0x2ec99403202666b3a6eba9c4f20int, 0xe000200cc69b6f29e7c530e5b3int, 1, 1);
    let s = lemma_step_of_108_bits(2, s, 0x4663e16929c97b0f72d8e2fb89int, 0x1fb0207b5ee770d09364d94a0int, 0, 1);
    let s = lemma_step_of_108_bits(2, s, 0x30151cddc3ccec4f82b9b3a962int, 0xec9295c354af5fbf36188c78int, 0, 0);
    let s = lemma_step_of_108_bits(2, s, 0x14bf6c6880b4c3944340aa7688cint, 0x2c0c759ac8e47f3229d2f54ebdint, 1, 1);
    let s = lemma_step_of_108_bits(2, s, 0x38268b00256e8567970a798a1d5int, 0x142a03143a49b677a82342da0c2int, 1, 1);
    let s = lemma_step_of_108_bits(2, s, 0x9b44165cb5b4fcb4dc37bdb3ebdint, 0x9a2da91f698f57137bd568ee44eint, 0, 0);
    let s = lemma_step_of_108_bits(2, s, 0x1f6c422df5b15ae9460f039c91bint, 0x65099f75c064b739573bebbe98int, 0, 1);
    let s = lemma_step_of_108_bits(2, s, 0x7520fc85abaf7caebc715cb4f82int, 0x57bd7e641d556cd0902c834c755int, 1, 1);
    let s = lemma_step_of_108_bits(2, s, 0x3124a558d1ec30490e239cdce8dint, 0xf72004f231c99addcd7b104adcint, 0, 0);
    let s = lemma_step_of_108_bits(2, s, 0x4bf876eb3090417b262bc461e8dint, 0x24e95781592a42ed8fc96ee4636int, 1, 1);
    let s = lemma_step_of_108_bits(2, s, 0x4daf3110b65f7403b221a934b35int, 0x269879b173ee74ddb305da10642int, 0, 0);
    let s = lemma_step_of_108_bits(2, s, 0x908f62e50ef81b3dc1b90f41dd7int, 0x85a64e99b59ffbec052a1e6aa83int, 0, 0);
    let s = lemma_step_of_108_bits(2, s, 0x543be3d82d5fefc4572fb8c52beint, 0x2d60c36266cbbc490e932f8411cint, 0, 1);
    assert(s.0 == 0xf2815b69nat);
}

/// The power 0xf2815b690 of 2 modulo 0x9c5c7a67bb0f1fef559a72f9c71.
proof fn lemma_power_of_108_bits_1()
    ensures
        pow_mod(2, 0xf2815b690nat, 0x9c5c7a67bb0f1fef559a72f9c71int) == 0x3b2ae7ff22bcdba54838ac8d848int,
{
    lemma_power_of_108_bits_1_part_2();
    let s = (0xf2815b69nat, 0x5144c671c3dd28f8b365e50ef50int);
    let s = lemma_step_of_108_bits(2, s, 0x5144c671c3dd28f8b365e50ef50int, 0x2a3d44a912679532c1d435d9fe4int, 0, 0);
    let s = lemma_step_of_108_bits(2, s, 0x99b8b47f25cb171d55b5117f55cint, 0x9720573129edf32010dfeb5b9d6int, 0, 0);
    let s = lemma_step_of_108_bits(2, s, 0x4655ebd5310d16efb8855f1c99aint, 0x1fa3903f1434b7c2f9fa8d0569fint, 0, 0);
    let s = lemma_step_of_108_bits(2, s, 0x285b2950a25ab10247c5dc71075int, 0xa6a6c8c8d3951e96fa1eedccc1int, 0, 0);
    assert(s.0 == 0xf2815b690nat);
}

/// The first 16 bits of the exponent of the same power.
proof fn lemma_power_of_108_bits_2_part_1()
    ensures
        pow_mod(0x3b2ae7ff22bcdba54838ac8d848int, 42255, 0x9c5c7a67bb0f1fef559a72f9c71int) == 0x35fd35a9c0561bd9d9c99b7034bint,
{
    let s = lemma_square_start(0x3b2ae7ff22bcdba54838ac8d848int, 0x9c5c7a67bb0f1fef559a72f9c71int);
    let s = lemma_step_of_108_bits(0x3b2ae7ff22bcdba54838ac8d848int, s, 1, 0, 0, 1);
    let s = lemma_step_of_108_bits(0x3b2ae7ff22bcdba54838ac8d848int, s, 0x3b2ae7ff22bcdba54838ac8d848int, 0x1663a37831ed97f486d55e96e76int, 0, 0);
    let s = lemma_step_of_108_bits(0x3b2ae7ff22bcdba54838ac8d848int, s, 0x6cde32f9e5f96f7c5e2da35ea2aint, 0x4bcce27570ac999940f4eb7ad68int, 0xc8a5712cc8ce23100b5009eda7int, 1);
    let s = lemma_step_of_108_bits(0x3b2ae7ff22bcdba54838ac8d848int, s, 0x2f37f568f6b11cfa06c2ec81429int, 0xe425ea4e82052fdc161927855eint, 0, 0);
    let s = lemma_step_of_108_bits(0x3b2ae7ff22bcdba54838ac8d848int, s, 0xddb16b8da6fd856f313fad4813int, 0x13a527aa063316be4b684c5759int, 0, 0);
    let s = lemma_step_of_108_bits(0x3b2ae7ff22bcdba54838ac8d848int, s, 0x78d308e4777d7185f4230b4e720int, 0x5d5d34c93c4d857dfd75dcf5723int, 0x25c98fa8fa4c5a78c070d0006a3int, 1);
    let s = lemma_step_of_108_bits(0x3b2ae7ff22bcdba54838ac8d848int, s, 0x5989cce18d2dc410deeb171e5b5int, 0x3345e0d37fb12bd10562fa4fd61int, 0, 0);
    let s = lemma_step_of_108_bits(0x3b2ae7ff22bcdba54838ac8d848int, s, 0x40ec1dbd15d79c297b83dd5e28int, 0x1af4cb2223acb1c775becdaedint, 0x362de36cd1da4104299fc8ee420int, 1);
    let s = lemma_step_of_108_bits(0x3b2ae7ff22bcdba54838ac8d848int, s, 0x1449189b43ab05b1eba6773fbb8int, 0x2a1b9fd3fc01e08865b21e6344int, 0, 0);
    let s = lemma_step_of_108_bits(0x3b2ae7ff22bcdba54838ac8d848int, s, 0x85534da1a2b16072612756f133cint, 0x71aeed35abae510f3c616f51babint, 0, 0);
    let s = lemma_step_of_108_bits(0x3b2ae7ff22bcdba54838ac8d848int, s, 0x37500e78fdea7bf8a4967078b95int, 0x13911d1ffa3c7f8133e08563c5cint, 0, 0);
    let s = lemma_step_of_108_bits(0x3b2ae7ff22bcdba54838ac8d848int, s, 0x4ba9394f37d5f8234dd8084701dint, 0x249c7f7fd4df9dcf01033f69699int, 0, 0);
    let s = lemma_step_of_108_bits(0x3b2ae7ff22bcdba54838ac8d848int, s, 0x555b22f0e1140d6092d264cadc0int, 0x2e984fce3b17e572910683e50c0int, 0x5466de5cd81e0d9233981710c9int, 1);
    let s = lemma_step_of_108_bits(0x3b2ae7ff22bcdba54838ac8d848int, s, 0x3e647f8399bef016b004d7c4547int, 0x18e57ad2175fd5cb9e5c3ec18fcint, 0xf60d7ba1513413fead65701764int, 1);
    let s = lemma_step_of_108_bits(0x3b2ae7ff22bcdba54838ac8d848int, s, 0x6c6597086bd14f40bf7f0aa25c4int, 0x4b254c2ab80cc6404b2bdd5aaf9int, 0x1054aa73df748144c27947cdce8int, 1);
    let s = lemma_step_of_108_bits(0x3b2ae7ff22bcdba54838ac8d848int, s, 0x6cc2a4140ce5de17fe784d0e090int, 0x4ba6873d5cf7d1cb3e10eed9d09int, 0x2139ee0cbebb68df14a7dae9bfdint, 1);
    assert(s.0 == 42255);
}

/// The first 32 bits of the exponent of the same power.
proof fn lemma_power_of_108_bits_2_part_2()
    ensures
        pow_mod(0x3b2ae7ff22bcdba54838ac8d848int, 0xa50ff1a5nat, 0x9c5c7a67bb0f1fef559a72f9c71int) == 0x5c8150fd3881163d0d871de02bbint,
{
    lemma_power_of_108_bits_2_part_1();
    let s = (42255nat, 0x35fd35a9c0561bd9d9c99b7034bint);
    let s = lemma_step_of_108_bits(0x3b2ae7ff22bcdba54838ac8d848int, s, 0x35fd35a9c0561bd9d9c99b7034bint, 0x12a43f8e54222f7195be37c00bfint, 0x236b59972a138fb168d9a43d5a9int, 1);
    let s = lemma_step_of_108_bits(0x3b2ae7ff22bcdba54838ac8d848int, s, 0x1999a7dfeae7c96f300853d0c37int, 0x430ff05233825c9bedc05f4417int, 0x239ceb2626c7d2849f6dcd1777bint, 1);
    let s = lemma_step_of_108_bits(0x3b2ae7ff22bcdba54838ac8d848int, s, 0x585b16a2736db97538fad5f3685int, 0x31ed7aacca4692b62b4c1369333int, 0x14f5fa9393b85a99a4e6124a950int, 1);
    let s = lemma_step_of_108_bits(0x3b2ae7ff22bcdba54838ac8d848int, s, 0x9650bf442e333afde8435da95e0int, 0x9080dc3c890a69a9ea8267f52caint, 0xe1a385d1c53b70f38fb73d35d1int, 1);
    let s = lemma_step_of_108_bits(0x3b2ae7ff22bcdba54838ac8d848int, s, 0x16b6fecc7ab10a5bf96e3caeefint, 0x34cc0b9d9727cd428462dc08int, 0, 0);
    let s = lemma_step_of_108_bits(0x3b2ae7ff22bcdba54838ac8d848int, s, 0x626116a0469667356259061c399int, 0x3de5ef731fa177b5aeac4273f53int, 0, 0);
    let s = lemma_step_of_108_bits(0x3b2ae7ff22bcdba54838ac8d848int, s, 0x9b1a2499b1c4c0e3614aa3de9ceint, 0x99da674840646d2d7b07fb76dc7int, 0, 0);
    let s = lemma_step_of_108_bits(0x3b2ae7ff22bcdba54838ac8d848int, s, 0x6c850b6ac0f5b8e3e79ba4ee8edint, 0x4b50ef104e88e683672d6303ab5int, 0x2f6de77bef392152528e38f7abbint, 1);
    let s = lemma_step_of_108_bits(0x3b2ae7ff22bcdba54838ac8d848int, s, 0x6d8bf48bfd2c495148c221a4c95int, 0x4cbf98f505173fa975b6561564dint, 0x8050cf085388ee847fe4c98bdeint, 1);
    let s = lemma_step_of_108_bits(0x3b2ae7ff22bcdba54838ac8d848int, s, 0x754b75008d41bc7baeeacb9fe2int, 0x57fd2ae35e8ae648d2c159d4dint, 0, 0);
    let s = lemma_step_of_108_bits(0x3b2ae7ff22bcdba54838ac8d848int, s, 0x31af624686c2d5769f05ebe2887int, 0xfc9b0cf81ffd2ab3cba1e7aba6int, 0x31ca47da67ac855c151118ae441int, 1);
    let s = lemma_step_of_108_bits(0x3b2ae7ff22bcdba54838ac8d848int, s, 0x489f5b12958d23f1e0ca45ffd67int, 0x21bad0ac57a7ee3830151859121int, 0, 0);
    let s = lemma_step_of_108_bits(0x3b2ae7ff22bcdba54838ac8d848int, s, 0xc3b12df8023be1426478d293e0int, 0xf4ea8beadf7e84ffc6abe4fe4int, 0, 0);
    let s = lemma_step_of_108_bits(0x3b2ae7ff22bcdba54838ac8d848int, s, 0xdd4a698e29e36f460f735ed05cint, 0x1392ea6582eb3b4fb89cd34db5int, 0x34a484225a1d97b4a68ed53c079int, 1);
    let s = lemma_step_of_108_bits(0x3b2ae7ff22bcdba54838ac8d848int, s, 0x5bd831137fba29f38762b1de2afint, 0x35f2bf113dff26d286163f9f163int, 0, 0);
    let s = lemma_step_of_108_bits(0x3b2ae7ff22bcdba54838ac8d848int, s, 0x37eebc9cbc958594897c692eeint, 0x140202495ccad46c9b97d1dint, 0x1675b29254c9ab0270ea8da1d0dint, 1);
    assert(s.0 == 0xa50ff1a5nat);
}

/// The first 48 bits of the exponent of the same power.
proof fn lemma_power_of_108_bits_2_part_3()
    ensures
        pow_mod(0x3b2ae7ff22bcdba54838ac8d848int, 0xa50ff1a5a74bnat, 0x9c5c7a67bb0f1fef559a72f9c71int) == 0x8d1fc7846ea6330429c928aaa55int,
{
    lemma_power_of_108_bits_2_part_2();
    let s = (0xa50ff1a5nat, 0x5c8150fd3881163d0d871de02bbint);
    let s = lemma_step_of_108_bits(0x3b2ae7ff22bcdba54838ac8d848int, s, 0x5c8150fd3881163d0d871de02bbint, 0x36ba24e024ccef4e2d51434d776int, 0x1674b534759ceab514ef14d6ed4int, 1);
    let s = lemma_step_of_108_bits(0x3b2ae7ff22bcdba54838ac8d848int, s, 0x6c70c81954af82298caa1ab5944int, 0x4b34d15c345d22f066f1cb4a673int, 0, 0);
    let s = lemma_step_of_108_bits(0x3b2ae7ff22bcdba54838ac8d848int, s, 0x8fa32b521521891010392afcd4dint, 0x83f2ec519e20d3969037011f99eint, 0x21df28343392392dd27a1905608int, 1);
    let s = lemma_step_of_108_bits(0x3b2ae7ff22bcdba54838ac8d848int, s, 0x245f4b03211a824f8b95bab9c90int, 0x875f65e49500f11cb50a18c448int, 0, 0);
    let s = lemma_step_of_108_bits(0x3b2ae7ff22bcdba54838ac8d848int, s, 0x53ab75d73e7b20e96c95a5d4d38int, 0x2cc5abfcd0d06aa6d8bb14e93e0int, 0, 0);
    let s = lemma_step_of_108_bits(0x3b2ae7ff22bcdba54838ac8d848int, s, 0x8878da911ed35a48ac3260ef660int, 0x771ce25fe80c83b2bc1ac469e55int, 0x2e44faf5988e1499989099799a5int, 1);
    let s = lemma_step_of_108_bits(0x3b2ae7ff22bcdba54838ac8d848int, s, 0x84a8d9a33239049481bcfd62cc3int, 0x708cf856604416de5220e1f7436int, 0x339771453146564f8eee231d635int, 1);
    let s = lemma_step_of_108_bits(0x3b2ae7ff22bcdba54838ac8d848int, s, 0x8e188b3d32e05c98516cd59a0f3int, 0x8121c9bd52e67f8226646f14290int, 0xe01142d180aba51d1a9d326771int, 1);
    let s = lemma_step_of_108_bits(0x3b2ae7ff22bcdba54838ac8d848int, s, 0x2dd8461fd9c2801475976330227int, 0xd710da31721737b6fff8c9ba9aint, 0, 0);
    let s = lemma_step_of_108_bits(0x3b2ae7ff22bcdba54838ac8d848int, s, 0x454cd11bb8771a0e75e58876bf7int, 0x1eb6d10b9bc00e71907d08600d0int, 0x38c7348b302e9fd9fe15771ccccint, 1);
    let s = lemma_step_of_108_bits(0x3b2ae7ff22bcdba54838ac8d848int, s, 0x356260d5dc3c618abfdc6d6a63cint, 0x1239ecea2dbca8e03e0b80e591eint, 0, 0);
    let s = lemma_step_of_108_bits(0x3b2ae7ff22bcdba54838ac8d848int, s, 0x5e343324cecb89ef92a3d1c3fd2int, 0x38c16ed9fa60eb5f731bd1d8241int, 0, 0);
    let s = lemma_step_of_108_bits(0x3b2ae7ff22bcdba54838ac8d848int, s, 0x4cf6f02c9da175d0c415383ed93int, 0x25e23d583147837f7d571304c84int, 0xfe1497e44c3b7db8bd9fefd3bcint, 1);
    let s = lemma_step_of_108_bits(0x3b2ae7ff22bcdba54838ac8d848int, s, 0x15c5d1685c16b060a9882fd9c6cint, 0x3082233ff41068c40538cd3b6fint, 0, 0);
    let s = lemma_step_of_108_bits(0x3b2ae7ff22bcdba54838ac8d848int, s, 0x468a23b45ad2266d566c7dbed91int, 0x1fd29c2a45b943bda2320ebe179int, 0x1bdd96afce6ef0bef1dfb564f6eint, 1);
    let s = lemma_step_of_108_bits(0x3b2ae7ff22bcdba54838ac8d848int, s, 0x19cdf7a850e36ac6177c5e7e432int, 0x44231a7ee44d917da60108247aint, 0x17ed6977f1d7509c504c73c80abint, 1);
    assert(s.0 == 0xa50ff1a5a74bnat);
}

/// The first 64 bits of the exponent of the same power.
proof fn lemma_power_of_108_bits_2_part_4()
    ensures
        pow_mod(0x3b2ae7ff22bcdba54838ac8d848int, 0xa50ff1a5a74bfaf5nat, 0x9c5c7a67bb0f1fef559a72f9c71int) == 0x542cb051e21a45a8bda75e952efint,
{
    lemma_power_of_108_bits_2_part_3();
    let s = (0xa50ff1a5a74bnat, 0x8d1fc7846ea6330429c928aaa55int);
    let s = lemma_step_of_108_bits(0x3b2ae7ff22bcdba54838ac8d848int, s, 0x8d1fc7846ea6330429c928aaa55int, 0x7f5f323c5b007b11e8956e78f3bint, 0x16bb2de5b94277a5e5f14077798int, 1);
    let s = lemma_step_of_108_bits(0x3b2ae7ff22bcdba54838ac8d848int, s, 0x5a647c73f42d27c731a9fadcad8int, 0x3441873e579624baf28541de646int, 0x17a2e56a5b9f85dfb2e5ba39ae8int, 1);
    let s = lemma_step_of_108_bits(0x3b2ae7ff22bcdba54838ac8d848int, s, 0x51d84c1902ef62f71e596e3d0e8int, 0x2ad72930a0575adc5205edafe02int, 0x37bb29a5193a3177b6b062eecaeint, 1);
    let s = lemma_step_of_108_bits(0x3b2ae7ff22bcdba54838ac8d848int, s, 0x48c5ed205abed30a6b3938781a2int, 0x21deae4286df23a262a8b14ea0eint, 0x2843b7e020e274db58313636f84int, 1);
    let s = lemma_step_of_108_bits(0x3b2ae7ff22bcdba54838ac8d848int, s, 0x3eed5e094237c599b7061df0eecint, 0x19532d5b218402c93ebb61a3f02int, 0x71d1f8682fd90b7a579e5ece15int, 1);
    let s = lemma_step_of_108_bits(0x3b2ae7ff22bcdba54838ac8d848int, s, 0x6403f04a96212e8acc256e785abint, 0x3ff961c4b9c7833a2e535818c54int, 0, 0);
    let s = lemma_step_of_108_bits(0x3b2ae7ff22bcdba54838ac8d848int, s, 0x6fb15d58e51693ba80e4546ff25int, 0x4fc8f88ceceb1421f6dc1d100d5int, 0xb54d4c601259a006c0811f18c4int, 1);
    let s = lemma_step_of_108_bits(0x3b2ae7ff22bcdba54838ac8d848int, s, 0x5c21f94acce06cca13281da611cint, 0x36498f40bbe70034438a93564e9int, 0, 0);
    let s = lemma_step_of_108_bits(0x3b2ae7ff22bcdba54838ac8d848int, s, 0xc9e94651bb6cd35b5600afb437int, 0x104bb01d553e153a97c5a23078int, 0x27f1c978c9b4dd390df5f5d61baint, 1);
    let s = lemma_step_of_108_bits(0x3b2ae7ff22bcdba54838ac8d848int, s, 0x3c61c09e285891bc555219249eeint, 0x17514d8935a298dd82fd0f2a0bcint, 0x106c578ccdf9b115bbc79f7ce4dint, 1);
    let s = lemma_step_of_108_bits(0x3b2ae7ff22bcdba54838ac8d848int, s, 0x8181800ac8eea0f04a5a2670843int, 0x6b435087ada56e2a4318ca9bd7aint, 0x1b58f54ce2c8af777a9a3b72961int, 1);
    let s = lemma_step_of_108_bits(0x3b2ae7ff22bcdba54838ac8d848int, s, 0x57297c2c8fe097a16cebdf82967int, 0x30966f4ea266a913b36982c84f9int, 0xe15b46d492750b0cfd143fc13cint, 1);
    let s = lemma_step_of_108_bits(0x3b2ae7ff22bcdba54838ac8d848int, s, 0x483d95cea2c580416a844f612c4int, 0x21603bf6356400cc60c96b4724aint, 0, 0);
    let s = lemma_step_of_108_bits(0x3b2ae7ff22bcdba54838ac8d848int, s, 0x1a0288384ab706af0f2752e9b66int, 0x4539cd86b0532ea0b71a8548dfint, 0x2f9da9611e0726ce0007f4d3772int, 1);
    let s = lemma_step_of_108_bits(0x3b2ae7ff22bcdba54838ac8d848int, s, 0x5f3ac98c5b03f5f258408344596int, 0x39ff8f9c400df8ea028ce68573cint, 0, 0);
    let s = lemma_step_of_108_bits(0x3b2ae7ff22bcdba54838ac8d848int, s, 0x3e255b918dbc6a027fede9f2268int, 0x18b33092722648864722f7df1dbint, 0x2466fc90e778d5ca82749b01f09int, 1);
    assert(s.0 == 0xa50ff1a5a74bfaf5nat);
}

/// The power 0xa50ff1a5a74bfaf5af of 0x3b2ae7ff22bcdba54838ac8d848 modulo 0x9c5c7a67bb0f1fef559a72f9c71.
proof fn lemma_power_of_108_bits_2()
    ensures
        pow_mod(0x3b2ae7ff22bcdba54838ac8d848int, 0xa50ff1a5a74bfaf5afnat, 0x9c5c7a67bb0f1fef559a72f9c71int) == 1,
{
    lemma_power_of_108_bits_2_part_4();
    let s = (0xa50ff1a5a74bfaf5nat, 0x542cb051e21a45a8bda75e952efint);
    let s = lemma_step_of_108_bits(0x3b2ae7ff22bcdba54838ac8d848int, s, 0x542cb051e21a45a8bda75e952efint, 0x2d506406e4b3c00eb8dba766f61int, 0x19054b6c9f9170b998b9e9e5110int, 1);
    let s = lemma_step_of_108_bits(0x3b2ae7ff22bcdba54838ac8d848int, s, 0x2f345bfd358f22f3be6bda6f670int, 0xe403237e4a3644c77830a9c14dint, 0, 0);
    let s = lemma_step_of_108_bits(0x3b2ae7ff22bcdba54838ac8d848int, s, 0x8046f6a5e57fa188b48419f3203int, 0x693cc1e9b99ea77a85f5a0e5036int, 0x1edb4e63f3da028c2cfcb09e8b9int, 1);
    let s = lemma_step_of_108_bits(0x3b2ae7ff22bcdba54838ac8d848int, s, 0x1e18773bcc48c4d6590894980afint, 0x5cae9ff17e5f88b88d2dd46fc6int, 0, 0);
    let s = lemma_step_of_108_bits(0x3b2ae7ff22bcdba54838ac8d848int, s, 0x3c25661614e8c38c4b69441793bint, 0x1722c7cd903fa7e5ab6e5b325a6int, 0x16538a649e83bba3758fd178f08int, 1);
    let s = lemma_step_of_108_bits(0x3b2ae7ff22bcdba54838ac8d848int, s, 0x2a13e770cea17cc9cad5412c4d0int, 0xb52c8bcba9b1f381167ffd86a4int, 0x39d75e34f359e80d309fcb2a44bint, 1);
    let s = lemma_step_of_108_bits(0x3b2ae7ff22bcdba54838ac8d848int, s, 0x8cc9df1d6eeb8d51a995abf62c5int, 0x7ec44edd9f6d413bdc1fdacf357int, 0x1c7311756adeafbc155807898aint, 1);
    let s = lemma_step_of_108_bits(0x3b2ae7ff22bcdba54838ac8d848int, s, 0x845d9525804b27cc45531cfe026int, 0x700d652139814fc248914a15c09int, 0xae13fac04c4632eb85187cc907int, 1);
    assert(s.0 == 0xa50ff1a5a74bfaf5afnat);
}

/// 0x9c5c7a67bb0f1fef559a72f9c71 is prime: the prime 0xa50ff1a5a74bfaf5af, of square above it, divides its
/// predecessor.
pub proof fn lemma_prime_of_108_bits()
    ensures
        is_prime(0x9c5c7a67bb0f1fef559a72f9c71int),
{
    lemma_prime_of_72_bits();
    if !is_prime(0x9c5c7a67bb0f1fef559a72f9c71int) {
        lemma_power_of_108_bits_1();
        lemma_power_of_108_bits_2();
        lemma_pow_mod_mul(2, 0xf2815b690nat, 0xa50ff1a5a74bfaf5afnat, 0x9c5c7a67bb0f1fef559a72f9c71int);
        assert(0xf2815b690nat * 0xa50ff1a5a74bfaf5afnat == 0x9c5c7a67bb0f1fef559a72f9c70nat);
        lemma_power_of_108_bits_1();
        let p = lemma_prime_factor(0x9c5c7a67bb0f1fef559a72f9c71int);
        lemma_pow_mod_divisor(2, 0x9c5c7a67bb0f1fef559a72f9c70nat, 0x9c5c7a67bb0f1fef559a72f9c71int, p);
        lemma_small_mod(1, p as nat);
        let d = lemma_order_exists(2, p, 0x9c5c7a67bb0f1fef559a72f9c70nat);
        assert((0x9c5c7a67bb0f1fef559a72f9c71int - 1) / 0xa50ff1a5a74bfaf5afint == 0xf2815b690int);
        lemma_pocklington_factor(0x9c5c7a67bb0f1fef559a72f9c71int, 2, 0xa50ff1a5a74bfaf5afint, 0x3b2ae7ff22bcdba54838ac8d848int, -0x16a716be569e33097fa532e79bcint, 0x89264e190478d3e0c97fe5dbf5int, p, d);
        lemma_pocklington_bound(0x9c5c7a67bb0f1fef559a72f9c71int, 2, 0xa50ff1a5a74bfaf5afint, p, d);
    }
}

/// One step of square-and-multiply modulo 0x1000000000000000000000000000000014def9dea2f79cd65812631a5cf5d3ed. The power before is
/// given twice, as `s.1` and as `x`; `q` is the quotient of its square, and
/// `p` the quotient of the product with `a` that follows where the bit is
/// set.
proof fn lemma_step_of_253_bits(a: int, s: (nat, int), x: int, q: int, p: int, bit: int) -> (r: (
    nat,
    int,
))
    requires
        s.1 == pow_mod(a, s.0, 0x1000000000000000000000000000000014def9dea2f79cd65812631a5cf5d3edint),
        s.1 == x,
        0 <= x * x - q * 0x1000000000000000000000000000000014def9dea2f79cd65812631a5cf5d3edint < 0x1000000000000000000000000000000014def9dea2f79cd65812631a5cf5d3edint,
        bit == 0 || bit == 1,
        bit == 1 ==> 0 <= (x * x - q * 0x1000000000000000000000000000000014def9dea2f79cd65812631a5cf5d3edint) * a - p * 0x1000000000000000000000000000000014def9dea2f79cd65812631a5cf5d3edint < 0x1000000000000000000000000000000014def9dea2f79cd65812631a5cf5d3edint,
    ensures
        r.0 == 2 * s.0 + bit,
        r.1 == pow_mod(a, r.0, 0x1000000000000000000000000000000014def9dea2f79cd65812631a5cf5d3edint),
        r.1 == if bit == 1 {
            (x * x - q * 0x1000000000000000000000000000000014def9dea2f79cd65812631a5cf5d3edint) * a - p * 0x1000000000000000000000000000000014def9dea2f79cd65812631a5cf5d3edint
        } else {
            x * x - q * 0x1000000000000000000000000000000014def9dea2f79cd65812631a5cf5d3edint
        },
{
    lemma_square_step(a, s.0, 0x1000000000000000000000000000000014def9dea2f79cd65812631a5cf5d3edint, bit, x);
    let y = x * x - q * 0x1000000000000000000000000000000014def9dea2f79cd65812631a5cf5d3edint;
    lemma_fundamental_div_mod_converse(x * x, 0x1000000000000000000000000000000014def9dea2f79cd65812631a5cf5d3edint, q, y);
    if bit == 1 {
        lemma_fundamental_div_mod_converse(y * a, 0x1000000000000000000000000000000014def9dea2f79cd65812631a5cf5d3edint, p, y * a - p * 0x1000000000000000000000000000000014def9dea2f79cd65812631a5cf5d3edint);
    }
    ((2 * s.0 + bit) as nat, square_step(x, a, 0x1000000000000000000000000000000014def9dea2f79cd65812631a5cf5d3edint, bit))
}

/// The first 16 bits of the exponent of the same power.
proof fn lemma_power_of_253_bits_1_part_1()
    ensures
        pow_mod(2, 41279, 0x1000000000000000000000000000000014def9dea2f79cd65812631a5cf5d3edint) == 0x212c404871948938e03fd7f80a1dd31151c9112352c79c219f22f1af140abecint,
{
    let s = lemma_square_start(2, 0x1000000000000000000000000000000014def9dea2f79cd65812631a5cf5d3edint);
    let s = lemma_step_of_253_bits(2, s, 1, 0, 0, 1);
    let s = lemma_step_of_253_bits(2, s, 2, 0, 0, 0);
    let s = lemma_step_of_253_bits(2, s, 4, 0, 0, 1);
    let s = lemma_step_of_253_bits(2, s, 32, 0, 0, 0);
    let s = lemma_step_of_253_bits(2, s, 1024, 0, 0, 0);
    let s = lemma_step_of_253_bits(2, s, 0x100000, 0, 0, 0);
    let s = lemma_step_of_253_bits(2, s, 0x10000000000int, 0, 0, 0);
    let s = lemma_step_of_253_bits(2, s, 0x100000000000000000000int, 0, 0, 1);
    let s = lemma_step_of_253_bits(2, s, 0x20000000000000000000000000000000000000000int, 0x3fffffffffffffffffint, 0, 0);
    let s = lemma_step_of_253_bits(2, s, 0xffffffffffffffac84188574218ca6a104633476582a1965812631a5cf5d3edint, 0xffffffffffffff5908310ae84319687a4ee882c58a7e4254486353252b439b8int, 0, 0);
    let s = lemma_step_of_253_bits(2, s, 0x5c63aa97a331b4f2ee573e5a6e5f719ecb8f9626c082fa86e644cdb318e7211int, 0x2157c96a6041b11080317d80636a7d4000d45d3742ca4cd19b5bfcb091ec930int, 0, 1);
    let s = lemma_step_of_253_bits(2, s, 0x8e1d0f0049f716290b33a2cada2072c66d0d50cfedf8c650e2acdc746d8a762int, 0x4ee43ff0b8ffe73b97b17abb2687553ad353e5765c061ed5756ddc30c68e726int, 1, 1);
    let s = lemma_step_of_253_bits(2, s, 0xd2a0adb4135b353a1c9aa09648a85fc310157c8af679e497f2cbf26f2ab8ebfint, 0xad4c01d506b6b62a5f3b7f86042c67ea0fbf6a9d84b899a663347aeb0efe00cint, 1, 1);
    let s = lemma_step_of_253_bits(2, s, 0x3bbe549ab78e8e3117b7444214e37bdd8dc187db4bd81ceed36c45621e72ddint, 0xdf14881023a131c9a3e16ccd25a2c99ee406cb120eaae7b70aff512990a6int, 0, 1);
    let s = lemma_step_of_253_bits(2, s, 0xaac529bb3700655c9acc44f3c173e027279cfa1e666454790bf319fad87ae36int, 0x71ea7345e5fcadc284fa7463633e6b63b150f5b17aaab2adf9a7d58b3a90888int, 0, 1);
    let s = lemma_step_of_253_bits(2, s, 0x86d818be2df9c0fcbb65bdd50547d29268dc895dded7d19093adf32ffa8eaf8int, 0x4706f050db73416559d65a366ea03617d0c3ebe11879645b4a3959557fa2e32int, 0, 1);
    assert(s.0 == 41279);
}

/// The first 32 bits of the exponent of the same power.
proof fn lemma_power_of_253_bits_1_part_2()
    ensures
        pow_mod(2, 0xa13f5e3anat, 0x1000000000000000000000000000000014def9dea2f79cd65812631a5cf5d3edint) == 0x32dddcbcea18c70f9ce86627a2654166eef0356b9c0f2ee406d136bad98de76int,
{
    lemma_power_of_253_bits_1_part_1();
    let s = (41279nat, 0x212c404871948938e03fd7f80a1dd31151c9112352c79c219f22f1af140abecint);
    let s = lemma_step_of_253_bits(2, s, 0x212c404871948938e03fd7f80a1dd31151c9112352c79c219f22f1af140abecint, 0x44c7038d653a3ba2feba311690e3e617efdaa35c8f98095f21962488bb631fint, 0, 0);
    let s = lemma_step_of_253_bits(2, s, 0x27447e933d93ba08e1f3f51e3404a7a4d1b5b3d87fb920538510a58b89cd0ddint, 0x605f0e45990fe76bb287ed0786cf312de5015809143acbdcb0f770e492df1aint, 0, 1);
    let s = lemma_step_of_253_bits(2, s, 0x7f6ea649a8a2c3d9dae1d05f2588773a21ed46c4aef87c6ba4091e6c405cb6eint, 0x3f6ef8d068a20617284c69738cdce6a39e6b6da545214ce9fedac5c7ccd9c3cint, 0, 0);
    let s = lemma_step_of_253_bits(2, s, 0xfc10bad906aad05ddfac7bd4142cfaeb56af42717c26d40fdf9d1c8ec688bb8int, 0xf830f0f328a1353f60a1a542a557033ff3c8b9c333f57a1b89c88e8aeea0b22int, 1, 1);
    let s = lemma_step_of_253_bits(2, s, 0x93c76cb5589ce0b826af4036a171689b577933c0847dfe9dfde52745bc62b9fint, 0x554ea23273dd7133a4d6c7e064a08bd0b7082d8b17cdc2ed477f46780084e89int, 1, 1);
    let s = lemma_step_of_253_bits(2, s, 0xaa6aafb946e98172f60c437b1b94496a3e6356fc4f4184e7d85470d2ebe85ebint, 0x7171ddd8103bae56b218d81b87d746c28024b395169bf7d0a7402adb3676d57int, 1, 1);
    let s = lemma_step_of_253_bits(2, s, 0x5b9d09daa54ff9bf7ca922fd9c00577874f636b63c17c55ac2d0ae42c8a5a6fint, 0x20c905568816ba040e0428265b060abb43a458f1f90d9aa51e64d8904897812int, 1, 1);
    let s = lemma_step_of_253_bits(2, s, 0xd3326110c3b9ed2cf83a06f5692cf1be8bc3fda23e250633b6999cb6d5ca701int, 0xae3c15ebb1fea704b95f1e396ca77a687ccecb47ead0ad20b56b093cc3ad5b3int, 0, 0);
    let s = lemma_step_of_253_bits(2, s, 0x29989be0889c77df9358db0e80d1c7b869da95b3f7876afb94344e3e6c0ee4aint, 0x6c23ce7654e0290ca92925e186aafbeb2dbbb02fd94ab82c59093fa31c69c9int, 0, 0);
    let s = lemma_step_of_253_bits(2, s, 0x83ced19e9a108d831bc0747768636293fcc7a6a33e76384f7f957d55ef2134fint, 0x43dd519e58913d497d9e4d67e0bd269286c59217103f317db910878ccf1a025int, 0, 0);
    let s = lemma_step_of_253_bits(2, s, 0x72705d2133b780a540003362d73dc21a7f5bab01597219e1c428a3e14b81120int, 0x3328444330fdd30570d209d6a7f9a636278ca0e963626f5f3d1c47884c2328aint, 0, 1);
    let s = lemma_step_of_253_bits(2, s, 0xcff02c64ec79d0281f11dbdbffd7ee1c8593e317547a31f934902fd6345787cint, 0xa8e6491e7b5b3c1aa6a25ed0d63dd0c808075092cd098c28250e7df0a66b57fint, 0, 1);
    let s = lemma_step_of_253_bits(2, s, 0x326c32069878580257007fae1d8b7943e7bd19738e3e15df94df54ee8a790faint, 0x9ee7144d2e63ba5aec9c5796c1d2cacf07182b4052f62b4e8ae9deee3a7aeaint, 1, 1);
    let s = lemma_step_of_253_bits(2, s, 0x4b0330a6fa5ca3bc77859e134df65177e6d069edd10643f54492333e0cd4317int, 0x15fade8c03db30e8a6d72e505252d182c4df9f3ef51dbe30dc05560ac1dc6e7int, 0, 0);
    let s = lemma_step_of_253_bits(2, s, 0x11ab7f8415162fb3a0af6886d095793f2a9d5bb0e85b528baaa325a82d68336int, 0x13839d324c56f0b594206a2fe87e81c5cd409e83388f2e9ad3a2a7c04aa76aint, 0, 1);
    let s = lemma_step_of_253_bits(2, s, 0x284dc2fe78b178c75f67d9179fc62dafe213b2106a205fae8826f9f37f9e884int, 0x658648e6752bc61a9e08ccdd75d725effab188fcacc52a2a17781e5bfabcc2int, 0, 0);
    assert(s.0 == 0xa13f5e3anat);
}

/// The first 48 bits of the exponent of the same power.
proof fn lemma_power_of_253_bits_1_part_3()
    ensures
        pow_mod(2, 0xa13f5e3af8e7nat, 0x1000000000000000000000000000000014def9dea2f79cd65812631a5cf5d3edint) == 0x4d35bb753ce5fbd18ccc2d94866ac9a7cdda9d0707e5cb854254bf73346143dint,
{
    lemma_power_of_253_bits_1_part_2();
    let s = (0xa13f5e3anat, 0x32dddcbcea18c70f9ce86627a2654166eef0356b9c0f2ee406d136bad98de76int);
    let s = lemma_step_of_253_bits(2, s, 0x32dddcbcea18c70f9ce86627a2654166eef0356b9c0f2ee406d136bad98de76int, 0xa1b6a80a7f31a4d0ad834143957a6ec4f896f3cbbb9a86ecb78ecc463c9b69int, 1, 1);
    let s = lemma_step_of_253_bits(2, s, 0xe81c8bdea81d930c22664bddd78a7e8bee1d6d0540cce2adbf0990b928b1271int, 0xd273c0b275d5ed364861fab4015da74f89cb2098d12f7c63267cfceec3d5706int, 0, 1);
    let s = lemma_step_of_253_bits(2, s, 0x9fb19bcac2ec75b460b60d08d47f6466957aea35efbe2cb6844b4dc6f9126a6int, 0x639e1abeab526dd35bad4a82ae85f509550477e68cee26088d57c024e9ed938int, 0, 1);
    let s = lemma_step_of_253_bits(2, s, 0x35138bee705b2a1fd0f844f863246426297124467985c54c6809cd61262e598int, 0xb01196ecc67391187d096d20ed803c09590d5eac095083d8de6bff4bd48c14int, 1, 1);
    let s = lemma_step_of_253_bits(2, s, 0x815ccd1b45e7ad43bfcbead9b646699420117dd4974067dff8d4adc4ae06b8bint, 0x415ea8598c626bffad711fc7ec3ee29ece76de7b1837e981715003bbe2f8f36int, 0, 1);
    let s = lemma_step_of_253_bits(2, s, 0xab93290de356f5d731c08626b2abe1af4e8e06bda15156e617d7092015cccf6int, 0x72fded70ba3eb5de8d1191a2368f4b6fdeb4a01343d7067e833c6b482c496fcint, 0, 0);
    let s = lemma_step_of_253_bits(2, s, 0xdaa331e5c84c44fd0cb27b2b40f3f62d2111468f53528fe1ae690f1b94b8118int, 0xbaba5903ed78bb8bfb71b327fad8f37ca0ed761ba72c37b32f671f4bd4bf498int, 0, 0);
    let s = lemma_step_of_253_bits(2, s, 0x78222d417ed00f5378f9d686b4571b96deb35c2a8ff34ced14ff96905c67988int, 0x38600efd7448d4f91d72f4959cc9455cd5fb81222a642e61bc4d60c665e9685int, 0, 0);
    let s = lemma_step_of_253_bits(2, s, 0x222857545a1bf9708a4a4e1faa8d2a70eb094fe35c2eb7d5fd28b34f327e01fint, 0x48ebd8dd016080a1d84d243c7151f2fb18df83d607dab78f3dd0e9a21eae22int, 0, 1);
    let s = lemma_step_of_253_bits(2, s, 0xc9536bbe874d0925c9e8c3fd65a1023db1e146a1fe7f1e1f28ce7f35262108eint, 0x9e541a603b5b8738c911f267a5421d847b9b29cb2afe2af1998aa8d1484e4a4int, 0, 1);
    let s = lemma_step_of_253_bits(2, s, 0xb320e8a774f45463a94c4673679f7d41dd1d37eb6aac26f5a3ee670bab66de0int, 0x7d5709952adadc9d1cd410236c316e905e617db62b0900cf5d3dacdca621c10int, 1, 1);
    let s = lemma_step_of_253_bits(2, s, 0x776c3b602626c490691221fde46683124be49f53ad00f037735c45dcbd0de73int, 0x37b5ccf58a5db1269ce507ddb2d28fdf7960d2e8a87d91bff5049a2f49313fbint, 0, 0);
    let s = lemma_step_of_253_bits(2, s, 0xf6adc8f9aa298daea57370e99c28675cb113f38510d9a1981622e2a553474aint, 0xedb27439123ee5d28757323472f18a08761a7bfaa9b02eb40d5c437550fd4int, 0, 0);
    let s = lemma_step_of_253_bits(2, s, 0x3972484110b0017b37b87f1d298dfcc2512686bab79eb2dbce93dc20626be20int, 0xce4173167c5e756abda5207b6111083025e6253cdd653a3fbea99b2309614eint, 0, 1);
    let s = lemma_step_of_253_bits(2, s, 0xf6ce7bc4cdc736993e6e77d931912f969b04337bf6366ff9a94d3d058564994int, 0xedf17c69a80cbe938f884d3b69020514b2d9796741000179abaf4a8d2f0691eint, 1, 1);
    let s = lemma_step_of_253_bits(2, s, 0xda8f441e2b443cc229f9e5483e9e42ce6c874237bd467a93b95271e8a5f91a7int, 0xba9850308d849840fbfde21559677380dd27f30ef85726338350e1736d81eccint, 1, 1);
    assert(s.0 == 0xa13f5e3af8e7nat);
}

/// The first 64 bits of the exponent of the same power.
proof fn lemma_power_of_253_bits_1_part_4()
    ensures
        pow_mod(2, 0xa13f5e3af8e798eenat, 0x1000000000000000000000000000000014def9dea2f79cd65812631a5cf5d3edint) == 0xede65f1db4371683da10bd66d0dc4a94c1fda4172aef346e766e95348c62ec3int,
{
    lemma_power_of_253_bits_1_part_3();
    let s = (0xa13f5e3af8e7nat, 0x4d35bb753ce5fbd18ccc2d94866ac9a7cdda9d0707e5cb854254bf73346143dint);
    let s = lemma_step_of_253_bits(2, s, 0x4d35bb753ce5fbd18ccc2d94866ac9a7cdda9d0707e5cb854254bf73346143dint, 0x17495e0bae720d5f0a100dd9ec2ebbeff2162848f05e12f17a546c28e0350b8int, 0, 1);
    let s = lemma_step_of_253_bits(2, s, 0x6611bdf39439dfea489b75cb8e6ff5b8563928778761f9f15e0f1d998886862int, 0x28b22498e1695ebe9f4b847b9bbc69c484d486ff909f9522359b54d6102c338int, 0, 0);
    let s = lemma_step_of_253_bits(2, s, 0xb6063860ff988b69531ca44ffd9f96cef8fab4357031d0aa40ecdb267a1e2acint, 0x816cd8509c6375f3b9b482f5fa4e55cd99ba6b0ce1f4a6d7505b8ed5365d468int, 0, 0);
    let s = lemma_step_of_253_bits(2, s, 0xa7c8609c140b7a87645c00d42e4ae0140403f0b56211baedb4d5728822cc748int, 0x6df70ae2ba7bb9fd23f184c65aa47df42b050a0c5a21e0c7fd3f98ba1913ed6int, 1, 1);
    let s = lemma_step_of_253_bits(2, s, 0x272da830a9d902e320d9f1b79d929317cdb77f178d91ecb4e64e8d770ad1857int, 0x5fef163635bbd592db7625512017aab4d15ce3979eeb8a96bde66135d22344int, 1, 1);
    let s = lemma_step_of_253_bits(2, s, 0xd35d9346c52078ec393d86ece06351d1af494ef80e05349f31ff7bf4577a34dint, 0xae8362faff191ae0f2696c447cdde4f28d3bc21545bf89600237d04858ade14int, 0, 0);
    let s = lemma_step_of_253_bits(2, s, 0xc52752d39245f982ddc07bce513cb51541943600c4f9b10eb8881d7ec0310a5int, 0x97d58b83f6627be4b5eed6b3d52b5e9665b958268c7d088b856e62a36a8aabfint, 0, 0);
    let s = lemma_step_of_253_bits(2, s, 0x2a53279f8297a3fef7d6c5c47ee575c100a167b15138e61d007e48ff1468a86int, 0x6ff64030e6a6d51af9af0c5d7a649f24dcb40655dd0d4054baba72f64dabb4int, 0, 0);
    let s = lemma_step_of_253_bits(2, s, 0xddf647f7aa644b7c2e373f647917b95f1ceb2031e660d3b51404a324a8b6c80int, 0xc07325300067f3335b461c711e99395e789e632f30da59e473dc1f445e3d669int, 0, 1);
    let s = lemma_step_of_253_bits(2, s, 0x81ffc40476dbb56b0031eee5c627b22b06040a213f9b5ead70e7c4b29b26b96int, 0x4203c31496c50c9d9d3581b080a4ebe947151a020e7f19c2869bdf7857600c1int, 0, 1);
    let s = lemma_step_of_253_bits(2, s, 0xaafd490f78836920468350174343f1d40db470cce2359d6399a857de077ec6eint, 0x72355fa2097c8f06f187f5ed5eb09bf2df0f67daf386b9f5e91ccc5ed6d9c4cint, 1, 1);
    let s = lemma_step_of_253_bits(2, s, 0xc80eab45fc2fb3103941419dc16fb1c150e58b6c4a5c760d0f6f829de377de3int, 0x9c56ec748848af0a92985e50e442fda754c40d1eee5c5818449646f5c76b2e3int, 0, 0);
    let s = lemma_step_of_253_bits(2, s, 0x972fc87067cd75e63f482c082860eadac1f65192ecb5ec421c8ed3d2ddc222int, 0x5949675fd0aa5212ef48468f3e8e20d16f90e2df2689f10e3b9943b280621int, 1, 1);
    let s = lemma_step_of_253_bits(2, s, 0x414700c436a5f2bb9a0040b1a231a3160459e92fb6821a74cb5807dc1818601int, 0x10a5221510972bb3a209aa3bd83c149b137217039d335fd35bdd077b7348d6bint, 1, 1);
    let s = lemma_step_of_253_bits(2, s, 0x4ff69c2f3a67561249b0d8692a8c4679eb01db369874dad2d413063de1e09f7int, 0x18fa21f5b0199d9d24cba6ae121bb4be358fbeb773d0d16afc624782a382c03int, 0, 1);
    let s = lemma_step_of_253_bits(2, s, 0x627465a5b4f35ef29fd6e991b6a3085b70485010001643ae306d5d84a422914int, 0x25dd52bf25127d4a98cc615b6fd123e0334cf71c27a8045d4f9f002d849e661int, 0, 0);
    assert(s.0 == 0xa13f5e3af8e798eenat);
}

/// The first 80 bits of the exponent of the same power.
proof fn lemma_power_of_253_bits_1_part_5()
    ensures
        pow_mod(2, 0xa13f5e3af8e798eed047nat, 0x1000000000000000000000000000000014def9dea2f79cd65812631a5cf5d3edint) == 0x2fb156a30ca48941b5692bfc671e95546374a25d338194f518aeed91a55cde4int,
{
    lemma_power_of_253_bits_1_part_4();
    let s = (0xa13f5e3af8e798eenat, 0xede65f1db4371683da10bd66d0dc4a94c1fda4172aef346e766e95348c62ec3int);
    let s = lemma_step_of_253_bits(2, s, 0xede65f1db4371683da10bd66d0dc4a94c1fda4172aef346e766e95348c62ec3int, 0xdd145b6c0c64e1dfccbd4e00a11e9128e2b0a84b8265127113f0e168c9faeefint, 1, 1);
    let s = lemma_step_of_253_bits(2, s, 0xa66d2d6ce135942014c3c400a45fc2f93d538a6f9680afc07cac1c187e99c9fint, 0x6c31c578ead8b9355fa70cdb254b985ae871fe61856f2e64bc80149a7cd39b4int, 1, 1);
    let s = lemma_step_of_253_bits(2, s, 0x61c317551be86527bdd6361f9e74601da1df6ae6bed44e033386b4727e6f24dint, 0x25556c5b0cef080185f2b228da44db3c03252f7101da049b7a6c25c0b847052int, 0, 0);
    let s = lemma_step_of_253_bits(2, s, 0xcafae15f16a4be7a9ce2dcaf72c63550f7a2fc9b58a9822e01969bbf508193fint, 0xa0f0e18703dc7f7cee2a10e4cde3656e404df78ebf2e97412bea67eb7aa7903int, 1, 1);
    let s = lemma_step_of_253_bits(2, s, 0x8a69e5802a314ec91bef7de507973439ff675d15d6599c81c079add1f07e587int, 0x4ad6573c3e5e5109e24dea9fd72f54f341f6403b37a99de4d096a5a53d84af5int, 0, 0);
    let s = lemma_step_of_253_bits(2, s, 0x7378916e55ec56d87eaf68b522656c844ce9b5cb9e57e0033cb635e5fae7960int, 0x34158b71cb41107b9b1b09f07ad2c65a0122bbb9e6d677bbd97c4f5a9d1640dint, 0, 0);
    let s = lemma_step_of_253_bits(2, s, 0xe92c2793057fa7976be0974cfa6c515fb645f0d15ada066f92a8f6d3f4a8cf7int, 0xd46167a740aa630f7434bf9614812f1e4cd039c8db4b568236321863b14e352int, 0, 0);
    let s = lemma_step_of_253_bits(2, s, 0x1a4cff3d4dcf275200ec38f583b282e01def447a1b231b4f3c43e736f3e0d67int, 0x2b3bb00feaf76acdd94e806abc864c5fa616b801cc9eaf1913c4134d394b33int, 0, 0);
    let s = lemma_step_of_253_bits(2, s, 0x7bb78861ccae5a8b2c8d25c0ec1f750a42f16f23255c3c056ae83a5cdc2f83aint, 0x3bc9e0a23f2a3b1d2fc427ee1c03118cb15a54f19185b6f156b3369ecb2ac68int, 0, 0);
    let s = lemma_step_of_253_bits(2, s, 0x66eb3c861e9d22475f2b58eaa1b1fe08ef79c5b7d328a295c68ce22478d18dcint, 0x29604c630cf0906b8719d03ff51db1d38168bb3afc1466be3312e00a4ae625bint, 0, 1);
    let s = lemma_step_of_253_bits(2, s, 0x7e60244d8e4fc0c8b183ac7e519662154328c3872bf183001b1525ece51dba2int, 0x3e62c7d79767251b7e91bdecbabfce8180c61fb3c1905e61c5f96cde6186693int, 0, 0);
    let s = lemma_step_of_253_bits(2, s, 0x3d41ac5669e834026c1e29f9acae928d6ffeffb710b1718a9195b345121736dint, 0xea85cfa265eac2eea77c783c56647555dabef5df05f33bde918619a5083fbbint, 0, 0);
    let s = lemma_step_of_253_bits(2, s, 0x25a29c08a18d680fa085dea4c7098c492a17b58c69c712c09ea97242903fb4aint, 0x588686458b9dc3b0dca93660d3750663c394b1ce47caea624efc7cdc0c98adint, 0, 0);
    let s = lemma_step_of_253_bits(2, s, 0xf88392aef066bccf8721f338d8c69e1e93f62fd5ab25bc4cd200ee92b55423bint, 0xf13f2fd264dd18b82efc3f7b99c2f3f726da0b0e4da695f2907d74fe1a39140int, 0, 1);
    let s = lemma_step_of_253_bits(2, s, 0x2fb41778595f8cd4e6815568b009cd1213001341c49777d5df6bbc04dd682b2int, 0x8e39f4f34359cb74c1d7fd5be369767fe1bebebeb6888ef53710a33b9ee74dint, 0, 1);
    let s = lemma_step_of_253_bits(2, s, 0x6b9db0157a1695716fc6d68496ba6e13f5be7c7c792e6cd0a40ea2d49bf54f6int, 0x2d3d325367842a4c6ffd57f1d77c32b51d58905020a085f1bccd379d5e480faint, 0, 1);
    assert(s.0 == 0xa13f5e3af8e798eed047nat);
}

/// The first 96 bits of the exponent of the same power.
proof fn lemma_power_of_253_bits_1_part_6()
    ensures
        pow_mod(2, 0xa13f5e3af8e798eed0474691nat, 0x1000000000000000000000000000000014def9dea2f79cd65812631a5cf5d3edint) == 0x721e3d82e8c93a58783f3b336d41c234b385541adff2dd7e0fa00982335c2d0int,
{
    lemma_power_of_253_bits_1_part_5();
    let s = (0xa13f5e3af8e798eed047nat, 0x2fb156a30ca48941b5692bfc671e95546374a25d338194f518aeed91a55cde4int);
    let s = lemma_step_of_253_bits(2, s, 0x2fb156a30ca48941b5692bfc671e95546374a25d338194f518aeed91a55cde4int, 0x8e298a8c96dda4393d83fc37d291bbb82ff82b6f2a67856bb8c01776b2262bint, 0, 0);
    let s = lemma_step_of_253_bits(2, s, 0xe44b44704986bcf41b45f6acd7c59f2d431e56708581e92c5763afafb752c41int, 0xcb9628092f0eedd58701bd250473fff036925360a8682505e25a6ddbc318ed0int, 0, 1);
    let s = lemma_step_of_253_bits(2, s, 0xa2decbc426e91653c188fc5ebfac73e4f22c78a8271df0b41698830e2d383e2int, 0x679ebbca4ba32885fe721507bcc8ddc95e2c43a1adbc0d5ec3b03b47c0ab8f7int, 0, 0);
    let s = lemma_step_of_253_bits(2, s, 0x1c2b69cc4b5c2e491778cb0f37f800a42fe9c454070ad9120d4a9383db941d9int, 0x319868166d6b3f158c12d0e2b1928b96d1f94a7838dc2ea17cf588b8d40483int, 0, 0);
    let s = lemma_step_of_253_bits(2, s, 0xdb207854fc0de4b86e635a15eabb1b47ac568349b38b6893e75eda26532c3aaint, 0xbb9091ffb50e915022aff089bb2652d615b5db942d4316cc2b258d85775e27dint, 0, 0);
    let s = lemma_step_of_253_bits(2, s, 0x454a8ee3dd1c2bf3007d19144a0b337938f1ce29bcfa25109c386555883b82bint, 0x12c146bdc0ae98178670e45048dd75d7377a45e5c1e23f8a5bbd54f6e1854caint, 1, 1);
    let s = lemma_step_of_253_bits(2, s, 0x8b99eaa8d9b81ff710cd2eb299132bc4f4f92381c7fd1e6913051af5493e081int, 0x4c20815db15b4e2f96d42f93bc035952cbeb8ae22295707c0f4e0337e253dd4int, 1, 1);
    let s = lemma_step_of_253_bits(2, s, 0xe7116a18d5c918d871e9e3bcf125b75d2d0e4d5e17c0f04fda4c31078723b8dint, 0xd0906ea81515e2ff3b23624a7a98a5a8349bbc0533f0f8f4e63d1605c450f51int, 0, 0);
    let s = lemma_step_of_253_bits(2, s, 0xf2fd968c04d6bad23f77805a913072bae6ece63a89b41ab725547582b5a5aacint, 0xe6a46bd3a26febe3b1718327d4752091cadb8da28ecc6922a4088b82b4f0675int, 1, 1);
    let s = lemma_step_of_253_bits(2, s, 0x82986605bdb40a78df6c349dfce2867863ddb7f350604ec6bdfd20a0c3c2091int, 0x429f22572424b3bba06746c718e7f1a3f39b117282e3faca131d401ef903152int, 0, 0);
    let s = lemma_step_of_253_bits(2, s, 0x68a59efe03c6b4f63ce4bdde1a56bd8aa6d3058e40e57c0e9077335937e5337int, 0x2ac6fc54b940d9e21ca1a766983a1bd3c3d8ed1b397c76d9b55aa2013998e6aint, 0, 0);
    let s = lemma_step_of_253_bits(2, s, 0x87e93f02ef22fe029f4028a904954055642d6a640d07fc9fca9daec16347fafint, 0x4827d4f8db10a754f9af2b29b198e16ee92c9fe236a3be8225aeaad7e8379c5int, 1, 1);
    let s = lemma_step_of_253_bits(2, s, 0xf84f9097a5ea9106cbb16d69be9dd8bca7ae0588f217b71499c66a8635c2a93int, 0xf0da40e060b9d43fb6406c8a84234cdc028af7ef0f183c058646f641f82113bint, 0, 0);
    let s = lemma_step_of_253_bits(2, s, 0x2f267c6bb5c1f618ebe897ad2aab0538a68f57ed4e69b8089a852b941a7fbcaint, 0x8af2778b92fb3578d9d2711603085c7509d9fd7efd8e5c92ab4652104b905cint, 0, 0);
    let s = lemma_step_of_253_bits(2, s, 0xe17a9acf4358c2b110761609ff2a1e108907d9c82c3d1d6db2b531977354238int, 0xc698bed83f8c3ba99532ba2061f4e049280c6b07412372f57325e3c74c0d092int, 0, 0);
    let s = lemma_step_of_253_bits(2, s, 0x6507169e1b8cde52ddb2539e39fb2697fb63b4cd8e26b49aa0a0f11762d7f16int, 0x27de980b00623783c6868689215fad7975dc1519de39b151e1cdfbbce142eecint, 0, 1);
    assert(s.0 == 0xa13f5e3af8e798eed0474691nat);
}

/// The first 112 bits of the exponent of the same power.
proof fn lemma_power_of_253_bits_1_part_7()
    ensures
        pow_mod(2, 0xa13f5e3af8e798eed04746919548nat, 0x1000000000000000000000000000000014def9dea2f79cd65812631a5cf5d3edint) == 0x725e9ec64365975c66ac9f8426dfbc2c1e079866cfdb92024ec7cf1de5e969fint,
{
    lemma_power_of_253_bits_1_part_6();
    let s = (0xa13f5e3af8e798eed0474691nat, 0x721e3d82e8c93a58783f3b336d41c234b385541adff2dd7e0fa00982335c2d0int);
    let s = lemma_step_of_253_bits(2, s, 0x721e3d82e8c93a58783f3b336d41c234b385541adff2dd7e0fa00982335c2d0int, 0x32def25b10c96d019daf42a0f5f6725436c7a7b35450f2a74abbf793dcf4022int, 0, 1);
    let s = lemma_step_of_253_bits(2, s, 0x61efc949d6b8dc83265e80e046bb343abb4e47fcd13c79ea143310cf637070cint, 0x257797236adc0cc193c28d53df42728d1623a9a8dbcf01e8ad274dbc991e08bint, 0, 0);
    let s = lemma_step_of_253_bits(2, s, 0xcfad109edbfcf21fdb29c2cea6a8b7188da7fc3c564dc5f9894d376663336e1int, 0xa87955e05f8ca182ab055a6351698fe1fbafcdbd24bb9bf2058dd9f88867bb1int, 0, 0);
    let s = lemma_step_of_253_bits(2, s, 0x1887adb4ba8c206054e63011f9f9a7b3aef2ebc4dc26606704ad0bfc914be4int, 0x259b87a8d74c994764459bffb53ecfb88b4729ebb757334a4ef67b86f90fint, 1, 1);
    let s = lemma_step_of_253_bits(2, s, 0x2b15253452b56a59c9cbcb0f48a9a810cf49b89c89f5056de2d8f6ccb6b126dint, 0x7401c3eb3c6ae17c1af73266ad4365f5f87aa44a0cd71ac1bb9ea75158f95eint, 0, 0);
    let s = lemma_step_of_253_bits(2, s, 0x271f86fca1bac0e05e3dab2679049dba2c4fdc65ae8f4beefb03b632942c63int, 0x5fa9f02f1a3849d62d0a84e52a9c680a2761e67168e984c22f277cbbbf1eint, 0, 1);
    let s = lemma_step_of_253_bits(2, s, 0x7b747f40fe37cdd74fe5490691c5d87095ade16077c76ac7f052e303c3d0b06int, 0x3b89274c06718f1ae87c118549b31dae24fb4281101fab9c68a29e6fea22273int, 0, 0);
    let s = lemma_step_of_253_bits(2, s, 0x6da1db8430cb1b95bad4ae9d0cf4a1d57564ef336dda2e6a75cd90566c7d6adint, 0x2ef33b446a0dc4b40f6187c2d5265f66b311cc233fdfd671a8ef581a989ee39int, 1, 1);
    let s = lemma_step_of_253_bits(2, s, 0x805cc1dcd9b0c329026f43bc0d1d424efad883cd3fe53daec3e300bd2825bint, 0x405ce378c33bf8f8af196cc522f0206c3194895be1b0924d865291d7b9bint, 0, 0);
    let s = lemma_step_of_253_bits(2, s, 0x4b00e911c50e805323ce1547e1000dddb3e7865c578efce4a8938295295cdaint, 0x15f988913da7d920e02e7502407809570c11482a7aec5938e4c2d726323bdint, 0, 1);
    let s = lemma_step_of_253_bits(2, s, 0xe4da13f3c3ec45ac3110fd25c175c915bc20a7cafb5af2de6c011cdcec71956int, 0xcc952d5031b4a1b3fb7f743cebec1a6c49be2ad6772b8689410397425bb7b06int, 0, 0);
    let s = lemma_step_of_253_bits(2, s, 0xb572aba64c5a77b0cbad0b93da696f02255a6fbdfc5976c941fce7b74811256int, 0x809b5a167b2b83da917758e80d9df266d864f86af5e8951c41909e336e196c2int, 0, 0);
    let s = lemma_step_of_253_bits(2, s, 0xc10ae3e2007ae99f8ef952b4a96ad156c030b81f8c8960f5d07e4f8ae37bd4aint, 0x91916c115d3bf23ba960ca78f7bad2c290d4227eb1c7317d4d3165e55543abfint, 0, 1);
    let s = lemma_step_of_253_bits(2, s, 0x95e4657ed50ebc6dc6872781566b8278165f7a135d5ca82228a501663231322int, 0x57c3a9ea962bfc8b792495d8d24210105b45d29aa5883fe526c9cd7491274bbint, 0, 0);
    let s = lemma_step_of_253_bits(2, s, 0x6a62847b2904372d82297c2dece248e8a8cf588443d5bc96cc04e4ec176de65int, 0x2c35bb9fb0d22278b828504d50436322b0531a6a0741278a2c428dba1da93ceint, 0, 0);
    let s = lemma_step_of_253_bits(2, s, 0x7e0bc1d1059fc9fd46a6495ef4aca855a37bf4a7c402024242e8a1c94fbb423int, 0x3e0f9353fc3c9bb5cae7183849e7eb74fbf7df713f6485563d9f16844f1cd92int, 0, 0);
    assert(s.0 == 0xa13f5e3af8e798eed04746919548nat);
}

/// The power 0x509faf1d7c73cc776823a348caa44 of 2 modulo 0x1000000000000000000000000000000014def9dea2f79cd65812631a5cf5d3ed.
proof fn lemma_power_of_253_bits_1()
    ensures
        pow_mod(2, 0x509faf1d7c73cc776823a348caa44nat, 0x1000000000000000000000000000000014def9dea2f79cd65812631a5cf5d3edint) == 0x6941747825185c74c21c65c0572a638494435ae0b3ba38e09b97aa8d26faec1int,
{
    lemma_power_of_253_bits_1_part_7();
    let s = (0xa13f5e3af8e798eed04746919548nat, 0x725e9ec64365975c66ac9f8426dfbc2c1e079866cfdb92024ec7cf1de5e969fint);
    let s = lemma_step_of_253_bits(2, s, 0x725e9ec64365975c66ac9f8426dfbc2c1e079866cfdb92024ec7cf1de5e969fint, 0x3318686190194e272d07ac0de5bf327c2aea20efbe72495e4ab942ee6bb4a96int, 0, 1);
    let s = lemma_step_of_253_bits(2, s, 0xcf2326741c68cdd072b5c6e3b5db2bc6f01f526073951c123e8558ebee0fc6int, 0xa799dd034f77ee983fbcd43c06107bb7d9d503fb5c50e11bfe685f2e92b79int, 0, 0);
    let s = lemma_step_of_253_bits(2, s, 0x8469e8c4743fbf8527aec691d21f17f68f2b7a664c9b5b10c3f372eb1a1d31fint, 0x447d63db5cadc3422daf3b674e9eaccc9ddae2a0bddf9b8c46709293d644b00int, 0, 0);
    assert(s.0 == 0x509faf1d7c73cc776823a348caa44nat);
}

/// The first 16 bits of the exponent of the same power.
proof fn lemma_power_of_253_bits_2_part_1()
    ensures
        pow_mod(0x6941747825185c74c21c65c0572a638494435ae0b3ba38e09b97aa8d26faec1int, 52023, 0x1000000000000000000000000000000014def9dea2f79cd65812631a5cf5d3edint) == 0x5d0015a0525ec7eabd9bec258104fef28ebeb0677bda8a3d2f701f66fb2cc7int,
{
    let s = lemma_square_start(0x6941747825185c74c21c65c0572a638494435ae0b3ba38e09b97aa8d26faec1int, 0x1000000000000000000000000000000014def9dea2f79cd65812631a5cf5d3edint);
    let s = lemma_step_of_253_bits(0x6941747825185c74c21c65c0572a638494435ae0b3ba38e09b97aa8d26faec1int, s, 1, 0, 0, 1);
    let s = lemma_step_of_253_bits(0x6941747825185c74c21c65c0572a638494435ae0b3ba38e09b97aa8d26faec1int, s, 0x6941747825185c74c21c65c0572a638494435ae0b3ba38e09b97aa8d26faec1int, 0x2b46c246e86dec379a86684e616777fac7bc8bfb4af0a0aec8ff3cb03204d27int, 0x685ff6c0b770a042cfeed904ce9b787cada37ae18cf9d2c6ad3d65e33eea293int, 1);
    let s = lemma_step_of_253_bits(0x6941747825185c74c21c65c0572a638494435ae0b3ba38e09b97aa8d26faec1int, s, 0x81a732e5e696fce4dcf08a863dd06b9e0963962ec8aa594458f77b2a81a90cfint, 0x41a9ee7f2475a065ede02ca9d4eb7910c129aad7bc4ce3d1a31b97e003514b9int, 0, 0);
    let s = lemma_step_of_253_bits(0x6941747825185c74c21c65c0572a638494435ae0b3ba38e09b97aa8d26faec1int, s, 0x648dbd78a50413202a236c9a126a9ed29db336aaf72dc42a03832d229afdd1cint, 0x277f0a80840c51f154c7c4f5e06daa8fd0a011a78de030615ede62ca3177625int, 0, 0);
    let s = lemma_step_of_253_bits(0x6941747825185c74c21c65c0572a638494435ae0b3ba38e09b97aa8d26faec1int, s, 0xb60e77845c6e528bca372908c9616d85209022c306131ae7af9cb2852bf7bcfint, 0x817892c17db34bcdceb31d68506c516efe7a9010077ac323975c27385931ca4int, 0x338097b31297210c025f63795d75ba5aaacbbaba19ebc1160a2bc0570ed39d7int, 1);
    let s = lemma_step_of_253_bits(0x6941747825185c74c21c65c0572a638494435ae0b3ba38e09b97aa8d26faec1int, s, 0xd1fbf031931f111a0553c76f8c274c1abbe33e18a5c897bdbb543e461ce2042int, 0xac3d5621d4cc364bec3b45495f28777df5dc845f86bf2160698bd31291efebfint, 0, 0);
    let s = lemma_step_of_253_bits(0x6941747825185c74c21c65c0572a638494435ae0b3ba38e09b97aa8d26faec1int, s, 0xfdd6ff16c32ad2f785160cb502d0cd7a6ea0f4c5ab65bb9557bf5f5e3d44d31int, 0xfbb2a8c275ff4b6b634fb836cf1e7e34e489c4547d72fa7629c61186a651b4bint, 0x4537cb7ef6b7526ac012d49b78101d905f9dab723fadec7518268e443326319int, 1);
    let s = lemma_step_of_253_bits(0x6941747825185c74c21c65c0572a638494435ae0b3ba38e09b97aa8d26faec1int, s, 0x68da1e97fa41dc4292749b1c7e7bb62e1210c45e39a6fa722e0d44847c9064dint, 0x2af1f2b399d3b401d656509f0a92332c5fc73461250e0df75da7a85a0187aedint, 0xfba7b8c43d12a081ef37b7846eb9bb0d050556dd6bdba3cf543ec0deb6a6a1int, 1);
    let s = lemma_step_of_253_bits(0x6941747825185c74c21c65c0572a638494435ae0b3ba38e09b97aa8d26faec1int, s, 0xf32fe381648aa44706a292fa5bdd83bd3bd85237bee5d548ecf367db83328b3int, 0xe703f2dcf890d87b8339337f4601a0f8e6fb10b4c4a8be3a306a310aab92d64int, 0, 0);
    let s = lemma_step_of_253_bits(0x6941747825185c74c21c65c0572a638494435ae0b3ba38e09b97aa8d26faec1int, s, 0xf6b55bf77948b174c610ca851bbd715c6d568f8a9f099ce6ae6ecb37f3dfb95int, 0xedc10d3aca13154c4dad998105d8b65dfe75095849e56e70fcd7bdb37311e58int, 0, 0);
    let s = lemma_step_of_253_bits(0x6941747825185c74c21c65c0572a638494435ae0b3ba38e09b97aa8d26faec1int, s, 0xdb9566e6ba572f515df9ff05ab916cb916e827b7af96bd0a0a72ab4738be541int, 0xbc58f53fb4c2c0e32181cae2132f6b126c69b3a0049028bda3c5350d469b85cint, 0x5fcbd17d1806f0ade0e74cc8a87af61671350cfdcc54be671c665a28825e3cint, 1);
    let s = lemma_step_of_253_bits(0x6941747825185c74c21c65c0572a638494435ae0b3ba38e09b97aa8d26faec1int, s, 0xb40618c8be25adb31d5ad35ffdcb8df6e653c5ade8547070a04908701b0ed89int, 0x7e9892ff77342718be5a0a4156274bc2578c4e131c7dce665ee344ce72d85eeint, 0xf54c2536585f03ddf1604f8b8374da7f68739b5858dfeb99a7dcfa7b1bad53int, 1);
    let s = lemma_step_of_253_bits(0x6941747825185c74c21c65c0572a638494435ae0b3ba38e09b97aa8d26faec1int, s, 0x83ea22ee270e69922bb8f51c90027c1c0cb2ccc7b45763bbde06025dba18364int, 0x43f975e39c1c465110c3bd5c01758528cfb27a92d4b7e4c595403a23425abc5int, 0, 0);
    let s = lemma_step_of_253_bits(0x6941747825185c74c21c65c0572a638494435ae0b3ba38e09b97aa8d26faec1int, s, 0xfc7ac81424bc4964250031c1331666ea206eaf35e7a1f0992ce96ac1c3b1aafint, 0xf901f4caf7e52eef11a916b9e9071c87327f8e272b0d468430cff14d2abf428int, 0x2c3162eaa0745990514958a33d1e3224d00b87f9409146f13e1ccfd2a66c487int, 1);
    let s = lemma_step_of_253_bits(0x6941747825185c74c21c65c0572a638494435ae0b3ba38e09b97aa8d26faec1int, s, 0x53f2001b9198551eb73bc50494421e63e1c8c9699850df2441269d9f486bd5eint, 0x1b86d0d614880e2ae1d30e4e17bf7133a6aa07e36f89a91f010a432d9f958fcint, 0xa5fb00128ad8ead7feb17e7b58c15a440f6a6201d30f16e95e5a165f32e757int, 1);
    let s = lemma_step_of_253_bits(0x6941747825185c74c21c65c0572a638494435ae0b3ba38e09b97aa8d26faec1int, s, 0xe2989e98e2787106604932f0feac8f4f54da482e898d9938ccd7e3a7b9ff2adint, 0xc891d302a7aaa96fdc768b841b873637326a68544358ad1fe3c8bd2c200681cint, 0x2526eb4269e4c291a3b279c5c8f73d3e21b86372c0c0b91582f5f83a2b22f0eint, 1);
    assert(s.0 == 52023);
}

/// The first 32 bits of the exponent of the same power.
proof fn lemma_power_of_253_bits_2_part_2()
    ensures
        pow_mod(0x6941747825185c74c21c65c0572a638494435ae0b3ba38e09b97aa8d26faec1int, 0xcb372bebnat, 0x1000000000000000000000000000000014def9dea2f79cd65812631a5cf5d3edint) == 0x880bb85fd290c69f14177c734a0a87647bfdcff1de22e9cddd2c3d9fee4750fint,
{
    lemma_power_of_253_bits_2_part_1();
    let s = (52023nat, 0x5d0015a0525ec7eabd9bec258104fef28ebeb0677bda8a3d2f701f66fb2cc7int);
    let s = lemma_step_of_253_bits(0x6941747825185c74c21c65c0572a638494435ae0b3ba38e09b97aa8d26faec1int, s, 0x5d0015a0525ec7eabd9bec258104fef28ebeb0677bda8a3d2f701f66fb2cc7int, 0x21c90fb67dac8f2b2b8a8d45a55ce31930866d97129527242bc90282cf8adint, 0, 0);
    let s = lemma_step_of_253_bits(0x6941747825185c74c21c65c0572a638494435ae0b3ba38e09b97aa8d26faec1int, s, 0x670376b5f51b78513b9d7cd787cd7f0e9190f10ec852d7fae01eec4fde53388int, 0x2973c9926a8c18c00650bd37ede80add4319bcf96afc1d743b819e1157c740fint, 0, 0);
    let s = lemma_step_of_253_bits(0x6941747825185c74c21c65c0572a638494435ae0b3ba38e09b97aa8d26faec1int, s, 0x21f5b6b8b294bb88e208064bade1919a98b5a8d883c65807e2c42e31d74a95dint, 0x48144f2ddfb4c34eb4e16579e2566c2654a098dc73b7c9b6f8eda7622e07f1int, 0x5932a460675bcac93c29f88c0672bc3f063498affb1db45f836ff7c1158de37int, 1);
    let s = lemma_step_of_253_bits(0x6941747825185c74c21c65c0572a638494435ae0b3ba38e09b97aa8d26faec1int, s, 0x6924b6079851d083f9049a15f13b0126b4d6b9cded35438a343a30377b5c9c1int, 0x2b2f2295ee84c0dceafa1ebdd475a450c96f6569fa1778b5627687100d6644cint, 0, 0);
    let s = lemma_step_of_253_bits(0x6941747825185c74c21c65c0572a638494435ae0b3ba38e09b97aa8d26faec1int, s, 0x36ce84b6ec3463ee8e9e8d3377d0f681cb537bc658725ddec43c1ee90092525int, 0xbbbc69706d764c4339527fbd74f7a65a7fb2489e0831251875e669f4eb0464int, 0x3e714bcbdb855fe80d6dcecb232be7a31f93683c9e8575180d46cea3b2e9c03int, 1);
    let s = lemma_step_of_253_bits(0x6941747825185c74c21c65c0572a638494435ae0b3ba38e09b97aa8d26faec1int, s, 0xa10d5fd997ec80a98fe37228321f7b9b521fa7ed9c4929deebdc72ab4054cbeint, 0x6551d34291141f8ec8cd8536667baa3c609713ae4d9e540b76a040a9c83cf44int, 0, 0);
    let s = lemma_step_of_253_bits(0x6941747825185c74c21c65c0572a638494435ae0b3ba38e09b97aa8d26faec1int, s, 0x118d64da060cbd612995c426aece4c80f73502b7333199b7fc0801f07d6f10int, 0x134157d34b36997c658be81e54bc7602a25aa0266d978ed3ddbb7a2c1968int, 0x3f91673b5e64f72b1404e617124fc51aa21c781f2638590b5ac8b343255d914int, 1);
    let s = lemma_step_of_253_bits(0x6941747825185c74c21c65c0572a638494435ae0b3ba38e09b97aa8d26faec1int, s, 0x53ce6fd84a1e08960fa3a1c48593c1891077da77d41b99136b9800210030a34int, 0x1b6f82fe710408ea533b4584d5ce2d91d6c11b6b12367a908d142551e684125int, 0x1e19a4da460cdc53d1d48328ce9e7e06bf07788f03fe2171fe7535f0595a847int, 1);
    let s = lemma_step_of_253_bits(0x6941747825185c74c21c65c0572a638494435ae0b3ba38e09b97aa8d26faec1int, s, 0x6c3c437ec06c24e310e0b578f6e7a88ee0754744de67877c9ded20076e6ead4int, 0x2dc2e722a791094b771311d11b6f1b1456040b965ba55bfb4b2a687911e11cfint, 0x3e729ab629841c6d758adbb0370203a39baf278ede058a4650ad614882cde89int, 1);
    let s = lemma_step_of_253_bits(0x6941747825185c74c21c65c0572a638494435ae0b3ba38e09b97aa8d26faec1int, s, 0xf155d90449fb629febe29a5ead48c210085e0194bdbe4cc25106646e80dbdd8int, 0xe382bf63e81cb61f2ac2d3200e0a0351b8671f592cebf02cf34d72f27fbdaf6int, 0x5ab48abb30d01fbec62ad41ffba5dc8d051b07b4fccec12b29dfce167ac7dcfint, 1);
    let s = lemma_step_of_253_bits(0x6941747825185c74c21c65c0572a638494435ae0b3ba38e09b97aa8d26faec1int, s, 0x61a9ca651e3cffea94741129a0e64f7602a4a2a08d2c78fb544f2013048565fint, 0x25421bfd7a6fe222cbca722474262a3154076f7b5f4ae63b0a64c02750d6324int, 0x1a461ff34447fea6a7393763044851b4aa3e2c0dd102ee7917810bf08f6e6acint, 1);
    let s = lemma_step_of_253_bits(0x6941747825185c74c21c65c0572a638494435ae0b3ba38e09b97aa8d26faec1int, s, 0x52bccc5d5fe22503c3866dc583de9ba50c593a624dbcdfaa0b272e63ed77971int, 0x1abd7e289db6a6bbffffcf5c3c4febbc3a11b2ac5dfb0dbb6a57720e495b0f8int, 0, 0);
    let s = lemma_step_of_253_bits(0x6941747825185c74c21c65c0572a638494435ae0b3ba38e09b97aa8d26faec1int, s, 0x72fcee756e0eb6cc28127a77b79c5f71e9fb298333346acead4195574a0c649int, 0x33a63e46eb545646da46b082ab1e7ac0206d742907e300169d3cd25e876710cint, 0x2479973bbb626a17690e916a89726e62554ef5c0e60080cb6fc6bb403726c73int, 1);
    let s = lemma_step_of_253_bits(0x6941747825185c74c21c65c0572a638494435ae0b3ba38e09b97aa8d26faec1int, s, 0x227fa19b316129fe09aa5dd31fa45db569e89af3c0919d57f7b2ccd170ad2feint, 0x4a6268ef71d5fc0309f90b1434c1fa3df902e30af7c719b64538979edc22aeint, 0, 0);
    let s = lemma_step_of_253_bits(0x6941747825185c74c21c65c0572a638494435ae0b3ba38e09b97aa8d26faec1int, s, 0xffd318003b435e7294a95204486895688215a4fdf0aa9567016dc0d92d62eeeint, 0xffa637e108b1f252a477fba4de08b882c8f1299f41297ff0133204a65011506int, 0x43edae9626d22e05686b8f6167ed2e95e49f1535d945677af81f72270bfad38int, 1);
    let s = lemma_step_of_253_bits(0x6941747825185c74c21c65c0572a638494435ae0b3ba38e09b97aa8d26faec1int, s, 0x2f651edd9311fba375296ad183ccf2f5d0679956c576acd679cb80f164ab45eint, 0x8c64946ba8f54d60c8417d651dfd9d9f2dc134d1dd3baa93309f86f9627c70int, 0x21c7196aadb88e68ca7d62b04f7b524c41d77d6409b69d31d1e3a1a7274c539int, 1);
    assert(s.0 == 0xcb372bebnat);
}

/// The first 48 bits of the exponent of the same power.
proof fn lemma_power_of_253_bits_2_part_3()
    ensures
        pow_mod(0x6941747825185c74c21c65c0572a638494435ae0b3ba38e09b97aa8d26faec1int, 0xcb372beb854bnat, 0x1000000000000000000000000000000014def9dea2f79cd65812631a5cf5d3edint) == 0xef013c0fb1fc058872642045950723478b9ae9038ee0b0801f156f5b0a9f187int,
{
    lemma_power_of_253_bits_2_part_2();
    let s = (0xcb372bebnat, 0x880bb85fd290c69f14177c734a0a87647bfdcff1de22e9cddd2c3d9fee4750fint);
    let s = lemma_step_of_253_bits(0x6941747825185c74c21c65c0572a638494435ae0b3ba38e09b97aa8d26faec1int, s, 0x880bb85fd290c69f14177c734a0a87647bfdcff1de22e9cddd2c3d9fee4750fint, 0x484c746f2cbfce08292e9ceee6ef3d4990f15174702b3e9b44250e89ad13d95int, 0x38b46943821938aef05b1aa8993a99c5253de3c6cd5b40c0e224a09309897f7int, 1);
    let s = lemma_step_of_253_bits(0x6941747825185c74c21c65c0572a638494435ae0b3ba38e09b97aa8d26faec1int, s, 0xa9090f416144ce0cd503fc851c948ba19c0b275b71ea51413afe5f4f95c7445int, 0x6f9cf67665ee68fc083197cdfaccceb0a5fd2f985f2db607e0a3b8c10d4f1f4int, 0, 0);
    let s = lemma_step_of_253_bits(0x6941747825185c74c21c65c0572a638494435ae0b3ba38e09b97aa8d26faec1int, s, 0xc183c2a7aebf5e50fed99b5798db590c5aa75c706237abb837bed07a9527fb5int, 0x9247ef51a11bf6c0271172215986495fd9f3c313496318ea372057a3d59efe4int, 0, 0);
    let s = lemma_step_of_253_bits(0x6941747825185c74c21c65c0572a638494435ae0b3ba38e09b97aa8d26faec1int, s, 0x87ca5814732ee531aba02650aaec282edcd5f2fc7fc0ac4b0d8bfec977913e5int, 0x480708d4b00f4c8e861ee168422db7d772e802976a5e0956972ed3dab351310int, 0, 0);
    let s = lemma_step_of_253_bits(0x6941747825185c74c21c65c0572a638494435ae0b3ba38e09b97aa8d26faec1int, s, 0x3ba0fbdb737bd931801f7f4afb5d912aff191aa239f25656f9df07ab8dcf509int, 0xde39952f153817ff4d3d9078e0a887c23d60b4f77ed90fc983a1548c6c631bint, 0, 0);
    let s = lemma_step_of_253_bits(0x6941747825185c74c21c65c0572a638494435ae0b3ba38e09b97aa8d26faec1int, s, 0x321f7b1f000b1c1c546ba0acbb5bb7ab952e48cd83501401c20e76d1f243952int, 0x9d04ff728bd27778f8a854baf0190aee51c425986673e68e4ef5b259c95043int, 0x3e1d6de5cadf7a620762e67bee5bab2672278a09fce045019fa59b127a1951dint, 1);
    let s = lemma_step_of_253_bits(0x6941747825185c74c21c65c0572a638494435ae0b3ba38e09b97aa8d26faec1int, s, 0x5091717fcfeab02f311ee3ea022a65718e2b1cebf2962a1a250ea5135510824int, 0x195b3991a70e4b56376acbb3534258cff97c4ed5f8aceb019b68a0f50db8641int, 0, 0);
    let s = lemma_step_of_253_bits(0x6941747825185c74c21c65c0572a638494435ae0b3ba38e09b97aa8d26faec1int, s, 0xfbd2908215260317037f97576542c250655092f55eb9c2dca7b22096bf267e3int, 0xf7b694907c75d6507272398f753c961904ee2767c6570e13099cfeab192b67cint, 0x67ac4c5f8ec9e7260fb8303a009203cbdab08e4b9a16e9f269cc5287d8d2e02int, 1);
    let s = lemma_step_of_253_bits(0x6941747825185c74c21c65c0572a638494435ae0b3ba38e09b97aa8d26faec1int, s, 0xd900e9cd2e08a4e399f0817a2bae6aeb754b5e5530d6f24fe810834e66ae463int, 0xb7f28c5ead91c9c8593f39c9f8ade796332fddb48b18e73176a301de1293069int, 0, 0);
    let s = lemma_step_of_253_bits(0x6941747825185c74c21c65c0572a638494435ae0b3ba38e09b97aa8d26faec1int, s, 0xbc7b0864cf3f611cf8f3efd1f313963096aaeac3b8092ec71193b825b372214int, 0x8ac4ef75218ab23066dabf945a08d275ef4a8b3d42ddb1766bd19e33d4cacc4int, 0x5c8f30ff843981ed3b294e1f3134bc808e3c502355afc0dc8a36a1d3336de3bint, 1);
    let s = lemma_step_of_253_bits(0x6941747825185c74c21c65c0572a638494435ae0b3ba38e09b97aa8d26faec1int, s, 0xb347348fee86204d0630914e11e01be3813b3ebb5d45c49078d3aa4bcec937dint, 0x7d8ca74f7a30a9647696650977cf7f8823814bca0745bcbeab5c017387100d0int, 0, 0);
    let s = lemma_step_of_253_bits(0x6941747825185c74c21c65c0572a638494435ae0b3ba38e09b97aa8d26faec1int, s, 0x3cca24846faf9f73e5495bf869b5df91b42fc80d4e25714d78dd0d2f0179a79int, 0xe6f60bbba9017d2b90f07a48fb30d0f4cd1acfd19d54dd6a4c78573bb96aadint, 0, 0);
    let s = lemma_step_of_253_bits(0x6941747825185c74c21c65c0572a638494435ae0b3ba38e09b97aa8d26faec1int, s, 0xf3a3bdab152f0afdbb92174800a500269e574ac0eb63105d8067bfc9dce7408int, 0xe7e042cdde9a586276084a9d4cdf2124e08488875d4eb841f586f8084e01b4cint, 0x5443ad1139e82953ee6dfd7b432492a8fab8f7bc2beb437cbe9ccdd742dc7f0int, 1);
    let s = lemma_step_of_253_bits(0x6941747825185c74c21c65c0572a638494435ae0b3ba38e09b97aa8d26faec1int, s, 0xc379d2d7d85d9c9a94da6fe4302b2851feb330ad4d003418f2cd441529190b4int, 0x9542d12dd14ffa0841ee3f4fd0df1ecffe4639fe3b90a5c7c9f001c77acc3deint, 0, 0);
    let s = lemma_step_of_253_bits(0x6941747825185c74c21c65c0572a638494435ae0b3ba38e09b97aa8d26faec1int, s, 0xb1519b9ae2e932644fe35db18bd65885a30325060be5c126a5409b21dbb00aint, 0x7ad1f330045efbbcc6a9a044204cd0cf581971d40d2228b65107b096ecd5bint, 0x548e2ce31c50c0a16ecd8a6f34d206df08ea15ea473ee1fc04847de8da1e97fint, 1);
    let s = lemma_step_of_253_bits(0x6941747825185c74c21c65c0572a638494435ae0b3ba38e09b97aa8d26faec1int, s, 0x8e9d2328c1e8bb67620293972e6d19a355f09cdbcbec290dab8b81692128c52int, 0x4f72b3755bf032df5c62a6262a732a57d262b40f8afb2136a8ce80d2a8ebde8int, 0x332882cdf95113f22cdb3ca7f56374ca1f65079dfb0b90fe738895329107929int, 1);
    assert(s.0 == 0xcb372beb854bnat);
}

/// The first 64 bits of the exponent of the same power.
proof fn lemma_power_of_253_bits_2_part_4()
    ensures
        pow_mod(0x6941747825185c74c21c65c0572a638494435ae0b3ba38e09b97aa8d26faec1int, 0xcb372beb854b7ca4nat, 0x1000000000000000000000000000000014def9dea2f79cd65812631a5cf5d3edint) == 0x8d23e16485725ee785f9d439584bf098de22a07b4465662a1ef3f4617d4fd29int,
{
    lemma_power_of_253_bits_2_part_3();
    let s = (0xcb372beb854bnat, 0xef013c0fb1fc058872642045950723478b9ae9038ee0b0801f156f5b0a9f187int);
    let s = lemma_step_of_253_bits(0x6941747825185c74c21c65c0572a638494435ae0b3ba38e09b97aa8d26faec1int, s, 0xef013c0fb1fc058872642045950723478b9ae9038ee0b0801f156f5b0a9f187int, 0xdf234e26d48b52b14a86ec6816992ae0f15bd45866e6a9fe1b0c840ebc4cd7eint, 0, 0);
    let s = lemma_step_of_253_bits(0x6941747825185c74c21c65c0572a638494435ae0b3ba38e09b97aa8d26faec1int, s, 0x5dd1b7767aa318b76abe23b3be2defb06a07f32e65d66072ac340e4fbf65d8bint, 0x22620b192809586e157b4f906fafda5694771715f9fe6e1a03125db42debd91int, 0x4a2edef91f63268b609ba7a986e254a9a30ce4e7e8f895ae31163cc4ac22e15int, 1);
    let s = lemma_step_of_253_bits(0x6941747825185c74c21c65c0572a638494435ae0b3ba38e09b97aa8d26faec1int, s, 0x105c0b6075d67f698b2d87c7284e6a025d9af1fe579c1e41698a9eba9a483cbint, 0x10ba2843c90f091cb521f008515ea47237fc36ef7d9e3098c7765866cd9fd7int, 0x5114195917eef5d0a8213533080e7f589cd594f51d99fc80b81deb8b37cf862int, 1);
    let s = lemma_step_of_253_bits(0x6941747825185c74c21c65c0572a638494435ae0b3ba38e09b97aa8d26faec1int, s, 0x26a1eba5d039095dc12605969e83ae91337c19eff61983e9192130184c331b4int, 0x5d4785f794aae3467592ae00dbdba9090f5f2ebbf93d7de857eeba38d1c4e4int, 0x7181f866c3391c1cbae58a2b3658e8584a7be4e0e7a8d5e687c638b208e545int, 1);
    let s = lemma_step_of_253_bits(0x6941747825185c74c21c65c0572a638494435ae0b3ba38e09b97aa8d26faec1int, s, 0xbfc7e274e038ce966a774d3d116b75c6be5b5dc26379255bd32db01691af89bint, 0x8fabdffc409bedd5e557cd28984307fe0e8c5c00be6321e7c13802d2c705306int, 0x2fb735105f8ff2ced7f9a36f53b3d1ed4563aad1381958d88def6ca075043a9int, 1);
    let s = lemma_step_of_253_bits(0x6941747825185c74c21c65c0572a638494435ae0b3ba38e09b97aa8d26faec1int, s, 0x732361e30f99c2cb68a5d180fadd9d8e34a96dc490daeb8b18648b3e9216316int, 0x33c8ced5e988444534e492c8ab1c6dfb67ebd958cb0564a9e0b3103c807858aint, 0x75a725379b3ceea3c6d0b5d665b69a2100a5a7997cb89b9b6fe0bbf028e56int, 1);
    let s = lemma_step_of_253_bits(0x6941747825185c74c21c65c0572a638494435ae0b3ba38e09b97aa8d26faec1int, s, 0x2ddcff8f74ccd7291f6eba6a662ce62bcc2d3f1a6e8d0835119e69a4cc47504int, 0x83770a0acbfdeca0a81874e66bc2b5327a964347f557b24d175f9a464c9581int, 0, 0);
    let s = lemma_step_of_253_bits(0x6941747825185c74c21c65c0572a638494435ae0b3ba38e09b97aa8d26faec1int, s, 0xad093fb6369e4e03eff16fbada103d7beb7b910ce32a4a7a96aac2a1f07eca3int, 0x74f58071d07cfd266db7387c74028caea30c5cfa5e97c96abddd7f31644fa71int, 0, 0);
    let s = lemma_step_of_253_bits(0x6941747825185c74c21c65c0572a638494435ae0b3ba38e09b97aa8d26faec1int, s, 0x98563b2336c5e465d3fcf53fdb75abdb220882ad4f03486a4831525833af22cint, 0x5aa683459a5d0c459d424a1371a632a567a527826c8e4e0e7f904e927f08ffaint, 0x918804a4e6cb0d574609b57bfbd6b18125a1ac78c2c47975626831ad043a39int, 1);
    let s = lemma_step_of_253_bits(0x6941747825185c74c21c65c0572a638494435ae0b3ba38e09b97aa8d26faec1int, s, 0x5a60827d54ae753e7dfe50d0da824a2e942e37f808109f3c0aed3099e40b7d9int, 0x1fe80022400db4a4dcea3a61640ae0ec9673aacda52314b45e220ecbe333261int, 0, 0);
    let s = lemma_step_of_253_bits(0x6941747825185c74c21c65c0572a638494435ae0b3ba38e09b97aa8d26faec1int, s, 0x2efa43752b5bf70cb3ec3df0dc7ae4ca4ebb646bd396ccef183eca9f1c75f24int, 0x89ee4e5ee3446b9e230cd7d7dea46678fb43bb658749777e8adc2ed411b990int, 0x2d1f61c3e3e3310c0a245c1d1a03fbf5fb18d52335c54b02c3aad76d0cc5468int, 1);
    let s = lemma_step_of_253_bits(0x6941747825185c74c21c65c0572a638494435ae0b3ba38e09b97aa8d26faec1int, s, 0xfc5e9344d19fd0294ef726c2d3c82aa192fed25a5702e1d185573e9cb75f678int, 0xf8ca54dff7f4ae6bc368ee198158bceccd243c2f3fd2cdb1077bdbf65cb7f96int, 0, 0);
    let s = lemma_step_of_253_bits(0x6941747825185c74c21c65c0572a638494435ae0b3ba38e09b97aa8d26faec1int, s, 0x6ab35bd6b490543692a91d275acff3b856a88368afbe8542ffd1be8cdf1862int, 0x2c7905b75cba6003f24c03f0610a98203ef44344f9b0e5a48585249dcd529int, 0, 0);
    let s = lemma_step_of_253_bits(0x6941747825185c74c21c65c0572a638494435ae0b3ba38e09b97aa8d26faec1int, s, 0xd281c8ba7caac476972b1c2e52286ee74fe81b61aab51067ee8d5628baf638fint, 0xad192f1dddddb910c75bbc71d2decd58f7bb3665225c75acbffbff0814303c3int, 0x2a690e840faad29543156191bac7077a987848962ad8279cb07acb21b58cca4int, 1);
    let s = lemma_step_of_253_bits(0x6941747825185c74c21c65c0572a638494435ae0b3ba38e09b97aa8d26faec1int, s, 0xe915baf8791c1c0b3884dbc5f17d85751e855e87ca2a3ca6a6daffecf34506int, 0xd438903081c70ad0bf3b5751b1c9f7a074a064812f5e9c3b94a5736448095int, 0, 0);
    let s = lemma_step_of_253_bits(0x6941747825185c74c21c65c0572a638494435ae0b3ba38e09b97aa8d26faec1int, s, 0xfbc65fccc57f0b0b38e05485bdd764d9c5a1f31e4a9d207da5b3804de016333int, 0xf79e9993dfe23e8cbbec94e5608da9091d9819b7b7c9649c1063f7de4559b00int, 0, 0);
    assert(s.0 == 0xcb372beb854b7ca4nat);
}

/// The first 80 bits of the exponent of the same power.
proof fn lemma_power_of_253_bits_2_part_5()
    ensures
        pow_mod(0x6941747825185c74c21c65c0572a638494435ae0b3ba38e09b97aa8d26faec1int, 0xcb372beb854b7ca43b67nat, 0x1000000000000000000000000000000014def9dea2f79cd65812631a5cf5d3edint) == 0xe04496998be282d669f4be2599649e834b90db5609b4283d1f89aec841ebf5bint,
{
    lemma_power_of_253_bits_2_part_4();
    let s = (0xcb372beb854b7ca4nat, 0x8d23e16485725ee785f9d439584bf098de22a07b4465662a1ef3f4617d4fd29int);
    let s = lemma_step_of_253_bits(0x6941747825185c74c21c65c0572a638494435ae0b3ba38e09b97aa8d26faec1int, s, 0x8d23e16485725ee785f9d439584bf098de22a07b4465662a1ef3f4617d4fd29int, 0x4dd08b5022ee53dc8ea0fe2e3fc4269960e4a7850c62045dbb769b84aaa863fint, 0, 0);
    let s = lemma_step_of_253_bits(0x6941747825185c74c21c65c0572a638494435ae0b3ba38e09b97aa8d26faec1int, s, 0x7b77b0ba6d99f1d37b99c282eb2d0c7505a756ffff636be870c151ed972db3eint, 0x3b8c3bc8eca4b1f72a854fa0b511224fe143a2e674957c122b022ddb8b7d1b5int, 0, 0);
    let s = lemma_step_of_253_bits(0x6941747825185c74c21c65c0572a638494435ae0b3ba38e09b97aa8d26faec1int, s, 0xcc98848802a930e349dcd5979dce0866d6e04808e0935aa53885090d8bccf73int, 0xa3836e166a5d59d599d514e6a1080c48728d7dc343423dbb045c09b5b78e613int, 0x31e8af21f06f9c6ea5697d289da25e975512c0d83a729c1b0f7ca504b477cb3int, 1);
    let s = lemma_step_of_253_bits(0x6941747825185c74c21c65c0572a638494435ae0b3ba38e09b97aa8d26faec1int, s, 0xcf4009f31a0e4c293ee82ab6a7f96aa2c0473e6fe290cfe27587418b36493dbint, 0xa7c8a01c1e13250043814e274aadd3caebbeab712789a1dffee05b33179acb4int, 0x7ec93fb78699efa93d0412a88c7ce4d0d05a6349f4d60f73d38b2c0428c97bint, 1);
    let s = lemma_step_of_253_bits(0x6941747825185c74c21c65c0572a638494435ae0b3ba38e09b97aa8d26faec1int, s, 0x2019831229d9563beb9a127aa50d4f32bab2539cd0cf81ddbd21febab4b2496int, 0x406634f671e1a202a43526595e4c401894f4052a2caa1ab3abf506e1ed06afint, 0x537fae3f09c4658b475d8814cccb4f2d4532b241682583547ecd2eb2ddd4d9fint, 1);
    let s = lemma_step_of_253_bits(0x6941747825185c74c21c65c0572a638494435ae0b3ba38e09b97aa8d26faec1int, s, 0x1366ef3a98bf188b2259e2c55a92542142b54cd2ce8825c6caf8570e14486eint, 0x17870e634ec8c8a97871c44419f871c26a96da4e88f3d6c6f6ac364881e3int, 0, 0);
    let s = lemma_step_of_253_bits(0x6941747825185c74c21c65c0572a638494435ae0b3ba38e09b97aa8d26faec1int, s, 0x3a90c79edac717491611e7985c3b55f767fab5ecfa413e9d31a49ff8740b71dint, 0xd65ec552980b13b9f24fe1a58b06a45348c33e108d8803f55008577ae862e4int, 0x344320b6f5206fa1ecdcfdfb3cf2e8dab332cc707a143dee9d94adf2054a164int, 1);
    let s = lemma_step_of_253_bits(0x6941747825185c74c21c65c0572a638494435ae0b3ba38e09b97aa8d26faec1int, s, 0x7bb9c641cc3ddd4a6756042404823b47d8bb496cdd29985857f8f03246d5861int, 0x3bcc0b535ee67ce86182218fe9e95c15f2e0af419feb8fc31d00ea40e278657int, 0x629e216358df7384dfa1d0db0c5f7666016bbec39286caac9f4dc28623046b0int, 1);
    let s = lemma_step_of_253_bits(0x6941747825185c74c21c65c0572a638494435ae0b3ba38e09b97aa8d26faec1int, s, 0x1aa7ecce1b937353cfb10a08018f2f5b3f5e01eb8578d15cbbebd26ba71dcc6int, 0x2c68a40ad8e9695be718016b6324ba969e2d77f41d753b38e28dd6f2d67206int, 0, 0);
    let s = lemma_step_of_253_bits(0x6941747825185c74c21c65c0572a638494435ae0b3ba38e09b97aa8d26faec1int, s, 0x70bf29342a086cd90087b897dbdfa4f9bbb42c8f1636040ac8eb54584f06796int, 0x31a7d2cc273fd7e819760a5c3345cba32d4b74f0deb0200bab4b47d0b3e299cint, 0x503fb5952da8f082c32c9bfbacdfaf532d303a2bb540f5c04512578af1d4a1eint, 1);
    let s = lemma_step_of_253_bits(0x6941747825185c74c21c65c0572a638494435ae0b3ba38e09b97aa8d26faec1int, s, 0xaa4e782cef570f207eb9f912a4a3a44ba9aa507ae57fbede24ff769346704b2int, 0x714c4fa921aba16923fb8df4690ef71fdc6e3039021ad46928467fa7007e7e0int, 0x5011e9a94f1883a71cb35e4c8af398d86701f4085c2399d7fd22618cd60e899int, 1);
    let s = lemma_step_of_253_bits(0x6941747825185c74c21c65c0572a638494435ae0b3ba38e09b97aa8d26faec1int, s, 0x997dd58966d8a1ffd174cd1ad9fd217e367102833ccff3efba039cf7d8753bfint, 0x5c07a718773b5015b6f297fe9239f65b0403e67f10e3eacdb4d714a636adeb3int, 0, 0);
    let s = lemma_step_of_253_bits(0x6941747825185c74c21c65c0572a638494435ae0b3ba38e09b97aa8d26faec1int, s, 0xd0a02041c55ae0b5e32cd0609d9cdf7ef0ca51b0571f5a819e455e7600ab3caint, 0xaa04989336fae0fcfcfd5de4be836abcb3da5ec6c909aa9134686e51b580b6cint, 0, 0);
    let s = lemma_step_of_253_bits(0x6941747825185c74c21c65c0572a638494435ae0b3ba38e09b97aa8d26faec1int, s, 0x6b2b44b8f9ffab0c6b02b9b469d547569f311baa78a10921d082ddc69c38468int, 0x2cdd32c2c9927f57fe280eeed6d8b7185a82d0bbfa3f2e6f37aa10510d543e8int, 0xaa537812eac4e34f5954d8e24ec2362393dfdf56b2781148870093d7d37c46int, 1);
    let s = lemma_step_of_253_bits(0x6941747825185c74c21c65c0572a638494435ae0b3ba38e09b97aa8d26faec1int, s, 0x5264a9477dbaf09536960a361b18e76b6a4ae7291320c81e8f2b745c367faaint, 0x1a84a4067c55742358a1500d36902ed0f94e8731cc973706fe94d3a802635int, 0x1d8c262984d761c298f48901104f529447c0f050c2b4e6d89dbf0d8f342520bint, 1);
    let s = lemma_step_of_253_bits(0x6941747825185c74c21c65c0572a638494435ae0b3ba38e09b97aa8d26faec1int, s, 0x1b7576fea18234a8b7a445e46323170d9f3993efff5c1fc2bebcac5739791e4int, 0x2f1fcffb220d248a5c59373a7415e15897811d30d85ca76afd3c7689c503b3int, 0x4a1c27c7e02ca235b6bb4dd39690b18c046a5f071175ef44061d08cdabafdf6int, 1);
    assert(s.0 == 0xcb372beb854b7ca43b67nat);
}

/// The first 96 bits of the exponent of the same power.
proof fn lemma_power_of_253_bits_2_part_6()
    ensures
        pow_mod(0x6941747825185c74c21c65c0572a638494435ae0b3ba38e09b97aa8d26faec1int, 0xcb372beb854b7ca43b67ea6enat, 0x1000000000000000000000000000000014def9dea2f79cd65812631a5cf5d3edint) == 0x2bfa20667f0bba2193ac8827bcfdca590a9165656d9df20fe2b05438ce3532fint,
{
    lemma_power_of_253_bits_2_part_5();
    let s = (0xcb372beb854b7ca43b67nat, 0xe04496998be282d669f4be2599649e834b90db5609b4283d1f89aec841ebf5bint);
    let s = lemma_step_of_253_bits(0x6941747825185c74c21c65c0572a638494435ae0b3ba38e09b97aa8d26faec1int, s, 0xe04496998be282d669f4be2599649e834b90db5609b4283d1f89aec841ebf5bint, 0xc47819ed0ef70152add801bc624a3d5aaed9b9a52dcd6a3f5825ca1c95dd8e1int, 0x2c9bd8c802773225c891ac2614c9444fa0560c48914871c41da3b31e194ae79int, 1);
    let s = lemma_step_of_253_bits(0x6941747825185c74c21c65c0572a638494435ae0b3ba38e09b97aa8d26faec1int, s, 0xd1a0285c124efef3c47e97b784fb291c818c029c9171b3d497105b1efd5df07int, 0xaba6e618cf58c5de914ef2ceb904e50d375ce046ee701c48ec7567a54470d3dint, 0x4bebbb79098ca186a4163d56cbba4b4f41722df89ec55f283db4edaaf9d53d4int, 1);
    let s = lemma_step_of_253_bits(0x6941747825185c74c21c65c0572a638494435ae0b3ba38e09b97aa8d26faec1int, s, 0x39d3c271ca5bae6de0a0b14fbe4f3ec48ef02bd8389ef03790253e4afa1ac74int, 0xd0ffbc0c7611015b06b2d6886413bfe71b73c4e7b04dbeadcdb2dfe413abe4int, 0x4240fee7a2db3e57824cffd44af8fb095651591aadc346ef996f6292aa0e7c2int, 1);
    let s = lemma_step_of_253_bits(0x6941747825185c74c21c65c0572a638494435ae0b3ba38e09b97aa8d26faec1int, s, 0x2d6bbc151908c818c2cbc857be997969cbbe04555785ea56727e7b60d48b6e2int, 0x80f0d762e9f0231fcf664558a09b3f2813d58dd5cdf951daa6633490c7b0d5int, 0, 0);
    let s = lemma_step_of_253_bits(0x6941747825185c74c21c65c0572a638494435ae0b3ba38e09b97aa8d26faec1int, s, 0xae24ba53809dd575d68134292620b60d61e032d86c726fdb9338a48ee4edb53int, 0x7675f28e71f02cb239e1d420ce026a96f3476306afcd6ec70ae942a2cdcbe28int, 0x19fd3eabe7f8ddede864f4d63fa5f82cb0c7d6a55d538e205d0e2f5ef90a606int, 1);
    let s = lemma_step_of_253_bits(0x6941747825185c74c21c65c0572a638494435ae0b3ba38e09b97aa8d26faec1int, s, 0x648666ce750d6a30ff6873cad8603ce7494cb2c10acd633f7334e7e8cd6cb13int, 0x277946e114de30c8ba9031f6b841ba8b9d93e0ce6ac03aab72ee77448ad13e6int, 0, 0);
    let s = lemma_step_of_253_bits(0x6941747825185c74c21c65c0572a638494435ae0b3ba38e09b97aa8d26faec1int, s, 0xd4a67047bd7748b7769d7bc15c4d4bb5b32ee9ae7427f1e163246544a1b257bint, 0xb0a4162ca01621052e66dfb5eba414ff00e57b6edd8f2b7625631d43f36f53cint, 0x65e32e1f151b446cddd296317f8fb08829e310845919525c4c95e0834f8960bint, 1);
    let s = lemma_step_of_253_bits(0x6941747825185c74c21c65c0572a638494435ae0b3ba38e09b97aa8d26faec1int, s, 0x13f5564235e6f2545c3c011bb70be51a8413a6e7878da4a68d9e0c7f8d0931eint, 0x18e55ec0bcc015b5c68852b5f11808264b0358cdd9a12b2a856fc400129647int, 0, 0);
    let s = lemma_step_of_253_bits(0x6941747825185c74c21c65c0572a638494435ae0b3ba38e09b97aa8d26faec1int, s, 0x4d86d54d20bb95409cf94460970c6fd1db2997c46b520faa6298318cc46d2c9int, 0x177a635464288bddf97704ee745f6609cfd1e920ae8ea7b7df0a305191b5ae3int, 0, 0);
    let s = lemma_step_of_253_bits(0x6941747825185c74c21c65c0572a638494435ae0b3ba38e09b97aa8d26faec1int, s, 0x3fd159f1e57b3d527b9bef2fd3f6004dc1ab7f292abcee48762fe8f1ff24aaint, 0xfe8b5790b85718a49e71a9ecb6af07ff5a7b4f588a3a63c3cb37ced08442int, 0x399b1299dd598466a9117042fe9f238ba0b2d9be63e36cc57674727482e35a9int, 1);
    let s = lemma_step_of_253_bits(0x6941747825185c74c21c65c0572a638494435ae0b3ba38e09b97aa8d26faec1int, s, 0xe2ebb2f70d2abe568d3427a59b460b886dd92abcdfbb74714cddd6ed8314d5int, 0xc92500fe41ee21441e105999fe3bc4747d22b27a0cfab0c6f0edb71bbbee2int, 0xf75bea0c955d71a146a8d628cea060cf0d3a7a45b6e7005296c4b699c0a8cint, 1);
    let s = lemma_step_of_253_bits(0x6941747825185c74c21c65c0572a638494435ae0b3ba38e09b97aa8d26faec1int, s, 0xb643961c875921f10e42570c4a5a70576f127853c515dd889fe8bb7f87425a3int, 0x81c42b487b6706b4db48d4c4c1d2df7d26f745f24f451a27130a045d247d6d7int, 0, 0);
    let s = lemma_step_of_253_bits(0x6941747825185c74c21c65c0572a638494435ae0b3ba38e09b97aa8d26faec1int, s, 0xa0490d464f037973534f2fad19161c6f6c4e76ac699f1fbee811ae72ee86bbeint, 0x645b6570758d9f211487c54a69f6a559b5dd098d213c0bebb29cb4605619a1eint, 0x40f17d489fecf1467e935d4154713d1ab5b8fdd32b61351e89467ccb15d6504int, 1);
    let s = lemma_step_of_253_bits(0x6941747825185c74c21c65c0572a638494435ae0b3ba38e09b97aa8d26faec1int, s, 0xc3bd13f74e687ddc7a561600a49478e9ecde4ed2f5746b235d0d852a0583b0aint, 0x95a998113e2b9a93a24139972ca0a9ce9a35968097f8ea22d5ce859e5e8f6feint, 0x472712472fdf95d414ccd52c9e06a6008bd3d91311267bb55ea653e4418f16fint, 1);
    let s = lemma_step_of_253_bits(0x6941747825185c74c21c65c0572a638494435ae0b3ba38e09b97aa8d26faec1int, s, 0xf42aba3cb3e8af9154f2926dda5320c49adabacebbdc5d4b5c343e6a793aafbint, 0xe8e17a255a5adad9983efb4daf53938f7c19a8616feaac17fbb1c1f8473ccc6int, 0x7374239c9f788a615288e287d78b4d6742e89b7c86d698a26bbfe7586c1942int, 1);
    let s = lemma_step_of_253_bits(0x6941747825185c74c21c65c0572a638494435ae0b3ba38e09b97aa8d26faec1int, s, 0x876db34c65593d6adafc09803f114fb87c45a96db9d9ddc514c94f6968c56f1int, 0x47a4e21cbf86594c20f3bbe5e87c2eddbdfacd9baa0514e447683dd7c70583aint, 0, 0);
    assert(s.0 == 0xcb372beb854b7ca43b67ea6enat);
}

/// The first 112 bits of the exponent of the same power.
proof fn lemma_power_of_253_bits_2_part_7()
    ensures
        pow_mod(0x6941747825185c74c21c65c0572a638494435ae0b3ba38e09b97aa8d26faec1int, 0xcb372beb854b7ca43b67ea6e032anat, 0x1000000000000000000000000000000014def9dea2f79cd65812631a5cf5d3edint) == 0x447183e872da9a39ff4a4d1e87168864a9091250527b7608b33513e281126c7int,
{
    lemma_power_of_253_bits_2_part_6();
    let s = (0xcb372beb854b7ca43b67ea6enat, 0x2bfa20667f0bba2193ac8827bcfdca590a9165656d9df20fe2b05438ce3532fint);
    let s = lemma_step_of_253_bits(0x6941747825185c74c21c65c0572a638494435ae0b3ba38e09b97aa8d26faec1int, s, 0x2bfa20667f0bba2193ac8827bcfdca590a9165656d9df20fe2b05438ce3532fint, 0x78dfb45baf7dc3b3c1dbd9aed5d7f7c60e0b9aabc03a2416c0ab8c9fce008dint, 0, 0);
    let s = lemma_step_of_253_bits(0x6941747825185c74c21c65c0572a638494435ae0b3ba38e09b97aa8d26faec1int, s, 0x389599ed418ce37ce5885ad6adf9f03f2004ff586e5fdaf27bd86e01945c918int, 0xc81cac4576965c44b603124ac61b2c373445e0fc775926191ac6437ea11a99int, 0, 0);
    let s = lemma_step_of_253_bits(0x6941747825185c74c21c65c0572a638494435ae0b3ba38e09b97aa8d26faec1int, s, 0x685424f867f00017ca76a11094722efc64b5c456ddbbfb998de9c2a4067f79bint, 0x2a8479b21cce03d86f5720d4202a013ac26c43fa25e0a2efa9df90977d2e74bint, 0, 0);
    let s = lemma_step_of_253_bits(0x6941747825185c74c21c65c0572a638494435ae0b3ba38e09b97aa8d26faec1int, s, 0xad625cd5b41d2d6fb8481be0e1a591daf837adb2daa25c5ad24fac79c8c866aint, 0x756e17440ab7a199f889807833b42f60bf8e330c70369eef4aa01bb0ca2b063int, 0, 0);
    let s = lemma_step_of_253_bits(0x6941747825185c74c21c65c0572a638494435ae0b3ba38e09b97aa8d26faec1int, s, 0x260a31ced8219840cd73bb3f86cee9c975228ac2c892d2277b0a074dc53f3dint, 0x5a707315603b1b08ae0f4e866e0e99c7c9cc217c303d4cfee9ea1d3fa114int, 0, 0);
    let s = lemma_step_of_253_bits(0x6941747825185c74c21c65c0572a638494435ae0b3ba38e09b97aa8d26faec1int, s, 0xab677424e5ba0ad0bdd10e534a6dcd040f0236487953048f27401b237b17905int, 0x72c35ef7f548dba995d49ca4cf9ce7916a0f8cb1cd7278e18d939d181f2dee9int, 0, 0);
    let s = lemma_step_of_253_bits(0x6941747825185c74c21c65c0572a638494435ae0b3ba38e09b97aa8d26faec1int, s, 0x6b94e397862dbc3266f82f155428c74bfa12f25caa5683e732c78b72b905164int, 0x2d35ccd89bb371d86863d5945928d9dd1a963e1792f4db25b35699b2462014eint, 0x11d09d7b94c53b416f0afeef9b0da68b1318b3adab82bf59bed5f7f5accaf25int, 1);
    let s = lemma_step_of_253_bits(0x6941747825185c74c21c65c0572a638494435ae0b3ba38e09b97aa8d26faec1int, s, 0x645237f9cfce9ac955366c71409cb15731cfd53739e93556f859ee3b8295b19int, 0x27505623129fd45922a87eea2ae96cd29f8f8c9333f186c66cc01c189401f7aint, 0x6773eac64609069eae32c4d027743f21df62169e034a44442eb7bb404d87d27int, 1);
    let s = lemma_step_of_253_bits(0x6941747825185c74c21c65c0572a638494435ae0b3ba38e09b97aa8d26faec1int, s, 0x70bdb9763efd2308a185f40e1c656f527bff21bfc1a06dfda04d71971e245a4int, 0x31a68ee2d6129e1545921205a9ff92ab6c982ca46425b6561bb571023691e21int, 0, 0);
    let s = lemma_step_of_253_bits(0x6941747825185c74c21c65c0572a638494435ae0b3ba38e09b97aa8d26faec1int, s, 0xe8abe89f7664e21fd8cd88df5a147e94bf75ddf8149a88f46f13799b2c6b983int, 0xd37809119f006e8af16bef6451876f06a15d701a9dcab117d2c7b4fdd6bd388int, 0, 0);
    let s = lemma_step_of_253_bits(0x6941747825185c74c21c65c0572a638494435ae0b3ba38e09b97aa8d26faec1int, s, 0x54f0e8631311a2aaeee10650ff7af57b4276824073c8f176c9b445d7bbeac21int, 0x1c2efb35913b0cb8e528d299fe8b52a346706eb17536ae5f0057776eeb74c5cint, 0x3f181d59a935cae8f428ff886214b3c4204856883900234b56d205ebcc737b8int, 1);
    let s = lemma_step_of_253_bits(0x6941747825185c74c21c65c0572a638494435ae0b3ba38e09b97aa8d26faec1int, s, 0xd9b39d97f7534810e9424eb902c2968618b8e9acccf3c2fd728481b2b042f7dint, 0xb921ff3164d2ce354cae2e66af8e442c2a868f29a1f8416ddfddedb66139a6bint, 0, 0);
    let s = lemma_step_of_253_bits(0x6941747825185c74c21c65c0572a638494435ae0b3ba38e09b97aa8d26faec1int, s, 0x2afb492a8ecb926cece00ce3ae6cc6392e8fe85f1154b32c849ca049de3fcfaint, 0x7376aaa85381bc02346a6bbdfda74b0004012259fdd1965b4f562b935ff518int, 0x132ee7abbb9adf626fc97a72d79b125fecc1ceb80253cf45e7801aba3997f23int, 1);
    let s = lemma_step_of_253_bits(0x6941747825185c74c21c65c0572a638494435ae0b3ba38e09b97aa8d26faec1int, s, 0x9593b924195901d8e2b8d873ddcd33863c5f1cb7d522dc6856eb1dd41490185int, 0x57654ac22adbea185f360a3d072f171de6e959975dcfe377bcd5df49b6df2e8int, 0, 0);
    let s = lemma_step_of_253_bits(0x6941747825185c74c21c65c0572a638494435ae0b3ba38e09b97aa8d26faec1int, s, 0x36f7508feb5e3cb9cdce6cb6a2e338574efd99174ea1db9662972950bd53651int, 0xbcd44e9465e357b430058958c6986967d67a37cc8aca446db769ee03c7d90fint, 0x25feae65a8cd2d46363b47575a091e7bc664a8ee92b96b57af0fb52c8aad5b9int, 1);
    let s = lemma_step_of_253_bits(0x6941747825185c74c21c65c0572a638494435ae0b3ba38e09b97aa8d26faec1int, s, 0x457deb054ad60576feb81f52676fe258a9d2f1eb6e063f5178ea7e5688f10f9int, 0x12dd1ea035452b746bc91d12ed400199336d7d40314bbf6a2a8ce3605ecffd2int, 0, 0);
    assert(s.0 == 0xcb372beb854b7ca43b67ea6e032anat);
}

/// The first 128 bits of the exponent of the same power.
proof fn lemma_power_of_253_bits_2_part_8()
    ensures
        pow_mod(0x6941747825185c74c21c65c0572a638494435ae0b3ba38e09b97aa8d26faec1int, 0xcb372beb854b7ca43b67ea6e032aa05dnat, 0x1000000000000000000000000000000014def9dea2f79cd65812631a5cf5d3edint) == 0x1ac19d07bce39a6247ad066742e4778d07f37a839b2b5266a2035aeae934d0dint,
{
    lemma_power_of_253_bits_2_part_7();
    let s = (0xcb372beb854b7ca43b67ea6e032anat, 0x447183e872da9a39ff4a4d1e87168864a9091250527b7608b33513e281126c7int);
    let s = lemma_step_of_253_bits(0x6941747825185c74c21c65c0572a638494435ae0b3ba38e09b97aa8d26faec1int, s, 0x447183e872da9a39ff4a4d1e87168864a9091250527b7608b33513e281126c7int, 0x124c806934313f87106928fbbd5f0b734dfbf49cd0d98c1b0a61a6fa0041885int, 0x4b54f68a61c64fb3b5ac2900a9c7578098077459b616819242cea8ec155d873int, 1);
    let s = lemma_step_of_253_bits(0x6941747825185c74c21c65c0572a638494435ae0b3ba38e09b97aa8d26faec1int, s, 0xbf28be26137a810e28b79728f83c0697782dbe8a82b0027dda1a41959b47d19int, 0x8ebdd238ca336d6f16996b5a56b22a77cedd4e005b95f38db6170645cf5d579int, 0, 0);
    let s = lemma_step_of_253_bits(0x6941747825185c74c21c65c0572a638494435ae0b3ba38e09b97aa8d26faec1int, s, 0xd8e4993e231b4e0fbe48d27c98a70e5ec7071a7b04a9f044114e64e12f3106cint, 0xb7c28eba2da7f169467ef03e43905a78eb55537277edef3cd5a5aa6ead1a6b1int, 0x350a1e7e6c4cb93202a7148e617afaf2d6c9ea2fcfc4e6ee4f35f3a3ff0de77int, 1);
    let s = lemma_step_of_253_bits(0x6941747825185c74c21c65c0572a638494435ae0b3ba38e09b97aa8d26faec1int, s, 0x65f4824dc69f4c68625905a37614602ef67b15a6e331ab2c274ab02d0b99fc8int, 0x289ad85a054f674ee41e8024c6a69740b227378d4830f1075b5e0763c332a45int, 0, 0);
    let s = lemma_step_of_253_bits(0x6941747825185c74c21c65c0572a638494435ae0b3ba38e09b97aa8d26faec1int, s, 0x2ecd39df612b6b1ffcf77e79e33284716f6e186f39d34f0e389e1f2b8c0b5fint, 0x88e655203c27638d45ee4c0b1a2f07a244d5d63cfbeea05e92281c067044int, 0, 0);
    let s = lemma_step_of_253_bits(0x6941747825185c74c21c65c0572a638494435ae0b3ba38e09b97aa8d26faec1int, s, 0x5f75221c9ba7773896d2dc73a840540db0404740e7446c47f9929cb38d7524dint, 0x239824e96e382e19e09bb0b7a34441f6bdfdc73191aef55f88a0c5bb34d0283int, 0, 0);
    let s = lemma_step_of_253_bits(0x6941747825185c74c21c65c0572a638494435ae0b3ba38e09b97aa8d26faec1int, s, 0x86c15240be5637ea41d249605a763b457e5d50adfa7d0091551e3a5150f1ee2int, 0x46eef418e74ecad8809183387971734bcf8770ef946b128ca62611d2d2c4e43int, 0, 0);
    let s = lemma_step_of_253_bits(0x6941747825185c74c21c65c0572a638494435ae0b3ba38e09b97aa8d26faec1int, s, 0xd4a7caf805e5ec190d3cdfbd67167aeff6e24eaa2b9ee3e75411fb66591127dint, 0xb0a656253a48da9dcccfdb248bf66319a7178f0f467bccbf07f7c4b5311b603int, 0, 0);
    let s = lemma_step_of_253_bits(0x6941747825185c74c21c65c0572a638494435ae0b3ba38e09b97aa8d26faec1int, s, 0x6e1d3b4c3e2af58e5835b740f40b21b58f003d5dbf7b9df7db7b0aacfa6d742int, 0x2f5d224c026f3c1ebbd864fae9c654ebd6a7e4233db64772a90d21b6aee44c3int, 0, 0);
    let s = lemma_step_of_253_bits(0x6941747825185c74c21c65c0572a638494435ae0b3ba38e09b97aa8d26faec1int, s, 0xb4b8b904162187f75d97fdf963fa15235cde37368ecd82c7bf1687056b68b7dint, 0x7f9449783ab5df7478add4673efcdc146c3c1e4488df6708af25280914e94f1int, 0x5de89effe8141b185001661cef5a2458996fd273771e698df3487859c60fa46int, 1);
    let s = lemma_step_of_253_bits(0x6941747825185c74c21c65c0572a638494435ae0b3ba38e09b97aa8d26faec1int, s, 0x8f8975ee11bc0be9ec5882dc7de20d86766eb617e067d33db8071171b6c291eint, 0x507adb8f66f28a2ef42e55a15256f78a250ebe208d565421ff54f28ef3de24dint, 0, 0);
    let s = lemma_step_of_253_bits(0x6941747825185c74c21c65c0572a638494435ae0b3ba38e09b97aa8d26faec1int, s, 0x410ea19f632cbf75af972cfa24c2307513820d0934884cc03f4e14e4e69a73bint, 0x10886ee903d5701954dd78539bd73dad1177eb7720b26728fc6eded9c53c555int, 0x2107e1182def7c3e46a96623f70ea8f97cbffc64dc511d4440271b427a574f3int, 1);
    let s = lemma_step_of_253_bits(0x6941747825185c74c21c65c0572a638494435ae0b3ba38e09b97aa8d26faec1int, s, 0x53460200ff54f5f871d0a7ca8ea17e5c6331be0eb73aee2ba779590905418f1int, 0x1b167871be20bdf3f02dcae7a7ffbca522985c00a3f1c950d9b0be443b23b6aint, 0x5b6ce383299720ff8c31f4cec72db9c7023fec352d11538fe7c0ea20f5868b0int, 1);
    let s = lemma_step_of_253_bits(0x6941747825185c74c21c65c0572a638494435ae0b3ba38e09b97aa8d26faec1int, s, 0xae09fb70c72159467a14318339d35fde1b43254719fe3858674cedaf99c5a0fint, 0x76519230f395adde520b36ebfdb0ffdcf6b2dd30d791b3c8ae35c2513055c2bint, 0x32b30275a8180f397e2b099443d913a8b28ad8ee755ecc8072f46bc6ac6974dint, 1);
    let s = lemma_step_of_253_bits(0x6941747825185c74c21c65c0572a638494435ae0b3ba38e09b97aa8d26faec1int, s, 0xfa249c5b0423d44014bc1b21506f8647cc7f0251d8eb95e6372fc3341c28849int, 0xf46b869e1d2e320876bd5c5e6b6a14023e000e49c1a1b4cc57167585482bc8dint, 0, 0);
    let s = lemma_step_of_253_bits(0x6941747825185c74c21c65c0572a638494435ae0b3ba38e09b97aa8d26faec1int, s, 0xf8ca1e0b77ed358d6565e9384cd352f479b3a5ca9b73afe518c5d7ccbcfdf48int, 0xf1c839c9a5fb8ab996b79a31626442a8b27b4cd7d2369d770203594146ac581int, 0x212840206ea006ef8c556e5eceef311c5532cd17b62c5c22b7fa4a08d39ef5eint, 1);
    assert(s.0 == 0xcb372beb854b7ca43b67ea6e032aa05dnat);
}

/// The power 0x32cdcafae152df290ed9fa9b80caa8174cb of 0x6941747825185c74c21c65c0572a638494435ae0b3ba38e09b97aa8d26faec1 modulo 0x1000000000000000000000000000000014def9dea2f79cd65812631a5cf5d3ed.
proof fn lemma_power_of_253_bits_2()
    ensures
        pow_mod(0x6941747825185c74c21c65c0572a638494435ae0b3ba38e09b97aa8d26faec1int, 0x32cdcafae152df290ed9fa9b80caa8174cbnat, 0x1000000000000000000000000000000014def9dea2f79cd65812631a5cf5d3edint) == 1,
{
    lemma_power_of_253_bits_2_part_8();
    let s = (0xcb372beb854b7ca43b67ea6e032aa05dnat, 0x1ac19d07bce39a6247ad066742e4778d07f37a839b2b5266a2035aeae934d0dint);
    let s = lemma_step_of_253_bits(0x6941747825185c74c21c65c0572a638494435ae0b3ba38e09b97aa8d26faec1int, s, 0x1ac19d07bce39a6247ad066742e4778d07f37a839b2b5266a2035aeae934d0dint, 0x2cbe653b85b8875c9ed4a964745e8aeed5de1942ccb204bd47659af466b11aint, 0, 0);
    let s = lemma_step_of_253_bits(0x6941747825185c74c21c65c0572a638494435ae0b3ba38e09b97aa8d26faec1int, s, 0xf1260b7284f253e90cb1c7ee3c2a6ef4b930055192b8ba5deb910b583326f97int, 0xe328a73504d2c495332a0dc792ba9388d8afd11804264712bc1c647d9b7eb1fint, 0, 0);
    let s = lemma_step_of_253_bits(0x6941747825185c74c21c65c0572a638494435ae0b3ba38e09b97aa8d26faec1int, s, 0x14273449e4c1c81f220eebccb62405d75532b9f026e707a0823370a02e6125eint, 0x196262c84f01492d3093c22212f5c26b174a28312894b873584fcedd2f3d5dint, 0x4db63bd35ec53c1586c9b6f24fc3ac287e1f214a3635b89fd13e30a0c3fbf1fint, 1);
    let s = lemma_step_of_253_bits(0x6941747825185c74c21c65c0572a638494435ae0b3ba38e09b97aa8d26faec1int, s, 0xc706eb64b5b05b652f135b951dd7e3553a5b01b51a77b27479e175ebc0471f8int, 0x9abbc22673a2bf8bd274537f50f98c6ac52ff0a2f2b3514f9980eb0ccee73f6int, 0x4f4bc5fb018fdee3ef39b11599d67a140c5c97b887e4ad8bf38c8733fb40e07int, 1);
    let s = lemma_step_of_253_bits(0x6941747825185c74c21c65c0572a638494435ae0b3ba38e09b97aa8d26faec1int, s, 0x84d21ccfefd12ff29934941efe60ee3fbda4f0ca60f19ed7f8b78160358ff87int, 0x44e95a29b7b352004f72715089c4ed0fe23013d10b6a08cc7641dcf270774d9int, 0, 0);
    let s = lemma_step_of_253_bits(0x6941747825185c74c21c65c0572a638494435ae0b3ba38e09b97aa8d26faec1int, s, 0x5302bae34ed509ebc9e246d5460d9164075334553cc3fbfb3c38904befb314cint, 0x1aeac536d91a782585189e516ebfaf94f5bdabd96d68f2a2f76f3561acba767int, 0, 0);
    let s = lemma_step_of_253_bits(0x6941747825185c74c21c65c0572a638494435ae0b3ba38e09b97aa8d26faec1int, s, 0xfc30597c9e7d0cf52e553f4031062810972a7fabcb62efb4c7cccb3a16f4f35int, 0xf86f394f060983446d6ed54e8e6ec9f0e844cbe2777a739dc15591dd262a44fint, 0x1db40827a471ba7198e7ec08d3334e1ea1bbc35b6e84d23b121e6c08b1146cfint, 1);
    let s = lemma_step_of_253_bits(0x6941747825185c74c21c65c0572a638494435ae0b3ba38e09b97aa8d26faec1int, s, 0xc6cb70f0c69b2352bae4a1ccec803fd3ff5b8a487e6cb586e3448c23bf0b3int, 0x9a5f5460c2e684eaba2d082fd73fda47bb4ec0533514d95ca0b05c11c95int, 0, 0);
    let s = lemma_step_of_253_bits(0x6941747825185c74c21c65c0572a638494435ae0b3ba38e09b97aa8d26faec1int, s, 0xdd3dea2c4a473d33f12e89b2053340555ccd0afac9647fafebd735dbbe2d838int, 0xbf33f549e78f6512b3188be4006a391801dbbae48d1bb30c06ce04ac2381a94int, 0x3208c9f663f305f299f948e12d3ce554e818eb5ab62a0f12573eb3ba8fcc8bdint, 1);
    let s = lemma_step_of_253_bits(0x6941747825185c74c21c65c0572a638494435ae0b3ba38e09b97aa8d26faec1int, s, 0xbd162630298d2acca9c63c7a4328046a49909d5d621a37bed46fcbe2cd20c43int, 0x8ba9b64db353eadb123f38132b73ea3fe59788ec712a5c388f95d1e5d60df6dint, 0x3d3409b433add184851108ff87f262d1f63947b940ad5f1eccd40e23303573bint, 1);
    assert(s.0 == 0x32cdcafae152df290ed9fa9b80caa8174cbnat);
}

/// 0x1000000000000000000000000000000014def9dea2f79cd65812631a5cf5d3ed is prime: the prime 0x32cdcafae152df290ed9fa9b80caa8174cb, of square above it, divides its
/// predecessor.
pub proof fn lemma_prime_of_253_bits()
    ensures
        is_prime(0x1000000000000000000000000000000014def9dea2f79cd65812631a5cf5d3edint),
{
    lemma_prime_of_138_bits();
    if !is_prime(0x1000000000000000000000000000000014def9dea2f79cd65812631a5cf5d3edint) {
        lemma_power_of_253_bits_1();
        lemma_power_of_253_bits_2();
        lemma_pow_mod_mul(2, 0x509faf1d7c73cc776823a348caa44nat, 0x32cdcafae152df290ed9fa9b80caa8174cbnat, 0x1000000000000000000000000000000014def9dea2f79cd65812631a5cf5d3edint);
        assert(0x509faf1d7c73cc776823a348caa44nat * 0x32cdcafae152df290ed9fa9b80caa8174cbnat == 0x1000000000000000000000000000000014def9dea2f79cd65812631a5cf5d3ecnat);
        lemma_power_of_253_bits_1();
        let p = lemma_prime_factor(0x1000000000000000000000000000000014def9dea2f79cd65812631a5cf5d3edint);
        lemma_pow_mod_divisor(2, 0x1000000000000000000000000000000014def9dea2f79cd65812631a5cf5d3ecnat, 0x1000000000000000000000000000000014def9dea2f79cd65812631a5cf5d3edint, p);
        lemma_small_mod(1, p as nat);
        let d = lemma_order_exists(2, p, 0x1000000000000000000000000000000014def9dea2f79cd65812631a5cf5d3ecnat);
        assert((0x1000000000000000000000000000000014def9dea2f79cd65812631a5cf5d3edint - 1) / 0x32cdcafae152df290ed9fa9b80caa8174cbint == 0x509faf1d7c73cc776823a348caa44int);
        lemma_pocklington_factor(0x1000000000000000000000000000000014def9dea2f79cd65812631a5cf5d3edint, 2, 0x32cdcafae152df290ed9fa9b80caa8174cbint, 0x6941747825185c74c21c65c0572a638494435ae0b3ba38e09b97aa8d26faec1int, 0x4f00a20dc254447a5cb50de6926ccd209ebc28f00f1664a7d2f3930fbe411aeint, -0x207b7592275fb6004a6d5c2ecc8309eb91af8f6c5d2c999f10313442f424e9bint, p, d);
        lemma_pocklington_bound(0x1000000000000000000000000000000014def9dea2f79cd65812631a5cf5d3edint, 2, 0x32cdcafae152df290ed9fa9b80caa8174cbint, p, d);
    }
}

} // verus!
