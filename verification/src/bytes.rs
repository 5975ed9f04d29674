//! The 32-byte little-endian encoding of a number, to and from limbs.

use crate::limbs::{limbs_bounded, limbs_value, MASK52};
use vstd::prelude::*;

verus! {

/// The integer that 32 bytes stand for, least significant first.
pub open spec fn bytes_value(b: Seq<u8>) -> nat {
    (b[0] + b[1] * 0x100 + b[2] * 0x10000 + b[3] * 0x1000000 + b[4] * 0x100000000 + b[5] * 0x10000000000
        + b[6] * 0x1000000000000 + b[7] * 0x100000000000000 + b[8] * 0x10000000000000000 + b[9] * 0x1000000000000000000 + b[10] * 0x100000000000000000000 + b[11] * 0x10000000000000000000000
        + b[12] * 0x1000000000000000000000000 + b[13] * 0x100000000000000000000000000 + b[14] * 0x10000000000000000000000000000 + b[15] * 0x1000000000000000000000000000000 + b[16] * 0x100000000000000000000000000000000
        + b[17] * 0x10000000000000000000000000000000000 + b[18] * 0x1000000000000000000000000000000000000 + b[19] * 0x100000000000000000000000000000000000000 + b[20] * 0x10000000000000000000000000000000000000000 + b[21] * 0x1000000000000000000000000000000000000000000
        + b[22] * 0x100000000000000000000000000000000000000000000 + b[23] * 0x10000000000000000000000000000000000000000000000 + b[24] * 0x1000000000000000000000000000000000000000000000000 + b[25] * 0x100000000000000000000000000000000000000000000000000 + b[26] * 0x10000000000000000000000000000000000000000000000000000
        + b[27] * 0x1000000000000000000000000000000000000000000000000000000 + b[28] * 0x100000000000000000000000000000000000000000000000000000000 + b[29] * 0x10000000000000000000000000000000000000000000000000000000000 + b[30] * 0x1000000000000000000000000000000000000000000000000000000000000 + b[31] * 0x100000000000000000000000000000000000000000000000000000000000000) as nat
}

/// Eight bytes, least significant first, joined into a word.
proof fn lemma_word_of_bytes(b0: u8, b1: u8, b2: u8, b3: u8, b4: u8, b5: u8, b6: u8, b7: u8)
    by (bit_vector)
    ensures
        (b0 as u64) | (b1 as u64) << 8 | (b2 as u64) << 16 | (b3 as u64) << 24 | (b4 as u64) << 32
            | (b5 as u64) << 40 | (b6 as u64) << 48 | (b7 as u64) << 56 == b0 + b1 * 0x100 + b2 * 0x10000
            + b3 * 0x1000000 + b4 * 0x100000000 + b5 * 0x10000000000 + b6 * 0x1000000000000 + b7 * 0x100000000000000,
{
}

/// The limbs sliced out of four words, as quotients and remainders.
proof fn lemma_limbs_of_words(w0: u64, w1: u64, w2: u64, w3: u64)
    by (bit_vector)
    ensures
        w0 & 0xfffffffffffff == w0 % 0x10000000000000,
        ((w0 >> 52) | (w1 << 12)) & 0xfffffffffffff == w0 / 0x10000000000000 + (w1 % 0x10000000000) * 0x1000,
        ((w1 >> 40) | (w2 << 24)) & 0xfffffffffffff == w1 / 0x10000000000 + (w2 % 0x10000000) * 0x1000000,
        ((w2 >> 28) | (w3 << 36)) & 0xfffffffffffff == w2 / 0x10000000 + (w3 % 0x10000) * 0x1000000000,
        (w3 >> 16) & 0xffffffffffff == w3 / 0x10000,
{
}

/// Four words and the five limbs sliced out of them stand for one number.
proof fn lemma_words_value(w0: int, w1: int, w2: int, w3: int)
    requires
        0 <= w0 < 0x10000000000000000,
        0 <= w1 < 0x10000000000000000,
        0 <= w2 < 0x10000000000000000,
        0 <= w3 < 0x10000000000000000,
    ensures
        w0 % 0x10000000000000 + (w0 / 0x10000000000000 + (w1 % 0x10000000000) * 0x1000) * 0x10000000000000 + (w1 / 0x10000000000 + (w2 % 0x10000000) * 0x1000000) * 0x100000000000000000000000000 + (w2
            / 0x10000000 + (w3 % 0x10000) * 0x1000000000) * 0x1000000000000000000000000000000000000000 + (w3 / 0x10000) * 0x10000000000000000000000000000000000000000000000000000 == w0 + w1 * 0x10000000000000000 + w2 * 0x100000000000000000000000000000000 + w3
            * 0x1000000000000000000000000000000000000000000000000,
        w0 / 0x10000000000000 + (w1 % 0x10000000000) * 0x1000 < 0x10000000000000,
        w1 / 0x10000000000 + (w2 % 0x10000000) * 0x1000000 < 0x10000000000000,
        w2 / 0x10000000 + (w3 % 0x10000) * 0x1000000000 < 0x10000000000000,
        w3 / 0x10000 < 0x1000000000000,
{
}

/// The word made of the eight bytes that start at `8 * k`.
fn load_word(bytes: &[u8; 32], k: usize) -> (w: u64)
    requires
        k < 4,
    ensures
        w == bytes[8 * k as int] + bytes[8 * k + 1] * 0x100 + bytes[8 * k + 2] * 0x10000 + bytes[8 * k
            + 3] * 0x1000000 + bytes[8 * k + 4] * 0x100000000 + bytes[8 * k + 5] * 0x10000000000 + bytes[8 * k + 6] * 0x1000000000000
            + bytes[8 * k + 7] * 0x100000000000000,
{
    let i: usize = 8 * k;
    proof {
        lemma_word_of_bytes(
            bytes[i as int],
            bytes[i + 1],
            bytes[i + 2],
            bytes[i + 3],
            bytes[i + 4],
            bytes[i + 5],
            bytes[i + 6],
            bytes[i + 7],
        );
    }
    (bytes[i] as u64) | (bytes[i + 1] as u64) << 8 | (bytes[i + 2] as u64) << 16 | (bytes[i
        + 3] as u64) << 24 | (bytes[i + 4] as u64) << 32 | (bytes[i + 5] as u64) << 40 | (bytes[i
        + 6] as u64) << 48 | (bytes[i + 7] as u64) << 56
}

/// The number that 32 bytes stand for, as five limbs: the 256 bits sliced
/// into pieces of 52 bits across the byte boundaries.
pub(crate) fn limbs_from_bytes(bytes: &[u8; 32]) -> (s: [u64; 5])
    ensures
        limbs_bounded(s@),
        limbs_value(s@) == bytes_value(bytes@),
{
    let w0 = load_word(bytes, 0);
    let w1 = load_word(bytes, 1);
    let w2 = load_word(bytes, 2);
    let w3 = load_word(bytes, 3);
    let top_mask: u64 = 0xffffffffffff;
    proof {
        lemma_limbs_of_words(w0, w1, w2, w3);
        lemma_words_value(w0 as int, w1 as int, w2 as int, w3 as int);
    }
    [
        w0 & MASK52,
        ((w0 >> 52) | (w1 << 12)) & MASK52,
        ((w1 >> 40) | (w2 << 24)) & MASK52,
        ((w2 >> 28) | (w3 << 36)) & MASK52,
        (w3 >> 16) & top_mask,
    ]
}

/// The six low bytes of a limb, and the four bits above them.
proof fn lemma_low_bytes(x: u64)
    by (bit_vector)
    requires
        x <= 0xfffffffffffff,
    ensures
        (x as u8) + ((x >> 8) as u8) * 0x100 + ((x >> 16) as u8) * 0x10000 + ((x >> 24) as u8) * 0x1000000 + ((x
            >> 32) as u8) * 0x100000000 + ((x >> 40) as u8) * 0x10000000000 + (x >> 48) * 0x1000000000000 == x,
        x >> 48 <= 0xf,
        x <= 0xffffffffffff ==> x >> 48 == 0,
{
}

/// The byte that two neighbouring limbs share: the top four bits of the
/// lower limb and the low four bits of the upper one.
proof fn lemma_shared_byte(lo: u64, hi: u64)
    by (bit_vector)
    requires
        lo <= 0xfffffffffffff,
    ensures
        ((lo >> 48) | (hi << 4)) as u8 == (lo >> 48) + (hi % 16) * 16,
{
}

/// The low four bits of a limb, and the six bytes above them.
proof fn lemma_high_bytes(x: u64)
    by (bit_vector)
    requires
        x <= 0xfffffffffffff,
    ensures
        x % 16 + (((x >> 4) as u8) + ((x >> 12) as u8) * 0x100 + ((x >> 20) as u8) * 0x10000 + ((x
            >> 28) as u8) * 0x1000000 + ((x >> 36) as u8) * 0x100000000 + ((x >> 44) as u8) * 0x10000000000) * 16 == x,
{
}

/// The 32 bytes, least significant first, of a number below 2^256 that is
/// given by bounded limbs.
pub(crate) fn bytes_from_limbs(l: &[u64; 5]) -> (s: [u8; 32])
    requires
        limbs_bounded(l@),
        l[4] <= 0xffffffffffff,
    ensures
        bytes_value(s@) == limbs_value(l@),
{
    proof {
        lemma_low_bytes(l[0]);
        lemma_shared_byte(l[0], l[1]);
        lemma_high_bytes(l[1]);
        lemma_low_bytes(l[2]);
        lemma_shared_byte(l[2], l[3]);
        lemma_high_bytes(l[3]);
        lemma_low_bytes(l[4]);
    }
    [
        #[verifier::truncate] (l[0] as u8),
        #[verifier::truncate] ((l[0] >> 8) as u8),
        #[verifier::truncate] ((l[0] >> 16) as u8),
        #[verifier::truncate] ((l[0] >> 24) as u8),
        #[verifier::truncate] ((l[0] >> 32) as u8),
        #[verifier::truncate] ((l[0] >> 40) as u8),
        #[verifier::truncate] (((l[0] >> 48) | (l[1] << 4)) as u8),
        #[verifier::truncate] ((l[1] >> 4) as u8),
        #[verifier::truncate] ((l[1] >> 12) as u8),
        #[verifier::truncate] ((l[1] >> 20) as u8),
        #[verifier::truncate] ((l[1] >> 28) as u8),
        #[verifier::truncate] ((l[1] >> 36) as u8),
        #[verifier::truncate] ((l[1] >> 44) as u8),
        #[verifier::truncate] (l[2] as u8),
        #[verifier::truncate] ((l[2] >> 8) as u8),
        #[verifier::truncate] ((l[2] >> 16) as u8),
        #[verifier::truncate] ((l[2] >> 24) as u8),
        #[verifier::truncate] ((l[2] >> 32) as u8),
        #[verifier::truncate] ((l[2] >> 40) as u8),
        #[verifier::truncate] (((l[2] >> 48) | (l[3] << 4)) as u8),
        #[verifier::truncate] ((l[3] >> 4) as u8),
        #[verifier::truncate] ((l[3] >> 12) as u8),
        #[verifier::truncate] ((l[3] >> 20) as u8),
        #[verifier::truncate] ((l[3] >> 28) as u8),
        #[verifier::truncate] ((l[3] >> 36) as u8),
        #[verifier::truncate] ((l[3] >> 44) as u8),
        #[verifier::truncate] (l[4] as u8),
        #[verifier::truncate] ((l[4] >> 8) as u8),
        #[verifier::truncate] ((l[4] >> 16) as u8),
        #[verifier::truncate] ((l[4] >> 24) as u8),
        #[verifier::truncate] ((l[4] >> 32) as u8),
        #[verifier::truncate] ((l[4] >> 40) as u8),
    ]
}

} // verus!
