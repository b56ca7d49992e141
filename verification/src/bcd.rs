//! Binary-to-BCD conversion by the double-dabble algorithm.
//!
//! A two-digit decimal value is packed into one byte: the tens digit in the
//! high nibble, the ones digit in the low nibble.

use vstd::prelude::*;
use vstd::arithmetic::power2::{pow2, lemma2_to64, lemma_pow2_adds, lemma_pow2_pos};
use vstd::arithmetic::div_mod::{
    lemma_fundamental_div_mod, lemma_fundamental_div_mod_converse, lemma_div_denominator,
    lemma_div_is_ordered, lemma_div_is_ordered_by_denominator,
};

verus! {

/// The packed BCD byte that encodes `n`: tens digit in the high nibble,
/// ones digit in the low nibble.
pub open spec fn bcd_encoding(n: int) -> int {
    (n / 10) * 16 + n % 10
}

/// The two-digit decimal value that a packed BCD byte `b` stands for, when
/// its two nibbles are read as decimal digits.
pub open spec fn bcd_decoding(b: int) -> int {
    (b / 16) * 10 + b % 16
}

/// Reading the nibbles of `bcd_encoding(n)` as decimal digits gives back
/// `n`: the encoding round-trips for every representable value, and both
/// nibbles are in decimal-digit range.
pub proof fn lemma_bcd_round_trip(n: int)
    requires
        0 <= n <= 99,
    ensures
        bcd_decoding(bcd_encoding(n)) == n,
        bcd_encoding(n) / 16 == n / 10,
        bcd_encoding(n) % 16 == n % 10,
        0 <= bcd_encoding(n) / 16 <= 9,
        0 <= bcd_encoding(n) % 16 <= 9,
{
    let d1 = n / 10;
    let d0 = n % 10;
    lemma_fundamental_div_mod(n, 10);
    lemma_div_is_ordered(n, 99, 10);
    lemma_fundamental_div_mod_converse(bcd_encoding(n), 16, d1, d0);
}

/// One shift step of double-dabble: if the accumulator holds the BCD
/// encoding of a prefix value `p`, adjusting the ones nibble and then
/// doubling and injecting the next bit yields the encoding of `2p + b`.
proof fn lemma_bcd_step(p: int, b: int)
    requires
        0 <= p <= 49,
        0 <= b <= 1,
    ensures
        ({
            let adjusted = if p % 10 >= 5 {
                bcd_encoding(p) + 3
            } else {
                bcd_encoding(p)
            };
            adjusted * 2 + b == bcd_encoding(2 * p + b)
        }),
{
    let d1 = p / 10;
    let d0 = p % 10;
    lemma_fundamental_div_mod(p, 10);
    lemma_div_is_ordered(p, 49, 10);
    if d0 >= 5 {
        lemma_fundamental_div_mod_converse(2 * p + b, 10, 2 * d1 + 1, 2 * d0 + b - 10);
    } else {
        lemma_fundamental_div_mod_converse(2 * p + b, 10, 2 * d1, 2 * d0 + b);
    }
}

/// Converts a two-digit decimal number into its packed BCD encoding by the
/// double-dabble algorithm: the eight source bits are consumed from the most
/// significant down, and before each doubling of the accumulator a nibble
/// holding five or more has three added, which keeps every nibble a decimal
/// digit throughout.
///
/// Values above 99 have no two-nibble decimal form, so they yield `None`.
pub fn bin_to_bcd(number: u8) -> (r: Option<u8>)
    ensures
        number > 99 <==> r is None,
        number <= 99 ==> r == Some(bcd_encoding(number as int) as u8),
{
    if number > 99 {
        return None;
    }
    let mut result: u8 = 0;
    let mut d: u8 = 128;
    let mut i: usize = 0;
    proof {
        lemma2_to64();
        lemma_fundamental_div_mod_converse(number as int, 256, 0, number as int);
    }
    while i < 8
        invariant
            number <= 99,
            i <= 8,
            i < 8 ==> d as int == pow2((7 - i) as nat),
            result as int == bcd_encoding(number as int / pow2((8 - i) as nat) as int),
        decreases 8 - i,
    {
        proof {
            lemma2_to64();
        }
        let ghost p: int = number as int / pow2((8 - i) as nat) as int;
        let ghost q: int = number as int / pow2((7 - i) as nat) as int;
        proof {
            lemma_pow2_pos((7 - i) as nat);
            lemma_pow2_adds((7 - i) as nat, 1);
            lemma_div_denominator(number as int, pow2((7 - i) as nat) as int, 2);
            lemma_fundamental_div_mod(q, 2);
            // p is the prefix of `number` one bit shorter than q, so q = 2p + bit.
            lemma_div_is_ordered_by_denominator(number as int, 2, pow2((8 - i) as nat) as int);
            lemma_div_is_ordered(number as int, 99, 2);
            lemma_bcd_step(p, q % 2);
            lemma_fundamental_div_mod(result as int, 16);
            lemma_fundamental_div_mod(p, 10);
            lemma_div_is_ordered(p, 49, 10);
            lemma_fundamental_div_mod_converse(result as int, 16, p / 10, p % 10);
        }
        let bit = (number / d) % 2;
        if result % 16 >= 5 {
            result = result + 3;
        }
        if result / 16 >= 5 {
            result = result + 48;
        }
        result = result * 2 + bit;
        d = d / 2;
        i = i + 1;
    }
    proof {
        lemma2_to64();
        lemma_fundamental_div_mod_converse(number as int, 1, number as int, 0);
    }
    Some(result)
}

} // verus!
