//! Conversion between 64-bit words and wide integers.
//!
//! The engine stores an integer as a run of 64-bit words. The host reads up
//! to two of them as one `u128` and writes a `u128` back as exactly two, by
//! laying the words out as bytes in the byte order of the machine and reading
//! those bytes again at the other width.

use vstd::arithmetic::div_mod::lemma_breakdown;
use vstd::arithmetic::div_mod::lemma_div_denominator;
use vstd::endian::endianness;
use vstd::endian::Endian;
use vstd::prelude::*;
use vstd::slice::slice_subrange;

verus! {

/// 2 to the power 64: the number of values of one word.
pub open spec fn word_radix() -> nat {
    0x1_0000_0000_0000_0000
}

/// 256 to the power `n`: the number of values of `n` bytes.
pub open spec fn byte_radix(n: nat) -> nat
    decreases n,
{
    if n == 0 {
        1
    } else {
        256 * byte_radix((n - 1) as nat)
    }
}

/// The `n` low bytes of `x`, least significant byte first.
pub open spec fn le_bytes(x: nat, n: nat) -> Seq<u8>
    decreases n,
{
    if n == 0 {
        Seq::empty()
    } else {
        seq![(x % 256) as u8] + le_bytes(x / 256, (n - 1) as nat)
    }
}

/// The number that `bytes` spell, least significant byte first.
pub open spec fn le_value(bytes: Seq<u8>) -> nat
    decreases bytes.len(),
{
    if bytes.len() == 0 {
        0
    } else {
        bytes[0] as nat + 256 * le_value(bytes.drop_first())
    }
}

/// The `n` low bytes of `x` in the given byte order.
pub open spec fn ordered_bytes(order: Endian, x: nat, n: nat) -> Seq<u8> {
    match order {
        Endian::Little => le_bytes(x, n),
        Endian::Big => le_bytes(x, n).reverse(),
    }
}

/// The number that `bytes` spell in the given byte order.
pub open spec fn ordered_value(order: Endian, bytes: Seq<u8>) -> nat {
    match order {
        Endian::Little => le_value(bytes),
        Endian::Big => le_value(bytes.reverse()),
    }
}

/// The integer that one or two words stand for in the given byte order.
///
/// One word is its own value. Of two words, the one whose bytes come first in
/// memory is the low half on a little-endian machine and the high half on a
/// big-endian one.
pub open spec fn wide_value(order: Endian, words: Seq<u64>) -> nat
    recommends
        1 <= words.len() <= 2,
{
    if words.len() == 1 {
        words[0] as nat
    } else {
        match order {
            Endian::Little => words[0] as nat + word_radix() * words[1] as nat,
            Endian::Big => word_radix() * words[0] as nat + words[1] as nat,
        }
    }
}

/// The two words that a 128-bit integer is written as in the given byte order.
pub open spec fn wide_words(order: Endian, value: nat) -> Seq<u64> {
    let low = (value % word_radix()) as u64;
    let high = ((value / word_radix()) % word_radix()) as u64;
    match order {
        Endian::Little => seq![low, high],
        Endian::Big => seq![high, low],
    }
}

pub proof fn lemma_byte_radix_values()
    ensures
        byte_radix(0) == 1,
        byte_radix(8) == word_radix(),
        byte_radix(16) == word_radix() * word_radix(),
        byte_radix(16) == 0x1_0000_0000_0000_0000_0000_0000_0000_0000,
{
    reveal_with_fuel(byte_radix, 9);
    assert(byte_radix(8) == 0x1_0000_0000_0000_0000);
    assert(byte_radix(16) == byte_radix(8) * byte_radix(8)) by {
        lemma_byte_radix_sum(8, 8);
    }
}

pub proof fn lemma_byte_radix_sum(n: nat, m: nat)
    ensures
        byte_radix(n + m) == byte_radix(n) * byte_radix(m),
        byte_radix(n) > 0,
    decreases n,
{
    if n == 0 {
    } else {
        lemma_byte_radix_sum((n - 1) as nat, m);
        assert(byte_radix(n + m) == 256 * byte_radix((n - 1 + m) as nat));
        assert(256 * (byte_radix((n - 1) as nat) * byte_radix(m)) == (256 * byte_radix(
            (n - 1) as nat,
        )) * byte_radix(m)) by (nonlinear_arith);
    }
}

pub proof fn lemma_le_bytes_len(x: nat, n: nat)
    ensures
        le_bytes(x, n).len() == n,
    decreases n,
{
    if n > 0 {
        lemma_le_bytes_len(x / 256, (n - 1) as nat);
    }
}

/// Reading back the `n` low bytes of `x` gives `x` modulo 256 to the `n`.
pub proof fn lemma_le_value_of_bytes(x: nat, n: nat)
    ensures
        le_value(le_bytes(x, n)) == x % byte_radix(n),
    decreases n,
{
    if n == 0 {
    } else {
        let rest = le_bytes(x / 256, (n - 1) as nat);
        let all = le_bytes(x, n);
        lemma_le_bytes_len(x / 256, (n - 1) as nat);
        lemma_le_value_of_bytes(x / 256, (n - 1) as nat);
        assert(all.drop_first() =~= rest);
        assert(all[0] == (x % 256) as u8);
        let r = byte_radix((n - 1) as nat);
        lemma_byte_radix_sum((n - 1) as nat, 0);
        lemma_breakdown(x as int, 256, r as int);
        assert(le_value(all) == x % 256 + 256 * ((x / 256) % r));
    }
}

/// The value of two runs of bytes laid end to end.
pub proof fn lemma_le_value_concat(a: Seq<u8>, b: Seq<u8>)
    ensures
        le_value(a + b) == le_value(a) + byte_radix(a.len()) * le_value(b),
    decreases a.len(),
{
    if a.len() == 0 {
        assert(a + b =~= b);
    } else {
        lemma_le_value_concat(a.drop_first(), b);
        assert((a + b).drop_first() =~= a.drop_first() + b);
        assert((a + b)[0] == a[0]);
        let r = byte_radix((a.len() - 1) as nat);
        let vb = le_value(b);
        let va = le_value(a.drop_first());
        assert(le_value(a + b) == a[0] as nat + 256 * (va + r * vb));
        assert(byte_radix(a.len()) == 256 * r);
        assert(256 * (va + r * vb) == 256 * va + (256 * r) * vb) by (nonlinear_arith);
    }
}

/// The low bytes of a number are the bytes of its low part, and the bytes
/// above them are the bytes of what is left.
pub proof fn lemma_le_bytes_split(x: nat, n: nat, m: nat)
    ensures
        le_bytes(x, n + m) == le_bytes(x, n) + le_bytes(x / byte_radix(n), m),
    decreases n,
{
    if n == 0 {
        assert(byte_radix(0) == 1);
        assert(x / 1 == x);
        assert(le_bytes(x, 0) + le_bytes(x, m) =~= le_bytes(x, m));
    } else {
        lemma_le_bytes_split(x / 256, (n - 1) as nat, m);
        let r = byte_radix((n - 1) as nat);
        lemma_byte_radix_sum((n - 1) as nat, 0);
        lemma_div_denominator(x as int, 256, r as int);
        assert(byte_radix(n) == 256 * r);
        assert((x / 256) / r == x / byte_radix(n));
        assert(le_bytes(x, n + m) =~= seq![(x % 256) as u8] + le_bytes(
            x / 256,
            (n - 1 + m) as nat,
        ));
        assert(le_bytes(x, n) =~= seq![(x % 256) as u8] + le_bytes(x / 256, (n - 1) as nat));
        assert(le_bytes(x, n + m) =~= le_bytes(x, n) + le_bytes(x / byte_radix(n), m));
    }
}

/// Two words laid out as bytes in one order and read as one integer in the
/// same order give the integer that `wide_value` names.
pub proof fn lemma_two_words_as_bytes(order: Endian, first: u64, second: u64)
    ensures
        ordered_value(
            order,
            ordered_bytes(order, first as nat, 8) + ordered_bytes(order, second as nat, 8),
        ) == wide_value(order, seq![first, second]),
{
    let a = le_bytes(first as nat, 8);
    let b = le_bytes(second as nat, 8);
    lemma_byte_radix_values();
    lemma_le_bytes_len(first as nat, 8);
    lemma_le_bytes_len(second as nat, 8);
    lemma_le_value_of_bytes(first as nat, 8);
    lemma_le_value_of_bytes(second as nat, 8);
    match order {
        Endian::Little => {
            lemma_le_value_concat(a, b);
        },
        Endian::Big => {
            assert((a.reverse() + b.reverse()).reverse() =~= b + a);
            lemma_le_value_concat(b, a);
        },
    }
}

/// One word laid out as bytes and read back in the same order is itself.
pub proof fn lemma_one_word_as_bytes(order: Endian, word: u64)
    ensures
        ordered_value(order, ordered_bytes(order, word as nat, 8)) == word as nat,
{
    let a = le_bytes(word as nat, 8);
    lemma_byte_radix_values();
    lemma_le_value_of_bytes(word as nat, 8);
    assert(a.reverse().reverse() =~= a);
}

/// Each half of the sixteen bytes of an integer, read as one word in the
/// same order, is the word that `wide_words` names.
pub proof fn lemma_bytes_as_two_words(order: Endian, value: nat)
    requires
        value < word_radix() * word_radix(),
    ensures
        ordered_bytes(order, value, 16).len() == 16,
        ordered_value(order, ordered_bytes(order, value, 16).subrange(0, 8)) == wide_words(
            order,
            value,
        )[0],
        ordered_value(order, ordered_bytes(order, value, 16).subrange(8, 16)) == wide_words(
            order,
            value,
        )[1],
{
    let all = le_bytes(value, 16);
    let low = le_bytes(value, 8);
    let high = le_bytes(value / word_radix(), 8);
    lemma_byte_radix_values();
    lemma_le_bytes_len(value, 16);
    lemma_le_bytes_len(value, 8);
    lemma_le_bytes_len(value / word_radix(), 8);
    lemma_le_bytes_split(value, 8, 8);
    lemma_le_value_of_bytes(value, 8);
    lemma_le_value_of_bytes(value / word_radix(), 8);
    assert(all =~= low + high);
    assert(all.subrange(0, 8) =~= low);
    assert(all.subrange(8, 16) =~= high);
    match order {
        Endian::Little => {},
        Endian::Big => {
            assert(all.reverse().subrange(0, 8).reverse() =~= high);
            assert(all.reverse().subrange(8, 16).reverse() =~= low);
        },
    }
}

/// Writing an integer below 2 to the 128 as two words and reading the two
/// words back gives the integer, in either byte order.
pub proof fn lemma_two_word_round_trip(order: Endian, value: nat)
    requires
        value < word_radix() * word_radix(),
    ensures
        wide_words(order, value).len() == 2,
        wide_value(order, wide_words(order, value)) == value,
{
    let r = word_radix();
    assert(value / r < r) by (nonlinear_arith)
        requires
            value < r * r,
            r > 0,
    ;
    assert(value == r * (value / r) + value % r) by (nonlinear_arith)
        requires
            r > 0,
    ;
}

/// On a little-endian machine an integer below 2 to the 64 is the first of
/// its two words, so reading that word alone gives it back.
pub proof fn lemma_one_word_round_trip(value: nat)
    requires
        value < word_radix(),
    ensures
        wide_value(Endian::Little, wide_words(Endian::Little, value).take(1)) == value,
        wide_words(Endian::Little, value)[1] == 0,
{
}

/// The bytes of a word in the byte order of the machine.
///
/// Trusted: `u64::to_ne_bytes` returns the eight bytes of its argument as
/// they lie in memory, that is least significant byte first on a
/// little-endian machine and most significant byte first on a big-endian one.
#[verifier::external_body]
fn u64_to_ne_bytes(word: u64) -> (bytes: Vec<u8>)
    ensures
        bytes@ == ordered_bytes(endianness(), word as nat, 8),
{
    word.to_ne_bytes().to_vec()
}

/// The word that eight bytes spell in the byte order of the machine.
///
/// Trusted: `u64::from_ne_bytes` reads its eight bytes as they lie in
/// memory, the inverse of `u64::to_ne_bytes`.
#[verifier::external_body]
fn u64_from_ne_bytes(bytes: &[u8]) -> (word: u64)
    requires
        bytes@.len() == 8,
    ensures
        word as nat == ordered_value(endianness(), bytes@),
{
    u64::from_ne_bytes(bytes.try_into().unwrap())
}

/// The bytes of a 128-bit integer in the byte order of the machine.
///
/// Trusted: `u128::to_ne_bytes` returns the sixteen bytes of its argument as
/// they lie in memory.
#[verifier::external_body]
fn u128_to_ne_bytes(value: u128) -> (bytes: Vec<u8>)
    ensures
        bytes@ == ordered_bytes(endianness(), value as nat, 16),
{
    value.to_ne_bytes().to_vec()
}

/// The 128-bit integer that sixteen bytes spell in the byte order of the
/// machine.
///
/// Trusted: `u128::from_ne_bytes` reads its sixteen bytes as they lie in
/// memory, the inverse of `u128::to_ne_bytes`.
#[verifier::external_body]
fn u128_from_ne_bytes(bytes: &[u8]) -> (value: u128)
    requires
        bytes@.len() == 16,
    ensures
        value as nat == ordered_value(endianness(), bytes@),
{
    u128::from_ne_bytes(bytes.try_into().unwrap())
}

/// Reads one or two words as one integer.
///
/// The words are laid out as bytes one after the other and the bytes are
/// read as a single integer, all in the byte order of the machine. More than
/// two words have no 128-bit value and are not accepted.
pub fn decode_wide_int(words: &[u64]) -> (value: u128)
    requires
        1 <= words@.len() <= 2,
    ensures
        value as nat == wide_value(endianness(), words@),
{
    let mut bytes: Vec<u8> = u64_to_ne_bytes(words[0]);
    if words.len() > 1 {
        let mut rest: Vec<u8> = u64_to_ne_bytes(words[1]);
        bytes.append(&mut rest);
        proof {
            lemma_two_words_as_bytes(endianness(), words@[0], words@[1]);
            lemma_le_bytes_len(words@[0] as nat, 8);
            lemma_le_bytes_len(words@[1] as nat, 8);
            assert(words@ =~= seq![words@[0], words@[1]]);
        }
        u128_from_ne_bytes(bytes.as_slice())
    } else {
        proof {
            lemma_one_word_as_bytes(endianness(), words@[0]);
            lemma_le_bytes_len(words@[0] as nat, 8);
        }
        let word: u64 = u64_from_ne_bytes(bytes.as_slice());
        word as u128
    }
}

/// Writes an integer as two words, whatever its size.
///
/// The sixteen bytes of the integer, in the byte order of the machine, are
/// cut into two runs of eight and each run is read as one word.
pub fn encode_wide_int(value: u128) -> (words: Vec<u64>)
    ensures
        words@ == wide_words(endianness(), value as nat),
        words@.len() == 2,
{
    let bytes: Vec<u8> = u128_to_ne_bytes(value);
    proof {
        lemma_byte_radix_values();
        lemma_bytes_as_two_words(endianness(), value as nat);
    }
    let first: u64 = u64_from_ne_bytes(slice_subrange(bytes.as_slice(), 0, 8));
    let second: u64 = u64_from_ne_bytes(slice_subrange(bytes.as_slice(), 8, 16));
    let mut words: Vec<u64> = Vec::new();
    words.push(first);
    words.push(second);
    proof {
        assert(words@ =~= wide_words(endianness(), value as nat));
    }
    words
}

} // verus!
