//! The content checksum of an artifact: 64-bit FNV-1a, and its spelling as
//! sixteen hexadecimal digits.
//!
//! The checksum is a function of the bytes alone. Changing any single byte
//! of an artifact changes it: each step of the hash is a bijection on the
//! running value, so a difference, once made, is never lost.

use vstd::prelude::*;
use vstd::arithmetic::div_mod::{
    lemma_fundamental_div_mod, lemma_mod_multiples_vanish, lemma_mul_mod_noop_left,
    lemma_small_mod,
};
use crate::text::{chars_of, string_of};

verus! {

/// The value an empty artifact hashes to.
pub const FNV_OFFSET: u64 = 0xcbf2_9ce4_8422_2325;

/// The multiplier of each step.
pub const FNV_PRIME: u64 = 0x0000_0100_0000_01b3;

/// One step of the hash: the running value after the byte `b`.
pub open spec fn mix(h: u64, b: u8) -> u64 {
    (((h ^ (b as u64)) as nat * FNV_PRIME as nat) % 0x1_0000_0000_0000_0000nat) as u64
}

/// The checksum of `bytes`.
pub open spec fn checksum_of(bytes: Seq<u8>) -> u64
    decreases bytes.len(),
{
    if bytes.len() == 0 {
        FNV_OFFSET
    } else {
        mix(checksum_of(bytes.drop_last()), bytes.last())
    }
}

/// The character of the hexadecimal digit `n`.
pub open spec fn hex_digit(n: int) -> char {
    if 0 <= n < 10 {
        ((48 + n) as u8) as char
    } else {
        ((87 + n) as u8) as char
    }
}

/// The last `width` hexadecimal digits of `value`, most significant first.
pub open spec fn hex_text(value: nat, width: nat) -> Seq<char>
    decreases width,
{
    if width == 0 {
        Seq::empty()
    } else {
        hex_text(value / 16, (width - 1) as nat).push(hex_digit((value % 16) as int))
    }
}

/// How a checksum is written: sixteen small hexadecimal digits.
pub open spec fn digest_of(sum: u64) -> Seq<char> {
    hex_text(sum as nat, 16)
}

/// The value of the hexadecimal digit `c`, if it is one written small.
pub open spec fn hex_value(c: char) -> Option<int> {
    if '0' <= c <= '9' {
        Some(c as int - 48)
    } else if 'a' <= c <= 'f' {
        Some(c as int - 87)
    } else {
        None
    }
}

/// The number that the hexadecimal digits `text` spell, if all of them are
/// digits.
pub open spec fn hex_number(text: Seq<char>) -> Option<nat>
    decreases text.len(),
{
    if text.len() == 0 {
        Some(0)
    } else {
        match (hex_number(text.drop_last()), hex_value(text.last())) {
            (Some(high), Some(low)) => Some((high * 16 + low) as nat),
            _ => None,
        }
    }
}

/// The checksum that `text` spells: sixteen hexadecimal digits, or nothing.
pub open spec fn digest_value(text: Seq<char>) -> Option<u64> {
    if text.len() == 16 {
        match hex_number(text) {
            Some(n) => if n <= u64::MAX {
                Some(n as u64)
            } else {
                None
            },
            None => None,
        }
    } else {
        None
    }
}

/// The multiplication of a step can be undone: the multiplier is odd, so
/// it has an inverse among the 64-bit numbers.
proof fn lemma_multiply_undone(a: u64)
    ensures
        ((((a as nat * FNV_PRIME as nat) % 0x1_0000_0000_0000_0000nat) as int)
            * 0xce96_5057_aff6_957bint) % 0x1_0000_0000_0000_0000int == a,
{
    let m = 0x1_0000_0000_0000_0000int;
    let p = FNV_PRIME as int;
    let q = 0xce96_5057_aff6_957bint;
    let k = 887285111055int;
    assert(p * q == 1 + k * m);
    let x = a as int;
    lemma_mul_mod_noop_left(x * p, q, m);
    assert((x * p) * q == m * (x * k) + x) by (nonlinear_arith)
        requires
            p * q == 1 + k * m,
    ;
    lemma_mod_multiples_vanish(x * k, x, m);
    lemma_small_mod(a as nat, m as nat);
    assert(a as nat * FNV_PRIME as nat == x * p) by (nonlinear_arith)
        requires
            x == a as nat,
            p == FNV_PRIME as nat,
    ;
}

/// A step keeps two running values apart.
pub proof fn lemma_mix_keeps_values_apart(h1: u64, h2: u64, b: u8)
    requires
        h1 != h2,
    ensures
        mix(h1, b) != mix(h2, b),
{
    let c = b as u64;
    assert(h1 ^ c != h2 ^ c) by (bit_vector)
        requires
            h1 != h2,
    ;
    lemma_multiply_undone(h1 ^ c);
    lemma_multiply_undone(h2 ^ c);
}

/// A step keeps two bytes apart.
pub proof fn lemma_mix_keeps_bytes_apart(h: u64, b1: u8, b2: u8)
    requires
        b1 != b2,
    ensures
        mix(h, b1) != mix(h, b2),
{
    let c1 = b1 as u64;
    let c2 = b2 as u64;
    assert(h ^ c1 != h ^ c2) by (bit_vector)
        requires
            c1 != c2,
    ;
    lemma_multiply_undone(h ^ c1);
    lemma_multiply_undone(h ^ c2);
}

/// The checksum depends on the bytes and on nothing else: two artifacts
/// with the same bytes have the same checksum, however often it is
/// computed.
pub proof fn lemma_checksum_repeatable(first: Seq<u8>, second: Seq<u8>)
    requires
        first.len() == second.len(),
        forall|i: int| 0 <= i < first.len() ==> first[i] == second[i],
    ensures
        checksum_of(first) == checksum_of(second),
{
    assert(first =~= second);
}

/// Changing one byte of an artifact changes its checksum.
pub proof fn lemma_checksum_detects_change(bytes: Seq<u8>, i: int, b: u8)
    requires
        0 <= i < bytes.len(),
        b != bytes[i],
    ensures
        checksum_of(bytes.update(i, b)) != checksum_of(bytes),
    decreases bytes.len(),
{
    let changed = bytes.update(i, b);
    if i == bytes.len() - 1 {
        assert(changed.drop_last() == bytes.drop_last());
        lemma_mix_keeps_bytes_apart(checksum_of(bytes.drop_last()), b, bytes[i]);
    } else {
        assert(changed.drop_last() == bytes.drop_last().update(i, b));
        lemma_checksum_detects_change(bytes.drop_last(), i, b);
        lemma_mix_keeps_values_apart(
            checksum_of(changed.drop_last()),
            checksum_of(bytes.drop_last()),
            bytes.last(),
        );
    }
}

/// A digit's character spells the digit.
pub proof fn lemma_hex_digit_value(n: int)
    requires
        0 <= n < 16,
    ensures
        hex_value(hex_digit(n)) == Some(n),
{
}

/// The digits written for a value spell the value's last digits.
pub proof fn lemma_hex_text_number(value: nat, width: nat)
    ensures
        hex_text(value, width).len() == width,
        hex_number(hex_text(value, width)) == Some(value % pow16(width)),
    decreases width,
{
    if width > 0 {
        let high = hex_text(value / 16, (width - 1) as nat);
        let text = hex_text(value, width);
        lemma_hex_text_number(value / 16, (width - 1) as nat);
        assert(text.drop_last() == high);
        lemma_hex_digit_value((value % 16) as int);
        let p = pow16((width - 1) as nat);
        lemma_pow16_positive((width - 1) as nat);
        lemma_mod_of_quotient(value, p);
    }
}

/// Sixteen to the power of `n`.
pub open spec fn pow16(n: nat) -> nat
    decreases n,
{
    if n == 0 {
        1
    } else {
        16 * pow16((n - 1) as nat)
    }
}

proof fn lemma_pow16_positive(n: nat)
    ensures
        pow16(n) > 0,
    decreases n,
{
    if n > 0 {
        lemma_pow16_positive((n - 1) as nat);
    }
}

/// The last digits of a value are the last digit after the last digits of
/// the value's sixteenth.
proof fn lemma_mod_of_quotient(value: nat, p: nat)
    requires
        p > 0,
    ensures
        ((value / 16) % p) * 16 + value % 16 == value % (16 * p),
{
    let q = value / 16;
    let r = value % 16;
    lemma_fundamental_div_mod(value as int, 16);
    lemma_fundamental_div_mod(q as int, p as int);
    let a = q / p;
    let b = q % p;
    assert(value == (16 * p) * a + (b * 16 + r)) by (nonlinear_arith)
        requires
            value == 16 * q + r,
            q == p * a + b,
    ;
    assert(b * 16 + r < 16 * p) by (nonlinear_arith)
        requires
            0 <= b < p,
            0 <= r < 16,
    ;
    lemma_mod_multiples_vanish(a as int, (b * 16 + r) as int, (16 * p) as int);
    lemma_small_mod((b * 16 + r) as nat, (16 * p) as nat);
}

/// A checksum that is written out and read again is the same checksum.
pub proof fn lemma_digest_round_trip(sum: u64)
    ensures
        digest_value(digest_of(sum)) == Some(sum),
{
    lemma_hex_text_number(sum as nat, 16);
    assert(pow16(16) == 0x1_0000_0000_0000_0000nat) by {
        reveal_with_fuel(pow16, 17);
    }
    lemma_small_mod(sum as nat, 0x1_0000_0000_0000_0000nat);
}

/// The checksum of `bytes`.
pub fn checksum(bytes: &[u8]) -> (sum: u64)
    ensures
        sum == checksum_of(bytes@),
{
    let mut sum: u64 = FNV_OFFSET;
    let mut i: usize = 0;
    assert(bytes@.take(0) == Seq::<u8>::empty());
    while i < bytes.len()
        invariant
            i <= bytes.len(),
            sum == checksum_of(bytes@.take(i as int)),
        decreases bytes.len() - i,
    {
        assert(bytes@.take(i + 1).drop_last() == bytes@.take(i as int));
        sum = (sum ^ (bytes[i] as u64)).wrapping_mul(FNV_PRIME);
        i += 1;
    }
    assert(bytes@.take(bytes.len() as int) == bytes@);
    sum
}

/// The character of the hexadecimal digit `n`.
fn digit_char(n: u8) -> (c: char)
    requires
        n < 16,
    ensures
        c == hex_digit(n as int),
{
    if n < 10 {
        (48 + n) as char
    } else {
        (87 + n) as char
    }
}

/// Appends the last `width` hexadecimal digits of `value` to `out`.
fn push_hex(value: u64, width: u8, out: &mut Vec<char>)
    ensures
        final(out)@ == old(out)@ + hex_text(value as nat, width as nat),
    decreases width,
{
    if width > 0 {
        push_hex(value / 16, width - 1, out);
        out.push(digit_char((value % 16) as u8));
    }
}

/// How the checksum `sum` is written: sixteen small hexadecimal digits.
pub fn digest_text(sum: u64) -> (out: String)
    ensures
        out@ == digest_of(sum),
{
    let mut digits: Vec<char> = Vec::new();
    push_hex(sum, 16, &mut digits);
    string_of(digits.as_slice())
}

/// The checksum that `text` spells, or `None` unless `text` is sixteen
/// small hexadecimal digits.
pub fn parse_digest(text: &str) -> (out: Option<u64>)
    ensures
        out == digest_value(text@),
{
    let chars = chars_of(text);
    if chars.len() != 16 {
        return None;
    }
    let mut value: u64 = 0;
    let mut i: usize = 0;
    assert(chars@.take(0) == Seq::<char>::empty());
    proof {
        lemma_pow16_bound();
        lemma_pow16_monotonic(0, 16);
    }
    while i < 16
        invariant
            i <= 16,
            chars.len() == 16,
            chars@ == text@,
            hex_number(chars@.take(i as int)) == Some(value as nat),
            value < pow16(i as nat),
            pow16(i as nat) <= pow16(16),
            pow16(16) == 0x1_0000_0000_0000_0000nat,
        decreases 16 - i,
    {
        let c = chars[i];
        let ghost prefix = chars@.take(i + 1);
        assert(prefix.drop_last() == chars@.take(i as int));
        assert(prefix.last() == c);
        let low: u64 = if '0' <= c && c <= '9' {
            (c as u64) - 48
        } else if 'a' <= c && c <= 'f' {
            (c as u64) - 87
        } else {
            proof {
                assert(hex_value(c) is None);
                assert(hex_number(prefix) is None);
                lemma_hex_number_fails(chars@, prefix);
            }
            return None;
        };
        proof {
            lemma_pow16_step(i as nat, value as nat, low as nat);
        }
        value = value * 16 + low;
        i += 1;
    }
    assert(chars@.take(16) == chars@);
    Some(value)
}

/// Sixteen to the sixteenth power is one more than the largest checksum.
proof fn lemma_pow16_bound()
    ensures
        pow16(16) == 0x1_0000_0000_0000_0000nat,
{
    reveal_with_fuel(pow16, 17);
}

/// One more digit keeps a number below the next power, and the powers up
/// to the sixteenth below the sixteenth.
proof fn lemma_pow16_step(i: nat, value: nat, low: nat)
    requires
        i < 16,
        value < pow16(i),
        low < 16,
    ensures
        value * 16 + low < pow16(i + 1),
        pow16(i + 1) <= pow16(16),
        pow16(16) == 0x1_0000_0000_0000_0000nat,
{
    lemma_pow16_bound();
    lemma_pow16_monotonic(i + 1, 16);
}

proof fn lemma_pow16_monotonic(a: nat, b: nat)
    requires
        a <= b,
    ensures
        pow16(a) <= pow16(b),
    decreases b,
{
    if a < b {
        lemma_pow16_monotonic(a, (b - 1) as nat);
    }
}

/// Where a part of a text from its start spells no number, the text spells
/// none.
proof fn lemma_hex_number_fails(text: Seq<char>, prefix: Seq<char>)
    requires
        prefix.is_prefix_of(text),
        hex_number(prefix) is None,
    ensures
        hex_number(text) is None,
    decreases text.len(),
{
    if text.len() > prefix.len() {
        assert(prefix.is_prefix_of(text.drop_last())) by {
            assert(text.drop_last().subrange(0, prefix.len() as int) == text.subrange(
                0,
                prefix.len() as int,
            ));
        }
        lemma_hex_number_fails(text.drop_last(), prefix);
    } else {
        assert(text == prefix);
    }
}

} // verus!
