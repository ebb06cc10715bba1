//! Comparing byte strings and text.

use vstd::prelude::*;
use vstd::string::*;
use vstd::utf8::*;

verus! {

/// Whether two byte strings hold the same bytes.
pub fn bytes_eq(a: &[u8], b: &[u8]) -> (r: bool)
    ensures
        r == (a@ == b@),
{
    if a.len() != b.len() {
        return false;
    }
    let mut i: usize = 0;
    while i < a.len()
        invariant
            a@.len() == b@.len(),
            i <= a@.len(),
            forall|j: int| 0 <= j < i ==> a@[j] == b@[j],
        decreases a@.len() - i,
    {
        if a[i] != b[i] {
            return false;
        }
        i += 1;
    }
    assert(a@ =~= b@);
    true
}

/// Two texts with the same UTF-8 encoding are the same text.
pub proof fn lemma_encoding_is_injective(a: Seq<char>, b: Seq<char>)
    requires
        encode_utf8(a) == encode_utf8(b),
    ensures
        a == b,
{
    encode_utf8_decode_utf8(a);
    encode_utf8_decode_utf8(b);
}

/// Whether two texts are the same.
pub fn str_eq(a: &str, b: &str) -> (r: bool)
    ensures
        r == (a@ == b@),
{
    let same = bytes_eq(a.as_bytes(), b.as_bytes());
    proof {
        if same {
            lemma_encoding_is_injective(a@, b@);
        }
    }
    same
}

/// Whether `bytes` begins with `prefix`.
pub fn starts_with(bytes: &[u8], prefix: &[u8]) -> (r: bool)
    ensures
        r == prefix@.is_prefix_of(bytes@),
{
    if prefix.len() > bytes.len() {
        return false;
    }
    let mut i: usize = 0;
    while i < prefix.len()
        invariant
            prefix@.len() <= bytes@.len(),
            i <= prefix@.len(),
            forall|j: int| 0 <= j < i ==> prefix@[j] == bytes@[j],
        decreases prefix@.len() - i,
    {
        if prefix[i] != bytes[i] {
            assert(bytes@.subrange(0, prefix@.len() as int)[i as int] != prefix@[i as int]);
            return false;
        }
        i += 1;
    }
    assert(prefix@ =~= bytes@.subrange(0, prefix@.len() as int));
    true
}

/// The byte of the character `0`.
pub const DIGIT_ZERO: u8 = 48;

/// The byte of the character `9`.
pub const DIGIT_NINE: u8 = 57;

/// The byte of the character `+`.
pub const PLUS_SIGN: u8 = 43;

/// Whether a byte is a decimal digit.
pub open spec fn is_digit(b: u8) -> bool {
    DIGIT_ZERO <= b <= DIGIT_NINE
}

/// Whether a byte string is made of decimal digits only.
pub open spec fn all_digits(text: Seq<u8>) -> bool {
    forall|i: int| 0 <= i < text.len() ==> is_digit(#[trigger] text[i])
}

/// The number that a run of decimal digits writes.
pub open spec fn decimal_value(digits: Seq<u8>) -> nat
    decreases digits.len(),
{
    if digits.len() == 0 {
        0
    } else {
        decimal_value(digits.drop_last()) * 10 + (digits.last() - DIGIT_ZERO) as nat
    }
}

/// The digits of a decimal number as written: what follows an optional
/// leading plus sign.
pub open spec fn unsigned_digits(text: Seq<u8>) -> Seq<u8> {
    if text.len() > 0 && text[0] == PLUS_SIGN {
        text.skip(1)
    } else {
        text
    }
}

/// The number that `text` writes in decimal, if it writes one that fits 32
/// bits: one or more digits, with or without a plus sign before them, and
/// nothing else.
pub open spec fn decimal_u32(text: Seq<u8>) -> Option<u32> {
    let digits = unsigned_digits(text);
    if digits.len() > 0 && all_digits(digits) && decimal_value(digits) <= u32::MAX {
        Some(decimal_value(digits) as u32)
    } else {
        None
    }
}

/// A run of digits writes a number at least as large as any of its
/// beginnings does.
pub proof fn lemma_decimal_value_grows(digits: Seq<u8>, n: int)
    requires
        all_digits(digits),
        0 <= n <= digits.len(),
    ensures
        decimal_value(digits.take(n)) <= decimal_value(digits),
    decreases digits.len() - n,
{
    if n == digits.len() {
        assert(digits.take(n) =~= digits);
    } else {
        lemma_decimal_value_grows(digits, n + 1);
        assert(digits.take(n + 1).drop_last() =~= digits.take(n));
    }
}

/// Reads the decimal number that `bytes` writes from position `from` on.
pub fn parse_u32(bytes: &[u8], from: usize) -> (r: Option<u32>)
    requires
        from <= bytes@.len(),
    ensures
        r == decimal_u32(bytes@.skip(from as int)),
{
    let ghost text = bytes@.skip(from as int);
    let mut start: usize = from;
    if start < bytes.len() && bytes[start] == PLUS_SIGN {
        start = start + 1;
    }
    let ghost digits = unsigned_digits(text);
    assert(digits =~= bytes@.skip(start as int));
    if start == bytes.len() {
        return None;
    }
    let mut value: u64 = 0;
    let mut i: usize = start;
    while i < bytes.len()
        invariant
            start <= i <= bytes@.len(),
            digits == bytes@.skip(start as int),
            digits == unsigned_digits(bytes@.skip(from as int)),
            all_digits(digits.take(i - start)),
            value == decimal_value(digits.take(i - start)),
            value <= u32::MAX,
        decreases bytes@.len() - i,
    {
        let b: u8 = bytes[i];
        assert(digits[i - start] == b);
        if b < DIGIT_ZERO || b > DIGIT_NINE {
            assert(!is_digit(digits[i - start]));
            return None;
        }
        let ghost seen = digits.take(i - start + 1);
        assert(seen.drop_last() =~= digits.take(i - start));
        assert(all_digits(seen)) by {
            assert forall|j: int| 0 <= j < seen.len() implies is_digit(#[trigger] seen[j]) by {
                if j < i - start {
                    assert(seen[j] == digits.take(i - start)[j]);
                }
            }
        }
        value = value * 10 + (b - DIGIT_ZERO) as u64;
        if value > u32::MAX as u64 {
            proof {
                if all_digits(digits) {
                    lemma_decimal_value_grows(digits, i - start + 1);
                }
            }
            return None;
        }
        i += 1;
    }
    assert(digits.take(i - start) =~= digits);
    Some(value as u32)
}

} // verus!
