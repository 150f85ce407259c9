//! Reading unsigned numbers written as text: in a given radix, optionally after a prefix that
//! names the radix, as register descriptions and profile lists write them.

use vstd::prelude::*;
use vstd::string::StringSliceAdditionalSpecFns;

verus! {

/// The value of an ASCII character as a digit: decimal digits, then letters of either case
/// from ten onwards; 36 for any other byte (no radix accepts it).
pub open spec fn digit_value(c: u8) -> int {
    if 0x30 <= c <= 0x39 {
        c - 0x30
    } else if 0x61 <= c <= 0x7A {
        c - 0x61 + 10
    } else if 0x41 <= c <= 0x5A {
        c - 0x41 + 10
    } else {
        36
    }
}

/// Whether every byte of `s` is a digit of the given radix.
pub open spec fn all_digits(s: Seq<u8>, radix: u32) -> bool {
    forall|i: int| 0 <= i < s.len() ==> #[trigger] digit_value(s[i]) < radix
}

/// The value of a sequence of digits in the given radix, most significant digit first.
pub open spec fn digits_value(s: Seq<u8>, radix: u32) -> int
    decreases s.len(),
{
    if s.len() == 0 {
        0
    } else {
        digits_value(s.drop_last(), radix) * radix + digit_value(s.last())
    }
}

/// The digits of an unsigned number: the text without a leading plus sign, if it has one.
pub open spec fn unsigned_digits(s: Seq<u8>) -> Seq<u8> {
    if s.len() > 0 && s[0] == 0x2B {
        s.drop_first()
    } else {
        s
    }
}

/// The unsigned number written in `s` in the given radix: an optional plus sign, then at least
/// one digit; `None` if the text is not of that form or the number exceeds `max`.
pub open spec fn parse_unsigned(s: Seq<u8>, radix: u32, max: int) -> Option<nat> {
    let d = unsigned_digits(s);
    if d.len() > 0 && all_digits(d, radix) && 0 <= digits_value(d, radix) <= max {
        Some(digits_value(d, radix) as nat)
    } else {
        None
    }
}

/// Extending a sequence of digits never makes its value smaller, and no value is negative.
proof fn lemma_digits_value_grows(s: Seq<u8>, k: int, radix: u32)
    requires
        0 <= k <= s.len(),
        radix >= 2,
    ensures
        0 <= digits_value(s.subrange(0, k), radix) <= digits_value(s, radix),
    decreases s.len() - k,
{
    if k < s.len() {
        lemma_digits_value_grows(s, k + 1, radix);
        let p = s.subrange(0, k + 1);
        assert(p.drop_last() =~= s.subrange(0, k));
        lemma_digits_value_nonnegative(s.subrange(0, k), radix);
        let v = digits_value(s.subrange(0, k), radix);
        assert(v * radix >= v) by (nonlinear_arith)
            requires
                v >= 0,
                radix >= 2,
        ;
        assert(digits_value(p, radix) == v * radix + digit_value(p.last()));
    } else {
        assert(s.subrange(0, k) == s);
        lemma_digits_value_nonnegative(s, radix);
    }
}

/// The value of a sequence of digits is not negative.
proof fn lemma_digits_value_nonnegative(s: Seq<u8>, radix: u32)
    ensures
        digits_value(s, radix) >= 0,
    decreases s.len(),
{
    if s.len() > 0 {
        lemma_digits_value_nonnegative(s.drop_last(), radix);
        let v = digits_value(s.drop_last(), radix);
        assert(v * radix >= 0) by (nonlinear_arith)
            requires
                v >= 0,
        ;
    }
}

/// Returns the value of an ASCII character as a digit (36 for bytes that are no digit).
fn digit_of(c: u8) -> (ret: u32)
    ensures
        ret == digit_value(c),
{
    if c >= 0x30 && c <= 0x39 {
        (c - 0x30) as u32
    } else if c >= 0x61 && c <= 0x7A {
        (c - 0x61 + 10) as u32
    } else if c >= 0x41 && c <= 0x5A {
        (c - 0x41 + 10) as u32
    } else {
        36
    }
}

/// Reads the unsigned number written in `s` in the given radix (see [parse_unsigned]).
pub fn parse_unsigned_radix(s: &[u8], radix: u32, max: u32) -> (ret: Option<u32>)
    requires
        2 <= radix <= 36,
    ensures
        match parse_unsigned(s@, radix, max as int) {
            Some(v) => ret == Some(v as u32),
            None => ret is None,
        },
{
    let start: usize = if s.len() > 0 && s[0] == 0x2B {
        1
    } else {
        0
    };
    let ghost d = unsigned_digits(s@);
    assert(d == s@.subrange(start as int, s@.len() as int));
    if start == s.len() {
        return None;
    }
    let mut acc: u64 = 0;
    let mut i: usize = start;
    while i < s.len()
        invariant
            start <= i <= s@.len(),
            d == s@.subrange(start as int, s@.len() as int),
            d == unsigned_digits(s@),
            2 <= radix <= 36,
            acc <= max,
            acc == digits_value(d.subrange(0, i - start), radix),
            forall|j: int| 0 <= j < i - start ==> #[trigger] digit_value(d[j]) < radix,
        decreases s@.len() - i,
    {
        let digit = digit_of(s[i]);
        assert(d[i - start] == s@[i as int]);
        if digit >= radix {
            assert(digit_value(d[i - start]) >= radix);
            assert(!all_digits(d, radix));
            return None;
        }
        assert(acc * (radix as u64) <= 0xFFFF_FFFFu64 * 36) by (nonlinear_arith)
            requires
                acc <= 0xFFFF_FFFFu64,
                radix <= 36,
        ;
        let next: u64 = acc * (radix as u64) + digit as u64;
        let ghost prefix = d.subrange(0, i - start + 1);
        assert(prefix.drop_last() == d.subrange(0, i - start));
        assert(next == digits_value(prefix, radix));
        if next > max as u64 {
            proof {
                if all_digits(d, radix) {
                    lemma_digits_value_grows(d, i - start + 1, radix);
                }
            }
            return None;
        }
        acc = next;
        i += 1;
    }
    assert(d.subrange(0, d.len() as int) == d);
    proof { lemma_digits_value_nonnegative(d, radix); }
    Some(acc as u32)
}

/// Reads the `u32` written in `s` in the given radix, as `u32::from_str_radix` does.
pub fn u32_from_str_radix(s: &[u8], radix: u32) -> (ret: Option<u32>)
    requires
        2 <= radix <= 36,
    ensures
        match parse_unsigned(s@, radix, u32::MAX as int) {
            Some(v) => ret == Some(v as u32),
            None => ret is None,
        },
{
    parse_unsigned_radix(s, radix, u32::MAX)
}

/// Reads the `u8` written in `s` in the given radix, as `u8::from_str_radix` does.
pub fn u8_from_str_radix(s: &[u8], radix: u32) -> (ret: Option<u8>)
    requires
        2 <= radix <= 36,
    ensures
        match parse_unsigned(s@, radix, u8::MAX as int) {
            Some(v) => ret == Some(v as u8),
            None => ret is None,
        },
{
    match parse_unsigned_radix(s, radix, 0xFF) {
        Some(v) => Some(v as u8),
        None => None,
    }
}

/// Whether `s` starts with the two bytes `a` and `b`.
pub open spec fn has_prefix(s: Seq<u8>, a: u8, b: u8) -> bool {
    s.len() >= 2 && s[0] == a && s[1] == b
}

/// The number written in `s`: hexadecimal after "0x", binary after "0b", octal after "0o", and
/// decimal otherwise.
pub open spec fn prefixed_u32(s: Seq<u8>) -> Option<nat> {
    if has_prefix(s, 0x30, 0x78) {
        parse_unsigned(s.subrange(2, s.len() as int), 16, u32::MAX as int)
    } else if has_prefix(s, 0x30, 0x62) {
        parse_unsigned(s.subrange(2, s.len() as int), 2, u32::MAX as int)
    } else if has_prefix(s, 0x30, 0x6F) {
        parse_unsigned(s.subrange(2, s.len() as int), 8, u32::MAX as int)
    } else {
        parse_unsigned(s, 10, u32::MAX as int)
    }
}

/// Reads a `u32` written in hexadecimal after "0x", in binary after "0b", in octal after "0o", or
/// in decimal.
pub fn u32_from_str(s: &str) -> (ret: Option<u32>)
    ensures
        match prefixed_u32(s.spec_bytes()) {
            Some(v) => ret == Some(v as u32),
            None => ret is None,
        },
{
    let bytes = s.as_bytes();
    let n = bytes.len();
    if n >= 2 && bytes[0] == 0x30 && bytes[1] == 0x78 {
        u32_from_str_radix(&bytes[2..n], 16)
    } else if n >= 2 && bytes[0] == 0x30 && bytes[1] == 0x62 {
        u32_from_str_radix(&bytes[2..n], 2)
    } else if n >= 2 && bytes[0] == 0x30 && bytes[1] == 0x6F {
        u32_from_str_radix(&bytes[2..n], 8)
    } else {
        u32_from_str_radix(bytes, 10)
    }
}

/// Reads a byte written in hexadecimal.
pub fn parse_hex_u8(s: &str) -> (ret: Option<u8>)
    ensures
        match parse_unsigned(s.spec_bytes(), 16, u8::MAX as int) {
            Some(v) => ret == Some(v as u8),
            None => ret is None,
        },
{
    u8_from_str_radix(s.as_bytes(), 16)
}

/// Returns the byte written in hexadecimal in `hex_string`, which must hold one.
pub fn u8_from_hex(hex_string: &str) -> (ret: u8)
    requires
        parse_unsigned(hex_string.spec_bytes(), 16, u8::MAX as int) is Some,
    ensures
        ret == parse_unsigned(hex_string.spec_bytes(), 16, u8::MAX as int)->0,
{
    parse_hex_u8(hex_string).unwrap()
}

/// Returns the byte written in hexadecimal after "0x" in `prefixed_hex_string`, which must hold
/// one.
pub fn u8_from_hex_0x(prefixed_hex_string: &str) -> (ret: u8)
    requires
        has_prefix(prefixed_hex_string.spec_bytes(), 0x30, 0x78),
        parse_unsigned(
            prefixed_hex_string.spec_bytes().subrange(2, prefixed_hex_string.spec_bytes().len() as int),
            16,
            u8::MAX as int,
        ) is Some,
    ensures
        ret == parse_unsigned(
            prefixed_hex_string.spec_bytes().subrange(2, prefixed_hex_string.spec_bytes().len() as int),
            16,
            u8::MAX as int,
        )->0,
{
    let bytes = prefixed_hex_string.as_bytes();
    u8_from_str_radix(&bytes[2..bytes.len()], 16).unwrap()
}

} // verus!
