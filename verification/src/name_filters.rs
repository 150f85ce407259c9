//! Filters that turn the descriptions in an EEP definition into Rust identifiers.
//!
//! A description is first cleaned: letters, digits and underscores stay, a few symbols become
//! words, separators become spaces, and every other character is dropped. The cleaned text is
//! plain ASCII; its words are then joined into a `PascalCase` or `snake_case` name.

use vstd::prelude::*;
use crate::hex::{hex_text, nibble_to_hex};
use crate::wide_strings::{ascii_bytes, ascii_string};

verus! {

/// Whether `c` is kept as it is when a description is cleaned: an ASCII letter, an ASCII digit
/// or an underscore.
pub open spec fn is_name_char(c: char) -> bool {
    ('a' <= c && c <= 'z') || ('A' <= c && c <= 'Z') || ('0' <= c && c <= '9') || c == '_'
}

/// Whether `c` separates words in a description: it becomes a space when cleaned.
pub open spec fn is_separator(c: char) -> bool {
    c == ' ' || c == '\r' || c == '\n' || c == '\t' || c == '.' || c == ',' || c == ':' || c == ';'
        || c == '-' || c == '\u{2013}' || c == '\u{2014}' || c == '/' || c == '*' || c == '+'
        || c == '%' || c == '\u{2026}' || c == '\u{201C}' || c == '\u{201D}' || c == '(' || c == ')'
}

/// The ASCII text that one character of a description becomes when cleaned.
pub open spec fn cleaned_char(c: char) -> Seq<u8> {
    if is_name_char(c) {
        seq![c as u8]
    } else if c == '\u{B2}' {
        seq![0x32u8]
    } else if c == '<' {
        less_than_text()
    } else if c == '>' {
        more_than_text()
    } else if c == '\u{3BC}' {
        mu_text()
    } else if c == '\u{B0}' {
        degrees_text()
    } else if is_separator(c) {
        seq![0x20u8]
    } else {
        Seq::empty()
    }
}

/// The cleaned text of a description: the texts of its characters, in order.
pub open spec fn cleaned(s: Seq<char>) -> Seq<u8>
    decreases s.len(),
{
    if s.len() == 0 {
        Seq::empty()
    } else {
        cleaned(s.drop_last()) + cleaned_char(s.last())
    }
}

/// The upper-case form of an ASCII byte.
pub open spec fn ascii_upper(b: u8) -> u8 {
    if 0x61 <= b && b <= 0x7A {
        (b - 0x20) as u8
    } else {
        b
    }
}

/// The lower-case form of an ASCII byte.
pub open spec fn ascii_lower(b: u8) -> u8 {
    if 0x41 <= b && b <= 0x5A {
        (b + 0x20) as u8
    } else {
        b
    }
}

/// Whether byte `i` of `s` starts a word: it is the first byte, or it follows a space.
pub open spec fn starts_word(s: Seq<u8>, i: int) -> bool {
    i == 0 || s[i - 1] == 0x20
}

/// The `PascalCase` name of cleaned text: the spaces are dropped, the first byte of each word
/// is upper-cased and the others are lower-cased.
pub open spec fn pascal_bytes(s: Seq<u8>) -> Seq<u8>
    decreases s.len(),
{
    if s.len() == 0 {
        Seq::empty()
    } else {
        let i = s.len() - 1;
        let rest = pascal_bytes(s.drop_last());
        if s[i] == 0x20 {
            rest
        } else if starts_word(s, i) {
            rest.push(ascii_upper(s[i]))
        } else {
            rest.push(ascii_lower(s[i]))
        }
    }
}

/// The `snake_case` name of cleaned text: the words are lower-cased and joined by underscores.
pub open spec fn snake_bytes(s: Seq<u8>) -> Seq<u8>
    decreases s.len(),
{
    if s.len() == 0 {
        Seq::empty()
    } else {
        let i = s.len() - 1;
        let rest = snake_bytes(s.drop_last());
        if s[i] == 0x20 {
            rest
        } else if starts_word(s, i) && rest.len() > 0 {
            rest.push(0x5Fu8).push(ascii_lower(s[i]))
        } else {
            rest.push(ascii_lower(s[i]))
        }
    }
}

/// A name that may start a word in Rust: an underscore is put in front of a leading digit.
pub open spec fn word_start(name: Seq<u8>) -> Seq<u8> {
    if name.len() > 0 && 0x30 <= name[0] && name[0] <= 0x39 {
        seq![0x5Fu8] + name
    } else {
        name
    }
}

/// The string whose characters are the given ASCII bytes.
pub open spec fn ascii_chars(s: Seq<u8>) -> Seq<char> {
    s.map_values(|b: u8| b as char)
}

/// The text that a less-than sign becomes: " less than ".
pub open spec fn less_than_text() -> Seq<u8> {
    seq![0x20u8, 0x6C, 0x65, 0x73, 0x73, 0x20, 0x74, 0x68, 0x61, 0x6E, 0x20]
}

/// The text that a greater-than sign becomes: " more than ".
pub open spec fn more_than_text() -> Seq<u8> {
    seq![0x20u8, 0x6D, 0x6F, 0x72, 0x65, 0x20, 0x74, 0x68, 0x61, 0x6E, 0x20]
}

/// The text that a micro sign becomes: " mu ".
pub open spec fn mu_text() -> Seq<u8> {
    seq![0x20u8, 0x6D, 0x75, 0x20]
}

/// The text that a degree sign becomes: " degrees ".
pub open spec fn degrees_text() -> Seq<u8> {
    seq![0x20u8, 0x64, 0x65, 0x67, 0x72, 0x65, 0x65, 0x73, 0x20]
}

/// Appends an ASCII byte to `out`.
fn push_ascii(out: &mut Vec<u8>, b: u8)
    requires
        ascii_bytes(old(out)@),
        b < 0x80,
    ensures
        final(out)@ == old(out)@.push(b),
        ascii_bytes(final(out)@),
{
    out.push(b);
    assert(ascii_bytes(out@)) by {
        assert forall|i: int| 0 <= i < out@.len() implies #[trigger] out@[i] < 0x80 by {
            if i < out@.len() - 1 {
                assert(out@[i] == old(out)@[i]);
            }
        }
    }
}

/// Appends ASCII text to `out`.
fn push_text(out: &mut Vec<u8>, text: &[u8])
    requires
        ascii_bytes(old(out)@),
        ascii_bytes(text@),
    ensures
        final(out)@ == old(out)@ + text@,
        ascii_bytes(final(out)@),
{
    let mut i: usize = 0;
    while i < text.len()
        invariant
            i <= text@.len(),
            ascii_bytes(text@),
            ascii_bytes(out@),
            out@ == old(out)@ + text@.subrange(0, i as int),
        decreases text@.len() - i,
    {
        push_ascii(out, text[i]);
        i += 1;
        assert(text@.subrange(0, i as int) == text@.subrange(0, i - 1).push(text@[i - 1]));
    }
    assert(text@.subrange(0, text@.len() as int) == text@);
}

/// Appends the cleaned text of one character to `out`.
fn push_cleaned_char(out: &mut Vec<u8>, c: char)
    requires
        ascii_bytes(old(out)@),
    ensures
        final(out)@ == old(out)@ + cleaned_char(c),
        ascii_bytes(final(out)@),
{
    if (c >= 'a' && c <= 'z') || (c >= 'A' && c <= 'Z') || (c >= '0' && c <= '9') || c == '_' {
        push_ascii(out, c as u8);
        assert(out@ == old(out)@ + seq![c as u8]);
    } else if c == '\u{B2}' {
        push_ascii(out, 0x32);
        assert(out@ == old(out)@ + seq![0x32u8]);
    } else if c == '<' {
        let text: [u8; 11] = [0x20, 0x6C, 0x65, 0x73, 0x73, 0x20, 0x74, 0x68, 0x61, 0x6E, 0x20];
        assert(text@ == less_than_text());
        push_text(out, &text);
    } else if c == '>' {
        let text: [u8; 11] = [0x20, 0x6D, 0x6F, 0x72, 0x65, 0x20, 0x74, 0x68, 0x61, 0x6E, 0x20];
        assert(text@ == more_than_text());
        push_text(out, &text);
    } else if c == '\u{3BC}' {
        let text: [u8; 4] = [0x20, 0x6D, 0x75, 0x20];
        assert(text@ == mu_text());
        push_text(out, &text);
    } else if c == '\u{B0}' {
        let text: [u8; 9] = [0x20, 0x64, 0x65, 0x67, 0x72, 0x65, 0x65, 0x73, 0x20];
        assert(text@ == degrees_text());
        push_text(out, &text);
    } else if c == ' ' || c == '\r' || c == '\n' || c == '\t' || c == '.' || c == ',' || c == ':'
        || c == ';' || c == '-' || c == '\u{2013}' || c == '\u{2014}' || c == '/' || c == '*'
        || c == '+' || c == '%' || c == '\u{2026}' || c == '\u{201C}' || c == '\u{201D}'
        || c == '(' || c == ')' {
        push_ascii(out, 0x20);
        assert(out@ == old(out)@ + seq![0x20u8]);
    } else {
        assert(out@ == old(out)@ + Seq::<u8>::empty());
    }
}

/// Appends the cleaned text of a description to `out`.
fn push_cleaned(out: &mut Vec<u8>, value: &str)
    requires
        ascii_bytes(old(out)@),
    ensures
        final(out)@ == old(out)@ + cleaned(value@),
        ascii_bytes(final(out)@),
{
    let n = value.unicode_len();
    let mut i: usize = 0;
    while i < n
        invariant
            i <= n,
            n == value@.len(),
            ascii_bytes(out@),
            out@ == old(out)@ + cleaned(value@.subrange(0, i as int)),
        decreases n - i,
    {
        let c = value.get_char(i);
        let ghost before = out@;
        push_cleaned_char(out, c);
        proof {
            let prefix = value@.subrange(0, i + 1);
            assert(prefix.drop_last() =~= value@.subrange(0, i as int));
            assert(prefix.last() == c);
        }
        i += 1;
        assert(out@ =~= old(out)@ + cleaned(value@.subrange(0, i as int)));
    }
    assert(value@.subrange(0, n as int) =~= value@);
}

/// The `PascalCase` name of cleaned text (see [pascal_bytes]).
fn pascal_of(text: &[u8]) -> (ret: Vec<u8>)
    requires
        ascii_bytes(text@),
    ensures
        ret@ == pascal_bytes(text@),
        ascii_bytes(ret@),
{
    let mut out: Vec<u8> = Vec::new();
    let mut i: usize = 0;
    while i < text.len()
        invariant
            i <= text@.len(),
            ascii_bytes(text@),
            ascii_bytes(out@),
            out@ == pascal_bytes(text@.subrange(0, i as int)),
        decreases text@.len() - i,
    {
        let b = text[i];
        let ghost prefix = text@.subrange(0, i + 1);
        proof {
            assert(prefix.drop_last() =~= text@.subrange(0, i as int));
            assert(prefix[i as int] == b);
            assert(i > 0 ==> prefix[i - 1] == text@[i - 1]);
        }
        if b != 0x20 {
            if i == 0 || text[i - 1] == 0x20 {
                let u = if b >= 0x61 && b <= 0x7A { b - 0x20 } else { b };
                push_ascii(&mut out, u);
            } else {
                let l = if b >= 0x41 && b <= 0x5A { b + 0x20 } else { b };
                push_ascii(&mut out, l);
            }
        }
        i += 1;
    }
    assert(text@.subrange(0, text@.len() as int) =~= text@);
    out
}

/// The `snake_case` name of cleaned text (see [snake_bytes]).
fn snake_of(text: &[u8]) -> (ret: Vec<u8>)
    requires
        ascii_bytes(text@),
    ensures
        ret@ == snake_bytes(text@),
        ascii_bytes(ret@),
{
    let mut out: Vec<u8> = Vec::new();
    let mut i: usize = 0;
    while i < text.len()
        invariant
            i <= text@.len(),
            ascii_bytes(text@),
            ascii_bytes(out@),
            out@ == snake_bytes(text@.subrange(0, i as int)),
        decreases text@.len() - i,
    {
        let b = text[i];
        let ghost prefix = text@.subrange(0, i + 1);
        proof {
            assert(prefix.drop_last() =~= text@.subrange(0, i as int));
            assert(prefix[i as int] == b);
            assert(i > 0 ==> prefix[i - 1] == text@[i - 1]);
        }
        if b != 0x20 {
            if (i == 0 || text[i - 1] == 0x20) && out.len() > 0 {
                push_ascii(&mut out, 0x5F);
            }
            let l = if b >= 0x41 && b <= 0x5A { b + 0x20 } else { b };
            push_ascii(&mut out, l);
        }
        i += 1;
    }
    assert(text@.subrange(0, text@.len() as int) =~= text@);
    out
}

/// Turns a description into a `PascalCase` name: the description is cleaned (see [cleaned]),
/// the first letter of each word is upper-cased, the other letters are lower-cased, and the
/// words are joined.
pub fn pascal_case(value: &str) -> (ret: String)
    ensures
        ret@ == ascii_chars(pascal_bytes(cleaned(value@))),
{
    let mut text: Vec<u8> = Vec::new();
    push_cleaned(&mut text, value);
    assert(text@ =~= cleaned(value@));
    let name = pascal_of(text.as_slice());
    ascii_string(name)
}

/// Turns a description into a `PascalCase` name that may start a word in Rust: like
/// [pascal_case], with an underscore in front of a leading digit.
pub fn pascal_case_word_start(value: &str) -> (ret: String)
    ensures
        ret@ == ascii_chars(word_start(pascal_bytes(cleaned(value@)))),
{
    let mut text: Vec<u8> = Vec::new();
    push_cleaned(&mut text, value);
    assert(text@ =~= cleaned(value@));
    let name = pascal_of(text.as_slice());
    if name.len() > 0 && name[0] >= 0x30 && name[0] <= 0x39 {
        let mut prefixed: Vec<u8> = Vec::new();
        push_ascii(&mut prefixed, 0x5F);
        push_text(&mut prefixed, name.as_slice());
        assert(prefixed@ =~= seq![0x5Fu8] + name@);
        ascii_string(prefixed)
    } else {
        ascii_string(name)
    }
}

/// Turns a description into a `snake_case` name: the description is cleaned (see [cleaned]),
/// and its words are lower-cased and joined by underscores.
pub fn snake_case(value: &str) -> (ret: String)
    ensures
        ret@ == ascii_chars(snake_bytes(cleaned(value@))),
{
    let mut text: Vec<u8> = Vec::new();
    push_cleaned(&mut text, value);
    assert(text@ =~= cleaned(value@));
    let name = snake_of(text.as_slice());
    ascii_string(name)
}

/// Formats a byte as two uppercase hexadecimal digits.
pub fn hex(value: &u8) -> (ret: String)
    ensures
        ret@ == ascii_chars(hex_text(seq![*value])),
{
    let high = nibble_to_hex(*value / 16);
    let low = nibble_to_hex(*value % 16);
    let mut text: Vec<u8> = Vec::new();
    push_ascii(&mut text, high);
    push_ascii(&mut text, low);
    assert(text@ =~= hex_text(seq![*value]));
    ascii_string(text)
}

/// The given name if it is not empty; else the `PascalCase` name of "value" followed by the
/// fallback value (see [pascal_case]).
pub fn pascal_fallback(name: &str, fallback_value: &str) -> (ret: String)
    ensures
        ret@ == if name@.len() > 0 {
            name@
        } else {
            ascii_chars(pascal_bytes(seq![0x76u8, 0x61, 0x6C, 0x75, 0x65, 0x20] + cleaned(fallback_value@)))
        },
{
    if !name.is_empty() {
        return name.to_owned();
    }
    let mut text: Vec<u8> = Vec::new();
    let prefix: [u8; 6] = [0x76, 0x61, 0x6C, 0x75, 0x65, 0x20];
    assert(ascii_bytes(prefix@));
    push_text(&mut text, &prefix);
    push_cleaned(&mut text, fallback_value);
    assert(text@ =~= seq![0x76u8, 0x61, 0x6C, 0x75, 0x65, 0x20] + cleaned(fallback_value@));
    let pascal = pascal_of(text.as_slice());
    ascii_string(pascal)
}

} // verus!
