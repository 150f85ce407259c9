//! Wide (UTF-16) strings as the Windows API passes them: NUL-terminated, and in sequences that
//! an empty string ends.

use vstd::prelude::*;
use crate::hex::hex_digit;

verus! {

/// The UTF-16 code units that encode a character: one unit below 0x10000, else a surrogate
/// pair.
pub open spec fn utf16_units(c: char) -> Seq<u16> {
    let v = c as u32;
    if v < 0x10000 {
        seq![v as u16]
    } else {
        let w = v - 0x10000;
        seq![(0xD800 + w / 0x400) as u16, (0xDC00 + w % 0x400) as u16]
    }
}

/// The UTF-16 encoding of a sequence of characters.
pub open spec fn utf16_encode(chars: Seq<char>) -> Seq<u16>
    decreases chars.len(),
{
    if chars.len() == 0 {
        Seq::empty()
    } else {
        utf16_encode(chars.drop_last()) + utf16_units(chars.last())
    }
}

/// Whether a code unit is a surrogate (half of a pair).
pub open spec fn is_surrogate(u: u16) -> bool {
    0xD800 <= u < 0xE000
}

/// The characters that UTF-16 code units decode to; `None` if a surrogate is not part of a pair
/// of a leading surrogate followed by a trailing one.
pub open spec fn utf16_decode(units: Seq<u16>) -> Option<Seq<char>>
    decreases units.len(),
{
    if units.len() == 0 {
        Some(Seq::empty())
    } else if !is_surrogate(units[0]) {
        match utf16_decode(units.drop_first()) {
            Some(rest) => Some(seq![units[0] as char] + rest),
            None => None,
        }
    } else if units[0] < 0xDC00 && units.len() >= 2 && 0xDC00 <= units[1] < 0xE000 {
        let c = (0x10000 + (units[0] - 0xD800) * 0x400 + (units[1] - 0xDC00)) as char;
        match utf16_decode(units.subrange(2, units.len() as int)) {
            Some(rest) => Some(seq![c] + rest),
            None => None,
        }
    } else {
        None
    }
}

/// Encoding a sequence of characters encodes its first character, then the rest.
proof fn lemma_utf16_encode_front(chars: Seq<char>)
    requires
        chars.len() > 0,
    ensures
        utf16_encode(chars) == utf16_units(chars[0]) + utf16_encode(chars.drop_first()),
    decreases chars.len(),
{
    if chars.len() > 1 {
        lemma_utf16_encode_front(chars.drop_last());
        assert(chars.drop_last().drop_first() =~= chars.drop_first().drop_last());
        assert(chars.drop_last()[0] == chars[0]);
        assert(chars.drop_first().last() == chars.last());
    } else {
        assert(chars.drop_first() =~= Seq::<char>::empty());
        assert(chars.drop_last() =~= Seq::<char>::empty());
    }
}

/// The units that encode a character decode to that character, whatever follows them.
proof fn lemma_utf16_units_decode(c: char, rest: Seq<u16>)
    ensures
        utf16_decode(utf16_units(c) + rest) == match utf16_decode(rest) {
            Some(r) => Some(seq![c] + r),
            None => None::<Seq<char>>,
        },
{
    let units = utf16_units(c) + rest;
    let v = c as u32;
    if v < 0x10000 {
        assert(!is_surrogate(v as u16));
        assert(units.drop_first() =~= rest);
        assert((v as u16) as char == c);
    } else {
        let w = v - 0x10000;
        assert(w <= 0xFFFFF);
        let hi = (0xD800 + w / 0x400) as u16;
        let lo = (0xDC00 + w % 0x400) as u16;
        assert(w / 0x400 < 0x400) by (nonlinear_arith)
            requires
                w <= 0xFFFFF,
        ;
        assert(w == (w / 0x400) * 0x400 + w % 0x400) by (nonlinear_arith);
        assert(units[0] == hi && units[1] == lo);
        assert(units.subrange(2, units.len() as int) =~= rest);
        assert((0x10000 + (hi - 0xD800) * 0x400 + (lo - 0xDC00)) as char == c);
    }
}

/// Decoding the UTF-16 encoding of characters gives back the characters.
pub proof fn lemma_utf16_round_trip(chars: Seq<char>)
    ensures
        utf16_decode(utf16_encode(chars)) == Some(chars),
    decreases chars.len(),
{
    if chars.len() == 0 {
        assert(utf16_encode(chars) =~= Seq::<u16>::empty());
    } else {
        lemma_utf16_encode_front(chars);
        lemma_utf16_round_trip(chars.drop_first());
        lemma_utf16_units_decode(chars[0], utf16_encode(chars.drop_first()));
        assert(seq![chars[0]] + chars.drop_first() =~= chars);
    }
}

/// Encodes a string as UTF-16 and appends a terminating NUL.
pub fn string_to_utf16_nul(s: &str) -> (ret: Vec<u16>)
    ensures
        ret@ == utf16_encode(s@).push(0u16),
{
    let n = s.unicode_len();
    let mut ret: Vec<u16> = Vec::new();
    let mut i: usize = 0;
    while i < n
        invariant
            i <= n,
            n == s@.len(),
            ret@ == utf16_encode(s@.subrange(0, i as int)),
        decreases n - i,
    {
        let c = s.get_char(i);
        let v = c as u32;
        if v < 0x10000 {
            ret.push(v as u16);
        } else {
            let w = v - 0x10000;
            ret.push((0xD800 + w / 0x400) as u16);
            ret.push((0xDC00 + w % 0x400) as u16);
        }
        proof {
            let prefix = s@.subrange(0, i + 1);
            assert(prefix.drop_last() =~= s@.subrange(0, i as int));
            assert(prefix.last() == c);
        }
        i += 1;
        assert(ret@ =~= utf16_encode(s@.subrange(0, i as int)));
    }
    assert(s@.subrange(0, n as int) =~= s@);
    ret.push(0);
    ret
}

/// `String::from_utf16` decodes UTF-16 code units into a string, and fails if they hold a
/// surrogate that is not part of a pair (leading surrogate, then trailing surrogate). The
/// contract claims exactly that decoding, [utf16_decode].
#[verifier::external_body]
fn string_from_utf16(units: &[u16]) -> (ret: Option<String>)
    ensures
        match utf16_decode(units@) {
            Some(chars) => ret matches Some(s) && s@ == chars,
            None => ret is None,
        },
{
    String::from_utf16(units).ok()
}

/// The number of code units before the first NUL (all of them if there is none).
pub open spec fn nul_offset(units: Seq<u16>) -> nat
    decreases units.len(),
{
    if units.len() == 0 || units[0] == 0 {
        0
    } else {
        1 + nul_offset(units.drop_first())
    }
}

/// The strings of a sequence of NUL-terminated wide strings: those before the first empty one,
/// which ends the sequence (as does the end of the units).
pub open spec fn wide_string_parts(units: Seq<u16>) -> Seq<Seq<u16>>
    decreases units.len(),
{
    let nul = nul_offset(units);
    if units.len() == 0 || nul == 0 {
        Seq::empty()
    } else {
        let rest = if nul < units.len() {
            units.subrange(nul as int + 1, units.len() as int)
        } else {
            Seq::empty()
        };
        seq![units.subrange(0, nul as int)] + wide_string_parts(rest)
    }
}

/// The offset of the first NUL is the first offset where a NUL stands, if no NUL comes before.
proof fn lemma_nul_offset_at(units: Seq<u16>, k: int)
    requires
        0 <= k <= units.len(),
        forall|i: int| 0 <= i < k ==> units[i] != 0,
        k == units.len() || units[k] == 0,
    ensures
        nul_offset(units) == k,
    decreases units.len(),
{
    if k > 0 {
        assert forall|i: int| 0 <= i < k - 1 implies units.drop_first()[i] != 0 by {
            assert(units.drop_first()[i] == units[i + 1]);
        }
        if k - 1 < units.drop_first().len() {
            assert(units.drop_first()[k - 1] == units[k]);
        }
        lemma_nul_offset_at(units.drop_first(), k - 1);
    }
}

/// The units of a character other than NUL are not NUL.
proof fn lemma_utf16_units_not_nul(c: char)
    requires
        c as u32 != 0,
    ensures
        forall|j: int| 0 <= j < utf16_units(c).len() ==> #[trigger] utf16_units(c)[j] != 0,
        utf16_units(c).len() >= 1,
{
    let v = c as u32;
    if v >= 0x10000 {
        let w = v - 0x10000;
        assert(w / 0x400 < 0x400) by (nonlinear_arith)
            requires
                w <= 0xFFFFF,
        ;
        assert(w % 0x400 < 0x400) by (nonlinear_arith);
    }
}

/// Characters other than NUL are encoded without a NUL unit, in at least one unit each.
proof fn lemma_utf16_encode_no_nul(chars: Seq<char>)
    requires
        forall|i: int| 0 <= i < chars.len() ==> chars[i] as u32 != 0,
    ensures
        forall|k: int| 0 <= k < utf16_encode(chars).len() ==> #[trigger] utf16_encode(chars)[k] != 0,
        utf16_encode(chars).len() >= chars.len(),
    decreases chars.len(),
{
    if chars.len() > 0 {
        lemma_utf16_encode_no_nul(chars.drop_last());
        let e = utf16_encode(chars);
        let prev = utf16_encode(chars.drop_last());
        let c = chars.last();
        lemma_utf16_units_not_nul(c);
        assert forall|k: int| 0 <= k < e.len() implies #[trigger] e[k] != 0 by {
            if k < prev.len() {
                assert(e[k] == prev[k]);
            } else {
                assert(e[k] == utf16_units(c)[k - prev.len()]);
            }
        }
    }
}

/// A non-empty string without NUL characters, encoded and terminated with a NUL, reads back as a
/// sequence holding just that string.
pub proof fn lemma_terminated_string_reads_back(chars: Seq<char>)
    requires
        chars.len() > 0,
        forall|i: int| 0 <= i < chars.len() ==> chars[i] as u32 != 0,
    ensures
        wide_string_parts(utf16_encode(chars).push(0u16)) == seq![utf16_encode(chars)],
        utf16_decode(utf16_encode(chars)) == Some(chars),
{
    lemma_utf16_encode_no_nul(chars);
    lemma_utf16_round_trip(chars);
    let e = utf16_encode(chars);
    let units = e.push(0u16);
    assert forall|i: int| 0 <= i < e.len() implies units[i] != 0 by {
        assert(units[i] == e[i]);
    }
    lemma_nul_offset_at(units, e.len() as int);
    assert(units.subrange(0, e.len() as int) =~= e);
    let rest = units.subrange(e.len() as int + 1, units.len() as int);
    assert(rest =~= Seq::<u16>::empty());
    assert(wide_string_parts(rest) =~= Seq::<Seq<u16>>::empty());
    assert(wide_string_parts(units) =~= seq![e]);
}

/// Decodes a sequence of wide strings: each string ends with a NUL, and an empty string (or the
/// end of the units) ends the sequence. Every string must be valid UTF-16.
pub fn decode_wide_string_sequence(seq: &[u16]) -> (ret: Vec<String>)
    requires
        forall|i: int|
            0 <= i < wide_string_parts(seq@).len() ==> #[trigger] utf16_decode(wide_string_parts(seq@)[i]) is Some,
    ensures
        ret@.len() == wide_string_parts(seq@).len(),
        forall|i: int|
            0 <= i < ret@.len() ==> #[trigger] ret@[i]@ == utf16_decode(wide_string_parts(seq@)[i])->0,
{
    let ghost parts = wide_string_parts(seq@);
    let mut ret: Vec<String> = Vec::new();
    let mut start: usize = 0;
    assert(seq@.subrange(0, seq@.len() as int) =~= seq@);
    assert(parts =~= parts.subrange(0, 0) + parts);
    while start < seq.len()
        invariant_except_break
            start <= seq@.len(),
            parts == wide_string_parts(seq@),
            forall|i: int| 0 <= i < parts.len() ==> #[trigger] utf16_decode(parts[i]) is Some,
            ret@.len() <= parts.len(),
            parts == parts.subrange(0, ret@.len() as int) + wide_string_parts(
                seq@.subrange(start as int, seq@.len() as int),
            ),
            forall|i: int| 0 <= i < ret@.len() ==> #[trigger] ret@[i]@ == utf16_decode(parts[i])->0,
        ensures
            ret@.len() == parts.len(),
            forall|i: int| 0 <= i < ret@.len() ==> #[trigger] ret@[i]@ == utf16_decode(parts[i])->0,
        decreases seq@.len() - start,
    {
        let ghost cur = seq@.subrange(start as int, seq@.len() as int);
        let mut end: usize = start;
        while end < seq.len() && seq[end] != 0
            invariant
                start <= end <= seq@.len(),
                cur == seq@.subrange(start as int, seq@.len() as int),
                forall|i: int| start <= i < end ==> seq@[i] != 0,
            decreases seq@.len() - end,
        {
            end += 1;
        }
        proof {
            assert forall|i: int| 0 <= i < end - start implies cur[i] != 0 by {
                assert(cur[i] == seq@[start + i]);
            }
            if end < seq@.len() {
                assert(cur[end - start] == seq@[end as int]);
            }
            lemma_nul_offset_at(cur, end - start);
        }
        if end == start {
            proof {
                assert(wide_string_parts(cur) =~= Seq::<Seq<u16>>::empty());
                assert(parts =~= parts.subrange(0, ret@.len() as int));
            }
            break;
        }
        let part = &seq[start..end];
        proof {
            assert(part@ =~= cur.subrange(0, end - start));
            let rest = if end < seq@.len() {
                cur.subrange(end - start + 1, cur.len() as int)
            } else {
                Seq::<u16>::empty()
            };
            assert(wide_string_parts(cur) == seq![part@] + wide_string_parts(rest));
            let k = ret@.len() as int;
            assert(parts[k] == part@) by {
                assert((parts.subrange(0, k) + wide_string_parts(cur))[k] == wide_string_parts(cur)[0]);
            }
        }
        let string = string_from_utf16(part).unwrap();
        let ghost k = ret@.len() as int;
        ret.push(string);
        if end == seq.len() {
            proof {
                let rest = Seq::<u16>::empty();
                assert(wide_string_parts(rest) =~= Seq::<Seq<u16>>::empty());
                assert(parts =~= parts.subrange(0, k) + seq![part@]);
                assert(parts.len() == ret@.len());
            }
            break;
        }
        proof {
            let next = seq@.subrange(end + 1, seq@.len() as int);
            assert(cur.subrange(end - start + 1, cur.len() as int) =~= next);
            assert(parts.subrange(0, k + 1) =~= parts.subrange(0, k) + seq![part@]);
            assert(parts =~= parts.subrange(0, k + 1) + wide_string_parts(next));
        }
        start = end + 1;
    }
    proof {
        if start >= seq@.len() && ret@.len() < parts.len() {
            assert(seq@.subrange(start as int, seq@.len() as int) =~= Seq::<u16>::empty());
            assert(wide_string_parts(Seq::<u16>::empty()) =~= Seq::<Seq<u16>>::empty());
            assert(parts =~= parts.subrange(0, ret@.len() as int));
        }
    }
    ret
}

/// A globally unique identifier as Windows lays it out.
#[derive(Clone, Copy, Debug, PartialEq, Eq, Hash, PartialOrd, Ord)]
pub struct Guid {
    pub data1: u32,
    pub data2: u16,
    pub data3: u16,
    pub data4: [u8; 8],
}

/// The uppercase hexadecimal digits of the lowest `n` nibbles of `v`, the most significant
/// first.
pub open spec fn hex_digits(v: int, n: nat) -> Seq<u8>
    decreases n,
{
    if n == 0 {
        Seq::empty()
    } else {
        hex_digits(v / 16, (n - 1) as nat).push(hex_digit((v % 16) as u8))
    }
}

/// The text of a GUID: groups of 8, 4, 4, 4 and 12 uppercase hexadecimal digits joined by dashes, from the
/// first data value to the last byte.
pub open spec fn guid_text(guid: Guid) -> Seq<u8> {
    let d = guid.data4@;
    hex_digits(guid.data1 as int, 8) + seq![0x2Du8] + hex_digits(guid.data2 as int, 4) + seq![0x2Du8]
        + hex_digits(guid.data3 as int, 4) + seq![0x2Du8] + hex_digits(d[0] as int, 2) + hex_digits(d[1] as int, 2)
        + seq![0x2Du8] + hex_digits(d[2] as int, 2) + hex_digits(d[3] as int, 2) + hex_digits(d[4] as int, 2)
        + hex_digits(d[5] as int, 2) + hex_digits(d[6] as int, 2) + hex_digits(d[7] as int, 2)
}

/// Whether every byte is ASCII (below 0x80).
pub open spec fn ascii_bytes(s: Seq<u8>) -> bool {
    forall|i: int| 0 <= i < s.len() ==> #[trigger] s[i] < 0x80
}

/// Appends the uppercase hexadecimal digits of the lowest `n` nibbles of `v` to `out`.
fn push_hex_digits(out: &mut Vec<u8>, v: u32, n: u32)
    requires
        n <= 8,
        ascii_bytes(old(out)@),
    ensures
        final(out)@ == old(out)@ + hex_digits(v as int, n as nat),
        ascii_bytes(final(out)@),
    decreases n,
{
    if n > 0 {
        push_hex_digits(out, v / 16, n - 1);
        let digit = crate::hex::nibble_to_hex((v % 16) as u8);
        out.push(digit);
        assert(ascii_bytes(out@)) by {
            assert forall|i: int| 0 <= i < out@.len() implies #[trigger] out@[i] < 0x80 by {
                if i < out@.len() - 1 {
                    assert(out@[i] == old(out)@.add(hex_digits((v / 16) as int, (n - 1) as nat))[i]);
                }
            }
        }
    }
}

/// Appends a dash to `out`.
fn push_dash(out: &mut Vec<u8>)
    requires
        ascii_bytes(old(out)@),
    ensures
        final(out)@ == old(out)@.push(0x2Du8),
        ascii_bytes(final(out)@),
{
    out.push(0x2D);
    assert(ascii_bytes(out@)) by {
        assert forall|i: int| 0 <= i < out@.len() implies #[trigger] out@[i] < 0x80 by {
            if i < out@.len() - 1 {
                assert(out@[i] == old(out)@[i]);
            }
        }
    }
}

/// `String::from_utf8` turns bytes into a string; ASCII bytes (below 0x80) are each the
/// character with their value. The contract claims only that, and only for ASCII bytes.
#[verifier::external_body]
pub(crate) fn ascii_string(bytes: Vec<u8>) -> (ret: String)
    requires
        ascii_bytes(bytes@),
    ensures
        ret@ == bytes@.map_values(|b: u8| b as char),
{
    String::from_utf8(bytes).unwrap()
}

/// The digits of the bytes of `d` from the third up to (not including) index `i`.
pub open spec fn guid_tail(d: Seq<u8>, i: int) -> Seq<u8>
    decreases i,
{
    if i <= 2 {
        Seq::empty()
    } else {
        guid_tail(d, i - 1) + hex_digits(d[i - 1] as int, 2)
    }
}

/// Formats a GUID as groups of 8, 4, 4, 4 and 12 uppercase hexadecimal digits joined by dashes.
pub fn guid_to_string(guid: &Guid) -> (ret: String)
    ensures
        ret@ == guid_text(*guid).map_values(|b: u8| b as char),
{
    let mut text: Vec<u8> = Vec::new();
    push_hex_digits(&mut text, guid.data1, 8);
    push_dash(&mut text);
    push_hex_digits(&mut text, guid.data2 as u32, 4);
    push_dash(&mut text);
    push_hex_digits(&mut text, guid.data3 as u32, 4);
    push_dash(&mut text);
    push_hex_digits(&mut text, guid.data4[0] as u32, 2);
    push_hex_digits(&mut text, guid.data4[1] as u32, 2);
    push_dash(&mut text);
    let ghost head = text@;
    let mut i: usize = 2;
    while i < 8
        invariant
            2 <= i <= 8,
            ascii_bytes(text@),
            text@ == head + guid_tail(guid.data4@, i as int),
        decreases 8 - i,
    {
        push_hex_digits(&mut text, guid.data4[i] as u32, 2);
        i += 1;
        assert(text@ =~= head + guid_tail(guid.data4@, i as int));
    }
    proof {
        reveal_with_fuel(guid_tail, 7);
        assert(text@ =~= guid_text(*guid));
    }
    ascii_string(text)
}

} // verus!
