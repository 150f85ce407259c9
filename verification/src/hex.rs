//! Decoding hexadecimal text: packet dumps and EEP numbers given on the command line.

use vstd::prelude::*;
use crate::max_array::MaxArray;

verus! {

/// The value of an ASCII hexadecimal digit (either case), if it is one.
pub open spec fn hex_value(b: u8) -> Option<u8> {
    if 0x30 <= b <= 0x39 {
        Some((b - 0x30) as u8)
    } else if 0x41 <= b <= 0x46 {
        Some((b + 10 - 0x41) as u8)
    } else if 0x61 <= b <= 0x66 {
        Some((b + 10 - 0x61) as u8)
    } else {
        None
    }
}

/// Whether every byte of `s` is a hexadecimal digit.
pub open spec fn all_hex_digits(s: Seq<u8>) -> bool {
    forall|i: int| 0 <= i < s.len() ==> #[trigger] hex_value(s[i]) is Some
}

/// The byte written as the two hexadecimal digits `s[i]` and `s[i + 1]`.
pub open spec fn hex_byte_at(s: Seq<u8>, i: int) -> u8 {
    (hex_value(s[i])->0 * 16 + hex_value(s[i + 1])->0) as u8
}

/// Returns the value of an ASCII hexadecimal digit (either case), or `None` for other bytes.
pub fn unhex_nibble(b: u8) -> (ret: Option<u8>)
    ensures
        ret == hex_value(b),
{
    if b >= 0x30 && b <= 0x39 {
        Some(b - 0x30)
    } else if b >= 0x41 && b <= 0x46 {
        Some(b + 10 - 0x41)
    } else if b >= 0x61 && b <= 0x66 {
        Some(b + 10 - 0x61)
    } else {
        None
    }
}

/// Returns the byte written as the first two bytes of `b`, two hexadecimal digits.
pub fn unhex_byte(b: &[u8]) -> (ret: u8)
    requires
        b@.len() >= 2,
        hex_value(b@[0]) is Some,
        hex_value(b@[1]) is Some,
    ensures
        ret == hex_byte_at(b@, 0),
{
    let top_nibble = unhex_nibble(b[0]).unwrap();
    let bottom_nibble = unhex_nibble(b[1]).unwrap();
    assert((top_nibble << 4u8) | bottom_nibble == top_nibble * 16 + bottom_nibble) by (bit_vector)
        requires
            top_nibble < 16,
            bottom_nibble < 16,
    ;
    (top_nibble << 4u8) | bottom_nibble
}

/// Decodes a hexadecimal dump, two digits per byte; `None` if it holds half a byte.
pub fn unhex_bytes(hex: &[u8]) -> (ret: Option<Vec<u8>>)
    requires
        all_hex_digits(hex@),
    ensures
        hex@.len() % 2 == 1 ==> ret is None,
        hex@.len() % 2 == 0 ==> (ret matches Some(v) && v@.len() == hex@.len() / 2
            && forall|i: int| 0 <= i < v@.len() ==> #[trigger] v@[i] == hex_byte_at(hex@, 2 * i)),
{
    if hex.len() % 2 != 0 {
        return None;
    }
    let len = hex.len();
    let n = len / 2;
    let mut buf: Vec<u8> = Vec::with_capacity(n);
    let mut i: usize = 0;
    while i < n
        invariant
            n == hex@.len() / 2,
            len == hex@.len(),
            hex@.len() % 2 == 0,
            all_hex_digits(hex@),
            i <= n,
            buf@.len() == i,
            forall|k: int| 0 <= k < i ==> #[trigger] buf@[k] == hex_byte_at(hex@, 2 * k),
        decreases n - i,
    {
        let pair = &hex[2 * i..2 * i + 2];
        assert(hex_value(pair@[0]) is Some && hex_value(pair@[1]) is Some) by {
            assert(pair@[0] == hex@[2 * i]);
            assert(pair@[1] == hex@[2 * i + 1]);
        }
        let b = unhex_byte(pair);
        buf.push(b);
        i += 1;
    }
    Some(buf)
}

/// Whether `eep` has the form "AA-BB-CC" with hexadecimal digits.
pub open spec fn eep_format_ok(eep: Seq<u8>) -> bool {
    &&& eep.len() == 8
    &&& eep[2] == 0x2D
    &&& eep[5] == 0x2D
    &&& hex_value(eep[0]) is Some
    &&& hex_value(eep[1]) is Some
    &&& hex_value(eep[3]) is Some
    &&& hex_value(eep[4]) is Some
    &&& hex_value(eep[6]) is Some
    &&& hex_value(eep[7]) is Some
}

/// Decodes an EEP number of the form "AA-BB-CC" into its RORG, function and type values;
/// `None` if it does not have that form.
pub fn parse_eep(eep: &[u8]) -> (ret: Option<(u8, u8, u8)>)
    ensures
        ret is Some <==> eep_format_ok(eep@),
        ret matches Some(t) ==> t == (hex_byte_at(eep@, 0), hex_byte_at(eep@, 3), hex_byte_at(eep@, 6)),
{
    if eep.len() != 8 || eep[2] != 0x2D || eep[5] != 0x2D {
        return None;
    }
    let mut k: usize = 0;
    while k < 8
        invariant
            eep@.len() == 8,
            k <= 8,
            forall|j: int| 0 <= j < k && j != 2 && j != 5 ==> #[trigger] hex_value(eep@[j]) is Some,
        decreases 8 - k,
    {
        if k != 2 && k != 5 && unhex_nibble(eep[k]).is_none() {
            return None;
        }
        k += 1;
    }
    let rorg = unhex_byte(&eep[0..2]);
    let func = unhex_byte(&eep[3..5]);
    let tp = unhex_byte(&eep[6..8]);
    Some((rorg, func, tp))
}

/// The uppercase ASCII hexadecimal digit of a nibble; zero for values above fifteen.
pub open spec fn hex_digit(n: u8) -> u8 {
    if n <= 9 {
        (n + 0x30) as u8
    } else if n <= 15 {
        (n - 10 + 0x41) as u8
    } else {
        0
    }
}

/// The uppercase hexadecimal text of `bytes`: two digits per byte, the top nibble first.
pub open spec fn hex_text(bytes: Seq<u8>) -> Seq<u8> {
    Seq::new(
        2 * bytes.len(),
        |k: int|
            if k % 2 == 0 {
                hex_digit(bytes[k / 2] / 16)
            } else {
                hex_digit(bytes[k / 2] % 16)
            },
    )
}

/// Hexadecimal digits read regardless of case: every nibble's uppercase digit (as the encoder
/// writes it) and, for the letters, its lowercase digit read back as the nibble, and no other
/// byte reads as a digit.
pub proof fn lemma_hex_value_digits(n: u8, b: u8)
    ensures
        n < 16 ==> hex_value(hex_digit(n)) == Some(n),
        10 <= n < 16 ==> hex_value((hex_digit(n) + 0x20) as u8) == Some(n),
        hex_value(b) matches Some(v) ==> v < 16 && (b == hex_digit(v) || (10 <= v && b == hex_digit(v)
            + 0x20)),
{
}

/// Returns the uppercase ASCII hexadecimal digit of a nibble, or zero for values above fifteen.
pub fn nibble_to_hex(byte: u8) -> (ret: u8)
    ensures
        ret == hex_digit(byte),
{
    if byte <= 9 {
        byte + 0x30
    } else if byte <= 15 {
        byte - 10 + 0x41
    } else {
        0x00
    }
}

/// Appends the uppercase hexadecimal text of `bytes` to `hex`, as far as it fits.
pub fn hex_dump<const N: usize>(bytes: &[u8], hex: &mut MaxArray<u8, N>)
    ensures
        ({
            let room = N - old(hex)@.len();
            let text = hex_text(bytes@);
            final(hex)@ == old(hex)@ + text.subrange(0, if text.len() < room { text.len() as int } else { room })
        }),
{
    proof { use_type_invariant(&*hex); }
    let ghost start = hex@;
    let ghost text = hex_text(bytes@);
    let mut i: usize = 0;
    while i < bytes.len()
        invariant_except_break
            i <= bytes@.len(),
            start.len() <= N,
            text == hex_text(bytes@),
            hex@ == start + text.subrange(0, 2 * i),
            start.len() + 2 * i <= N,
        ensures
            ({
                let room = N - start.len();
                hex@ == start + text.subrange(0, if text.len() < room { text.len() as int } else { room })
            }),
        decreases bytes@.len() - i,
    {
        let b = bytes[i];
        let push_res = hex.push(nibble_to_hex(b / 16));
        if push_res.is_err() {
            assert(text.subrange(0, 2 * i) =~= text.subrange(0, (N - start.len()) as int));
            break;
        }
        let push_res = hex.push(nibble_to_hex(b % 16));
        if push_res.is_err() {
            assert(hex@ =~= start + text.subrange(0, 2 * i + 1));
            break;
        }
        i += 1;
        assert(hex@ =~= start + text.subrange(0, 2 * i));
    }
    proof {
        if i == bytes@.len() {
            assert(text.subrange(0, 2 * i) =~= text);
        }
    }
}

/// The hexadecimal text of some bytes decodes back to those bytes: it holds hexadecimal digits
/// only, two per byte, and each pair is the byte it was written from.
pub proof fn lemma_hex_text_decodes(bytes: Seq<u8>)
    ensures
        all_hex_digits(hex_text(bytes)),
        hex_text(bytes).len() == 2 * bytes.len(),
        forall|i: int| 0 <= i < bytes.len() ==> #[trigger] hex_byte_at(hex_text(bytes), 2 * i) == bytes[i],
{
    let t = hex_text(bytes);
    assert forall|k: int| 0 <= k < t.len() implies #[trigger] hex_value(t[k]) is Some by {
        assert(bytes[k / 2] / 16 < 16);
    }
    assert forall|i: int| 0 <= i < bytes.len() implies #[trigger] hex_byte_at(t, 2 * i) == bytes[i] by {
        let b = bytes[i];
        assert((2 * i) / 2 == i && (2 * i + 1) / 2 == i && (2 * i) % 2 == 0 && (2 * i + 1) % 2 == 1);
        assert(hex_value(hex_digit(b / 16)) == Some((b / 16) as u8));
        assert(hex_value(hex_digit(b % 16)) == Some((b % 16) as u8));
        assert((b / 16) * 16 + b % 16 == b);
    }
}

} // verus!
