//! Functions to calculate 8-bit cyclic redundancy checks (CRCs).

use vstd::prelude::*;

verus! {

/// One step of the CRC8-CCITT shift register: shifts the register left by one bit and, if the
/// bit shifted out was set, reduces by the polynomial x^8 + x^2 + x + 1 (0x07).
pub open spec fn crc8_ccitt_shift(crc: u8) -> u8 {
    if crc & 0x80u8 != 0 {
        ((crc << 1u8) ^ 0x07u8) as u8
    } else {
        (crc << 1u8) as u8
    }
}

/// Applies `n` shift-register steps to `crc`.
pub open spec fn crc8_ccitt_shifts(crc: u8, n: nat) -> u8
    decreases n,
{
    if n == 0 {
        crc
    } else {
        crc8_ccitt_shifts(crc8_ccitt_shift(crc), (n - 1) as nat)
    }
}

/// The CRC8-CCITT checksum of a single byte: eight shift-register steps.
pub open spec fn spec_crc8_ccitt_byte(b: u8) -> u8 {
    crc8_ccitt_shifts(b, 8)
}

/// Feeds `bytes` into a CRC8-CCITT register that starts at `crc`.
pub open spec fn crc8_ccitt_update(crc: u8, bytes: Seq<u8>) -> u8
    decreases bytes.len(),
{
    if bytes.len() == 0 {
        crc
    } else {
        crc8_ccitt_update(spec_crc8_ccitt_byte(crc ^ bytes[0]), bytes.drop_first())
    }
}

/// The CRC8-CCITT checksum (initial value 0x00, polynomial 0x07) of a byte sequence.
pub open spec fn spec_crc8_ccitt(bytes: Seq<u8>) -> u8 {
    crc8_ccitt_update(0, bytes)
}

/// Computes a CRC8-CCITT look-up table.
pub fn make_crc8_ccitt_lut() -> (ret: [u8; 256])
    ensures
        forall|i: int| 0 <= i < 256 ==> #[trigger] ret@[i] == spec_crc8_ccitt_byte(i as u8),
{
    let mut ret = [0u8; 256];
    let mut i: usize = 0;
    while i < 256
        invariant
            i <= 256,
            forall|j: int| 0 <= j < i ==> #[trigger] ret@[j] == spec_crc8_ccitt_byte(j as u8),
        decreases 256 - i,
    {
        ret[i] = crc8_ccitt_byte(i as u8);
        i += 1;
    }
    ret
}

/// Calculates the CRC8-CCITT checksum for a single byte.
pub fn crc8_ccitt_byte(b: u8) -> (ret: u8)
    ensures
        ret == spec_crc8_ccitt_byte(b),
{
    let mut crc: u8 = b;
    let mut i: u8 = 8;
    while i > 0
        invariant
            i <= 8,
            crc8_ccitt_shifts(crc, i as nat) == crc8_ccitt_shifts(b, 8),
        decreases i,
    {
        // check the top bit
        if crc & 0b1000_0000 != 0 {
            // (x^8) + x^2 + x + 1 =~= (1) 0000 0111
            crc = (crc << 1) ^ 0b0000_0111;
        } else {
            crc = crc << 1;
        }
        i -= 1;
    }
    crc
}

/// Calculates the CRC8-CCITT checksum for a slice of bytes.
///
/// Builds the look-up table of single-byte checksums first and then processes one byte per
/// table look-up.
pub fn crc8_ccitt(bytes: &[u8]) -> (ret: u8)
    ensures
        ret == spec_crc8_ccitt(bytes@),
{
    let lut = make_crc8_ccitt_lut();
    let mut crc: u8 = 0x00;
    let mut i: usize = 0;
    assert(bytes@.subrange(0, bytes@.len() as int) == bytes@);
    while i < bytes.len()
        invariant
            i <= bytes@.len(),
            forall|k: int| 0 <= k < 256 ==> #[trigger] lut@[k] == spec_crc8_ccitt_byte(k as u8),
            crc8_ccitt_update(crc, bytes@.subrange(i as int, bytes@.len() as int)) == spec_crc8_ccitt(bytes@),
        decreases bytes@.len() - i,
    {
        let ghost rest = bytes@.subrange(i as int, bytes@.len() as int);
        let x: u8 = crc ^ bytes[i];
        assert(rest.drop_first() == bytes@.subrange(i + 1, bytes@.len() as int));
        assert((x as int) < 256);
        crc = lut[x as usize];
        i += 1;
    }
    crc
}

/// Feeding one more byte into the register feeds it after all the others.
proof fn lemma_update_push(crc: u8, bytes: Seq<u8>, b: u8)
    ensures
        crc8_ccitt_update(crc, bytes.push(b)) == spec_crc8_ccitt_byte(crc8_ccitt_update(crc, bytes) ^ b),
    decreases bytes.len(),
{
    if bytes.len() > 0 {
        assert(bytes.push(b).drop_first() =~= bytes.drop_first().push(b));
        assert(bytes.push(b)[0] == bytes[0]);
        let x = spec_crc8_ccitt_byte(crc ^ bytes[0]);
        lemma_update_push(x, bytes.drop_first(), b);
        assert(crc8_ccitt_update(crc, bytes) == crc8_ccitt_update(x, bytes.drop_first()));
    } else {
        assert(bytes.push(b).drop_first() =~= Seq::<u8>::empty());
        assert(bytes.push(b)[0] == b);
        let x = spec_crc8_ccitt_byte(crc ^ b);
        assert(crc8_ccitt_update(x, Seq::<u8>::empty()) == x);
        assert(crc8_ccitt_update(crc, bytes) == crc);
    }
}

/// Appending the checksum of a message to the message gives a sequence whose checksum is zero.
pub proof fn lemma_crc_of_appended_crc(msg: Seq<u8>)
    ensures
        spec_crc8_ccitt(msg.push(spec_crc8_ccitt(msg))) == 0,
{
    lemma_update_push(0, msg, spec_crc8_ccitt(msg));
    let c = spec_crc8_ccitt(msg);
    assert(c ^ c == 0) by (bit_vector);
    assert(crc8_ccitt_shift(0) == 0) by (bit_vector);
    reveal_with_fuel(crc8_ccitt_shifts, 9);
}

} // verus!
