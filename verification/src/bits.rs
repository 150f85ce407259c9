//! Facts about single bits of bytes, shared by the bit-field types.

use vstd::prelude::*;

verus! {

/// Whether bit `k` (counted from the least significant bit) of `b` is set.
pub open spec fn byte_bit(b: u8, k: u8) -> bool {
    (b >> k) & 1u8 == 1u8
}

/// Setting bit `k` of a byte sets exactly that bit.
pub proof fn lemma_set_byte_bit(b: u8, k: u8)
    requires
        k < 8,
    ensures
        forall|j: u8| j < 8 ==> #[trigger] byte_bit(b | (1u8 << k), j) == (j == k || byte_bit(b, j)),
{
    assert forall|j: u8| j < 8 implies #[trigger] byte_bit(b | (1u8 << k), j) == (j == k || byte_bit(b, j)) by {
        assert((((b | (1u8 << k)) >> j) & 1u8 == 1u8) == (j == k || ((b >> j) & 1u8 == 1u8))) by (bit_vector)
            requires k < 8, j < 8;
    }
}

/// Clearing bit `k` of a byte clears exactly that bit.
pub proof fn lemma_clear_byte_bit(b: u8, k: u8)
    requires
        k < 8,
    ensures
        forall|j: u8| j < 8 ==> #[trigger] byte_bit(b & ((1u8 << k) ^ 0xFFu8), j) == (j != k && byte_bit(b, j)),
{
    assert forall|j: u8| j < 8 implies #[trigger] byte_bit(b & ((1u8 << k) ^ 0xFFu8), j) == (j != k && byte_bit(b, j)) by {
        assert((((b & ((1u8 << k) ^ 0xFFu8)) >> j) & 1u8 == 1u8) == (j != k && ((b >> j) & 1u8 == 1u8))) by (bit_vector)
            requires k < 8, j < 8;
    }
}

/// Masking with a single bit tests exactly that bit.
pub proof fn lemma_test_byte_bit(b: u8, k: u8)
    requires
        k < 8,
    ensures
        (b & (1u8 << k) != 0) == byte_bit(b, k),
{
    assert((b & (1u8 << k) != 0) == ((b >> k) & 1u8 == 1u8)) by (bit_vector)
        requires k < 8;
}

} // verus!
