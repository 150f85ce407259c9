//! Provides efficient storage of boolean values as bit flags.

use vstd::prelude::*;
use crate::bits::{byte_bit, lemma_clear_byte_bit, lemma_set_byte_bit, lemma_test_byte_bit};

verus! {

/// The value of bit `index` in a sequence of bytes packed least-significant bit first.
pub open spec fn packed_bit(bytes: Seq<u8>, index: int) -> bool {
    byte_bit(bytes[index / 8], (index % 8) as u8)
}

/// The bits stored in a sequence of bytes, the lowest index in the LSB of the first byte.
pub open spec fn packed_bits(bytes: Seq<u8>) -> Seq<bool> {
    Seq::new((bytes.len() * 8) as nat, |i: int| packed_bit(bytes, i))
}

/// A fixed-size, efficient storage of boolean values as bit flags.
///
/// To simplify runtime computation, the bits are packed into bytes such that the boolean value with
/// the lowest index is stored in the LSB, and the bytes are in ascending order. This leads to the
/// following order:
///
/// ```text
/// | field[0]        | field[1]        |
/// | v--MSB   LSB--v | v--MSB   LSB--v |
/// | 7 6 5 4 3 2 1 0 | F E D C B A 9 8 |
/// ```
///
/// The bit field only stores multiples of 8 bits. If storage of a "lopsided" number of bits is
/// required, the actual length of the bit field must be stored externally.
#[derive(Clone, Copy, Debug, Eq, Hash, Ord, PartialEq, PartialOrd)]
pub struct BitField<const SIZE_BYTES: usize> {
    field: [u8; SIZE_BYTES],
}

impl<const SIZE_BYTES: usize> View for BitField<SIZE_BYTES> {
    type V = Seq<bool>;

    /// The stored bits, in index order.
    open spec fn view(&self) -> Seq<bool> {
        packed_bits(self.bytes())
    }
}

/// Returns the byte and bit index within a bit field for the given boolean value index.
pub fn byte_bit_index(index: usize) -> (ret: (usize, usize))
    ensures
        ret.0 == index / 8,
        ret.1 == index % 8,
{
    (index / 8, index % 8)
}

impl<const SIZE_BYTES: usize> BitField<SIZE_BYTES> {
    /// The bytes backing this bit field.
    pub closed spec fn bytes(&self) -> Seq<u8> {
        self.field@
    }

    /// Wraps the given byte array as a bit field.
    pub fn from_bytes(bytes: [u8; SIZE_BYTES]) -> (ret: Self)
        ensures
            ret.bytes() == bytes@,
    {
        Self { field: bytes }
    }

    /// A bit field holds eight bits per byte.
    pub proof fn lemma_len(&self)
        ensures
            self.bytes().len() == SIZE_BYTES,
            self@.len() == SIZE_BYTES * 8,
    {
    }

    /// Sets the bit in the bit field, i.e. sets it to 1.
    pub fn set_bit(&mut self, index: usize)
        requires
            index < old(self)@.len(),
        ensures
            final(self)@ == old(self)@.update(index as int, true),
            final(self).bytes() == old(self).bytes().update(
                index as int / 8,
                old(self).bytes()[index as int / 8] | (1u8 << ((index % 8) as u8)),
            ),
    {
        proof { self.lemma_len(); }
        let (byte_index, bit_index) = byte_bit_index(index);
        let old_byte = self.field[byte_index];
        let new_byte = old_byte | (1u8 << (bit_index as u8));
        self.field[byte_index] = new_byte;
        proof {
            lemma_set_byte_bit(old_byte, bit_index as u8);
            assert(self@ =~= old(self)@.update(index as int, true)) by {
                assert forall|i: int| 0 <= i < self@.len() implies #[trigger] self@[i] == old(self)@.update(index as int, true)[i] by {
                    if i / 8 == byte_index as int {
                        assert(((i % 8) as u8) < 8);
                    }
                }
            }
        }
    }

    /// Clears the bit in the bit field, i.e. sets it to 0.
    pub fn clear_bit(&mut self, index: usize)
        requires
            index < old(self)@.len(),
        ensures
            final(self)@ == old(self)@.update(index as int, false),
            final(self).bytes() == old(self).bytes().update(
                index as int / 8,
                old(self).bytes()[index as int / 8] & ((1u8 << ((index % 8) as u8)) ^ 0xFFu8),
            ),
    {
        proof { self.lemma_len(); }
        let (byte_index, bit_index) = byte_bit_index(index);
        let old_byte = self.field[byte_index];
        let new_byte = old_byte & ((1u8 << (bit_index as u8)) ^ 0b1111_1111);
        self.field[byte_index] = new_byte;
        proof {
            lemma_clear_byte_bit(old_byte, bit_index as u8);
            assert(self@ =~= old(self)@.update(index as int, false)) by {
                assert forall|i: int| 0 <= i < self@.len() implies #[trigger] self@[i] == old(self)@.update(index as int, false)[i] by {
                    if i / 8 == byte_index as int {
                        assert(((i % 8) as u8) < 8);
                    }
                }
            }
        }
    }

    /// Returns whether the given bit is set, i.e. equals 1.
    pub fn is_bit_set(&self, index: usize) -> (ret: bool)
        requires
            index < self@.len(),
        ensures
            ret == self@[index as int],
    {
        proof { self.lemma_len(); }
        let (byte_index, bit_index) = byte_bit_index(index);
        proof { lemma_test_byte_bit(self.field@[byte_index as int], bit_index as u8); }
        self.field[byte_index] & (1u8 << (bit_index as u8)) != 0
    }

    /// The size of this bit field in bytes.
    ///
    /// [`len_bits`] can be called to obtain the length in bits.
    pub fn size_bytes(&self) -> (ret: usize)
        ensures
            ret == SIZE_BYTES,
            ret == self.bytes().len(),
    {
        SIZE_BYTES
    }

    /// The length of this bit field in bits.
    ///
    /// [`size_bytes`] can be called to obtain the size in bytes.
    pub fn len_bits(&self) -> (ret: usize)
        requires
            SIZE_BYTES * 8 <= usize::MAX,
        ensures
            ret == SIZE_BYTES * 8,
            ret == self@.len(),
    {
        SIZE_BYTES * 8
    }

    /// Fills this bit field with the values of the given bytes.
    ///
    /// If `bytes` is shorter than this bit field, the remaining bits are left untouched. If `bytes`
    /// is longer, the extraneous bytes are ignored.
    pub fn fill_with_bytes(&mut self, bytes: &[u8])
        ensures
            final(self).bytes() == Seq::new(SIZE_BYTES as nat, |i: int|
                if i < bytes@.len() { bytes@[i] } else { old(self).bytes()[i] }),
    {
        let size = if SIZE_BYTES < bytes.len() { SIZE_BYTES } else { bytes.len() };
        let mut i: usize = 0;
        while i < size
            invariant
                size <= SIZE_BYTES,
                size <= bytes@.len(),
                size == SIZE_BYTES || size == bytes@.len(),
                i <= size,
                self.bytes().len() == SIZE_BYTES,
                forall|j: int| 0 <= j < i ==> #[trigger] self.bytes()[j] == bytes@[j],
                forall|j: int| i <= j < SIZE_BYTES ==> #[trigger] self.bytes()[j] == old(self).bytes()[j],
            decreases size - i,
        {
            self.field[i] = bytes[i];
            i += 1;
        }
        assert(self.bytes() =~= Seq::new(SIZE_BYTES as nat, |i: int|
            if i < bytes@.len() { bytes@[i] } else { old(self).bytes()[i] }));
    }

    /// Fills this bit field with the values of the given bits.
    ///
    /// If `bits` is shorter than this bit field, the remaining bits are left untouched. If `bits`
    /// is longer, the extraneous bits are ignored.
    pub fn fill_with_bits(&mut self, bits: &[bool])
        requires
            SIZE_BYTES * 8 <= usize::MAX,
        ensures
            final(self)@ == Seq::new(old(self)@.len(), |i: int|
                if i < bits@.len() { bits@[i] } else { old(self)@[i] }),
    {
        let len_bits = self.len_bits();
        let size = if len_bits < bits.len() { len_bits } else { bits.len() };
        let mut i: usize = 0;
        while i < size
            invariant
                len_bits == old(self)@.len(),
                size <= len_bits,
                size <= bits@.len(),
                size == len_bits || size == bits@.len(),
                i <= size,
                self@.len() == len_bits,
                forall|j: int| 0 <= j < i ==> #[trigger] self@[j] == bits@[j],
                forall|j: int| i <= j < len_bits ==> #[trigger] self@[j] == old(self)@[j],
            decreases size - i,
        {
            if bits[i] {
                self.set_bit(i);
            } else {
                self.clear_bit(i);
            }
            i += 1;
        }
        assert(self@ =~= Seq::new(old(self)@.len(), |i: int|
            if i < bits@.len() { bits@[i] } else { old(self)@[i] }));
    }

    /// Return a reference the array of bytes backing this bit field.
    pub fn as_bytes(&self) -> (ret: &[u8])
        ensures
            ret@ == self.bytes(),
    {
        self.field.as_slice()
    }

    /// Return an iterator iterating over each bit of the bit field.
    pub fn bit_iter(&self) -> (ret: BitFieldIterator<'_, SIZE_BYTES>)
        requires
            SIZE_BYTES * 8 <= usize::MAX,
        ensures
            ret.remaining() == self@,
    {
        BitFieldIterator { field: self, next_bit: 0 }
    }
}

impl<const SIZE_BYTES: usize> Default for BitField<SIZE_BYTES> {
    fn default() -> (ret: Self)
        ensures
            ret.bytes() == Seq::new(SIZE_BYTES as nat, |i: int| 0u8),
    {
        let ret = Self { field: [0u8; SIZE_BYTES] };
        assert(ret.bytes() =~= Seq::new(SIZE_BYTES as nat, |i: int| 0u8));
        ret
    }
}

/// Iterates over each bit in a bit field.
pub struct BitFieldIterator<'a, const SIZE_BYTES: usize> {
    field: &'a BitField<SIZE_BYTES>,
    next_bit: usize,
}

impl<'a, const SIZE_BYTES: usize> BitFieldIterator<'a, SIZE_BYTES> {
    #[verifier::type_invariant]
    spec fn inv(self) -> bool {
        &&& SIZE_BYTES * 8 <= usize::MAX
        &&& self.next_bit <= self.field@.len()
    }

    /// The bits that have not been returned yet.
    pub closed spec fn remaining(&self) -> Seq<bool> {
        self.field@.subrange(self.next_bit as int, self.field@.len() as int)
    }

    /// Returns the next bit, or `None` once every bit has been returned.
    pub fn next(&mut self) -> (ret: Option<bool>)
        ensures
            old(self).remaining().len() == 0 ==> ret is None && final(self).remaining() == old(self).remaining(),
            old(self).remaining().len() > 0 ==> ret == Some(old(self).remaining()[0])
                && final(self).remaining() == old(self).remaining().drop_first(),
    {
        proof { use_type_invariant(&*self); }
        if self.next_bit >= self.field.len_bits() {
            None
        } else {
            let ret = self.field.is_bit_set(self.next_bit);
            self.next_bit += 1;
            Some(ret)
        }
    }
}

} // verus!
