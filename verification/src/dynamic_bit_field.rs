//! A growable storage of boolean values as bit flags.

use vstd::prelude::*;
use crate::bit_field::packed_bit;
use crate::bits::{lemma_clear_byte_bit, lemma_set_byte_bit, lemma_test_byte_bit};

verus! {

/// The bytes `b`, extended with zero bytes to at least `n` bytes.
pub open spec fn padded_bytes(b: Seq<u8>, n: int) -> Seq<u8> {
    if b.len() >= n {
        b
    } else {
        b + Seq::new((n - b.len()) as nat, |i: int| 0u8)
    }
}

/// An efficient storage of boolean values as bit flags, which grows as bits are written.
///
/// The bits are packed into bytes with the lowest index in the least significant bit. The length
/// in bits is kept separately: bits beyond it read as clear.
#[derive(Clone, Debug, PartialEq, Eq, Hash, PartialOrd, Ord)]
pub struct DynamicBitField {
    field: Vec<u8>,
    size_bits: usize,
}

impl View for DynamicBitField {
    type V = Seq<bool>;

    /// The bits up to the length of the field, in index order.
    closed spec fn view(&self) -> Seq<bool> {
        Seq::new(self.size_bits as nat, |i: int| packed_bit(self.field@, i))
    }
}

/// The byte and bit index of a boolean value index.
fn byte_bit_index(index: usize) -> (ret: (usize, usize))
    ensures
        ret.0 == index / 8,
        ret.1 == index % 8,
{
    (index / 8, index % 8)
}

impl DynamicBitField {
    /// The bytes backing this bit field.
    pub closed spec fn bytes(&self) -> Seq<u8> {
        self.field@
    }

    /// The bits up to the length lie within the backing bytes.
    pub closed spec fn wf(&self) -> bool {
        self.size_bits <= self.field@.len() * 8
    }

    /// Creates an empty bit field.
    pub fn new() -> (ret: Self)
        ensures
            ret.wf(),
            ret@ == Seq::<bool>::empty(),
            ret.bytes() == Seq::<u8>::empty(),
    {
        let ret = DynamicBitField { field: Vec::new(), size_bits: 0 };
        assert(ret@ =~= Seq::<bool>::empty());
        ret
    }

    /// Creates an empty bit field backed by the given number of zero bytes.
    pub fn with_capacity_bytes(reserve_bytes: usize) -> (ret: Self)
        ensures
            ret.wf(),
            ret@ == Seq::<bool>::empty(),
            ret.bytes() == Seq::new(reserve_bytes as nat, |i: int| 0u8),
    {
        let ret = DynamicBitField { field: vec![0u8; reserve_bytes], size_bits: 0 };
        assert(ret@ =~= Seq::<bool>::empty());
        assert(ret.bytes() =~= Seq::new(reserve_bytes as nat, |i: int| 0u8));
        ret
    }

    /// Extends the backing bytes with zero bytes until they hold the given byte index.
    fn grow_to(&mut self, byte_index: usize)
        requires
            old(self).wf(),
        ensures
            final(self).wf(),
            final(self).size_bits == old(self).size_bits,
            final(self).field@ == padded_bytes(old(self).field@, byte_index + 1),
    {
        let ghost start = self.field@;
        while byte_index >= self.field.len()
            invariant
                self.wf(),
                self.size_bits == old(self).size_bits,
                start == old(self).field@,
                self.field@ == padded_bytes(start, self.field@.len() as int),
                self.field@.len() >= start.len(),
                self.field@.len() <= byte_index + 1 || self.field@ == start,
            decreases byte_index + 1 - self.field@.len(),
        {
            self.field.push(0x00);
            assert(self.field@ =~= padded_bytes(start, self.field@.len() as int));
        }
        assert(self.field@ =~= padded_bytes(start, byte_index + 1));
    }

    /// Sets the bit in the bit field, i.e. sets it to 1, growing the field if necessary.
    pub fn set_bit(&mut self, index: usize)
        requires
            old(self).wf(),
            index < usize::MAX,
        ensures
            final(self).wf(),
            final(self).bytes() == ({
                let p = padded_bytes(old(self).bytes(), index as int / 8 + 1);
                p.update(index as int / 8, p[index as int / 8] | (1u8 << ((index % 8) as u8)))
            }),
            final(self)@.len() == if index < old(self)@.len() { old(self)@.len() as int } else { index + 1 },
            final(self)@[index as int],
            forall|i: int| 0 <= i < old(self)@.len() && i != index ==> #[trigger] final(self)@[i] == old(self)@[i],
    {
        let (byte_index, bit_index) = byte_bit_index(index);
        self.grow_to(byte_index);
        let ghost grown = self.field@;
        let old_byte = self.field[byte_index];
        self.field.set(byte_index, old_byte | (1u8 << (bit_index as u8)));
        if self.size_bits <= index {
            self.size_bits = index + 1;
        }
        proof {
            lemma_set_byte_bit(old_byte, bit_index as u8);
            assert forall|i: int| 0 <= i < old(self)@.len() && i != index implies #[trigger] self@[i] == old(self)@[i] by {
                assert(grown[i / 8] == old(self).field@[i / 8]);
                if i / 8 == byte_index as int {
                    assert(((i % 8) as u8) < 8);
                }
            }
        }
    }

    /// Clears the bit in the bit field, i.e. sets it to 0, growing the field if necessary.
    pub fn clear_bit(&mut self, index: usize)
        requires
            old(self).wf(),
            index < usize::MAX,
        ensures
            final(self).wf(),
            final(self).bytes() == ({
                let p = padded_bytes(old(self).bytes(), index as int / 8 + 1);
                p.update(index as int / 8, p[index as int / 8] & ((1u8 << ((index % 8) as u8)) ^ 0xFFu8))
            }),
            final(self)@.len() == if index < old(self)@.len() { old(self)@.len() as int } else { index + 1 },
            !final(self)@[index as int],
            forall|i: int| 0 <= i < old(self)@.len() && i != index ==> #[trigger] final(self)@[i] == old(self)@[i],
    {
        let (byte_index, bit_index) = byte_bit_index(index);
        self.grow_to(byte_index);
        let ghost grown = self.field@;
        let old_byte = self.field[byte_index];
        self.field.set(byte_index, old_byte & ((1u8 << (bit_index as u8)) ^ 0b1111_1111));
        if self.size_bits <= index {
            self.size_bits = index + 1;
        }
        proof {
            lemma_clear_byte_bit(old_byte, bit_index as u8);
            assert forall|i: int| 0 <= i < old(self)@.len() && i != index implies #[trigger] self@[i] == old(self)@[i] by {
                assert(grown[i / 8] == old(self).field@[i / 8]);
                if i / 8 == byte_index as int {
                    assert(((i % 8) as u8) < 8);
                }
            }
        }
    }

    /// Returns whether the given bit is set, i.e. equals 1; bits beyond the length are clear.
    pub fn is_bit_set(&self, index: usize) -> (ret: bool)
        requires
            self.wf(),
        ensures
            ret == (index < self@.len() && self@[index as int]),
    {
        if index >= self.size_bits {
            return false;
        }
        let (byte_index, bit_index) = byte_bit_index(index);
        proof { lemma_test_byte_bit(self.field@[byte_index as int], bit_index as u8); }
        self.field[byte_index] & (1u8 << (bit_index as u8)) != 0
    }

    /// The size of this bit field in bytes.
    ///
    /// [`len_bits`] can be called to obtain the length in bits.
    pub fn size_bytes(&self) -> (ret: usize)
        ensures
            ret == self.bytes().len(),
    {
        self.field.len()
    }

    /// The length of this bit field in bits.
    ///
    /// [`size_bytes`] can be called to obtain the size in bytes.
    pub fn len_bits(&self) -> (ret: usize)
        ensures
            ret == self@.len(),
    {
        self.size_bits
    }

    /// Fills this bit field with the values of the given bytes.
    ///
    /// If `bytes` is shorter than this bit field, the remaining bytes are left untouched. If
    /// `bytes` is longer, the extraneous bytes are ignored. The length in bits does not change.
    pub fn fill_with_bytes(&mut self, bytes: &[u8])
        requires
            old(self).wf(),
        ensures
            final(self).wf(),
            final(self)@.len() == old(self)@.len(),
            final(self).bytes() == Seq::new(old(self).bytes().len(), |i: int|
                if i < bytes@.len() { bytes@[i] } else { old(self).bytes()[i] }),
    {
        let size = if self.field.len() < bytes.len() { self.field.len() } else { bytes.len() };
        let mut i: usize = 0;
        while i < size
            invariant
                size <= old(self).field@.len(),
                size <= bytes@.len(),
                size == old(self).field@.len() || size == bytes@.len(),
                i <= size,
                self.size_bits == old(self).size_bits,
                self.field@.len() == old(self).field@.len(),
                forall|j: int| 0 <= j < i ==> #[trigger] self.field@[j] == bytes@[j],
                forall|j: int| i <= j < self.field@.len() ==> #[trigger] self.field@[j] == old(self).field@[j],
            decreases size - i,
        {
            self.field.set(i, bytes[i]);
            i += 1;
        }
        assert(self.bytes() =~= Seq::new(old(self).bytes().len(), |i: int|
            if i < bytes@.len() { bytes@[i] } else { old(self).bytes()[i] }));
    }

    /// Fills this bit field with the values of the given bits.
    ///
    /// If `bits` is shorter than this bit field, the remaining bits are left untouched. If `bits`
    /// is longer, the extraneous bits are ignored.
    pub fn fill_with_bits(&mut self, bits: &[bool])
        requires
            old(self).wf(),
        ensures
            final(self).wf(),
            final(self)@ == Seq::new(old(self)@.len(), |i: int|
                if i < bits@.len() { bits@[i] } else { old(self)@[i] }),
    {
        let len_bits = self.len_bits();
        let size = if len_bits < bits.len() { len_bits } else { bits.len() };
        let mut i: usize = 0;
        while i < size
            invariant
                self.wf(),
                len_bits == old(self)@.len(),
                size <= len_bits,
                size <= bits@.len(),
                i <= size,
                self@.len() == len_bits,
                forall|j: int| 0 <= j < i ==> #[trigger] self@[j] == bits@[j],
                forall|j: int| i <= j < len_bits ==> #[trigger] self@[j] == old(self)@[j],
            decreases size - i,
        {
            if bits[i] {
                self.set_bit(i);
            } else {
                self.clear_bit(i);
            }
            i += 1;
        }
        assert(self@ =~= Seq::new(old(self)@.len(), |i: int|
            if i < bits@.len() { bits@[i] } else { old(self)@[i] }));
    }

    /// Return a reference the array of bytes backing this bit field.
    pub fn as_bytes(&self) -> (ret: &[u8])
        ensures
            ret@ == self.bytes(),
    {
        self.field.as_slice()
    }

    /// Appends a single bit to this bit field.
    pub fn push(&mut self, new_bit: bool)
        requires
            old(self).wf(),
            old(self)@.len() < usize::MAX,
        ensures
            final(self).wf(),
            final(self)@ == old(self)@.push(new_bit),
    {
        let index = self.size_bits;
        if new_bit {
            self.set_bit(index);
        } else {
            self.clear_bit(index);
        }
        assert(self@ =~= old(self)@.push(new_bit));
    }

    /// Returns an iterator over the bits of this bit field, in index order.
    pub fn iter(&self) -> (ret: DynamicBitFieldIterator<'_>)
        requires
            self.wf(),
        ensures
            ret.remaining() == self@,
    {
        let ret = DynamicBitFieldIterator { field: self, next_bit: 0 };
        assert(ret.remaining() =~= self@);
        ret
    }
}

/// Runs through the bits of a [DynamicBitField] in index order.
pub struct DynamicBitFieldIterator<'a> {
    field: &'a DynamicBitField,
    next_bit: usize,
}

impl<'a> DynamicBitFieldIterator<'a> {
    /// The bits that this iterator has yet to return.
    pub closed spec fn remaining(&self) -> Seq<bool> {
        self.field@.subrange(self.next_bit as int, self.field@.len() as int)
    }

    /// Whether the iterator's position lies within its field.
    pub closed spec fn wf(&self) -> bool {
        self.field.wf() && self.next_bit <= self.field@.len()
    }

    /// Returns the next bit, or `None` once all bits have been returned.
    pub fn next(&mut self) -> (ret: Option<bool>)
        requires
            old(self).wf(),
        ensures
            final(self).wf(),
            old(self).remaining().len() == 0 ==> ret is None && final(self).remaining() == old(self).remaining(),
            old(self).remaining().len() > 0 ==> ret == Some(old(self).remaining()[0])
                && final(self).remaining() == old(self).remaining().drop_first(),
    {
        if self.next_bit >= self.field.len_bits() {
            None
        } else {
            let ret = self.field.is_bit_set(self.next_bit);
            self.next_bit += 1;
            assert(self.remaining() =~= old(self).remaining().drop_first());
            Some(ret)
        }
    }
}

} // verus!
