//! A circular buffer of a preset capacity.

use vstd::prelude::*;

verus! {

/// `(a + b) % modulus` for `a < modulus` and `b <= modulus`, computed without overflow.
fn wrapping_index(a: usize, b: usize, modulus: usize) -> (ret: usize)
    requires
        a < modulus,
        b <= modulus,
    ensures
        ret == (a + b) % (modulus as int),
        ret < modulus,
{
    if a >= modulus - b {
        let r = a - (modulus - b);
        assert((a + b) % (modulus as int) == r) by {
            assert(a + b == r + modulus);
            vstd::arithmetic::div_mod::lemma_mod_add_multiples_vanish(r as int, modulus as int);
            vstd::arithmetic::div_mod::lemma_small_mod(r as nat, modulus as nat);
        }
        r
    } else {
        let r = a + b;
        proof { vstd::arithmetic::div_mod::lemma_small_mod(r as nat, modulus as nat); }
        r
    }
}

/// A circular buffer of a preset capacity. If a value is appended to a full ring buffer, depending
/// on the call used, either the oldest element is replaced with the newest one or the newest
/// element is rejected.
#[derive(Clone, Debug)]
pub struct RingBuffer<T: Copy + Default, const SIZE: usize> {
    buffer: Vec<T>,
    first_set: usize,
    count_set: usize,
}

impl<T: Copy + Default, const SIZE: usize> View for RingBuffer<T, SIZE> {
    type V = Seq<T>;

    /// The occupied elements, oldest first.
    closed spec fn view(&self) -> Seq<T> {
        Seq::new(self.count_set as nat, |i: int| self.buffer@[(self.first_set + i) % (SIZE as int)])
    }
}

impl<T: Copy + Default, const SIZE: usize> RingBuffer<T, SIZE> {
    /// The internal positions are consistent with the capacity.
    pub closed spec fn wf(&self) -> bool {
        &&& self.buffer@.len() == SIZE
        &&& self.count_set <= SIZE
        &&& (self.first_set < SIZE || (SIZE == 0 && self.first_set == 0))
    }

    /// Returns the capacity of this buffer, i.e. its length when it is entirely full.
    pub fn capacity(&self) -> (ret: usize)
        ensures
            ret == SIZE,
    {
        SIZE
    }

    /// Returns the number of occupied elements within the buffer.
    pub fn len(&self) -> (ret: usize)
        requires
            self.wf(),
        ensures
            ret == self@.len(),
            ret <= SIZE,
    {
        self.count_set
    }

    /// Creates a new, empty ring buffer.
    pub fn new() -> (ret: Self)
        ensures
            ret.wf(),
            ret@ == Seq::<T>::empty(),
    {
        let buffer: Vec<T> = vec![T::default(); SIZE];
        let ret = Self { buffer, first_set: 0, count_set: 0 };
        assert(ret@ =~= Seq::<T>::empty());
        ret
    }

    /// Attempts to add a value to the end of the buffer. Rejects the element if the buffer is full.
    ///
    /// Returns whether the value was added successfully.
    pub fn push(&mut self, value: T) -> (ret: bool)
        requires
            old(self).wf(),
        ensures
            final(self).wf(),
            ret == (old(self)@.len() < SIZE),
            ret ==> final(self)@ == old(self)@.push(value),
            !ret ==> final(self)@ == old(self)@,
    {
        if self.count_set == SIZE {
            false
        } else {
            let index = wrapping_index(self.first_set, self.count_set, SIZE);
            self.buffer.set(index, value);
            self.count_set += 1;
            assert(self@ =~= old(self)@.push(value)) by {
                assert forall|i: int| 0 <= i < old(self)@.len() implies self@[i] == old(self)@[i] by {
                    self.lemma_distinct_slots(i, self.count_set - 1);
                }
            }
            true
        }
    }

    /// Two different occupied positions map to different slots.
    proof fn lemma_distinct_slots(&self, i: int, j: int)
        requires
            self.first_set < SIZE,
            0 <= i < j < SIZE,
        ensures
            (self.first_set + i) % (SIZE as int) != (self.first_set + j) % (SIZE as int),
    {
        let f = self.first_set as int;
        let s = SIZE as int;
        if (f + i) % s == (f + j) % s {
            vstd::arithmetic::div_mod::lemma_fundamental_div_mod(f + i, s);
            vstd::arithmetic::div_mod::lemma_fundamental_div_mod(f + j, s);
            assert(0 <= f + i < 2 * s);
            assert(0 <= f + j < 2 * s);
            if f + i < s {
                vstd::arithmetic::div_mod::lemma_small_mod((f + i) as nat, s as nat);
                if f + j < s {
                    vstd::arithmetic::div_mod::lemma_small_mod((f + j) as nat, s as nat);
                } else {
                    vstd::arithmetic::div_mod::lemma_mod_sub_multiples_vanish(f + j, s);
                    vstd::arithmetic::div_mod::lemma_small_mod((f + j - s) as nat, s as nat);
                }
            } else {
                vstd::arithmetic::div_mod::lemma_mod_sub_multiples_vanish(f + i, s);
                vstd::arithmetic::div_mod::lemma_small_mod((f + i - s) as nat, s as nat);
                vstd::arithmetic::div_mod::lemma_mod_sub_multiples_vanish(f + j, s);
                vstd::arithmetic::div_mod::lemma_small_mod((f + j - s) as nat, s as nat);
            }
        }
    }

    /// Attempts to add a value to the end of the buffer. Overwrites the oldest element if the
    /// buffer is full.
    pub fn force_push(&mut self, value: T)
        requires
            old(self).wf(),
            SIZE > 0,
        ensures
            final(self).wf(),
            old(self)@.len() < SIZE ==> final(self)@ == old(self)@.push(value),
            old(self)@.len() == SIZE ==> final(self)@ == old(self)@.drop_first().push(value),
    {
        if self.count_set == SIZE {
            // this drops the oldest element
            self.pop();
        }
        let ghost mid = self@;
        let index = wrapping_index(self.first_set, self.count_set, SIZE);
        self.buffer.set(index, value);
        self.count_set += 1;
        assert(self@ =~= mid.push(value)) by {
            assert forall|i: int| 0 <= i < mid.len() implies self@[i] == mid[i] by {
                self.lemma_distinct_slots(i, self.count_set - 1);
            }
        }
    }

    /// Attempts to remove a value from the beginning of the buffer.
    pub fn pop(&mut self) -> (ret: Option<T>)
        requires
            old(self).wf(),
        ensures
            final(self).wf(),
            old(self)@.len() == 0 ==> ret is None && final(self)@ == old(self)@,
            old(self)@.len() > 0 ==> ret == Some(old(self)@[0]) && final(self)@ == old(self)@.drop_first(),
    {
        if self.count_set == 0 {
            None
        } else {
            let val = self.buffer[self.first_set];
            proof { vstd::arithmetic::div_mod::lemma_small_mod(self.first_set as nat, SIZE as nat); }
            self.first_set = wrapping_index(self.first_set, 1, SIZE);
            self.count_set -= 1;
            assert(self@ =~= old(self)@.drop_first()) by {
                assert forall|i: int| 0 <= i < self@.len() implies self@[i] == old(self)@.drop_first()[i] by {
                    let f = old(self).first_set as int;
                    let s = SIZE as int;
                    vstd::arithmetic::div_mod::lemma_add_mod_noop(f + 1, i, s);
                    vstd::arithmetic::div_mod::lemma_small_mod(i as nat, s as nat);
                    vstd::arithmetic::div_mod::lemma_add_mod_noop(f + 1, i, s);
                    assert((((f + 1) % s) + i) % s == (f + 1 + i) % s);
                }
            }
            Some(val)
        }
    }

    /// Attempts to obtain the value at the given index without removing it from the buffer.
    pub fn peek_at(&self, index: usize) -> (ret: Option<T>)
        requires
            self.wf(),
        ensures
            index < self@.len() ==> ret == Some(self@[index as int]),
            index >= self@.len() ==> ret is None,
    {
        if index >= self.count_set {
            None
        } else {
            let buffer_index = wrapping_index(self.first_set, index, SIZE);
            Some(self.buffer[buffer_index])
        }
    }

    /// Obtains an iterator that runs through the buffer and returns copies of each element.
    pub fn iter(&self) -> (ret: Iter<'_, T, SIZE>)
        requires
            self.wf(),
        ensures
            ret.remaining() == self@,
    {
        let ret = Iter { ring_buffer: self, index: 0 };
        assert(ret.remaining() =~= self@);
        ret
    }
}

/// Runs through a ring buffer from the oldest to the newest element, returning copies.
pub struct Iter<'a, T: Copy + Default, const SIZE: usize> {
    ring_buffer: &'a RingBuffer<T, SIZE>,
    index: usize,
}

impl<'a, T: Copy + Default, const SIZE: usize> Iter<'a, T, SIZE> {
    #[verifier::type_invariant]
    spec fn inv(self) -> bool {
        &&& self.ring_buffer.wf()
        &&& self.index <= self.ring_buffer@.len()
    }

    /// The elements that have not been returned yet.
    pub closed spec fn remaining(&self) -> Seq<T> {
        self.ring_buffer@.subrange(self.index as int, self.ring_buffer@.len() as int)
    }

    /// Returns the next element, or `None` once all elements have been returned.
    pub fn next(&mut self) -> (ret: Option<T>)
        ensures
            old(self).remaining().len() == 0 ==> ret is None && final(self).remaining() == old(self).remaining(),
            old(self).remaining().len() > 0 ==> ret == Some(old(self).remaining()[0])
                && final(self).remaining() == old(self).remaining().drop_first(),
    {
        proof { use_type_invariant(&*self); }
        let val = self.ring_buffer.peek_at(self.index);
        match val {
            Some(v) => {
                self.index += 1;
                Some(v)
            },
            None => None,
        }
    }
}

} // verus!
