//! A variable-length array with a fixed upper bound on its length.

use vstd::prelude::*;

verus! {

/// A variable-length array of constant (upper-bound) size.
///
/// The elements are kept in order of insertion; the array never holds more than `MAX_SIZE`
/// elements.
#[derive(Debug, PartialEq, Eq, PartialOrd, Ord, Hash)]
pub struct MaxArray<T, const MAX_SIZE: usize> {
    array: Vec<T>,
}

impl<T, const MAX_SIZE: usize> View for MaxArray<T, MAX_SIZE> {
    type V = Seq<T>;

    closed spec fn view(&self) -> Seq<T> {
        self.array@
    }
}

impl<T, const MAX_SIZE: usize> MaxArray<T, MAX_SIZE> {
    /// The array never holds more than `MAX_SIZE` elements.
    #[verifier::type_invariant]
    pub open spec fn inv(self) -> bool {
        self@.len() <= MAX_SIZE
    }

    /// Creates a new, empty `MaxArray`.
    pub fn new() -> (ret: Self)
        ensures
            ret@ == Seq::<T>::empty(),
    {
        MaxArray { array: Vec::new() }
    }

    /// The number of elements currently contained in the array.
    pub fn len(&self) -> (ret: usize)
        ensures
            ret == self@.len(),
            ret <= MAX_SIZE,
    {
        proof { use_type_invariant(self); }
        self.array.len()
    }

    /// The maximum number of elements that can be stored in this array.
    pub fn max_size(&self) -> (ret: usize)
        ensures
            ret == MAX_SIZE,
    {
        MAX_SIZE
    }

    /// Appends a single element to the end of the array. Returns `Ok(())` if there was enough space
    /// for the element and `Err(val)` (where `val` is the element to be appended) if not.
    pub fn push(&mut self, val: T) -> (ret: Result<(), T>)
        ensures
            old(self)@.len() < MAX_SIZE ==> ret == Ok::<(), T>(()) && final(self)@ == old(self)@.push(val),
            old(self)@.len() >= MAX_SIZE ==> ret == Err::<(), T>(val) && final(self)@ == old(self)@,
    {
        proof { use_type_invariant(&*self); }
        if self.array.len() < MAX_SIZE {
            let mut array: Vec<T> = Vec::new();
            std::mem::swap(&mut array, &mut self.array);
            array.push(val);
            self.array = array;
            Ok(())
        } else {
            Err(val)
        }
    }

    /// Removes a single item from the end of the array. Returns `Some(element)` if the array
    /// contained at least one element and `None` if it was empty.
    pub fn pop(&mut self) -> (ret: Option<T>)
        ensures
            old(self)@.len() == 0 ==> ret == None::<T> && final(self)@ == old(self)@,
            old(self)@.len() > 0 ==> ret == Some(old(self)@.last()) && final(self)@ == old(self)@.drop_last(),
    {
        proof { use_type_invariant(&*self); }
        let mut array: Vec<T> = Vec::new();
        std::mem::swap(&mut array, &mut self.array);
        let ret = array.pop();
        self.array = array;
        ret
    }

    /// Returns an immutable slice of the part of the array that is currently occupied.
    pub fn as_slice(&self) -> (ret: &[T])
        ensures
            ret@ == self@,
    {
        self.array.as_slice()
    }

    /// Returns whether the array can fit the given number of elements.
    pub fn can_fit(&self, element_count: usize) -> (ret: bool)
        ensures
            ret == (self@.len() + element_count <= MAX_SIZE),
    {
        proof { use_type_invariant(self); }
        element_count <= MAX_SIZE - self.array.len()
    }

    /// Returns a reference to the element at the given index, if it is occupied.
    pub fn get(&self, index: usize) -> (ret: Option<&T>)
        ensures
            index < self@.len() ==> ret == Some(&self@[index as int]),
            index >= self@.len() ==> ret is None,
    {
        if index < self.array.len() {
            Some(&self.array[index])
        } else {
            None
        }
    }

    /// Returns an iterator that runs over references to the elements currently contained in the
    /// array.
    pub fn iter(&self) -> (ret: Iter<'_, T, MAX_SIZE>)
        ensures
            ret.remaining() == self@,
    {
        Iter { max_slice: self, next_index: 0 }
    }
}

impl<T: Copy, const MAX_SIZE: usize> MaxArray<T, MAX_SIZE> {
    /// Creates a new `MaxArray` from all the elements of the given slice. Panics if not all
    /// elements fit into the `MaxArray`.
    pub fn from_iter_or_panic(items: &[T]) -> (ret: Self)
        requires
            items@.len() <= MAX_SIZE,
        ensures
            ret@ == items@,
    {
        let mut array: Vec<T> = Vec::new();
        let mut i: usize = 0;
        while i < items.len()
            invariant
                i <= items@.len(),
                items@.len() <= MAX_SIZE,
                array@ == items@.subrange(0, i as int),
            decreases items@.len() - i,
        {
            array.push(items[i]);
            i += 1;
            assert(array@ == items@.subrange(0, i as int));
        }
        assert(items@.subrange(0, items@.len() as int) == items@);
        MaxArray { array }
    }

    /// Replaces the elements of the array by the leading elements of the given slice, as many as
    /// fit. Returns whether all elements of the slice were taken.
    pub fn fill_from(&mut self, items: &[T]) -> (ret: bool)
        ensures
            ret == (items@.len() <= MAX_SIZE),
            ret ==> final(self)@ == items@,
            !ret ==> final(self)@ == items@.subrange(0, MAX_SIZE as int),
    {
        let mut array: Vec<T> = Vec::new();
        let mut i: usize = 0;
        while i < items.len() && i < MAX_SIZE
            invariant
                i <= items@.len(),
                i <= MAX_SIZE,
                array@ == items@.subrange(0, i as int),
            decreases items@.len() - i,
        {
            array.push(items[i]);
            i += 1;
            assert(array@ == items@.subrange(0, i as int));
        }
        assert(items@.subrange(0, items@.len() as int) == items@);
        self.array = array;
        i == items.len()
    }

    /// Stores copies of the elements from this array into the given slice.
    ///
    /// Returns the number of elements stored in the slice (the length of the array or the length
    /// of the slice, whichever is smaller).
    pub fn copy_into(&self, slice: &mut [T]) -> (ret: usize)
        ensures
            ret == if old(slice)@.len() < self@.len() { old(slice)@.len() } else { self@.len() },
            final(slice)@.len() == old(slice)@.len(),
            forall|i: int| 0 <= i < ret ==> final(slice)@[i] == self@[i],
            forall|i: int| ret <= i < old(slice)@.len() ==> final(slice)@[i] == old(slice)@[i],
    {
        let out_length = if slice.len() < self.array.len() { slice.len() } else { self.array.len() };
        let mut i: usize = 0;
        while i < out_length
            invariant
                out_length <= slice@.len(),
                out_length <= self@.len(),
                out_length == if old(slice)@.len() < self@.len() { old(slice)@.len() } else { self@.len() },
                i <= out_length,
                slice@.len() == old(slice)@.len(),
                forall|j: int| 0 <= j < i ==> slice@[j] == self@[j],
                forall|j: int| i <= j < old(slice)@.len() ==> slice@[j] == old(slice)@[j],
            decreases out_length - i,
        {
            slice[i] = self.array[i];
            i += 1;
        }
        out_length
    }
}

impl<T: Copy, const MAX_SIZE: usize> Clone for MaxArray<T, MAX_SIZE> {
    fn clone(&self) -> (ret: Self)
        ensures
            ret@ == self@,
    {
        proof { use_type_invariant(self); }
        let mut array: Vec<T> = Vec::new();
        let mut i: usize = 0;
        while i < self.array.len()
            invariant
                i <= self@.len(),
                self@.len() <= MAX_SIZE,
                array@ == self@.subrange(0, i as int),
            decreases self@.len() - i,
        {
            array.push(self.array[i]);
            i += 1;
            assert(array@ == self@.subrange(0, i as int));
        }
        assert(self@.subrange(0, self@.len() as int) == self@);
        MaxArray { array }
    }
}

/// Runs over references to the elements of a `MaxArray`, front to back.
pub struct Iter<'a, T, const MAX_SIZE: usize> {
    max_slice: &'a MaxArray<T, MAX_SIZE>,
    next_index: usize,
}

impl<'a, T, const MAX_SIZE: usize> Iter<'a, T, MAX_SIZE> {
    #[verifier::type_invariant]
    spec fn inv(self) -> bool {
        self.next_index <= self.max_slice@.len()
    }

    /// The elements that have not been returned yet.
    pub closed spec fn remaining(&self) -> Seq<T> {
        self.max_slice@.subrange(self.next_index as int, self.max_slice@.len() as int)
    }

    /// Returns the next element, or `None` once all elements have been returned.
    pub fn next(&mut self) -> (ret: Option<&'a T>)
        ensures
            old(self).remaining().len() == 0 ==> ret is None && final(self).remaining() == old(self).remaining(),
            old(self).remaining().len() > 0 ==> ret == Some(&old(self).remaining()[0])
                && final(self).remaining() == old(self).remaining().drop_first(),
    {
        proof { use_type_invariant(&*self); }
        if self.next_index < self.max_slice.array.len() {
            let item = &self.max_slice.array[self.next_index];
            self.next_index += 1;
            Some(item)
        } else {
            None
        }
    }
}

} // verus!
