//! Containers whose every access carries the proof that its index is in
//! range, so that no access can fail.

use vstd::prelude::*;

verus! {

/// An array whose elements are reached only by indices proved in range.
pub struct UncheckedArray<const N: usize, T> {
    array: [T; N],
}

impl<const N: usize, T> View for UncheckedArray<N, T> {
    type V = Seq<T>;

    closed spec fn view(&self) -> Seq<T> {
        self.array@
    }
}

impl<const N: usize, T> UncheckedArray<N, T> {
    /// Wraps `array`.
    pub fn new(array: [T; N]) -> (wrapped: Self)
        ensures
            wrapped@ == array@,
            wrapped@.len() == N,
    {
        Self { array }
    }

    /// The view has the array's length.
    pub proof fn lemma_len(&self)
        ensures
            self@.len() == N,
    {
    }

    /// The element at `index`.
    pub fn index(&self, index: usize) -> (element: &T)
        requires
            index < N,
        ensures
            *element == self@[index as int],
    {
        &self.array[index]
    }

    /// The element at `index`, for writing: what is written there is the
    /// only change.
    pub fn index_mut(&mut self, index: usize) -> (element: &mut T)
        requires
            index < N,
        ensures
            *element == old(self)@[index as int],
            final(self)@ == old(self)@.update(index as int, *final(element)),
    {
        &mut self.array[index]
    }
}

/// A vector whose elements are reached only by indices proved in range.
pub struct UncheckedVec<T> {
    vec: Vec<T>,
}

impl<T> View for UncheckedVec<T> {
    type V = Seq<T>;

    closed spec fn view(&self) -> Seq<T> {
        self.vec@
    }
}

impl<T> UncheckedVec<T> {
    /// Wraps `vec`.
    pub fn new(vec: Vec<T>) -> (wrapped: Self)
        ensures
            wrapped@ == vec@,
    {
        Self { vec }
    }

    /// Removes every element.
    pub fn clear(&mut self)
        ensures
            final(self)@ == Seq::<T>::empty(),
    {
        self.vec.clear();
    }

    /// The number of elements.
    pub fn len(&self) -> (len: usize)
        ensures
            len == self@.len(),
    {
        self.vec.len()
    }

    /// The element at `index`.
    pub fn index(&self, index: usize) -> (element: &T)
        requires
            index < self@.len(),
        ensures
            *element == self@[index as int],
    {
        &self.vec[index]
    }

    /// The element at `index`, for writing: what is written there is the
    /// only change.
    pub fn index_mut(&mut self, index: usize) -> (element: &mut T)
        requires
            index < old(self)@.len(),
        ensures
            *element == old(self)@[index as int],
            final(self)@ == old(self)@.update(index as int, *final(element)),
    {
        &mut self.vec[index]
    }
}

} // verus!
