//! Growable device-buffer bookkeeping.
//!
//! An [`ArrayBuffer`] tracks one device-resident array of `T`: the buffer's
//! identity (a stable numeric handle chosen by the caller), its allocated
//! capacity and its logical length, plus a ghost record of the elements the
//! device currently holds. Writing either updates the existing buffer in
//! place or — exactly when the new data exceeds the capacity — stands for a
//! fresh allocation under a new identity, reported to the caller so that any
//! binding referencing the old buffer can be rebuilt.

use vstd::prelude::*;

verus! {

/// Bookkeeping for one growable device buffer holding an array of `T`.
pub struct ArrayBuffer<T> {
    buffer_id: u64,
    capacity: usize,
    length: usize,
    contents: Ghost<Seq<T>>,
}

impl<T> ArrayBuffer<T> {
    /// The identity of the device buffer currently backing this array.
    pub closed spec fn id(self) -> u64 {
        self.buffer_id
    }

    /// Allocated capacity, in elements.
    pub closed spec fn spec_capacity(self) -> nat {
        self.capacity as nat
    }

    /// Logical length, in elements. Only this many elements of the device
    /// buffer are meaningful; anything beyond is garbage a reader must never
    /// touch.
    pub closed spec fn spec_len(self) -> nat {
        self.length as nat
    }

    /// The meaningful elements the device buffer holds.
    pub closed spec fn contents(self) -> Seq<T> {
        self.contents@
    }

    /// Length never exceeds capacity, and the tracked contents are exactly
    /// the meaningful prefix.
    pub closed spec fn wf(self) -> bool {
        &&& self.length <= self.capacity
        &&& self.contents@.len() == self.length
    }

    /// Creates bookkeeping for a buffer just allocated under `buffer_id`,
    /// sized exactly to `data`: capacity and length both equal `data.len()`.
    pub fn new(buffer_id: u64, data: &Vec<T>) -> (r: Self)
        ensures
            r.wf(),
            r.id() == buffer_id,
            r.spec_capacity() == data@.len(),
            r.spec_len() == data@.len(),
            r.contents() == data@,
    {
        ArrayBuffer {
            buffer_id,
            capacity: data.len(),
            length: data.len(),
            contents: Ghost(data@),
        }
    }

    /// Records a write of `data` into the buffer. If `data` fits within the
    /// current capacity the buffer is updated in place and its identity and
    /// capacity are untouched; otherwise the buffer is reallocated under
    /// `fresh_id`, sized exactly to the data (capacity == length). Returns
    /// whether a reallocation took place.
    pub fn write_buffer(&mut self, data: &Vec<T>, fresh_id: u64) -> (resized: bool)
        requires
            old(self).wf(),
        ensures
            final(self).wf(),
            resized == (data@.len() > old(self).spec_capacity()),
            final(self).spec_len() == data@.len(),
            final(self).contents() == data@,
            resized ==> final(self).id() == fresh_id && final(self).spec_capacity()
                == data@.len(),
            !resized ==> final(self).id() == old(self).id() && final(self).spec_capacity()
                == old(self).spec_capacity(),
    {
        let resize = data.len() > self.capacity;
        if resize {
            self.buffer_id = fresh_id;
            self.capacity = data.len();
        }
        self.length = data.len();
        self.contents = Ghost(data@);
        resize
    }

    /// The identity of the backing device buffer.
    pub fn buffer_id(&self) -> (id: u64)
        ensures
            id == self.id(),
    {
        self.buffer_id
    }

    /// Gets the buffer's logical length in elements.
    pub fn len(&self) -> (n: usize)
        ensures
            n == self.spec_len(),
    {
        self.length
    }

    /// Gets the buffer's allocated capacity in elements.
    pub fn capacity(&self) -> (n: usize)
        ensures
            n == self.spec_capacity(),
    {
        self.capacity
    }
}

} // verus!
