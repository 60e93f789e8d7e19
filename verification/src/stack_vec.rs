use vstd::pervasive::cloned;
use vstd::prelude::*;

verus! {

/// A contiguous array type backed by a slice.
///
/// A `StackVec` works like a `Vec`: values are pushed to and popped from its
/// end. It allocates nothing: it keeps its values in a slice that the caller
/// supplies, so it holds at most as many values as that slice is long, and
/// `push` fails when it is full.
#[derive(Debug)]
pub struct StackVec<'a, T> {
    storage: &'a mut [T],
    len: usize,
}

impl<'a, T> View for StackVec<'a, T> {
    type V = Seq<T>;

    /// The values that the vector holds, oldest first.
    open spec fn view(&self) -> Seq<T> {
        self.slots().take(self.count() as int)
    }
}

impl<'a, T> StackVec<'a, T> {
    /// The slice that the vector keeps its values in.
    pub closed spec fn storage(&self) -> &'a mut [T] {
        self.storage
    }

    /// What the storage holds, all of it: the vector's values, then the
    /// slots that are free.
    pub closed spec fn slots(&self) -> Seq<T> {
        self.storage@
    }

    /// The number of values that the vector holds: they are the first of
    /// `slots()`.
    pub closed spec fn count(&self) -> nat {
        self.len as nat
    }

    /// The vector holds no more values than its storage has room for.
    pub open spec fn wf(&self) -> bool {
        self.count() <= self.slots().len()
    }

    /// The slots of a vector are what its storage holds.
    pub proof fn lemma_slots(&self)
        ensures
            self.slots() == self.storage()@,
    {
    }

    /// Once a vector is not used any more, its last slots are what the slice
    /// that it was made on holds from then on.
    pub proof fn lemma_left_behind(self)
        requires
            has_resolved(self),
        ensures
            final(self.storage())@ == self.slots(),
    {
    }

    /// Constructs a new, empty vector that keeps its values in `storage`.
    pub fn new(storage: &'a mut [T]) -> (v: StackVec<'a, T>)
        ensures
            v.wf(),
            v.count() == 0,
            v@ == Seq::<T>::empty(),
            v.slots() == old(storage)@,
            final(v.storage())@ == final(storage)@,
    {
        StackVec { storage, len: 0usize }
    }

    /// Constructs a vector that keeps its values in `storage` and already
    /// holds the first `len` of them.
    pub fn with_len(storage: &'a mut [T], len: usize) -> (v: StackVec<'a, T>)
        requires
            len <= old(storage)@.len(),
        ensures
            v.wf(),
            v.count() == len,
            v@ == old(storage)@.take(len as int),
            v.slots() == old(storage)@,
            final(v.storage())@ == final(storage)@,
    {
        StackVec { storage, len }
    }

    /// Returns the number of values that the vector can hold.
    pub fn capacity(&self) -> (n: usize)
        ensures
            n == self.slots().len(),
    {
        self.storage.len()
    }

    /// Shortens the vector to its first `len` values. A `len` that is not
    /// below the current length changes nothing.
    pub fn truncate(&mut self, len: usize)
        ensures
            final(self).count() == if len < old(self).count() {
                len as nat
            } else {
                old(self).count()
            },
            final(self).storage() == old(self).storage(),
            final(self).slots() == old(self).slots(),
            old(self).wf() ==> final(self).wf(),
    {
        if len < self.len {
            self.len = len;
        }
    }

    /// Gives the storage back, all of it, and ends the vector.
    pub fn into_slice(self) -> (s: &'a mut [T])
        ensures
            s@ == self.slots(),
            final(s)@ == final(self.storage())@,
    {
        self.storage
    }

    /// The storage, all of it.
    pub fn as_slice(&self) -> (s: &[T])
        ensures
            s@ == self.slots(),
    {
        &*self.storage
    }

    /// The storage, all of it, open to writing.
    pub fn as_mut_slice(&mut self) -> (s: &mut [T])
        ensures
            s@ == old(self).slots(),
            final(self).slots() == final(s)@,
            final(self).count() == old(self).count(),
            final(final(self).storage())@ == final(old(self).storage())@,
    {
        &mut *self.storage
    }

    /// Returns the number of values in the vector.
    pub fn len(&self) -> (n: usize)
        ensures
            n == self.count(),
    {
        self.len
    }

    /// Returns true if the vector holds no value.
    pub fn is_empty(&self) -> (b: bool)
        ensures
            b == (self.count() == 0),
    {
        self.len == 0
    }

    /// Returns true if the vector holds as many values as it can.
    pub fn is_full(&self) -> (b: bool)
        ensures
            b == (self.count() == self.slots().len()),
    {
        self.len == self.storage.len()
    }

    /// Appends `value` to the vector, or fails if the vector is full.
    pub fn push(&mut self, value: T) -> (r: Result<(), ()>)
        requires
            old(self).wf(),
        ensures
            final(self).wf(),
            final(final(self).storage())@ == final(old(self).storage())@,
            r is Ok <==> old(self).count() < old(self).slots().len(),
            r is Ok ==> {
                &&& final(self).count() == old(self).count() + 1
                &&& final(self).slots() == old(self).slots().update(
                    old(self).count() as int,
                    value,
                )
                &&& final(self)@ == old(self)@.push(value)
            },
            r is Err ==> final(self).count() == old(self).count() && final(self).slots() == old(
                self,
            ).slots(),
    {
        if self.is_full() {
            Err(())
        } else {
            self.storage[self.len] = value;
            self.len += 1;
            assert(self@ =~= old(self)@.push(value));
            Ok(())
        }
    }
}

impl<'a, T: Clone> StackVec<'a, T> {
    /// Takes the last value off the vector and returns a clone of it, or
    /// returns `None` if the vector is empty.
    pub fn pop(&mut self) -> (r: Option<T>)
        requires
            old(self).wf(),
        ensures
            final(self).wf(),
            final(self).storage() == old(self).storage(),
            final(self).slots() == old(self).slots(),
            r is None <==> old(self).count() == 0,
            r is Some ==> {
                &&& final(self).count() == old(self).count() - 1
                &&& final(self)@ == old(self)@.drop_last()
                &&& cloned(old(self)@.last(), r->0)
            },
            r is None ==> final(self).count() == 0,
    {
        if self.is_empty() {
            None
        } else {
            let res = Some(self.storage[self.len - 1].clone());
            self.len -= 1;
            assert(self@ =~= old(self)@.drop_last());
            res
        }
    }
}

impl<'a, T> core::ops::Deref for StackVec<'a, T> {
    type Target = &'a mut [T];

    /// The storage, all of it.
    fn deref(&self) -> (s: &Self::Target)
        ensures
            *s == self.storage(),
            (*s)@ == self.slots(),
    {
        &self.storage
    }
}

impl<'a, T> core::ops::DerefMut for StackVec<'a, T> {
    /// The storage, all of it, open to writing.
    fn deref_mut(&mut self) -> (s: &mut Self::Target)
        ensures
            *s == old(self).storage(),
            final(self).storage() == *final(s),
            final(self).count() == old(self).count(),
    {
        &mut self.storage
    }
}

impl<'a, T: Copy> StackVec<'a, T> {
    /// Turns the vector into a walk over its values, oldest first.
    pub fn into_iter(self) -> (iter: StackVecIntoIter<'a, T>)
        ensures
            iter.vector() == self,
            iter.returned() == 0,
    {
        StackVecIntoIter { stack_vec: self, idx: 0 }
    }
}

/// A walk over the values of a `StackVec`, oldest first.
pub struct StackVecIntoIter<'a, T> {
    stack_vec: StackVec<'a, T>,
    idx: usize,
}

impl<'a, T> StackVecIntoIter<'a, T> {
    /// The vector that is walked over.
    pub closed spec fn vector(&self) -> StackVec<'a, T> {
        self.stack_vec
    }

    /// The number of values that the walk has returned.
    pub closed spec fn returned(&self) -> nat {
        self.idx as nat
    }
}

impl<'a, T: Copy> StackVecIntoIter<'a, T> {
    /// Returns the next value of the walk, or `None` once every value has
    /// been returned.
    pub fn next(&mut self) -> (r: Option<T>)
        requires
            old(self).vector().wf(),
        ensures
            final(self).vector() == old(self).vector(),
            old(self).returned() < old(self).vector().count() ==> {
                &&& r == Some(old(self).vector()@[old(self).returned() as int])
                &&& final(self).returned() == old(self).returned() + 1
            },
            old(self).returned() >= old(self).vector().count() ==> {
                &&& r is None
                &&& final(self).returned() == old(self).returned()
            },
    {
        if self.idx >= self.stack_vec.len {
            None
        } else {
            let result = self.stack_vec.storage[self.idx];
            self.idx += 1;
            Some(result)
        }
    }
}

} // verus!
