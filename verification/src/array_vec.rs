use vstd::prelude::*;

use crate::errors::CapacityError;

verus! {

/// What truncation leaves behind: the first `new_len` elements when the
/// target is shorter than the sequence, the whole sequence otherwise.
pub open spec fn truncated<T>(s: Seq<T>, new_len: int) -> Seq<T> {
    if 0 <= new_len < s.len() {
        s.take(new_len)
    } else {
        s
    }
}

/// A contiguous container whose storage never holds more than `CAPACITY`
/// elements. The logical length moves only by single pushes and pops or by
/// truncation; exceeding the capacity is a reported condition, never growth.
pub struct ArrayVec<T, const CAPACITY: usize> {
    elems: Vec<T>,
}

impl<T, const CAPACITY: usize> View for ArrayVec<T, CAPACITY> {
    type V = Seq<T>;

    closed spec fn view(&self) -> Seq<T> {
        self.elems@
    }
}

impl<T, const CAPACITY: usize> ArrayVec<T, CAPACITY> {
    /// The container invariant: the logical length never exceeds the
    /// capacity. Constructors establish it and every operation preserves it.
    pub open spec fn wf(&self) -> bool {
        self@.len() <= CAPACITY
    }

    /// Creates an empty container.
    pub fn new() -> (r: Self)
        ensures
            r.wf(),
            r@ == Seq::<T>::empty(),
    {
        ArrayVec { elems: Vec::new() }
    }

    /// The number of elements the container currently holds.
    pub fn len(&self) -> (r: usize)
        ensures
            r == self@.len(),
    {
        self.elems.len()
    }

    /// The fixed bound on the number of elements.
    pub fn capacity(&self) -> (r: usize)
        ensures
            r == CAPACITY,
    {
        CAPACITY
    }

    /// A borrowed view over exactly the elements the container holds: its
    /// length always equals the container's length at the moment of the call.
    pub fn as_slice(&self) -> (r: &[T])
        ensures
            r@ == self@,
    {
        self.elems.as_slice()
    }

    /// A mutable borrowed view over exactly the elements the container
    /// holds; writes through it become writes to the container.
    pub fn as_mut_slice(&mut self) -> (r: &mut [T])
        ensures
            r@ == old(self)@,
            final(self)@ == final(r)@,
    {
        self.elems.as_mut_slice()
    }

    /// The unchecked insertion primitive: writes `element` into the next
    /// slot and lengthens the container by one. Callers must have proven
    /// that room remains.
    pub(crate) fn push_unchecked(&mut self, element: T)
        requires
            old(self).wf(),
            old(self)@.len() < CAPACITY,
        ensures
            final(self).wf(),
            final(self)@ == old(self)@.push(element),
    {
        self.elems.push(element);
    }

    /// Checked insertion, the one entry point for growth: appends `element`
    /// and succeeds whenever room remains; when the container is full it
    /// changes nothing and gives `element` back inside the error.
    pub fn try_push(&mut self, element: T) -> (r: Result<(), CapacityError<T>>)
        requires
            old(self).wf(),
        ensures
            final(self).wf(),
            old(self)@.len() < CAPACITY ==> r is Ok && final(self)@ == old(self)@.push(element),
            old(self)@.len() == CAPACITY ==> (r matches Err(e) && e.element == element)
                && final(self)@ == old(self)@,
    {
        if self.len() < CAPACITY {
            self.push_unchecked(element);
            Ok(())
        } else {
            Err(CapacityError::new(element))
        }
    }

    /// Unconditional insertion, for callers that have already proven room
    /// remains; the success path of [`Self::try_push`].
    pub fn push(&mut self, element: T)
        requires
            old(self).wf(),
            old(self)@.len() < CAPACITY,
        ensures
            final(self).wf(),
            final(self)@ == old(self)@.push(element),
    {
        let _ = self.try_push(element);
    }

    /// Removes and returns the last element, or reports absence when the
    /// container is empty; an empty container is left unchanged.
    pub fn pop(&mut self) -> (r: Option<T>)
        requires
            old(self).wf(),
        ensures
            final(self).wf(),
            old(self)@.len() == 0 ==> r is None && final(self)@ == old(self)@,
            old(self)@.len() > 0 ==> r == Some(old(self)@.last())
                && final(self)@ == old(self)@.drop_last(),
    {
        self.elems.pop()
    }

    /// Shortens the container to `new_len` elements, dropping the tail; a
    /// target at or above the current length changes nothing and never
    /// fails.
    pub fn truncate(&mut self, new_len: usize)
        requires
            old(self).wf(),
        ensures
            final(self).wf(),
            final(self)@ == truncated(old(self)@, new_len as int),
    {
        self.elems.truncate(new_len);
        proof {
            assert(self.elems@ =~= truncated(old(self)@, new_len as int));
        }
    }

    /// Removes every element: truncation to length zero.
    pub fn clear(&mut self)
        requires
            old(self).wf(),
        ensures
            final(self).wf(),
            final(self)@ == Seq::<T>::empty(),
    {
        self.truncate(0);
        proof {
            assert(self@ =~= Seq::<T>::empty());
        }
    }
}

/// The invariant in words: a well-formed container's length never lies
/// outside `[0, CAPACITY]`. Every operation requires and re-establishes
/// `wf`, so the bound holds at every observable point.
pub proof fn lemma_length_bounded<T, const CAPACITY: usize>(v: ArrayVec<T, CAPACITY>)
    requires
        v.wf(),
    ensures
        0 <= v@.len() <= CAPACITY,
{
}

/// Push/pop duality: pushing an element onto a container with room and then
/// popping yields that element back and restores the original sequence.
pub proof fn lemma_push_pop_duality<T, const CAPACITY: usize>(v: ArrayVec<T, CAPACITY>, e: T)
    requires
        v.wf(),
        v@.len() < CAPACITY,
    ensures
        v@.push(e).last() == e,
        v@.push(e).drop_last() == v@,
{
    assert(v@.push(e).drop_last() =~= v@);
}

/// Truncating twice to the same target is a no-op the second time, and
/// truncating to the current length changes nothing in the first place.
pub proof fn lemma_truncate_idempotent<T, const CAPACITY: usize>(
    v: ArrayVec<T, CAPACITY>,
    new_len: int,
)
    ensures
        truncated(truncated(v@, new_len), new_len) == truncated(v@, new_len),
        truncated(v@, v@.len() as int) == v@,
{
    if 0 <= new_len < v@.len() {
        assert(truncated(v@, new_len).len() == new_len);
    }
}

/// Truncating below the current length leaves exactly the first `new_len`
/// elements, each unchanged.
pub proof fn lemma_truncate_prefix<T, const CAPACITY: usize>(
    v: ArrayVec<T, CAPACITY>,
    new_len: int,
)
    requires
        0 <= new_len < v@.len(),
    ensures
        truncated(v@, new_len).len() == new_len,
        forall|i: int| 0 <= i < new_len ==> truncated(v@, new_len)[i] == v@[i],
{
}

} // verus!
