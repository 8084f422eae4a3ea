//! The growable array, its raw backing storage, and the consuming iterator
//! that takes the array apart element by element.

use vstd::prelude::*;
use vstd::pervasive::VecAdditionalExecFns;
use crate::allocator::Allocator;
use crate::allocator::Global;

verus! {

/// The raw storage behind a [`Vector`] and its consuming iterator: a
/// contiguous buffer of element slots.
///
/// Each slot either holds a live element (`Some`) or has been vacated
/// (`None`): its element's ownership was transferred away, either to a
/// caller of the iterator or to the cleanup pass that runs when the
/// iterator is discarded. The buffer itself says nothing about which slots
/// must be live; that discipline belongs to the types that own a
/// `RawVector` and is stated in their well-formedness conditions.
pub struct RawVector<T> {
    buf: Vec<Option<T>>,
}

impl<T> View for RawVector<T> {
    type V = Seq<Option<T>>;

    closed spec fn view(&self) -> Seq<Option<T>> {
        self.buf@
    }
}

impl<T> RawVector<T> {
    /// All slots are live: none of the elements has been moved out yet.
    pub open spec fn all_live(self) -> bool {
        forall|i: int| 0 <= i < self@.len() ==> self@[i] is Some
    }

    /// All slots have been vacated: destroying this storage runs no
    /// element destructor, so it is safe to release the allocation as raw
    /// memory.
    pub open spec fn all_vacated(self) -> bool {
        forall|i: int| 0 <= i < self@.len() ==> self@[i] is None
    }

    /// The elements held in the slots, in buffer order, meaningful when
    /// all slots are live.
    pub open spec fn elements(self) -> Seq<T> {
        Seq::new(self@.len(), |i: int| self@[i]->0)
    }

    /// Storage with no slots at all.
    pub fn empty() -> (r: Self)
        ensures
            r@ == Seq::<Option<T>>::empty(),
    {
        RawVector { buf: Vec::new() }
    }

    /// Appends one live slot holding `value`.
    pub fn push_live(&mut self, value: T)
        ensures
            final(self)@ == old(self)@.push(Some(value)),
    {
        self.buf.push(Some(value));
    }

    /// The number of slots.
    pub fn len(&self) -> (n: usize)
        ensures
            n == self@.len(),
    {
        self.buf.len()
    }
}

/// A pair of positions delimiting the still-unyielded subrange of a slot
/// buffer: `start` is the next slot to yield from the front, `end` is one
/// past the next slot to yield from the back.
///
/// The cursor owns no resource itself — it is a pure pair of positions into
/// storage owned by someone else. Positions are slot indices rather than
/// addresses, so elements that occupy no memory need no special case: an
/// index is a count, and counting works whatever the element width.
struct RawValIter {
    start: usize,
    end: usize,
}

impl RawValIter {
    /// The two positions never cross; equality means exhausted.
    #[verifier::type_invariant]
    spec fn ordered(self) -> bool {
        self.start <= self.end
    }

    /// The position of the next forward slot to yield.
    spec fn first(self) -> int {
        self.start as int
    }

    /// One past the position of the next backward slot to yield.
    spec fn past_last(self) -> int {
        self.end as int
    }

    /// The cursor is a valid window into `buf`: in bounds, and every slot
    /// it still claims is live.
    spec fn wf_for<T>(self, buf: Seq<Option<T>>) -> bool {
        &&& self.start <= self.end
        &&& self.end <= buf.len()
        &&& forall|i: int| self.start <= i < self.end ==> buf[i] is Some
    }

    /// The elements the cursor still owes, in front-to-back order.
    spec fn remaining<T>(self, buf: Seq<Option<T>>) -> Seq<T> {
        Seq::new((self.end - self.start) as nat, |i: int| buf[self.start + i]->0)
    }

    /// Builds a cursor spanning every slot of `storage`, all of which must
    /// be live.
    fn new<T>(storage: &RawVector<T>) -> (r: Self)
        requires
            storage.all_live(),
        ensures
            r.wf_for(storage@),
            r.first() == 0,
            r.past_last() == storage@.len(),
            r.remaining(storage@) == storage.elements(),
    {
        let r = RawValIter { start: 0, end: storage.len() };
        proof {
            assert(r.remaining(storage@) =~= storage.elements());
        }
        r
    }

    /// Yields the front element: vacates the slot at `start` and advances
    /// `start` past it. Returns nothing once the two positions meet.
    fn next<T>(&mut self, buf: &mut Vec<Option<T>>) -> (r: Option<T>)
        requires
            old(self).wf_for(old(buf)@),
        ensures
            final(self).wf_for(final(buf)@),
            final(buf)@.len() == old(buf)@.len(),
            old(self).remaining(old(buf)@).len() == 0 ==> {
                &&& r is None
                &&& *final(self) == *old(self)
                &&& final(buf)@ == old(buf)@
            },
            old(self).remaining(old(buf)@).len() > 0 ==> {
                &&& r == Some(old(self).remaining(old(buf)@)[0])
                &&& final(self).first() == old(self).first() + 1
                &&& final(self).past_last() == old(self).past_last()
                &&& final(buf)@ == old(buf)@.update(old(self).first(), None)
                &&& final(self).remaining(final(buf)@) == old(self).remaining(
                    old(buf)@,
                ).drop_first()
            },
    {
        if self.start == self.end {
            None
        } else {
            let mut slot: Option<T> = None;
            buf.set_and_swap(self.start, &mut slot);
            self.start = self.start + 1;
            proof {
                assert(self.remaining(buf@) =~= old(self).remaining(old(buf)@).drop_first());
            }
            slot
        }
    }

    /// Yields the back element: retreats `end` and vacates the slot now at
    /// `end`. Returns nothing once the two positions meet.
    fn next_back<T>(&mut self, buf: &mut Vec<Option<T>>) -> (r: Option<T>)
        requires
            old(self).wf_for(old(buf)@),
        ensures
            final(self).wf_for(final(buf)@),
            final(buf)@.len() == old(buf)@.len(),
            old(self).remaining(old(buf)@).len() == 0 ==> {
                &&& r is None
                &&& *final(self) == *old(self)
                &&& final(buf)@ == old(buf)@
            },
            old(self).remaining(old(buf)@).len() > 0 ==> {
                &&& r == Some(old(self).remaining(old(buf)@).last())
                &&& final(self).first() == old(self).first()
                &&& final(self).past_last() == old(self).past_last() - 1
                &&& final(buf)@ == old(buf)@.update(old(self).past_last() - 1, None)
                &&& final(self).remaining(final(buf)@) == old(self).remaining(
                    old(buf)@,
                ).drop_last()
            },
    {
        if self.start == self.end {
            None
        } else {
            self.end = self.end - 1;
            let mut slot: Option<T> = None;
            buf.set_and_swap(self.end, &mut slot);
            proof {
                assert(self.remaining(buf@) =~= old(self).remaining(old(buf)@).drop_last());
            }
            slot
        }
    }

    /// The exact number of elements still owed: both positions are always
    /// known precisely, so the lower and upper bounds coincide.
    fn size_hint(&self) -> (r: (usize, Option<usize>))
        ensures
            r.0 == self.past_last() - self.first(),
            r.1 == Some(r.0),
    {
        proof {
            use_type_invariant(self);
        }
        let n = self.end - self.start;
        (n, Some(n))
    }
}

/// A growable array of owned elements over a pluggable allocation
/// strategy.
///
/// Growth policy, indexing and removal are not this library's subject; the
/// array exists here as the owner that [`Vector::into_iter`] consumes: it
/// holds the raw storage, the allocator that storage came from, and —
/// through its well-formedness — the guarantee that every slot of that
/// storage is live. Its view is the sequence of its elements in insertion
/// order.
pub struct Vector<T, A: Allocator> {
    raw: RawVector<T>,
    allocator: A,
}

impl<T, A: Allocator> View for Vector<T, A> {
    type V = Seq<T>;

    closed spec fn view(&self) -> Seq<T> {
        self.raw.elements()
    }
}

impl<T, A: Allocator> Vector<T, A> {
    /// Every slot of the backing storage holds a live element: the array
    /// has yielded ownership of nothing yet. Every `Vector` this library
    /// hands out is well-formed, and every operation keeps it so.
    pub closed spec fn wf(self) -> bool {
        self.raw.all_live()
    }

    /// An empty array that will release its storage through `allocator`.
    pub fn new_in(allocator: A) -> (v: Self)
        ensures
            v.wf(),
            v@ == Seq::<T>::empty(),
    {
        let v = Vector { raw: RawVector::empty(), allocator };
        proof {
            assert(v@ =~= Seq::<T>::empty());
        }
        v
    }

    /// Appends `value` at the back.
    pub fn push(&mut self, value: T)
        requires
            old(self).wf(),
        ensures
            final(self).wf(),
            final(self)@ == old(self)@.push(value),
    {
        self.raw.push_live(value);
        proof {
            assert(self@ =~= old(self)@.push(value));
        }
    }

    /// The number of elements.
    pub fn len(&self) -> (n: usize)
        ensures
            n == self@.len(),
    {
        self.raw.len()
    }

    /// Converts the array into a consuming iterator over its elements.
    ///
    /// The array is taken by value: its raw-storage handle and its
    /// allocator move into the iterator, a cursor is captured over its full
    /// current contents, and the array itself ceases to exist without
    /// destroying anything — from here on the iterator owns the whole
    /// lifecycle of storage and elements.
    pub fn into_iter(self) -> (it: IntoIter<T, A>)
        requires
            self.wf(),
        ensures
            it.wf(),
            it@ == self@,
    {
        let Vector { raw, allocator } = self;
        let iter = RawValIter::new(&raw);
        IntoIter { buf: raw, iter, allocator }
    }
}

impl<T> Vector<T, Global> {
    /// An empty array on the default global allocation strategy.
    pub fn new() -> (v: Self)
        ensures
            v.wf(),
            v@ == Seq::<T>::empty(),
    {
        Vector::new_in(Global)
    }
}

/// A consuming iterator over a [`Vector`]: yields owned elements from
/// either end, and on teardown destroys every element it still owns before
/// releasing the backing storage — each element's ownership leaves exactly
/// once.
///
/// The view of an `IntoIter` is the sequence of elements it still owes, so
/// `it@` shrinks by one element — from the front or from the back — on each
/// successful draw.
pub struct IntoIter<T, A: Allocator> {
    buf: RawVector<T>,
    iter: RawValIter,
    allocator: A,
}

impl<T, A: Allocator> View for IntoIter<T, A> {
    type V = Seq<T>;

    closed spec fn view(&self) -> Seq<T> {
        self.iter.remaining(self.buf@)
    }
}

impl<T, A: Allocator> IntoIter<T, A> {
    /// Every slot the cursor still claims holds a live element, and every
    /// slot outside that window has already been vacated — its element was
    /// yielded to a caller. Releasing the storage is therefore safe exactly
    /// when the window is empty.
    ///
    /// Every `IntoIter` this library hands out is well-formed, and every
    /// operation keeps it so.
    pub closed spec fn wf(self) -> bool {
        &&& self.iter.wf_for(self.buf@)
        &&& forall|i: int|
            0 <= i < self.buf@.len() && !(self.iter.first() <= i < self.iter.past_last())
                ==> self.buf@[i] is None
    }

    /// Transfers ownership of the front remaining element to the caller,
    /// or returns nothing if the iterator is exhausted.
    pub fn next(&mut self) -> (r: Option<T>)
        requires
            old(self).wf(),
        ensures
            final(self).wf(),
            old(self)@.len() == 0 ==> r is None && final(self)@ == old(self)@,
            old(self)@.len() > 0 ==> r == Some(old(self)@[0]) && final(self)@ == old(
                self,
            )@.drop_first(),
    {
        self.iter.next(&mut self.buf.buf)
    }

    /// Transfers ownership of the back remaining element to the caller,
    /// or returns nothing if the iterator is exhausted.
    pub fn next_back(&mut self) -> (r: Option<T>)
        requires
            old(self).wf(),
        ensures
            final(self).wf(),
            old(self)@.len() == 0 ==> r is None && final(self)@ == old(self)@,
            old(self)@.len() > 0 ==> r == Some(old(self)@.last()) && final(self)@ == old(
                self,
            )@.drop_last(),
    {
        self.iter.next_back(&mut self.buf.buf)
    }

    /// The exact remaining count, as both a lower and an upper bound.
    pub fn size_hint(&self) -> (r: (usize, Option<usize>))
        requires
            self.wf(),
        ensures
            r.0 == self@.len(),
            r.1 == Some(r.0),
    {
        self.iter.size_hint()
    }

    /// Discards the iterator: the two-phase teardown.
    ///
    /// First every element still owed is produced by the same forward step
    /// used for ordinary iteration and destroyed on the spot; only once the
    /// window is empty is the raw storage handed back to the allocator,
    /// whose release primitive runs no element destructor — by then every
    /// element has been destroyed exactly once, either by a caller who
    /// received it or by this cleanup pass.
    ///
    /// An iterator discarded without this call still destroys its remaining
    /// elements and frees its buffer through the slot buffer's own
    /// teardown; what this method adds is routing the release through the
    /// allocator, under the proved guarantee that nothing live is left in
    /// the storage it hands over.
    pub fn drop(self)
        requires
            self.wf(),
    {
        let IntoIter { buf: mut raw, mut iter, allocator } = self;
        loop
            invariant
                iter.wf_for(raw@),
                forall|i: int|
                    0 <= i < raw@.len() && !(iter.first() <= i < iter.past_last())
                        ==> raw@[i] is None,
            ensures
                raw.all_vacated(),
            decreases iter.past_last() - iter.first(),
        {
            match iter.next(&mut raw.buf) {
                Some(element) => {
                    // ownership of one unvisited element arrives here and is
                    // discharged by destroying it
                    let _ = element;
                },
                None => {
                    break ;
                },
            }
        }
        allocator.release_raw(raw);
    }
}

} // verus!
