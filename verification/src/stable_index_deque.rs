//! A double-ended queue whose indexes keep pointing to the same elements when elements are
//! popped from or pushed to its front.
use std::collections::VecDeque;
use vstd::prelude::*;

verus! {

/// Swaps the elements at positions `i` and `j` of a `VecDeque`.
///
/// Trusted: calls `VecDeque::swap`, which std documents to swap the two elements and to panic
/// when either index is out of bounds (excluded by `requires`, so the call does not unwind).
#[verifier::external_body]
fn deque_swap<T>(deque: &mut VecDeque<T>, i: usize, j: usize)
    requires
        i < old(deque)@.len(),
        j < old(deque)@.len(),
    ensures
        final(deque)@ == old(deque)@.update(i as int, old(deque)@[j as int]).update(
            j as int,
            old(deque)@[i as int],
        ),
    no_unwind
{
    deque.swap(i, j)
}

/// Mutable access to the element at position `i` of a `VecDeque`.
///
/// Trusted: calls `VecDeque::get_mut`, which std documents to return `None` when `i` is out of
/// bounds and otherwise a mutable reference to the element at `i`, and not to panic; whatever is
/// written through that reference becomes the element at `i`.
#[verifier::external_body]
fn deque_get_mut<T>(deque: &mut VecDeque<T>, i: usize) -> (r: Option<&mut T>)
    ensures
        match r {
            Some(x) => {
                &&& i < old(deque)@.len()
                &&& *x == old(deque)@[i as int]
                &&& final(deque)@ == old(deque)@.update(i as int, *final(x))
            },
            None => {
                &&& i >= old(deque)@.len()
                &&& final(deque)@ == old(deque)@
            },
        },
    no_unwind
{
    deque.get_mut(i)
}

/// A `VecDeque` wrapper that keeps its indexes pointing to the same elements during
/// `pop_front` and `push_front` operations.
///
/// The valid indexes are `front_idx() .. back_idx()`; the element at index `i` is the element
/// at position `i - front_idx()` of the underlying deque.
pub struct StableIndexVecDeque<T> {
    offset: usize,
    deque: VecDeque<T>,
}

impl<T> View for StableIndexVecDeque<T> {
    type V = Seq<T>;

    /// The elements, from the front to the back.
    closed spec fn view(&self) -> Seq<T> {
        self.deque@
    }
}

impl<T> StableIndexVecDeque<T> {
    /// Every stable index of an element, and the end index, fit in `usize`.
    #[verifier::type_invariant]
    spec fn wf(&self) -> bool {
        self.offset + self.deque@.len() <= usize::MAX
    }

    /// The index of the front element (the stable index of `self@[0]`).
    pub closed spec fn first_index(&self) -> nat {
        self.offset as nat
    }

    /// The index one past the back element.
    pub open spec fn end_index(&self) -> int {
        (self.first_index() + self@.len()) as int
    }

    /// Whether `index` points to an element.
    pub open spec fn contains_index(&self, index: int) -> bool {
        self.first_index() <= index < self.end_index()
    }

    /// The element that the stable index `index` points to, if any.
    pub open spec fn at(&self, index: int) -> Option<T> {
        if self.contains_index(index) {
            Some(self@[index - self.first_index()])
        } else {
            None
        }
    }

    /// An empty deque whose front index is `0`.
    pub fn new() -> (s: Self)
        ensures
            s@ == Seq::<T>::empty(),
            s.first_index() == 0,
    {
        StableIndexVecDeque { offset: 0, deque: VecDeque::new() }
    }

    /// An empty deque whose front index is `0`; `capacity` is a hint for the allocation.
    pub fn with_capacity(capacity: usize) -> (s: Self)
        ensures
            s@ == Seq::<T>::empty(),
            s.first_index() == 0,
    {
        StableIndexVecDeque { offset: 0, deque: VecDeque::with_capacity(capacity) }
    }

    /// The element at stable index `index`, or `None` when no element has that index.
    pub fn get(&self, index: usize) -> (r: Option<&T>)
        ensures
            r matches Some(x) ==> *x == self@[index - self.first_index()],
            r is Some <==> self.contains_index(index as int),
    {
        if index >= self.offset {
            let i = index - self.offset;
            if i < self.deque.len() {
                Some(&self.deque[i])
            } else {
                None
            }
        } else {
            None
        }
    }

    /// Mutable access to the element at stable index `index`; `None` when the index is past the
    /// back. Indexes before the front are not accepted.
    pub fn get_mut(&mut self, index: usize) -> (r: Option<&mut T>)
        requires
            index >= old(self).first_index(),
        ensures
            final(self).first_index() == old(self).first_index(),
            match r {
                Some(x) => {
                    &&& old(self).contains_index(index as int)
                    &&& *x == old(self)@[index - old(self).first_index()]
                    &&& final(self)@ == old(self)@.update(
                        index - old(self).first_index(),
                        *final(x),
                    )
                },
                None => {
                    &&& !old(self).contains_index(index as int)
                    &&& final(self)@ == old(self)@
                },
            },
    {
        proof {
            use_type_invariant(&*self);
        }
        deque_get_mut(&mut self.deque, index - self.offset)
    }

    /// Swaps the elements at stable indexes `i` and `j`.
    pub fn swap(&mut self, i: usize, j: usize)
        requires
            old(self).contains_index(i as int),
            old(self).contains_index(j as int),
        ensures
            final(self).first_index() == old(self).first_index(),
            final(self)@ == old(self)@.update(
                i - old(self).first_index(),
                old(self)@[j - old(self).first_index()],
            ).update(j - old(self).first_index(), old(self)@[i - old(self).first_index()]),
    {
        proof {
            use_type_invariant(&*self);
        }
        deque_swap(&mut self.deque, i - self.offset, j - self.offset)
    }

    /// Removes and returns the front element; the indexes of the remaining elements do not
    /// change.
    pub fn pop_front(&mut self) -> (r: Option<T>)
        ensures
            match r {
                Some(x) => {
                    &&& old(self)@.len() > 0
                    &&& x == old(self)@[0]
                    &&& final(self)@ == old(self)@.drop_first()
                    &&& final(self).first_index() == old(self).first_index() + 1
                },
                None => {
                    &&& old(self)@.len() == 0
                    &&& final(self)@ == old(self)@
                    &&& final(self).first_index() == old(self).first_index()
                },
            },
            forall|i: int|
                i != old(self).first_index() ==> #[trigger] final(self).at(i) == old(self).at(i),
    {
        proof {
            use_type_invariant(&*self);
        }
        let mut deque = VecDeque::new();
        std::mem::swap(&mut deque, &mut self.deque);
        let ret = deque.pop_front();
        if ret.is_some() {
            self.offset = self.offset + 1;
        }
        self.deque = deque;
        ret
    }

    /// Inserts `value` in front of the front element; it gets the index just before the old
    /// front index, and the indexes of the other elements do not change.
    pub fn push_front(&mut self, value: T)
        requires
            old(self).first_index() > 0,
        ensures
            final(self)@ == seq![value] + old(self)@,
            final(self).first_index() == old(self).first_index() - 1,
            final(self).at(old(self).first_index() - 1) == Some(value),
            forall|i: int|
                i != old(self).first_index() - 1 ==> #[trigger] final(self).at(i) == old(self).at(
                    i,
                ),
    {
        proof {
            use_type_invariant(&*self);
        }
        let mut deque = VecDeque::new();
        std::mem::swap(&mut deque, &mut self.deque);
        deque.push_front(value);
        self.offset = self.offset - 1;
        self.deque = deque;
    }

    /// Appends `value` at the back; it gets the index `back_idx()`.
    pub fn push_back(&mut self, value: T)
        requires
            old(self).end_index() < usize::MAX,
        ensures
            final(self)@ == old(self)@.push(value),
            final(self).first_index() == old(self).first_index(),
            final(self).at(old(self).end_index()) == Some(value),
            forall|i: int|
                i != old(self).end_index() ==> #[trigger] final(self).at(i) == old(self).at(i),
    {
        let mut deque = VecDeque::new();
        std::mem::swap(&mut deque, &mut self.deque);
        deque.push_back(value);
        self.deque = deque;
    }

    /// Inserts `value` so that it gets the stable index `index`; the elements from `index` on
    /// move one index up.
    pub fn insert(&mut self, index: usize, value: T)
        requires
            old(self).first_index() <= index <= old(self).end_index(),
            old(self).end_index() < usize::MAX,
        ensures
            final(self)@ == old(self)@.insert(index - old(self).first_index(), value),
            final(self).first_index() == old(self).first_index(),
    {
        let mut deque = VecDeque::new();
        std::mem::swap(&mut deque, &mut self.deque);
        deque.insert(index - self.offset, value);
        self.deque = deque;
    }

    /// Behaves exactly as [`Self::insert`]: `value` is inserted so that it gets the stable index
    /// `index`.
    pub fn remove(&mut self, index: usize, value: T)
        requires
            old(self).first_index() <= index <= old(self).end_index(),
            old(self).end_index() < usize::MAX,
        ensures
            final(self)@ == old(self)@.insert(index - old(self).first_index(), value),
            final(self).first_index() == old(self).first_index(),
    {
        let mut deque = VecDeque::new();
        std::mem::swap(&mut deque, &mut self.deque);
        deque.insert(index - self.offset, value);
        self.deque = deque;
    }

    /// The index of the front element.
    pub fn front_idx(&self) -> (r: usize)
        ensures
            r == self.first_index(),
    {
        self.offset
    }

    /// The index one past the back element.
    pub fn back_idx(&self) -> (r: usize)
        ensures
            r == self.end_index(),
    {
        proof {
            use_type_invariant(self);
        }
        self.offset + self.deque.len()
    }

    /// The number of elements.
    pub fn len(&self) -> (r: usize)
        ensures
            r == self@.len(),
    {
        self.deque.len()
    }

    /// Whether there are no elements.
    pub fn is_empty(&self) -> (r: bool)
        ensures
            r <==> self@.len() == 0,
    {
        self.deque.len() == 0
    }

    /// The element at stable index `index`, which must point to an element.
    pub fn index(&self, index: usize) -> (r: &T)
        requires
            self.contains_index(index as int),
        ensures
            *r == self@[index - self.first_index()],
    {
        &self.deque[index - self.offset]
    }
}

} // verus!
