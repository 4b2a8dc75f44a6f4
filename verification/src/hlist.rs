//! Heterogeneous lists: `Cons(head, tail)` cells ending in `Nil`, whose length is known to the
//! type system.
use vstd::prelude::*;

verus! {

/// The empty list.
#[derive(Clone, Copy, Debug)]
pub struct Nil;

/// The list with the head `0` and the tail `1`.
#[derive(Clone, Copy, Debug)]
pub struct Cons<H, T>(pub H, pub T);

/// A heterogeneous list.
pub trait HList: Sized {
    /// The number of elements of the lists of this type.
    spec fn length() -> nat;

    /// The number of elements.
    fn len(&self) -> (r: usize)
        requires
            Self::length() <= usize::MAX,
        ensures
            r == Self::length(),
    ;

    /// Whether the list has no element.
    fn is_empty(&self) -> (r: bool)
        ensures
            r == (Self::length() == 0),
    ;

    /// The list with `h` put in front.
    fn append<H>(self, h: H) -> (r: Cons<H, Self>)
        ensures
            r.0 == h,
            r.1 == self,
    {
        Cons(h, self)
    }
}

impl HList for Nil {
    open spec fn length() -> nat {
        0
    }

    fn len(&self) -> (r: usize) {
        0
    }

    fn is_empty(&self) -> (r: bool) {
        true
    }
}

impl<H, T: HList> HList for Cons<H, T> {
    open spec fn length() -> nat {
        1 + T::length()
    }

    fn len(&self) -> (r: usize) {
        1 + self.1.len()
    }

    fn is_empty(&self) -> (r: bool) {
        false
    }
}

/// Lists that take a new element of type `X` at their end.
pub trait PushBack<X>: HList {
    /// The list type with one more element at the end.
    type Output: HList;

    /// The list with `x` put after its last element.
    spec fn pushed_back(self, x: X) -> Self::Output;

    /// Puts `x` after the last element.
    fn push_back(self, x: X) -> (r: Self::Output)
        ensures
            r == self.pushed_back(x),
    ;

    /// Pushing back adds one element.
    proof fn lemma_push_back_length()
        ensures
            <Self::Output as HList>::length() == Self::length() + 1,
    ;
}

impl<X> PushBack<X> for Nil {
    type Output = Cons<X, Nil>;

    open spec fn pushed_back(self, x: X) -> Cons<X, Nil> {
        Cons(x, Nil)
    }

    fn push_back(self, x: X) -> (r: Cons<X, Nil>) {
        Cons(x, Nil)
    }

    proof fn lemma_push_back_length() {
    }
}

impl<X, H, T: PushBack<X>> PushBack<X> for Cons<H, T> {
    type Output = Cons<H, T::Output>;

    open spec fn pushed_back(self, x: X) -> Cons<H, T::Output> {
        Cons(self.0, self.1.pushed_back(x))
    }

    fn push_back(self, x: X) -> (r: Cons<H, T::Output>) {
        Cons(self.0, self.1.push_back(x))
    }

    proof fn lemma_push_back_length() {
        T::lemma_push_back_length();
    }
}

} // verus!
