//! Towers of nested pairs: heterogeneous lists built by putting a new head on a tower, whose
//! level (the number of heads) is known to the type system.
use vstd::prelude::*;

verus! {

/// A tower of nested pairs `(head, TupleTower(rest))`, ending in `TupleTower(())`.
#[derive(Debug)]
pub struct TupleTower<T>(pub T);

/// A tower of nested pairs `(head, Tutle(rest))`, ending in `Tutle(())`.
#[derive(Debug, PartialEq)]
pub struct Tutle<T>(pub T);

impl<T> TupleTower<T> {
    /// The tower with `head` put on top of `self`.
    pub fn append<H>(self, head: H) -> (r: TupleTower<(H, TupleTower<T>)>)
        ensures
            r.0.0 == head,
            r.0.1 == self,
    {
        TupleTower((head, self))
    }
}

impl<T> Tutle<T> {
    /// The tower with `head` put on top of `self`.
    pub fn append<H>(self, head: H) -> (r: Tutle<(H, Tutle<T>)>)
        ensures
            r.0.0 == head,
            r.0.1 == self,
    {
        Tutle((head, self))
    }
}

/// The level of the empty tower.
pub struct TupleTowerLevel0 {}

/// The level above `Level`.
pub struct TupleTowerNextLevel<Level> {
    _prev: Level,
}

/// The level of a tower, as a type.
pub trait TupleTowerLevel {
    type Level;
}

impl TupleTowerLevel for TupleTower<()> {
    type Level = TupleTowerLevel0;
}

impl<Head, T: TupleTowerLevel> TupleTowerLevel for TupleTower<(Head, T)> {
    type Level = TupleTowerNextLevel<T::Level>;
}

/// The level of the empty tower.
pub struct TutleLevel0 {}

/// The level above `L`.
pub struct TutleNextLevel<L> {
    _prev: L,
}

/// The level of a tower, as a type.
pub trait TutleLevel {
    type Level;
}

impl TutleLevel for Tutle<()> {
    type Level = TutleLevel0;
}

impl<H, T: TutleLevel> TutleLevel for Tutle<(H, T)> {
    type Level = TutleNextLevel<T::Level>;
}

/// A tower of booleans.
pub trait BoolTutle {
    /// The booleans of the tower, from the top down.
    spec fn values(&self) -> Seq<bool>;

    /// Whether any of the booleans holds.
    fn any(&self) -> (r: bool)
        ensures
            r == exists|i: int| 0 <= i < self.values().len() && #[trigger] self.values()[i],
    ;

    /// Whether all of the booleans hold.
    fn all(&self) -> (r: bool)
        ensures
            r == forall|i: int| 0 <= i < self.values().len() ==> #[trigger] self.values()[i],
    ;
}

impl BoolTutle for Tutle<()> {
    open spec fn values(&self) -> Seq<bool> {
        Seq::empty()
    }

    fn any(&self) -> (r: bool) {
        false
    }

    fn all(&self) -> (r: bool) {
        true
    }
}

impl<Rest> BoolTutle for Tutle<(bool, Tutle<Rest>)> where Tutle<Rest>: BoolTutle {
    open spec fn values(&self) -> Seq<bool> {
        seq![self.0.0] + self.0.1.values()
    }

    fn any(&self) -> (r: bool) {
        let rest_any = self.0.1.any();
        proof {
            let v = self.values();
            assert forall|i: int| 1 <= i < v.len() implies v[i] == self.0.1.values()[i - 1] by {}
            assert(v[0] == self.0.0);
            if rest_any {
                let j = choose|j: int| 0 <= j < self.0.1.values().len() && #[trigger] self.0.1.values()[j];
                assert(v[j + 1]);
            }
            if exists|i: int| 0 <= i < v.len() && #[trigger] v[i] {
                let i = choose|i: int| 0 <= i < v.len() && #[trigger] v[i];
                if i > 0 {
                    assert(self.0.1.values()[i - 1]);
                }
            }
        }
        self.0.0 || rest_any
    }

    fn all(&self) -> (r: bool) {
        let rest_all = self.0.1.all();
        proof {
            let v = self.values();
            assert forall|i: int| 1 <= i < v.len() implies v[i] == self.0.1.values()[i - 1] by {}
            assert(v[0] == self.0.0);
            if !rest_all {
                let j = choose|j: int| 0 <= j < self.0.1.values().len() && !#[trigger] self.0.1.values()[j];
                assert(!v[j + 1]);
            }
            if self.0.0 && rest_all {
                assert forall|i: int| 0 <= i < v.len() implies #[trigger] v[i] by {
                    if i > 0 {
                        assert(self.0.1.values()[i - 1]);
                    }
                }
            }
        }
        self.0.0 && rest_all
    }
}

/// A tower of booleans.
pub trait BoolTupleTower {
    /// The booleans of the tower, from the top down.
    spec fn values(&self) -> Seq<bool>;

    /// Whether any of the booleans holds.
    fn any(&self) -> (r: bool)
        ensures
            r == exists|i: int| 0 <= i < self.values().len() && #[trigger] self.values()[i],
    ;

    /// Whether all of the booleans hold.
    fn all(&self) -> (r: bool)
        ensures
            r == forall|i: int| 0 <= i < self.values().len() ==> #[trigger] self.values()[i],
    ;
}

impl BoolTupleTower for TupleTower<()> {
    open spec fn values(&self) -> Seq<bool> {
        Seq::empty()
    }

    fn any(&self) -> (r: bool) {
        false
    }

    fn all(&self) -> (r: bool) {
        true
    }
}

impl<Rest: BoolTupleTower> BoolTupleTower for TupleTower<(bool, Rest)> {
    open spec fn values(&self) -> Seq<bool> {
        seq![self.0.0] + self.0.1.values()
    }

    fn any(&self) -> (r: bool) {
        let rest_any = self.0.1.any();
        proof {
            let v = self.values();
            assert forall|i: int| 1 <= i < v.len() implies v[i] == self.0.1.values()[i - 1] by {}
            assert(v[0] == self.0.0);
            if rest_any {
                let j = choose|j: int| 0 <= j < self.0.1.values().len() && #[trigger] self.0.1.values()[j];
                assert(v[j + 1]);
            }
            if exists|i: int| 0 <= i < v.len() && #[trigger] v[i] {
                let i = choose|i: int| 0 <= i < v.len() && #[trigger] v[i];
                if i > 0 {
                    assert(self.0.1.values()[i - 1]);
                }
            }
        }
        self.0.0 || rest_any
    }

    fn all(&self) -> (r: bool) {
        let rest_all = self.0.1.all();
        proof {
            let v = self.values();
            assert forall|i: int| 1 <= i < v.len() implies v[i] == self.0.1.values()[i - 1] by {}
            assert(v[0] == self.0.0);
            if !rest_all {
                let j = choose|j: int| 0 <= j < self.0.1.values().len() && !#[trigger] self.0.1.values()[j];
                assert(!v[j + 1]);
            }
            if self.0.0 && rest_all {
                assert forall|i: int| 0 <= i < v.len() implies #[trigger] v[i] by {
                    if i > 0 {
                        assert(self.0.1.values()[i - 1]);
                    }
                }
            }
        }
        self.0.0 && rest_all
    }
}

} // verus!
