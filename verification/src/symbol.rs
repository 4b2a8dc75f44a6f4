//! Symbols of the state: the time, the coordinates of the solution and their derivatives.
use vstd::prelude::*;

verus! {

/// The time.
#[derive(Copy, Clone, Debug)]
pub struct Time;

/// The coordinate of the solution with a given index.
#[derive(Copy, Clone, Debug)]
pub struct Coord(usize);

/// The derivative of the coordinate of the solution with a given index.
#[derive(Copy, Clone, Debug)]
pub struct CoordDerivative(usize);

/// A symbol raised to an integer power.
#[derive(Copy, Clone, Debug)]
pub struct Powi<Arg>(pub Arg, pub i32);

impl Coord {
    /// The index of the coordinate.
    pub closed spec fn index(&self) -> usize {
        self.0
    }

    /// The symbols of all `N` coordinates, in order.
    pub fn vec<const N: usize>() -> (r: [Coord; N])
        ensures
            forall|i: int| 0 <= i < N ==> #[trigger] r[i].index() == i,
    {
        let mut r = [Coord(0); N];
        let mut i: usize = 0;
        while i < N
            invariant
                i <= N,
                r@.len() == N,
                forall|j: int| 0 <= j < i ==> #[trigger] r[j].index() == j,
            decreases N - i,
        {
            r[i] = Coord(i);
            i = i + 1;
        }
        r
    }

    /// The derivative of the coordinate.
    pub fn dt(self) -> (r: CoordDerivative)
        ensures
            r.index() == self.index(),
    {
        CoordDerivative(self.0)
    }
}

impl CoordDerivative {
    /// The index of the coordinate whose derivative this is.
    pub closed spec fn index(&self) -> usize {
        self.0
    }
}

} // verus!
