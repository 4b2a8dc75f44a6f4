//! Events that recur with a fixed period.
use vstd::prelude::*;

verus! {

/// Detects the times `offset + k * period`, for every integer `k`.
#[derive(Clone, Copy, Debug)]
pub struct Periodic<T> {
    pub period: T,
    pub offset: T,
}

impl<T: Default> Periodic<T> {
    /// Events at the multiples of `period`: the offset is `T::default()`, zero for the number
    /// types.
    pub fn new(period: T) -> (r: Self)
        ensures
            r.period == period,
            call_ensures(T::default, (), r.offset),
    {
        Periodic { period, offset: T::default() }
    }
}

impl<T> Periodic<T> {
    /// The same events, shifted by `offset`.
    pub fn with_offset(self, offset: T) -> (r: Self)
        ensures
            r.period == self.period,
            r.offset == offset,
    {
        Periodic { period: self.period, offset }
    }
}

} // verus!
