//! Propagation of discontinuities through a delayed argument: a discontinuity of the solution at
//! time `t_d` with smoothness order `k` reappears, smoothed to order `k + smoothing_order`, at
//! the time where the delayed argument passes `t_d`.
//!
//! Times are given by keys of type `i64` that order them as the times are ordered.
use crate::partition_point::{
    lemma_linear_search_finds_partition_point, lemma_partition_point_splits,
    partition_point_linear, partition_point_of, partitioned_by,
};
use std::collections::VecDeque;
use vstd::prelude::*;

verus! {

/// Detection method marker for the propagation of discontinuities.
#[derive(Clone, Copy, Debug)]
pub struct Propagation;

/// The key of the lowest finite time: the time that a fresh propagator tracks, before any
/// discontinuity was detected.
pub const LOWEST_TIME_KEY: i64 = -9218868437227405312;

/// Tracks the discontinuities that a delayed argument carries forward.
pub struct Propagator<Delayed> {
    pub delayed_argument: Delayed,
    pub smoothing_order: usize,
    /// The time of the discontinuity detected last.
    pub tracked_disco_t: i64,
    /// Its smoothness order after propagation.
    pub tracked_disco_order: usize,
    /// Where the search in the list of discontinuities starts on the next step.
    pub tracked_queue_index: usize,
}

/// The discontinuities `(time, order)` are listed by nondecreasing time.
pub open spec fn sorted_by_time(d: Seq<(i64, usize)>) -> bool {
    forall|i: int, j: int| 0 <= i <= j < d.len() ==> d[i].0 <= d[j].0
}

/// The discontinuity lies at or before `t`.
pub open spec fn at_or_before(t: i64) -> spec_fn((i64, usize)) -> bool {
    |e: (i64, usize)| e.0 <= t
}

/// The number of discontinuities at or before `t`.
pub open spec fn count_at_or_before(d: Seq<(i64, usize)>, t: i64) -> int {
    partition_point_of(d, at_or_before(t))
}

/// The smaller of two indices.
pub open spec fn min_index(a: int, b: int) -> int {
    if a <= b {
        a
    } else {
        b
    }
}

/// A sorted list of discontinuities is partitioned by every time.
proof fn lemma_sorted_is_partitioned(d: Seq<(i64, usize)>, t: i64)
    requires
        sorted_by_time(d),
    ensures
        partitioned_by(d, at_or_before(t)),
{
}

impl<Delayed> Propagator<Delayed> {
    /// A propagator of the discontinuities through `delayed`, each smoothed by
    /// `smoothing_order`; no discontinuity is tracked yet.
    pub fn new(delayed: Delayed, smoothing_order: usize) -> (r: Self)
        ensures
            r.delayed_argument == delayed,
            r.smoothing_order == smoothing_order,
            r.tracked_disco_t == LOWEST_TIME_KEY,
            r.tracked_disco_order == usize::MAX,
            r.tracked_queue_index == 0,
    {
        Propagator {
            delayed_argument: delayed,
            smoothing_order,
            tracked_disco_t: LOWEST_TIME_KEY,
            tracked_disco_order: usize::MAX,
            tracked_queue_index: 0,
        }
    }

    /// Detects whether a discontinuity lies between the values `prev` and `curr` of the delayed
    /// argument at the start and at the end of the step: whether the numbers of discontinuities
    /// at or before `prev` and at or before `curr` differ. When one does, the first of them is
    /// tracked, with its order raised by the smoothing order; the search starts from there on
    /// the next step.
    pub fn detect(&mut self, disco: &VecDeque<(i64, usize)>, prev: i64, curr: i64) -> (r: bool)
        requires
            sorted_by_time(disco@),
            forall|i: int|
                0 <= i < disco@.len() ==> #[trigger] disco@[i].1 + old(self).smoothing_order
                    <= usize::MAX,
        ensures
            ({
                let p = count_at_or_before(disco@, prev);
                let c = count_at_or_before(disco@, curr);
                let first = min_index(p, c);
                &&& final(self).tracked_queue_index == first
                &&& r == (p != c)
                &&& r ==> final(self).tracked_disco_t == disco@[first].0
                    && final(self).tracked_disco_order == disco@[first].1 + old(
                    self,
                ).smoothing_order
                &&& !r ==> final(self).tracked_disco_t == old(self).tracked_disco_t
                    && final(self).tracked_disco_order == old(self).tracked_disco_order
            }),
            final(self).delayed_argument == old(self).delayed_argument,
            final(self).smoothing_order == old(self).smoothing_order,
    {
        let before_prev = |e: &(i64, usize)| -> (b: bool)
            ensures
                b == (e.0 <= prev),
            { e.0 <= prev };
        let partition_prev = partition_point_linear(disco, self.tracked_queue_index, before_prev);
        proof {
            lemma_sorted_is_partitioned(disco@, prev);
            lemma_linear_search_finds_partition_point(
                disco@,
                before_prev,
                at_or_before(prev),
                self.tracked_queue_index as int,
                partition_prev as int,
            );
        }
        let before_curr = |e: &(i64, usize)| -> (b: bool)
            ensures
                b == (e.0 <= curr),
            { e.0 <= curr };
        let partition_curr = partition_point_linear(disco, partition_prev, before_curr);
        proof {
            lemma_sorted_is_partitioned(disco@, curr);
            lemma_linear_search_finds_partition_point(
                disco@,
                before_curr,
                at_or_before(curr),
                partition_prev as int,
                partition_curr as int,
            );
        }
        self.tracked_queue_index = if partition_prev <= partition_curr {
            partition_prev
        } else {
            partition_curr
        };
        if partition_prev != partition_curr {
            let (t_disco, t_order) = disco[self.tracked_queue_index];
            self.tracked_disco_t = t_disco;
            self.tracked_disco_order = t_order + self.smoothing_order;
            true
        } else {
            false
        }
    }

    /// Records a discontinuity at the end of the step, at time `t_curr`, with the order of the
    /// one tracked, when that order is below the order `rk_order` of the method (a smoother one
    /// does not affect the accuracy).
    pub fn record(&self, disco: &mut VecDeque<(i64, usize)>, t_curr: i64, rk_order: usize)
        ensures
            final(disco)@ == (if self.tracked_disco_order < rk_order {
                old(disco)@.push((t_curr, self.tracked_disco_order))
            } else {
                old(disco)@
            }),
    {
        if self.tracked_disco_order < rk_order {
            disco.push_back((t_curr, self.tracked_disco_order));
        }
    }
}

/// Recording a discontinuity at a time no earlier than all listed ones keeps the list sorted.
pub proof fn lemma_record_keeps_sorted(d: Seq<(i64, usize)>, t: i64, order: usize)
    requires
        sorted_by_time(d),
        forall|i: int| 0 <= i < d.len() ==> #[trigger] d[i].0 <= t,
    ensures
        sorted_by_time(d.push((t, order))),
{
}

/// What [`Propagator::detect`] decides: between the values `prev` and `curr` of the delayed
/// argument (in either order), a discontinuity is detected exactly when one lies in the
/// half-open interval from the smaller value (excluded) to the larger one (included), and the
/// one tracked is the earliest such discontinuity.
pub proof fn lemma_detects_discontinuity_between(d: Seq<(i64, usize)>, prev: i64, curr: i64)
    requires
        sorted_by_time(d),
    ensures
        ({
            let lo = if prev <= curr { prev } else { curr };
            let hi = if prev <= curr { curr } else { prev };
            let first = min_index(count_at_or_before(d, prev), count_at_or_before(d, curr));
            &&& (count_at_or_before(d, prev) != count_at_or_before(d, curr)) <==> exists|i: int|
                0 <= i < d.len() && lo < #[trigger] d[i].0 <= hi
            &&& count_at_or_before(d, prev) != count_at_or_before(d, curr) ==> {
                &&& 0 <= first < d.len()
                &&& lo < d[first].0 <= hi
                &&& forall|i: int| 0 <= i < first ==> #[trigger] d[i].0 <= lo
            }
        }),
{
    lemma_partition_point_splits(d, at_or_before(prev));
    lemma_partition_point_splits(d, at_or_before(curr));
    let p = count_at_or_before(d, prev);
    let c = count_at_or_before(d, curr);
    let lo = if prev <= curr { prev } else { curr };
    let hi = if prev <= curr { curr } else { prev };
    let first = min_index(p, c);
    let last = if p <= c { c } else { p };
    assert forall|i: int| 0 <= i < d.len() && lo < #[trigger] d[i].0 <= hi implies first <= i < last by {
        assert(at_or_before(lo)(d[i]) == (d[i].0 <= lo));
    }
    if p != c {
        assert(first < last);
        assert(at_or_before(prev)(d[first]) == (d[first].0 <= prev));
        assert(at_or_before(curr)(d[first]) == (d[first].0 <= curr));
        assert(lo < d[first].0 <= hi);
        assert forall|i: int| 0 <= i < first implies #[trigger] d[i].0 <= lo by {
            assert(at_or_before(prev)(d[i]) == (d[i].0 <= prev));
            assert(at_or_before(curr)(d[i]) == (d[i].0 <= curr));
        }
    } else {
        assert forall|i: int| 0 <= i < d.len() implies !(lo < #[trigger] d[i].0 <= hi) by {
            assert(at_or_before(prev)(d[i]) == (d[i].0 <= prev));
            assert(at_or_before(curr)(d[i]) == (d[i].0 <= curr));
        }
    }
}

} // verus!
