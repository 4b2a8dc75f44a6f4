//! The history of the solution that delayed arguments read: the ends of the committed steps,
//! the state at each end and the stages of each step (what the dense output within the step
//! needs), and the discontinuities not yet left behind. Only the steps that a delay can still
//! reach are kept.
//!
//! Times are given by keys of type `i64` that order them as the times are ordered.
use crate::partition_point::{lemma_partition_point_splits, partition_point_of, partitioned_by};
use crate::propagation::sorted_by_time;
use std::collections::VecDeque;
use vstd::prelude::*;

verus! {

/// The times are listed in nondecreasing order. A time is listed twice where a located event
/// ended a step: the step of length zero after it holds the state as the event left it.
pub open spec fn sorted_times(s: Seq<i64>) -> bool {
    forall|i: int, j: int| 0 <= i <= j < s.len() ==> s[i] <= s[j]
}

/// The time lies before `t_tail`.
pub open spec fn time_before(t_tail: i64) -> spec_fn(i64) -> bool {
    |t: i64| t < t_tail
}

/// The discontinuity lies before `t_tail`.
pub open spec fn disco_before(t_tail: i64) -> spec_fn((i64, usize)) -> bool {
    |e: (i64, usize)| e.0 < t_tail
}

/// How many leading step ends a commit drops for the tail time `t_tail`: all those before
/// `t_tail` but the last, so that the step that holds `t_tail` stays.
pub open spec fn dropped_ends(times: Seq<i64>, t_tail: i64) -> int {
    let before = partition_point_of(times, time_before(t_tail));
    if before >= 1 {
        before - 1
    } else {
        0
    }
}

/// Where the state at a time is read from.
#[derive(Clone, Copy, Debug, PartialEq, Eq, Structural)]
pub enum HistoryPoint {
    /// From the initial function: the time is at or before the initial time.
    Initial,
    /// From the dense output of the kept step with this index: the step from `t_deque[i]` to
    /// `t_deque[i + 1]`, with the state `p_deque[i]` at its start and the stages `k_deque[i]`.
    Step(usize),
}

/// The history of an integration that starts at `t_init`.
pub struct StateHistory<Y, K> {
    pub t_init: i64,
    /// The ends of the kept steps, oldest first.
    pub t_deque: VecDeque<i64>,
    /// The state at each of them.
    pub p_deque: VecDeque<Y>,
    /// The stages of each kept step.
    pub k_deque: VecDeque<K>,
    /// The discontinuities `(time, order)` not yet left behind, by time.
    pub disco_deque: VecDeque<(i64, usize)>,
}

impl<Y, K> StateHistory<Y, K> {
    /// The times are sorted, there is a state for each time and a step between each two
    /// successive times, and the discontinuities are listed by time.
    pub open spec fn wf(&self) -> bool {
        &&& sorted_times(self.t_deque@)
        &&& self.t_deque@.len() >= 1
        &&& self.p_deque@.len() == self.t_deque@.len()
        &&& self.k_deque@.len() + 1 == self.t_deque@.len()
        &&& sorted_by_time(self.disco_deque@)
    }

    /// The history at the start of an integration at `t_init` with the initial state
    /// `p_init`, and the discontinuities `disco_init` of the initial function.
    pub fn new(t_init: i64, p_init: Y, disco_init: VecDeque<(i64, usize)>) -> (r: Self)
        requires
            sorted_by_time(disco_init@),
        ensures
            r.wf(),
            r.t_init == t_init,
            r.t_deque@ == seq![t_init],
            r.p_deque@ == seq![p_init],
            r.k_deque@ == Seq::<K>::empty(),
            r.disco_deque@ == disco_init@,
    {
        let mut t_deque = VecDeque::new();
        t_deque.push_back(t_init);
        let mut p_deque = VecDeque::new();
        p_deque.push_back(p_init);
        let r = StateHistory { t_init, t_deque, p_deque, k_deque: VecDeque::new(), disco_deque: disco_init };
        assert(r.t_deque@ =~= seq![t_init]);
        assert(r.p_deque@ =~= seq![p_init]);
        r
    }

    /// Commits the step that ends at `t_curr` with the state `p_curr` and the stages `k_curr`,
    /// then leaves behind what no delay reaches any more: the steps that end before the tail
    /// time `t_tail` (the start of the step less the largest delay), and the discontinuities
    /// before it. When `t_tail` is not after the start of the step, the step just committed
    /// stays as the newest one: from the previous newest time, with the state there, to
    /// `t_curr`, with the stages `k_curr`.
    pub fn commit_step(&mut self, t_curr: i64, p_curr: Y, k_curr: K, t_tail: i64)
        requires
            old(self).wf(),
            old(self).t_deque@.last() <= t_curr,
        ensures
            final(self).wf(),
            final(self).t_init == old(self).t_init,
            ({
                let times = old(self).t_deque@.push(t_curr);
                let d = dropped_ends(times, t_tail);
                &&& final(self).t_deque@ == times.skip(d)
                &&& final(self).p_deque@ == old(self).p_deque@.push(p_curr).skip(d)
                &&& final(self).k_deque@ == old(self).k_deque@.push(k_curr).skip(d)
                &&& d > 0 ==> final(self).t_deque@[0] < t_tail
            }),
            final(self).t_deque@.last() == t_curr,
            final(self).p_deque@.last() == p_curr,
            t_tail <= old(self).t_deque@.last() ==> {
                let n = final(self).t_deque@.len();
                &&& n >= 2
                &&& final(self).t_deque@[n - 2] == old(self).t_deque@.last()
                &&& final(self).p_deque@[n - 2] == old(self).p_deque@.last()
                &&& final(self).k_deque@[n - 2] == k_curr
            },
            final(self).disco_deque@ == old(self).disco_deque@.skip(
                partition_point_of(old(self).disco_deque@, disco_before(t_tail)),
            ),
    {
        let ghost times = self.t_deque@.push(t_curr);
        let ghost ps = self.p_deque@.push(p_curr);
        let ghost ks = self.k_deque@.push(k_curr);
        let ghost discos = self.disco_deque@;
        let ghost t_init = self.t_init;
        self.t_deque.push_back(t_curr);
        self.p_deque.push_back(p_curr);
        self.k_deque.push_back(k_curr);
        proof {
            assert(partitioned_by(times, time_before(t_tail)));
            lemma_partition_point_splits(times, time_before(t_tail));
            assert(times.skip(0) =~= times);
            assert(ps.skip(0) =~= ps);
            assert(ks.skip(0) =~= ks);
        }
        let ghost mut dropped: int = 0;
        while self.t_deque.len() >= 2 && self.t_deque[1] < t_tail
            invariant
                0 <= dropped < times.len(),
                dropped == 0 || times[dropped] < t_tail,
                sorted_times(times),
                times.len() == ps.len(),
                times.len() == ks.len() + 1,
                self.t_deque@ == times.skip(dropped),
                self.p_deque@ == ps.skip(dropped),
                self.k_deque@ == ks.skip(dropped),
                self.disco_deque@ == discos,
                self.t_init == t_init,
                0 <= partition_point_of(times, time_before(t_tail)) <= times.len(),
                forall|j: int|
                    0 <= j < partition_point_of(times, time_before(t_tail)) ==> #[trigger] times[j]
                        < t_tail,
                forall|j: int|
                    partition_point_of(times, time_before(t_tail)) <= j < times.len()
                        ==> #[trigger] times[j] >= t_tail,
            decreases times.len() - dropped,
        {
            self.t_deque.pop_front();
            self.p_deque.pop_front();
            self.k_deque.pop_front();
            proof {
                assert(times[dropped + 1] < t_tail);
                dropped = dropped + 1;
                assert(self.t_deque@ =~= times.skip(dropped));
                assert(self.p_deque@ =~= ps.skip(dropped));
                assert(self.k_deque@ =~= ks.skip(dropped));
            }
        }
        proof {
            let before = partition_point_of(times, time_before(t_tail));
            if dropped + 1 < times.len() {
                assert(times[dropped + 1] >= t_tail);
                if before > dropped + 1 {
                    assert(times[dropped + 1] < t_tail);
                }
            }
            if dropped > 0 {
                if before <= dropped {
                    assert(times[dropped] >= t_tail);
                }
            }
            assert(dropped == dropped_ends(times, t_tail));
            if t_tail <= old(self).t_deque@.last() {
                assert(times[times.len() - 2] >= t_tail);
                if before > times.len() - 2 {
                    assert(times[times.len() - 2] < t_tail);
                }
            }
        }
        proof {
            assert(partitioned_by(discos, disco_before(t_tail)));
            lemma_partition_point_splits(discos, disco_before(t_tail));
            assert(discos.skip(0) =~= discos);
        }
        let ghost mut gone: int = 0;
        while self.disco_deque.len() > 0 && self.disco_deque[0].0 < t_tail
            invariant
                0 <= gone <= discos.len(),
                gone <= partition_point_of(discos, disco_before(t_tail)),
                sorted_by_time(discos),
                self.disco_deque@ == discos.skip(gone),
                self.t_init == t_init,
                0 <= dropped < times.len(),
                sorted_times(times),
                times.len() == ps.len(),
                times.len() == ks.len() + 1,
                self.t_deque@ == times.skip(dropped),
                self.p_deque@ == ps.skip(dropped),
                self.k_deque@ == ks.skip(dropped),
                0 <= partition_point_of(discos, disco_before(t_tail)) <= discos.len(),
                forall|j: int|
                    0 <= j < partition_point_of(discos, disco_before(t_tail)) ==> #[trigger] discos[j].0
                        < t_tail,
                forall|j: int|
                    partition_point_of(discos, disco_before(t_tail)) <= j < discos.len()
                        ==> #[trigger] discos[j].0 >= t_tail,
            decreases discos.len() - gone,
        {
            self.disco_deque.pop_front();
            proof {
                assert(discos[gone].0 < t_tail);
                gone = gone + 1;
                assert(self.disco_deque@ =~= discos.skip(gone));
            }
        }
        proof {
            let before = partition_point_of(discos, disco_before(t_tail));
            if gone < discos.len() {
                assert(discos[gone].0 >= t_tail);
            }
            assert(gone == before);
            assert(sorted_times(self.t_deque@));
            assert(sorted_by_time(self.disco_deque@));
        }
    }

    /// Where the state at time `t` is read from: the initial function at or before the initial
    /// time, and after it the kept step that holds `t`. A time after the initial time must lie
    /// within the kept steps, from the end of the oldest up to, not including, the end of the
    /// newest.
    pub fn locate(&self, t: i64) -> (r: HistoryPoint)
        requires
            self.wf(),
            t > self.t_init ==> self.t_deque@[0] <= t < self.t_deque@.last(),
        ensures
            r == HistoryPoint::Initial <==> t <= self.t_init,
            r matches HistoryPoint::Step(i) ==> {
                &&& i + 1 < self.t_deque@.len()
                &&& self.t_deque@[i as int] <= t < self.t_deque@[i + 1]
            },
    {
        if t <= self.t_init {
            return HistoryPoint::Initial;
        }
        let mut lo: usize = 0;
        let mut hi: usize = self.t_deque.len() - 1;
        while hi - lo > 1
            invariant
                self.wf(),
                lo < hi < self.t_deque@.len(),
                self.t_deque@[lo as int] <= t < self.t_deque@[hi as int],
            decreases hi - lo,
        {
            let mid = lo + (hi - lo) / 2;
            if self.t_deque[mid] <= t {
                lo = mid;
            } else {
                hi = mid;
            }
        }
        HistoryPoint::Step(lo)
    }
}

/// The step that holds a time is the only one: the steps of a history do not overlap, and a
/// step of length zero holds no time.
pub proof fn lemma_located_step_is_unique<Y, K>(h: StateHistory<Y, K>, t: i64, i: int, j: int)
    requires
        h.wf(),
        0 <= i && i + 1 < h.t_deque@.len(),
        0 <= j && j + 1 < h.t_deque@.len(),
        h.t_deque@[i] <= t < h.t_deque@[i + 1],
        h.t_deque@[j] <= t < h.t_deque@[j + 1],
    ensures
        i == j,
{
    if i < j {
        assert(h.t_deque@[i + 1] <= h.t_deque@[j]);
    }
    if j < i {
        assert(h.t_deque@[j + 1] <= h.t_deque@[i]);
    }
}

} // verus!
