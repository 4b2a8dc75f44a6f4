//! The earliest of the events located on a step.
//!
//! Times are given by keys of type `i64` that order them as the times are ordered.
use vstd::prelude::*;

verus! {

/// Event `k`, located at time `t`, is the earliest of the located events, and no event before
/// it in the list was located at the same time.
pub open spec fn is_earliest(times: Seq<Option<i64>>, k: int, t: i64) -> bool {
    &&& 0 <= k < times.len()
    &&& times[k] == Some(t)
    &&& forall|i: int| 0 <= i < times.len() && #[trigger] times[i] is Some ==> t <= times[i]->0
    &&& forall|i: int| 0 <= i < k && #[trigger] times[i] is Some ==> t < times[i]->0
}

/// No event was located.
pub open spec fn none_located(times: Seq<Option<i64>>) -> bool {
    forall|i: int| 0 <= i < times.len() ==> #[trigger] times[i] is None
}

/// Of the times at which the events of a list were located on a step (`None` for an event that
/// was not detected), the index and time of the earliest, the first one among equally early
/// ones; `None` when no event was located.
pub fn locate_earliest(times: &Vec<Option<i64>>) -> (r: Option<(usize, i64)>)
    ensures
        r is None <==> none_located(times@),
        r matches Some((k, t)) ==> is_earliest(times@, k as int, t),
{
    let mut earliest: Option<(usize, i64)> = None;
    let mut i: usize = 0;
    while i < times.len()
        invariant
            i <= times.len(),
            earliest is None <==> none_located(times@.take(i as int)),
            earliest matches Some((k, t)) ==> is_earliest(times@.take(i as int), k as int, t),
        decreases times.len() - i,
    {
        let ghost before = times@.take(i as int);
        assert(times@.take(i as int + 1) =~= before.push(times@[i as int]));
        match times[i] {
            Some(t) => {
                let better = match earliest {
                    None => true,
                    Some((_, e)) => t < e,
                };
                if better {
                    earliest = Some((i, t));
                }
            },
            None => {},
        }
        i = i + 1;
    }
    assert(times@.take(times.len() as int) =~= times@);
    earliest
}

/// The earliest event is unique: two indices that are both earliest are equal.
pub proof fn lemma_earliest_is_unique(times: Seq<Option<i64>>, k1: int, t1: i64, k2: int, t2: i64)
    requires
        is_earliest(times, k1, t1),
        is_earliest(times, k2, t2),
    ensures
        k1 == k2,
        t1 == t2,
{
    assert(t1 <= times[k2]->0);
    assert(t2 <= times[k1]->0);
}

} // verus!
