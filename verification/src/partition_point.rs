//! Linear search for the partition point of a partitioned deque.
use std::collections::VecDeque;
use vstd::prelude::*;

verus! {

/// The position where the linear search starts: `start`, clamped to the last element.
pub open spec fn search_origin(len: nat, start: int) -> int {
    if start < len - 1 {
        start
    } else {
        len - 1
    }
}

/// What [`partition_point_linear`] returns, stated over the answers that `pred` gives.
///
/// From the origin `i0` the search goes forward while `pred` holds, or backward while it does
/// not hold of the element before the current position:
/// - forward: `pred` held of every element of `i0 .. r`, and fails at `r` unless `r` is the end;
/// - backward: `pred` failed of every element of `r ..= i0`, and holds at `r - 1` unless `r` is 0.
pub open spec fn linear_partition_result<T, P: FnMut(&T) -> bool>(
    d: Seq<T>,
    pred: P,
    start: int,
    r: int,
) -> bool {
    if d.len() == 0 {
        r == 0
    } else {
        let i0 = search_origin(d.len(), start);
        ||| {
            &&& i0 < r <= d.len()
            &&& forall|j: int| i0 <= j < r ==> call_ensures(pred, (&d[j],), true)
            &&& r < d.len() ==> call_ensures(pred, (&d[r],), false)
        }
        ||| {
            &&& 0 <= r <= i0
            &&& forall|j: int| r <= j <= i0 ==> call_ensures(pred, (&d[j],), false)
            &&& r > 0 ==> call_ensures(pred, (&d[r - 1],), true)
        }
    }
}

/// `d` is partitioned by `p`: every element for which `p` holds comes before every element for
/// which it does not.
pub open spec fn partitioned_by<T>(d: Seq<T>, p: spec_fn(T) -> bool) -> bool {
    forall|i: int, j: int| 0 <= i < j < d.len() && !p(d[i]) ==> !p(d[j])
}

/// The partition point of `d` by `p`: the number of elements for which `p` holds.
pub open spec fn partition_point_of<T>(d: Seq<T>, p: spec_fn(T) -> bool) -> int {
    d.filter(p).len() as int
}

/// Returns the index of the partition point according to the given predicate (the index of the
/// first element of the second partition). The deque is assumed to be partitioned according to
/// the predicate: all elements for which it returns `true` come first.
///
/// Instead of a binary search, this walks linearly from `start` (clamped to the last element):
/// forward while the predicate holds, backward while it does not hold of the previous element.
pub fn partition_point_linear<T, P: FnMut(&T) -> bool>(
    deque: &VecDeque<T>,
    start: usize,
    mut pred: P,
) -> (r: usize)
    requires
        forall|x: &T| call_requires(pred, (x,)),
    ensures
        r <= deque@.len(),
        linear_partition_result(deque@, pred, start as int, r as int),
{
    let len = deque.len();
    if len == 0 {
        return 0;
    }
    let mut i: usize = if start < len - 1 {
        start
    } else {
        len - 1
    };
    let ghost i0 = i as int;
    let ghost d = deque@;
    let ghost pred0 = pred;
    if pred(&deque[i]) {
        assert(pred == pred0);
        i = i + 1;
        loop
            invariant
                d == deque@,
                len == d.len(),
                i0 == search_origin(d.len(), start as int),
                i0 < i <= len,
                pred == pred0,
                forall|x: &T| call_requires(pred, (x,)),
                forall|j: int| i0 <= j < i ==> call_ensures(pred, (&d[j],), true),
            ensures
                i0 < i <= len,
                forall|j: int| i0 <= j < i ==> call_ensures(pred, (&d[j],), true),
                i < len ==> call_ensures(pred, (&d[i as int],), false),
            decreases len - i,
        {
            if i >= len {
                break;
            }
            let holds = pred(&deque[i]);
            if !holds {
                break;
            }
            i = i + 1;
        }
    } else {
        loop
            invariant
                d == deque@,
                len == d.len(),
                i0 == search_origin(d.len(), start as int),
                0 <= i <= i0,
                pred == pred0,
                forall|x: &T| call_requires(pred, (x,)),
                forall|j: int| i <= j <= i0 ==> call_ensures(pred, (&d[j],), false),
            ensures
                0 <= i <= i0,
                forall|j: int| i <= j <= i0 ==> call_ensures(pred, (&d[j],), false),
                i > 0 ==> call_ensures(pred, (&d[i - 1],), true),
            decreases i,
        {
            if i == 0 {
                break;
            }
            let holds = pred(&deque[i - 1]);
            if holds {
                break;
            }
            i = i - 1;
        }
    }
    i
}

/// For a deque partitioned by a predicate that answers as the spec function `p` does,
/// [`partition_point_linear`] finds the partition point wherever the search starts.
pub proof fn lemma_linear_search_finds_partition_point<T, P: FnMut(&T) -> bool>(
    d: Seq<T>,
    pred: P,
    p: spec_fn(T) -> bool,
    start: int,
    r: int,
)
    requires
        0 <= start,
        forall|x: &T, b: bool| call_ensures(pred, (x,), b) ==> b == p(*x),
        partitioned_by(d, p),
        linear_partition_result(d, pred, start, r),
    ensures
        r == partition_point_of(d, p),
        forall|j: int| 0 <= j < r ==> p(#[trigger] d[j]),
        forall|j: int| r <= j < d.len() ==> !p(#[trigger] d[j]),
{
    if d.len() > 0 {
        let i0 = search_origin(d.len(), start);
        if i0 < r {
            assert forall|j: int| 0 <= j < r implies p(#[trigger] d[j]) by {
                if j < i0 {
                    assert(call_ensures(pred, (&d[i0],), true));
                    assert(p(d[i0]));
                    assert(p(d[j]));
                }
                if j >= i0 {
                    assert(call_ensures(pred, (&d[j],), true));
                }
            }
            assert forall|j: int| r <= j < d.len() implies !p(#[trigger] d[j]) by {
                assert(call_ensures(pred, (&d[r],), false));
                assert(!p(d[r]));
                if r < j {
                    assert(!p(d[j]));
                }
            }
        } else {
            assert forall|j: int| 0 <= j < r implies p(#[trigger] d[j]) by {
                assert(call_ensures(pred, (&d[r - 1],), true));
                assert(p(d[r - 1]));
                if j < r - 1 {
                    assert(p(d[j]));
                }
            }
            assert forall|j: int| r <= j < d.len() implies !p(#[trigger] d[j]) by {
                if j <= i0 {
                    assert(call_ensures(pred, (&d[j],), false));
                } else {
                    assert(call_ensures(pred, (&d[i0],), false));
                    assert(!p(d[i0]));
                    assert(!p(d[j]));
                }
            }
        }
    }
    lemma_filter_len_of_prefix(d, p, r);
}

/// When `p` holds exactly of the first `r` elements of `d`, filtering `d` by `p` keeps `r`
/// elements.
proof fn lemma_filter_len_of_prefix<T>(d: Seq<T>, p: spec_fn(T) -> bool, r: int)
    requires
        0 <= r <= d.len(),
        forall|j: int| 0 <= j < r ==> p(#[trigger] d[j]),
        forall|j: int| r <= j < d.len() ==> !p(#[trigger] d[j]),
    ensures
        d.filter(p).len() == r,
    decreases d.len(),
{
    reveal_with_fuel(Seq::filter, 1);
    if d.len() > 0 {
        let rest = d.drop_last();
        if r == d.len() {
            lemma_filter_len_of_prefix(rest, p, r - 1);
        } else {
            lemma_filter_len_of_prefix(rest, p, r);
        }
        assert(rest =~= d.subrange(0, d.len() - 1));
    }
}

/// In a deque partitioned by `p`, the partition point splits the elements: `p` holds of those
/// before it and fails of those from it on.
pub proof fn lemma_partition_point_splits<T>(d: Seq<T>, p: spec_fn(T) -> bool)
    requires
        partitioned_by(d, p),
    ensures
        0 <= partition_point_of(d, p) <= d.len(),
        forall|j: int| 0 <= j < partition_point_of(d, p) ==> p(#[trigger] d[j]),
        forall|j: int| partition_point_of(d, p) <= j < d.len() ==> !p(#[trigger] d[j]),
    decreases d.len(),
{
    reveal_with_fuel(Seq::filter, 1);
    if d.len() > 0 {
        let rest = d.drop_last();
        assert(partitioned_by(rest, p));
        lemma_partition_point_splits(rest, p);
        let r = partition_point_of(rest, p);
        assert(rest.filter(p).len() <= rest.len()) by {
            rest.filter_lemma(p);
        }
        assert(forall|j: int| 0 <= j < rest.len() ==> rest[j] == d[j]);
        if p(d.last()) {
            assert(d.filter(p) == rest.filter(p).push(d.last()));
            assert forall|j: int| 0 <= j < d.len() implies p(#[trigger] d[j]) by {
                if j < d.len() - 1 && !p(d[j]) {
                    assert(!p(d[d.len() - 1]));
                }
            }
            assert(r == rest.len()) by {
                if r < rest.len() {
                    assert(!p(rest[r]));
                    assert(p(d[r]));
                }
            }
        } else {
            assert(d.filter(p) == rest.filter(p));
        }
    }
}

} // verus!
