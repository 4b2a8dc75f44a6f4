use diffurch::history::{HistoryPoint, StateHistory};
use std::collections::VecDeque;

fn v<T: Clone>(d: &VecDeque<T>) -> Vec<T> {
    d.iter().cloned().collect()
}

#[test]
fn new_history_holds_the_initial_state() {
    let h: StateHistory<&str, &str> = StateHistory::new(0, "p0", [(0, 0)].into());
    assert_eq!(v(&h.t_deque), vec![0]);
    assert_eq!(v(&h.p_deque), vec!["p0"]);
    assert!(h.k_deque.is_empty());
    assert_eq!(v(&h.disco_deque), vec![(0, 0)]);
}

#[test]
fn commit_step_leaves_behind_what_no_delay_reaches() {
    let span = 15;
    let mut h = StateHistory::new(0, "p0", [(0, 0), (5, 1), (25, 2)].into());
    let mut t_prev = 0;
    for (t, p, k) in [(10, "p1", "k1"), (20, "p2", "k2"), (30, "p3", "k3")] {
        h.commit_step(t, p, k, t_prev - span);
        t_prev = t;
    }
    assert_eq!(v(&h.t_deque), vec![0, 10, 20, 30]);
    assert_eq!(v(&h.disco_deque), vec![(5, 1), (25, 2)]);
    h.commit_step(40, "p4", "k4", t_prev - span);
    // The tail time is 15: the step from 0 to 10 is dropped, the one from 10 to 20 stays.
    assert_eq!(v(&h.t_deque), vec![10, 20, 30, 40]);
    assert_eq!(v(&h.p_deque), vec!["p1", "p2", "p3", "p4"]);
    assert_eq!(v(&h.k_deque), vec!["k2", "k3", "k4"]);
    assert_eq!(v(&h.disco_deque), vec![(25, 2)]);
}

#[test]
fn locate_finds_the_step_that_holds_a_time() {
    let mut h = StateHistory::new(0, 0.0, VecDeque::new());
    for t in [10, 20, 30, 40] {
        h.commit_step(t, t as f64, t, i64::MIN);
    }
    assert_eq!(h.locate(-3), HistoryPoint::Initial);
    assert_eq!(h.locate(0), HistoryPoint::Initial);
    assert_eq!(h.locate(1), HistoryPoint::Step(0));
    assert_eq!(h.locate(12), HistoryPoint::Step(1));
    assert_eq!(h.locate(30), HistoryPoint::Step(3));
    assert_eq!(h.locate(39), HistoryPoint::Step(3));
}

#[test]
fn a_step_of_length_zero_holds_no_time() {
    let mut h = StateHistory::new(0, "p0", VecDeque::new());
    h.commit_step(10, "before event", "k1", i64::MIN);
    h.commit_step(10, "after event", "zero", i64::MIN);
    h.commit_step(20, "p3", "k3", i64::MIN);
    assert_eq!(v(&h.t_deque), vec![0, 10, 10, 20]);
    assert_eq!(h.locate(9), HistoryPoint::Step(0));
    assert_eq!(h.locate(10), HistoryPoint::Step(2));
    assert_eq!(h.p_deque[2], "after event");
}
