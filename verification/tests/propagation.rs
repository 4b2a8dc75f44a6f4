use diffurch::propagation::{Propagator, LOWEST_TIME_KEY};
use std::collections::VecDeque;

#[test]
fn new_propagator_tracks_nothing() {
    let p = Propagator::new("delayed", 1);
    assert_eq!(p.smoothing_order, 1);
    // The key of the lowest finite time, in the order-preserving key of times.
    let lowest_key = !((f64::MIN.to_bits() as i64) & i64::MAX);
    assert_eq!(p.tracked_disco_t, lowest_key);
    assert_eq!(p.tracked_disco_t, LOWEST_TIME_KEY);
    assert!(p.tracked_disco_t > i64::MIN);
    assert_eq!(p.tracked_disco_order, usize::MAX);
    assert_eq!(p.tracked_queue_index, 0);
}

#[test]
fn detects_discontinuity_between_delayed_values() {
    let disco: VecDeque<(i64, usize)> = [(0, 0), (10, 1), (20, 2)].into();
    let mut p = Propagator::new((), 1);
    assert!(!p.detect(&disco, 1, 5));
    assert_eq!(p.tracked_queue_index, 1);
    assert!(p.detect(&disco, 5, 12));
    assert_eq!((p.tracked_disco_t, p.tracked_disco_order), (10, 2));
    assert_eq!(p.tracked_queue_index, 1);
    assert!(!p.detect(&disco, 12, 19));
    assert_eq!(p.tracked_queue_index, 2);
    assert!(p.detect(&disco, 19, 20));
    assert_eq!((p.tracked_disco_t, p.tracked_disco_order), (20, 3));
}

#[test]
fn detection_at_the_start_of_the_step_is_not_repeated() {
    let disco: VecDeque<(i64, usize)> = [(10, 0)].into();
    let mut p = Propagator::new((), 1);
    assert!(!p.detect(&disco, 10, 15));
}

#[test]
fn records_only_discontinuities_below_the_method_order() {
    let mut disco: VecDeque<(i64, usize)> = [(0, 0)].into();
    let mut p = Propagator::new((), 2);
    p.detect(&disco, -5, 3);
    assert_eq!(p.tracked_disco_order, 2);
    p.record(&mut disco, 3, 4);
    assert_eq!(disco.back(), Some(&(3, 2)));
    p.record(&mut disco, 4, 2);
    assert_eq!(disco.len(), 2);
}
