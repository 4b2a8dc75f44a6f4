use diffurch::filter::{
    CountingFilter, Every, Filter, FilterBeforeDetection, FilterLocated, Once, OnTimes, Take, Times,
};

fn run<F: CountingFilter>(f: &mut F, k: usize) -> Vec<bool> {
    (0..k).map(|_| f.check()).collect()
}

#[test]
fn every_third_detection_passes() {
    let mut f = Every::new(3);
    assert_eq!(run(&mut f, 7), vec![true, false, false, true, false, false, true]);
}

#[test]
fn every_one_passes_all() {
    let mut f = Every::new(1);
    assert!(run(&mut f, 5).into_iter().all(|b| b));
}

#[test]
fn every_offset_starts_at_the_offset() {
    let mut f = Every::with_offset(3, 4);
    assert_eq!(run(&mut f, 7), vec![false, true, false, false, true, false, false]);
    let mut g = Every::with_offset(2, 0);
    assert_eq!(run(&mut g, 4), run(&mut Every::new(2), 4));
}

#[test]
fn once_take_and_times() {
    assert_eq!(run(&mut Once::new(), 3), vec![true, false, false]);
    assert_eq!(run(&mut Once::new(), 3), run(&mut Take::new(1), 3));
    assert_eq!(run(&mut Take::new(2), 4), vec![true, true, false, false]);
    assert_eq!(run(&mut Take::new(3), 5), run(&mut Times::new(0..3), 5));
    assert_eq!(run(&mut Times::new(1..3), 4), vec![false, true, true, false]);
    assert_eq!(run(&mut Take::new(0), 2), vec![false, false]);
}

#[test]
fn every_counts_only_detections() {
    let mut loc = "locator".every(2);
    let detected = [false, true, false, true, true, false, true];
    let passed: Vec<bool> = detected.iter().map(|&d| loc.detect_with(d)).collect();
    assert_eq!(passed, vec![false, true, false, false, true, false, false]);
    assert_eq!(loc.loc, "locator");
}

#[test]
fn filtered_locators() {
    let mut l = ().every_offset(2, 1);
    assert_eq!([true, true, true].map(|d| l.detect_with(d)), [false, true, false]);
    let mut o = ().once();
    assert_eq!([false, true, true].map(|d| o.detect_with(d)), [false, true, false]);
    let mut t = ().take(2);
    assert_eq!([true, true, true].map(|d| t.detect_with(d)), [true, true, false]);
    let mut m = ().times(1..2);
    assert_eq!([true, true, true].map(|d| m.detect_with(d)), [false, true, false]);
}

#[test]
fn on_times_passes_listed_detections() {
    let mut f = OnTimes::new(vec![0, 2, 5]);
    assert_eq!(run(&mut f, 7), vec![true, false, true, false, false, true, false]);
}

#[test]
fn on_times_through_a_locator() {
    let mut loc = ().on_times(vec![1]);
    assert!(!loc.detect_with(true));
    assert!(!loc.detect_with(false));
    assert!(loc.detect_with(true));
    assert!(!loc.detect_with(true));
}

#[test]
fn filter_before_detection_advances_on_every_step() {
    let mut f = FilterBeforeDetection { loc: (), filter: Every::new(2) };
    let passes: Vec<bool> = (0..4).map(|_| f.filter_passes()).collect();
    assert_eq!(passes, vec![true, false, true, false]);
}

#[test]
fn filter_located_keeps_accepted_times() {
    let f = FilterLocated { loc: (), filter: () };
    assert_eq!(f.filter_located(Some(1.5), true), Some(1.5));
    assert_eq!(f.filter_located(Some(1.5), false), None);
    assert_eq!(f.filter_located(None::<f64>, true), None);
}

#[test]
fn every_offset_zero_is_every() {
    let mut a = "l".every_offset(3, 0);
    let mut b = "l".every(3);
    let detected = [true, false, true, true, true, false, true, true];
    let pa: Vec<bool> = detected.iter().map(|&d| a.detect_with(d)).collect();
    let pb: Vec<bool> = detected.iter().map(|&d| b.detect_with(d)).collect();
    assert_eq!(pa, pb);
    assert_eq!(pa, vec![true, false, false, false, true, false, false, false]);
}
