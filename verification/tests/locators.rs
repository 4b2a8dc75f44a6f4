use diffurch::detect::Zero;
use diffurch::hlist::{Cons, HList, Nil, PushBack};
use diffurch::loc::{DedupLocF, Loc};
use diffurch::locate::{Bisection, Lerp, StepEnd};
use diffurch::periodic::Periodic;

#[test]
fn loc_constructors_and_using() {
    let l = Loc::zero(|x: f64| x - 1.0);
    let _: &Bisection = &l.location;
    let l2 = l.using(Lerp);
    let _: &Zero = &l2.detection;
    assert_eq!((l2.function)(3.0), 2.0);
    let all = Loc::all();
    let _: &StepEnd = &all.location;
}

#[test]
fn dedup_lets_through_only_later_steps() {
    let mut d = DedupLocF { last_call: None, loc_f: () };
    assert!(d.allows(-100));
    assert_eq!(d.detect_and_locate(0, Some(5)), Some(5));
    d.record_call(5);
    assert!(!d.allows(5));
    assert!(!d.allows(3));
    assert!(d.allows(6));
    assert_eq!(d.detect_and_locate(5, Some(7)), None);
    assert_eq!(d.detect_and_locate(6, Some(7)), Some(7));
}

#[test]
fn periodic_new_and_offset() {
    let p = Periodic::new(0.5f64);
    assert_eq!((p.period, p.offset), (0.5, 0.0));
    let q = p.with_offset(0.25);
    assert_eq!((q.period, q.offset), (0.5, 0.25));
}

#[test]
fn hlist_length_and_append() {
    let l = Nil.append(1u8).append("two").append(3.0f64);
    assert_eq!(l.len(), 3);
    assert!(!l.is_empty());
    assert!(Nil.is_empty());
    let Cons(head, Cons(second, _)) = l;
    assert_eq!(head, 3.0);
    assert_eq!(second, "two");
}

#[test]
fn hlist_push_back_puts_last() {
    let l = Nil.push_back(1u8).push_back("two").push_back(3u32);
    assert_eq!(l.len(), 3);
    let Cons(first, Cons(second, Cons(third, Nil))) = l;
    assert_eq!((first, second, third), (1, "two", 3));
}

#[test]
fn propagated_discontinuity_locator() {
    let l = Loc::propagated_discontinuity("t - 1", 2);
    assert_eq!(l.function.delayed_argument, "t - 1");
    assert_eq!(l.function.smoothing_order, 2);
    assert_eq!(l.function.tracked_queue_index, 0);
    let _: &Bisection = &l.location;
}
