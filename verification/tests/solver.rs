use diffurch::hlist::{Cons, Nil};
use diffurch::propagation::LOWEST_TIME_KEY;
use diffurch::rk::ButcherTableu;
use diffurch::solver::{run_step, RunAction, RunInput, RunPhase, Solver};
use diffurch::stepsize::{StepStatus, StepsizeController};
use std::marker::PhantomData;

fn empty() -> Solver<f64, f64, 1, 2, (), (), (), f64, Nil, Nil, Nil, Nil> {
    Solver {
        equation: (),
        initial: (),
        initial_disco: vec![],
        interval: (),
        rk: ButcherTableu::euler(),
        stepsize: 0.05,
        max_delay: 0.0,
        events_on_step: Nil,
        events_on_start: Nil,
        events_on_stop: Nil,
        events_on_loc: Nil,
        _phantom_y: PhantomData,
    }
}

#[test]
fn setters_replace_one_field() {
    let s = empty()
        .max_delay(2.0)
        .initial_disco(vec![(0.0, 0)])
        .stepsize(0.1)
        .initial(1.0)
        .interval((0.0, 10.0))
        .rk(ButcherTableu::rk4())
        .on_step("step")
        .on_step("again")
        .on_start("start")
        .on_stop("stop");
    assert_eq!(s.max_delay, 2.0);
    assert_eq!(s.initial_disco, vec![(0.0, 0)]);
    assert_eq!(s.stepsize, 0.1);
    assert_eq!(s.initial, 1.0);
    assert_eq!(s.interval, (0.0, 10.0));
    assert_eq!(s.rk.order, 4);
    let Cons(first, Cons(second, Nil)) = s.events_on_step;
    assert_eq!((first, second), ("step", "again"));
    let Cons(start, Nil) = s.events_on_start;
    assert_eq!(start, "start");
}

#[test]
fn events_keep_the_order_of_addition() {
    let s = empty().on(1u8, "a").on(2u8, "b").on(3u8, "c");
    let Cons(a, Cons(b, Cons(c, Nil))) = s.events_on_loc;
    assert_eq!((a.0, a.1, b.0, b.1, c.0, c.1), (1, "a", 2, "b", 3, "c"));
}

#[test]
fn run_loop_decisions() {
    let (p, a) = run_step(RunPhase::NotStarted, RunInput::Start);
    assert_eq!((p, a), (RunPhase::CheckTime, RunAction::CallStartAndStepEvents));
    let (p, a) = run_step(p, RunInput::TimeLeft(true));
    assert_eq!((p, a), (RunPhase::AwaitStatus, RunAction::MakeStep));
    let (p, a) = run_step(p, RunInput::Status(StepStatus::Rejected));
    assert_eq!((p, a), (RunPhase::AwaitStatus, RunAction::RetryStep));
    let (p, a) = run_step(p, RunInput::Status(StepStatus::Accepted));
    assert_eq!((p, a), (RunPhase::AwaitEvents, RunAction::LocateEvents));
    let (p, a) = run_step(p, RunInput::Earliest(Some((3, true))));
    assert_eq!((p, a), (RunPhase::CheckTime, RunAction::StepToEvent(3)));
    let (p, a) = run_step(RunPhase::AwaitEvents, RunInput::Earliest(Some((3, false))));
    assert_eq!((p, a), (RunPhase::CheckTime, RunAction::CommitStep));
    let (p, a) = run_step(p, RunInput::TimeLeft(false));
    assert_eq!((p, a), (RunPhase::Finished, RunAction::CallStopEvents));
}

#[test]
fn constant_stepsize_accepts_everything() {
    let mut h = 0.25f64;
    StepsizeController::<f64, [f64; 2]>::init(&mut h);
    assert_eq!(StepsizeController::<f64, [f64; 2]>::get(&h), 0.25);
    assert_eq!(StepsizeController::<f64, [f64; 2]>::update(&mut h, &[1e9, 1e9]), StepStatus::Accepted);
    StepsizeController::<f64, [f64; 2]>::set(&mut h, 0.5);
    assert_eq!(h, 0.5);
}

#[test]
fn each_phase_accepts_its_input() {
    assert!(RunPhase::NotStarted.accepts(&RunInput::Start));
    assert!(!RunPhase::NotStarted.accepts(&RunInput::TimeLeft(true)));
    assert!(RunPhase::CheckTime.accepts(&RunInput::TimeLeft(false)));
    assert!(RunPhase::AwaitStatus.accepts(&RunInput::Status(StepStatus::Accepted)));
    assert!(!RunPhase::AwaitStatus.accepts(&RunInput::Earliest(None)));
    assert!(RunPhase::AwaitEvents.accepts(&RunInput::Earliest(Some((0, true)))));
    assert!(!RunPhase::Finished.accepts(&RunInput::Start));
}

#[test]
fn delayed_arguments_add_propagation_locators_in_order() {
    let s = empty()
        .on_mut(0u8, "event")
        .with_delayed_argument("t - 1", 1)
        .with_delayed_argument("t - 2", 0);
    let Cons(first, Cons(second, Cons(third, Nil))) = s.events_on_loc;
    assert_eq!((first.0, first.1), (0, "event"));
    assert_eq!(second.function.delayed_argument, "t - 1");
    assert_eq!(second.function.smoothing_order, 1);
    assert_eq!(second.function.tracked_disco_t, LOWEST_TIME_KEY);
    assert_eq!(second.function.tracked_disco_order, usize::MAX);
    assert_eq!(second.function.tracked_queue_index, 0);
    assert_eq!(third.function.delayed_argument, "t - 2");
    assert_eq!(third.function.smoothing_order, 0);
}
