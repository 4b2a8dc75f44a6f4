//! The solver: its configuration, set piece by piece, and the decisions of the integration loop.
use crate::hlist::{HList, PushBack};
use crate::loc::{Loc, LocCallback};
use crate::locate::Bisection;
use crate::propagation::{Propagation, Propagator, LOWEST_TIME_KEY};
use crate::rk::ButcherTableu;
use crate::stepsize::StepStatus;
use std::marker::PhantomData;
use vstd::prelude::*;

verus! {

/// The configuration of an integration: the equation, the initial condition and its
/// discontinuities, the integration interval, the Runge-Kutta method, the step size (or its
/// controller), the largest delay, and the callbacks run at the start, after each step, at the
/// stop and at located events. The callbacks of each kind are kept in a heterogeneous list, in the
/// order in which they were added.
pub struct Solver<T, P, const S: usize, const I: usize, Equation, Initial, Interval, Stepsize, EventsOnStep, EventsOnStart, EventsOnStop, EventsOnLoc> {
    pub equation: Equation,
    pub initial: Initial,
    pub initial_disco: Vec<(T, usize)>,
    pub interval: Interval,
    pub rk: ButcherTableu<S, I>,
    pub stepsize: Stepsize,
    pub max_delay: T,
    pub events_on_step: EventsOnStep,
    pub events_on_start: EventsOnStart,
    pub events_on_stop: EventsOnStop,
    pub events_on_loc: EventsOnLoc,
    pub _phantom_y: PhantomData<P>,
}

impl<T, P, const S: usize, const I: usize, Equation, Initial, Interval, Stepsize, EventsOnStep, EventsOnStart, EventsOnStop, EventsOnLoc> Solver<T, P, S, I, Equation, Initial, Interval, Stepsize, EventsOnStep, EventsOnStart, EventsOnStop, EventsOnLoc> where EventsOnStep: HList, EventsOnStart: HList, EventsOnStop: HList, EventsOnLoc: HList {
    /// Sets the discontinuities of the initial function: `(time, order)` pairs.
    pub fn initial_disco(self, initial_disco: Vec<(T, usize)>) -> (r: Solver<T, P, S, I, Equation, Initial, Interval, Stepsize, EventsOnStep, EventsOnStart, EventsOnStop, EventsOnLoc>)
        ensures
            r.equation == self.equation,
            r.initial == self.initial,
            r.initial_disco == initial_disco,
            r.interval == self.interval,
            r.rk == self.rk,
            r.stepsize == self.stepsize,
            r.max_delay == self.max_delay,
            r.events_on_step == self.events_on_step,
            r.events_on_start == self.events_on_start,
            r.events_on_stop == self.events_on_stop,
            r.events_on_loc == self.events_on_loc,
    {
        Solver {
            equation: self.equation,
            initial: self.initial,
            initial_disco: initial_disco,
            interval: self.interval,
            rk: self.rk,
            stepsize: self.stepsize,
            max_delay: self.max_delay,
            events_on_step: self.events_on_step,
            events_on_start: self.events_on_start,
            events_on_stop: self.events_on_stop,
            events_on_loc: self.events_on_loc,
            _phantom_y: self._phantom_y,
        }
    }

    /// Sets the step size, or the step size controller.
    pub fn stepsize<NewStepsize>(self, new_stepsize: NewStepsize) -> (r: Solver<T, P, S, I, Equation, Initial, Interval, NewStepsize, EventsOnStep, EventsOnStart, EventsOnStop, EventsOnLoc>)
        ensures
            r.equation == self.equation,
            r.initial == self.initial,
            r.initial_disco == self.initial_disco,
            r.interval == self.interval,
            r.rk == self.rk,
            r.stepsize == new_stepsize,
            r.max_delay == self.max_delay,
            r.events_on_step == self.events_on_step,
            r.events_on_start == self.events_on_start,
            r.events_on_stop == self.events_on_stop,
            r.events_on_loc == self.events_on_loc,
    {
        Solver {
            equation: self.equation,
            initial: self.initial,
            initial_disco: self.initial_disco,
            interval: self.interval,
            rk: self.rk,
            stepsize: new_stepsize,
            max_delay: self.max_delay,
            events_on_step: self.events_on_step,
            events_on_start: self.events_on_start,
            events_on_stop: self.events_on_stop,
            events_on_loc: self.events_on_loc,
            _phantom_y: self._phantom_y,
        }
    }

    /// Sets the largest delay of the equation.
    pub fn max_delay(self, max_delay: T) -> (r: Solver<T, P, S, I, Equation, Initial, Interval, Stepsize, EventsOnStep, EventsOnStart, EventsOnStop, EventsOnLoc>)
        ensures
            r.equation == self.equation,
            r.initial == self.initial,
            r.initial_disco == self.initial_disco,
            r.interval == self.interval,
            r.rk == self.rk,
            r.stepsize == self.stepsize,
            r.max_delay == max_delay,
            r.events_on_step == self.events_on_step,
            r.events_on_start == self.events_on_start,
            r.events_on_stop == self.events_on_stop,
            r.events_on_loc == self.events_on_loc,
    {
        Solver {
            equation: self.equation,
            initial: self.initial,
            initial_disco: self.initial_disco,
            interval: self.interval,
            rk: self.rk,
            stepsize: self.stepsize,
            max_delay: max_delay,
            events_on_step: self.events_on_step,
            events_on_start: self.events_on_start,
            events_on_stop: self.events_on_stop,
            events_on_loc: self.events_on_loc,
            _phantom_y: self._phantom_y,
        }
    }

    /// Sets the initial condition.
    pub fn initial<NewInitial>(self, new_initial: NewInitial) -> (r: Solver<T, P, S, I, Equation, NewInitial, Interval, Stepsize, EventsOnStep, EventsOnStart, EventsOnStop, EventsOnLoc>)
        ensures
            r.equation == self.equation,
            r.initial == new_initial,
            r.initial_disco == self.initial_disco,
            r.interval == self.interval,
            r.rk == self.rk,
            r.stepsize == self.stepsize,
            r.max_delay == self.max_delay,
            r.events_on_step == self.events_on_step,
            r.events_on_start == self.events_on_start,
            r.events_on_stop == self.events_on_stop,
            r.events_on_loc == self.events_on_loc,
    {
        Solver {
            equation: self.equation,
            initial: new_initial,
            initial_disco: self.initial_disco,
            interval: self.interval,
            rk: self.rk,
            stepsize: self.stepsize,
            max_delay: self.max_delay,
            events_on_step: self.events_on_step,
            events_on_start: self.events_on_start,
            events_on_stop: self.events_on_stop,
            events_on_loc: self.events_on_loc,
            _phantom_y: self._phantom_y,
        }
    }

    /// Sets the integration interval.
    pub fn interval<NewInterval>(self, new_interval: NewInterval) -> (r: Solver<T, P, S, I, Equation, Initial, NewInterval, Stepsize, EventsOnStep, EventsOnStart, EventsOnStop, EventsOnLoc>)
        ensures
            r.equation == self.equation,
            r.initial == self.initial,
            r.initial_disco == self.initial_disco,
            r.interval == new_interval,
            r.rk == self.rk,
            r.stepsize == self.stepsize,
            r.max_delay == self.max_delay,
            r.events_on_step == self.events_on_step,
            r.events_on_start == self.events_on_start,
            r.events_on_stop == self.events_on_stop,
            r.events_on_loc == self.events_on_loc,
    {
        Solver {
            equation: self.equation,
            initial: self.initial,
            initial_disco: self.initial_disco,
            interval: new_interval,
            rk: self.rk,
            stepsize: self.stepsize,
            max_delay: self.max_delay,
            events_on_step: self.events_on_step,
            events_on_start: self.events_on_start,
            events_on_stop: self.events_on_stop,
            events_on_loc: self.events_on_loc,
            _phantom_y: self._phantom_y,
        }
    }

    /// Sets the Runge-Kutta method.
    pub fn rk<const S2: usize, const I2: usize>(self, new_rk: ButcherTableu<S2, I2>) -> (r: Solver<T, P, S2, I2, Equation, Initial, Interval, Stepsize, EventsOnStep, EventsOnStart, EventsOnStop, EventsOnLoc>)
        ensures
            r.equation == self.equation,
            r.initial == self.initial,
            r.initial_disco == self.initial_disco,
            r.interval == self.interval,
            r.rk == new_rk,
            r.stepsize == self.stepsize,
            r.max_delay == self.max_delay,
            r.events_on_step == self.events_on_step,
            r.events_on_start == self.events_on_start,
            r.events_on_stop == self.events_on_stop,
            r.events_on_loc == self.events_on_loc,
    {
        Solver {
            equation: self.equation,
            initial: self.initial,
            initial_disco: self.initial_disco,
            interval: self.interval,
            rk: new_rk,
            stepsize: self.stepsize,
            max_delay: self.max_delay,
            events_on_step: self.events_on_step,
            events_on_start: self.events_on_start,
            events_on_stop: self.events_on_stop,
            events_on_loc: self.events_on_loc,
            _phantom_y: self._phantom_y,
        }
    }

    /// Sets the right-hand side of the equation.
    pub fn equation<NewEquation>(self, new_equation: NewEquation) -> (r: Solver<T, P, S, I, NewEquation, Initial, Interval, Stepsize, EventsOnStep, EventsOnStart, EventsOnStop, EventsOnLoc>)
        ensures
            r.equation == new_equation,
            r.initial == self.initial,
            r.initial_disco == self.initial_disco,
            r.interval == self.interval,
            r.rk == self.rk,
            r.stepsize == self.stepsize,
            r.max_delay == self.max_delay,
            r.events_on_step == self.events_on_step,
            r.events_on_start == self.events_on_start,
            r.events_on_stop == self.events_on_stop,
            r.events_on_loc == self.events_on_loc,
    {
        Solver {
            equation: new_equation,
            initial: self.initial,
            initial_disco: self.initial_disco,
            interval: self.interval,
            rk: self.rk,
            stepsize: self.stepsize,
            max_delay: self.max_delay,
            events_on_step: self.events_on_step,
            events_on_start: self.events_on_start,
            events_on_stop: self.events_on_stop,
            events_on_loc: self.events_on_loc,
            _phantom_y: self._phantom_y,
        }
    }

    /// Adds a callback that runs after every step, after those already added.
    pub fn on_step<C>(self, callback: C) -> (r: Solver<T, P, S, I, Equation, Initial, Interval, Stepsize, <EventsOnStep as PushBack<C>>::Output, EventsOnStart, EventsOnStop, EventsOnLoc>)
        where
            EventsOnStep: PushBack<C>,
        ensures
            r.equation == self.equation,
            r.initial == self.initial,
            r.initial_disco == self.initial_disco,
            r.interval == self.interval,
            r.rk == self.rk,
            r.stepsize == self.stepsize,
            r.max_delay == self.max_delay,
            r.events_on_step == self.events_on_step.pushed_back(callback),
            r.events_on_start == self.events_on_start,
            r.events_on_stop == self.events_on_stop,
            r.events_on_loc == self.events_on_loc,
    {
        Solver {
            equation: self.equation,
            initial: self.initial,
            initial_disco: self.initial_disco,
            interval: self.interval,
            rk: self.rk,
            stepsize: self.stepsize,
            max_delay: self.max_delay,
            events_on_step: self.events_on_step.push_back(callback),
            events_on_start: self.events_on_start,
            events_on_stop: self.events_on_stop,
            events_on_loc: self.events_on_loc,
            _phantom_y: self._phantom_y,
        }
    }

    /// Adds a callback that runs when the integration stops, after those already added.
    pub fn on_stop<C>(self, callback: C) -> (r: Solver<T, P, S, I, Equation, Initial, Interval, Stepsize, EventsOnStep, EventsOnStart, <EventsOnStop as PushBack<C>>::Output, EventsOnLoc>)
        where
            EventsOnStop: PushBack<C>,
        ensures
            r.equation == self.equation,
            r.initial == self.initial,
            r.initial_disco == self.initial_disco,
            r.interval == self.interval,
            r.rk == self.rk,
            r.stepsize == self.stepsize,
            r.max_delay == self.max_delay,
            r.events_on_step == self.events_on_step,
            r.events_on_start == self.events_on_start,
            r.events_on_stop == self.events_on_stop.pushed_back(callback),
            r.events_on_loc == self.events_on_loc,
    {
        Solver {
            equation: self.equation,
            initial: self.initial,
            initial_disco: self.initial_disco,
            interval: self.interval,
            rk: self.rk,
            stepsize: self.stepsize,
            max_delay: self.max_delay,
            events_on_step: self.events_on_step,
            events_on_start: self.events_on_start,
            events_on_stop: self.events_on_stop.push_back(callback),
            events_on_loc: self.events_on_loc,
            _phantom_y: self._phantom_y,
        }
    }

    /// Adds a callback that runs when the integration starts, after those already added.
    pub fn on_start<C>(self, callback: C) -> (r: Solver<T, P, S, I, Equation, Initial, Interval, Stepsize, EventsOnStep, <EventsOnStart as PushBack<C>>::Output, EventsOnStop, EventsOnLoc>)
        where
            EventsOnStart: PushBack<C>,
        ensures
            r.equation == self.equation,
            r.initial == self.initial,
            r.initial_disco == self.initial_disco,
            r.interval == self.interval,
            r.rk == self.rk,
            r.stepsize == self.stepsize,
            r.max_delay == self.max_delay,
            r.events_on_step == self.events_on_step,
            r.events_on_start == self.events_on_start.pushed_back(callback),
            r.events_on_stop == self.events_on_stop,
            r.events_on_loc == self.events_on_loc,
    {
        Solver {
            equation: self.equation,
            initial: self.initial,
            initial_disco: self.initial_disco,
            interval: self.interval,
            rk: self.rk,
            stepsize: self.stepsize,
            max_delay: self.max_delay,
            events_on_step: self.events_on_step,
            events_on_start: self.events_on_start.push_back(callback),
            events_on_stop: self.events_on_stop,
            events_on_loc: self.events_on_loc,
            _phantom_y: self._phantom_y,
        }
    }

    /// Adds an event: a locator and the callback run where it locates an event, after those already added.
    pub fn on<L, C>(self, loc: L, callback: C) -> (r: Solver<T, P, S, I, Equation, Initial, Interval, Stepsize, EventsOnStep, EventsOnStart, EventsOnStop, <EventsOnLoc as PushBack<LocCallback<L, C>>>::Output>)
        where
            EventsOnLoc: PushBack<LocCallback<L, C>>,
        ensures
            r.equation == self.equation,
            r.initial == self.initial,
            r.initial_disco == self.initial_disco,
            r.interval == self.interval,
            r.rk == self.rk,
            r.stepsize == self.stepsize,
            r.max_delay == self.max_delay,
            r.events_on_step == self.events_on_step,
            r.events_on_start == self.events_on_start,
            r.events_on_stop == self.events_on_stop,
            r.events_on_loc == self.events_on_loc.pushed_back(LocCallback(loc, callback)),
    {
        Solver {
            equation: self.equation,
            initial: self.initial,
            initial_disco: self.initial_disco,
            interval: self.interval,
            rk: self.rk,
            stepsize: self.stepsize,
            max_delay: self.max_delay,
            events_on_step: self.events_on_step,
            events_on_start: self.events_on_start,
            events_on_stop: self.events_on_stop,
            events_on_loc: self.events_on_loc.push_back(LocCallback(loc, callback)),
            _phantom_y: self._phantom_y,
        }
    }

    /// Adds an event whose callback may change what it captured: a locator and the callback run
    /// where it locates an event, after those already added.
    pub fn on_mut<L, C>(self, loc: L, callback: C) -> (r: Solver<T, P, S, I, Equation, Initial, Interval, Stepsize, EventsOnStep, EventsOnStart, EventsOnStop, <EventsOnLoc as PushBack<LocCallback<L, C>>>::Output>)
        where
            EventsOnLoc: PushBack<LocCallback<L, C>>,
        ensures
            r.equation == self.equation,
            r.initial == self.initial,
            r.initial_disco == self.initial_disco,
            r.interval == self.interval,
            r.rk == self.rk,
            r.stepsize == self.stepsize,
            r.max_delay == self.max_delay,
            r.events_on_step == self.events_on_step,
            r.events_on_start == self.events_on_start,
            r.events_on_stop == self.events_on_stop,
            r.events_on_loc == self.events_on_loc.pushed_back(LocCallback(loc, callback)),
    {
        self.on(loc, callback)
    }

    /// Declares the delayed argument `delayed` of the equation: adds, after the events already
    /// added, the locator of the discontinuities that it carries forward, each smoothed by
    /// `smoothing_order`.
    pub fn with_delayed_argument<Delayed>(self, delayed: Delayed, smoothing_order: usize) -> (r: Solver<T, P, S, I, Equation, Initial, Interval, Stepsize, EventsOnStep, EventsOnStart, EventsOnStop, <EventsOnLoc as PushBack<Loc<Propagator<Delayed>, Propagation, Bisection>>>::Output>)
        where
            EventsOnLoc: PushBack<Loc<Propagator<Delayed>, Propagation, Bisection>>,
        ensures
            r.equation == self.equation,
            r.initial == self.initial,
            r.initial_disco == self.initial_disco,
            r.interval == self.interval,
            r.rk == self.rk,
            r.stepsize == self.stepsize,
            r.max_delay == self.max_delay,
            r.events_on_step == self.events_on_step,
            r.events_on_start == self.events_on_start,
            r.events_on_stop == self.events_on_stop,
            r.events_on_loc == self.events_on_loc.pushed_back(
                Loc {
                    function: Propagator {
                        delayed_argument: delayed,
                        smoothing_order,
                        tracked_disco_t: LOWEST_TIME_KEY,
                        tracked_disco_order: usize::MAX,
                        tracked_queue_index: 0,
                    },
                    detection: Propagation,
                    location: Bisection,
                },
            ),
    {
        let loc = Loc {
            function: Propagator::new(delayed, smoothing_order),
            detection: Propagation,
            location: Bisection,
        };
        Solver {
            equation: self.equation,
            initial: self.initial,
            initial_disco: self.initial_disco,
            interval: self.interval,
            rk: self.rk,
            stepsize: self.stepsize,
            max_delay: self.max_delay,
            events_on_step: self.events_on_step,
            events_on_start: self.events_on_start,
            events_on_stop: self.events_on_stop,
            events_on_loc: self.events_on_loc.push_back(loc),
            _phantom_y: self._phantom_y,
        }
    }
}

/// Where the integration loop stands.
#[derive(Clone, Copy, Debug, PartialEq, Eq, Structural)]
pub enum RunPhase {
    /// Nothing was done yet.
    NotStarted,
    /// A step ended; the loop goes on while the current time is before the end of the interval.
    CheckTime,
    /// A step was made; the step size controller judges it.
    AwaitStatus,
    /// A step was accepted; the events located on it are examined.
    AwaitEvents,
    /// The integration is over.
    Finished,
}

/// What the loop learns from the work it asked for.
#[derive(Clone, Copy, Debug)]
pub enum RunInput {
    /// The integration is asked to start.
    Start,
    /// Whether the current time is before the end of the interval.
    TimeLeft(bool),
    /// The verdict of the step size controller on the step.
    Status(StepStatus),
    /// The earliest event located on the step, with whether it lies after the start of the step.
    Earliest(Option<(usize, bool)>),
}

/// The work the loop asks for.
#[derive(Clone, Copy, Debug, PartialEq, Eq, Structural)]
pub enum RunAction {
    /// Run the callbacks of the start, then those of the step.
    CallStartAndStepEvents,
    /// Make a step of the controller's size, cut at the end of the interval.
    MakeStep,
    /// Undo the step and make it again with the size that the controller now gives.
    RetryStep,
    /// Locate the events on the step.
    LocateEvents,
    /// Undo the step, step to the located event, commit, make a zero step, run the event's
    /// callback, then commit and run the callbacks of the step.
    StepToEvent(usize),
    /// Commit the step and run the callbacks of the step.
    CommitStep,
    /// Run the callbacks of the stop.
    CallStopEvents,
}

/// The inputs that each phase waits for.
pub open spec fn input_fits(phase: RunPhase, input: RunInput) -> bool {
    match phase {
        RunPhase::NotStarted => input is Start,
        RunPhase::CheckTime => input is TimeLeft,
        RunPhase::AwaitStatus => input is Status,
        RunPhase::AwaitEvents => input is Earliest,
        RunPhase::Finished => false,
    }
}

/// The decisions of the integration loop: the next phase and the work to do, for each phase and
/// each input that it waits for.
pub open spec fn run_transition(phase: RunPhase, input: RunInput) -> (RunPhase, RunAction) {
    match input {
        RunInput::Start => (RunPhase::CheckTime, RunAction::CallStartAndStepEvents),
        RunInput::TimeLeft(left) => if left {
            (RunPhase::AwaitStatus, RunAction::MakeStep)
        } else {
            (RunPhase::Finished, RunAction::CallStopEvents)
        },
        RunInput::Status(status) => match status {
            StepStatus::Rejected => (RunPhase::AwaitStatus, RunAction::RetryStep),
            StepStatus::Accepted => (RunPhase::AwaitEvents, RunAction::LocateEvents),
        },
        RunInput::Earliest(found) => match found {
            Some((index, after_start)) => if after_start {
                (RunPhase::CheckTime, RunAction::StepToEvent(index))
            } else {
                (RunPhase::CheckTime, RunAction::CommitStep)
            },
            None => (RunPhase::CheckTime, RunAction::CommitStep),
        },
    }
}

impl RunPhase {
    /// Whether this phase waits for `input`.
    pub fn accepts(&self, input: &RunInput) -> (r: bool)
        ensures
            r == input_fits(*self, *input),
    {
        match self {
            RunPhase::NotStarted => matches!(input, RunInput::Start),
            RunPhase::CheckTime => matches!(input, RunInput::TimeLeft(_)),
            RunPhase::AwaitStatus => matches!(input, RunInput::Status(_)),
            RunPhase::AwaitEvents => matches!(input, RunInput::Earliest(_)),
            RunPhase::Finished => false,
        }
    }
}

/// One decision of the integration loop.
pub fn run_step(phase: RunPhase, input: RunInput) -> (r: (RunPhase, RunAction))
    requires
        input_fits(phase, input),
    ensures
        r == run_transition(phase, input),
{
    match input {
        RunInput::Start => (RunPhase::CheckTime, RunAction::CallStartAndStepEvents),
        RunInput::TimeLeft(left) => if left {
            (RunPhase::AwaitStatus, RunAction::MakeStep)
        } else {
            (RunPhase::Finished, RunAction::CallStopEvents)
        },
        RunInput::Status(status) => match status {
            StepStatus::Rejected => (RunPhase::AwaitStatus, RunAction::RetryStep),
            StepStatus::Accepted => (RunPhase::AwaitEvents, RunAction::LocateEvents),
        },
        RunInput::Earliest(found) => match found {
            Some((index, after_start)) => if after_start {
                (RunPhase::CheckTime, RunAction::StepToEvent(index))
            } else {
                (RunPhase::CheckTime, RunAction::CommitStep)
            },
            None => (RunPhase::CheckTime, RunAction::CommitStep),
        },
    }
}

/// The laws of the loop: a step is committed only once the controller accepted it, the
/// callbacks of the stop run only when no time is left and end the integration, a rejected
/// step is made again, and an event before the start of the step is not stepped to.
pub proof fn lemma_run_laws(phase: RunPhase, input: RunInput)
    requires
        input_fits(phase, input),
    ensures
        ({
            let (next, action) = run_transition(phase, input);
            &&& (action is CommitStep || action is StepToEvent) ==> phase == RunPhase::AwaitEvents
            &&& next == RunPhase::AwaitEvents ==> input == RunInput::Status(StepStatus::Accepted)
            &&& action is CallStopEvents <==> input == RunInput::TimeLeft(false)
            &&& action is CallStopEvents <==> next == RunPhase::Finished
            &&& input == RunInput::Status(StepStatus::Rejected) ==> action == RunAction::RetryStep
                && next == RunPhase::AwaitStatus
            &&& action is StepToEvent ==> input matches RunInput::Earliest(Some((_, true)))
        }),
{
}

/// The handling of the events located on an accepted step: when the earliest one lies after
/// the start of the step, the loop steps to that very event (and runs its callback), whatever
/// its index; when none was located, or the earliest lies at the start of the step, the step is
/// committed. Either way the loop then checks the time again.
pub proof fn lemma_earliest_event_is_stepped_to(found: Option<(usize, bool)>)
    ensures
        ({
            let (next, action) = run_transition(RunPhase::AwaitEvents, RunInput::Earliest(found));
            &&& next == RunPhase::CheckTime
            &&& forall|i: usize|
                found == Some((i, true)) ==> action == RunAction::StepToEvent(i)
            &&& (found is None || found matches Some((_, false))) ==> action
                == RunAction::CommitStep
        }),
{
}

/// Each input of the loop asks for its own work: the start runs the start and step callbacks,
/// time left asks for a step and no time left stops, an accepted step has its events located
/// and a rejected one is made again.
pub proof fn lemma_run_actions(phase: RunPhase, left: bool, status: StepStatus)
    ensures
        run_transition(phase, RunInput::Start) == (RunPhase::CheckTime, RunAction::CallStartAndStepEvents),
        left ==> run_transition(phase, RunInput::TimeLeft(left)) == (RunPhase::AwaitStatus, RunAction::MakeStep),
        !left ==> run_transition(phase, RunInput::TimeLeft(left)) == (RunPhase::Finished, RunAction::CallStopEvents),
        status == StepStatus::Accepted ==> run_transition(phase, RunInput::Status(status)) == (RunPhase::AwaitEvents, RunAction::LocateEvents),
        status == StepStatus::Rejected ==> run_transition(phase, RunInput::Status(status)) == (RunPhase::AwaitStatus, RunAction::RetryStep),
{
}

} // verus!
