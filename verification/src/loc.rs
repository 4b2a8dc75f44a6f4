//! Event locators: a state function, a detection method and a location method, and the
//! combinators around them.
use crate::detect::{
    AboveZero, All, BelowZero, IsFalse, IsTrue, Negative, Positive, Switch, SwitchFalse,
    SwitchTrue, Zero,
};
use crate::locate::{Bisection, StepBegin, StepEnd};
use crate::propagation::{Propagation, Propagator, LOWEST_TIME_KEY};
use vstd::prelude::*;

verus! {

/// An event locator: the state function `function`, whose values are examined on each step by
/// the detection method `detection`, and the location method `location` that places a detected
/// event within the step.
#[derive(Clone, Copy, Debug)]
pub struct Loc<F, D, L> {
    pub function: F,
    pub detection: D,
    pub location: L,
}

impl Loc<(), All, StepEnd> {
    /// The locator of an event on every step, placed at the end of the step.
    pub fn all() -> (r: Self)
        ensures
            r.function == (),
    {
        Loc { function: (), detection: All, location: StepEnd }
    }
}

impl<F> Loc<F, Zero, Bisection> {
    /// A change of sign of `f`, located by bisection.
    pub fn zero(f: F) -> (r: Self)
        ensures
            r.function == f,
    {
        Loc { function: f, detection: Zero, location: Bisection }
    }
}

impl<F> Loc<F, AboveZero, Bisection> {
    /// `f` becoming nonnegative, located by bisection.
    pub fn above_zero(f: F) -> (r: Self)
        ensures
            r.function == f,
    {
        Loc { function: f, detection: AboveZero, location: Bisection }
    }
}

impl<F> Loc<F, BelowZero, Bisection> {
    /// `f` becoming nonpositive, located by bisection.
    pub fn below_zero(f: F) -> (r: Self)
        ensures
            r.function == f,
    {
        Loc { function: f, detection: BelowZero, location: Bisection }
    }
}

impl<F> Loc<F, Positive, StepBegin> {
    /// `f` being nonnegative, located at the start of the step.
    pub fn positive(f: F) -> (r: Self)
        ensures
            r.function == f,
    {
        Loc { function: f, detection: Positive, location: StepBegin }
    }
}

impl<F> Loc<F, Negative, StepBegin> {
    /// `f` being nonpositive, located at the start of the step.
    pub fn negative(f: F) -> (r: Self)
        ensures
            r.function == f,
    {
        Loc { function: f, detection: Negative, location: StepBegin }
    }
}

impl<F> Loc<F, Switch, Bisection> {
    /// The boolean `f` changing its value, located by bisection.
    pub fn switch(f: F) -> (r: Self)
        ensures
            r.function == f,
    {
        Loc { function: f, detection: Switch, location: Bisection }
    }
}

impl<F> Loc<F, SwitchTrue, Bisection> {
    /// The boolean `f` becoming `true`, located by bisection.
    pub fn switch_true(f: F) -> (r: Self)
        ensures
            r.function == f,
    {
        Loc { function: f, detection: SwitchTrue, location: Bisection }
    }
}

impl<F> Loc<F, SwitchFalse, Bisection> {
    /// The boolean `f` becoming `false`, located by bisection.
    pub fn switch_false(f: F) -> (r: Self)
        ensures
            r.function == f,
    {
        Loc { function: f, detection: SwitchFalse, location: Bisection }
    }
}

impl<F> Loc<F, IsTrue, StepBegin> {
    /// The boolean `f` being `true`, located at the start of the step.
    pub fn is_true(f: F) -> (r: Self)
        ensures
            r.function == f,
    {
        Loc { function: f, detection: IsTrue, location: StepBegin }
    }
}

impl<F> Loc<F, IsFalse, StepBegin> {
    /// The boolean `f` being `false`, located at the start of the step.
    pub fn is_false(f: F) -> (r: Self)
        ensures
            r.function == f,
    {
        Loc { function: f, detection: IsFalse, location: StepBegin }
    }
}

impl<F> Loc<Propagator<F>, Propagation, Bisection> {
    /// The discontinuities carried forward by the delayed argument `delayed`, each smoothed by
    /// `smoothing_order`, located by bisection.
    pub fn propagated_discontinuity(delayed: F, smoothing_order: usize) -> (r: Self)
        ensures
            r.function.delayed_argument == delayed,
            r.function.smoothing_order == smoothing_order,
            r.function.tracked_disco_t == LOWEST_TIME_KEY,
            r.function.tracked_disco_order == usize::MAX,
            r.function.tracked_queue_index == 0,
    {
        Loc {
            function: Propagator::new(delayed, smoothing_order),
            detection: Propagation,
            location: Bisection,
        }
    }
}

impl<F, D, L> Loc<F, D, L> {
    /// The same locator with the location method `l`.
    pub fn using<LL>(self, l: LL) -> (r: Loc<F, D, LL>)
        ensures
            r.function == self.function,
            r.detection == self.detection,
            r.location == l,
    {
        Loc { function: self.function, detection: self.detection, location: l }
    }
}

/// A locator paired with the callback that is run at the located events.
pub struct LocCallback<L, C>(pub L, pub C);

/// A locator that does not report an event again on a step that begins at or before the time
/// at which it was last evaluated for a callback (`last_call`, a key that orders times as the
/// times are ordered).
pub struct DedupLocF<L> {
    pub last_call: Option<i64>,
    pub loc_f: L,
}

impl<L> DedupLocF<L> {
    /// Whether the locator is consulted on the step that begins at `t_prev`: no call was
    /// recorded, or the last one lies before the step.
    pub fn allows(&self, t_prev: i64) -> (r: bool)
        ensures
            r == (self.last_call matches Some(t) ==> t < t_prev),
    {
        match self.last_call {
            None => true,
            Some(t) => t < t_prev,
        }
    }

    /// The event located on the step that begins at `t_prev`: what the locator found
    /// (`located`), where it is consulted, and nothing otherwise.
    pub fn detect_and_locate(&self, t_prev: i64, located: Option<i64>) -> (r: Option<i64>)
        ensures
            r == (if self.last_call matches Some(t) ==> t < t_prev {
                located
            } else {
                None
            }),
    {
        if self.allows(t_prev) {
            located
        } else {
            None
        }
    }

    /// Records that the state function was evaluated at time `t`.
    pub fn record_call(&mut self, t: i64)
        ensures
            final(self).last_call == Some(t),
            final(self).loc_f == old(self).loc_f,
    {
        self.last_call = Some(t);
    }
}

/// After a call recorded at `t`, a step is let through exactly when it begins after `t`: an
/// event is not reported twice for the same time.
pub proof fn lemma_dedup_after_call<L>(d: DedupLocF<L>, t: i64, t_prev: i64)
    requires
        d.last_call == Some(t),
    ensures
        (d.last_call matches Some(s) ==> s < t_prev) <==> t < t_prev,
{
}

} // verus!
