//! Step size control: whether a step is accepted, and the constant step size.
use vstd::prelude::*;

verus! {

/// The verdict of a step size controller on a step that was made.
#[derive(Clone, Copy, Debug, PartialEq, Eq, Structural)]
pub enum StepStatus {
    Rejected,
    Accepted,
}

/// A step size controller: it gives the size of the next step, and judges each step by its
/// error estimate `Y`.
pub trait StepsizeController<T, Y> {
    /// Prepares the controller before the integration starts.
    fn init(&mut self);

    /// The size of the next step.
    fn get(&self) -> T;

    /// Sets the size of the next step.
    fn set(&mut self, new_stepsize: T);

    /// Judges the step whose error estimate is `error`, and adapts the step size.
    fn update(&mut self, error: &Y) -> StepStatus;
}

/// A plain value is a constant step size: it accepts every step.
impl<T: Copy, Y> StepsizeController<T, Y> for T {
    fn init(&mut self)
        ensures
            *final(self) == *old(self),
    {
    }

    fn get(&self) -> (r: T)
        returns
            *self,
    {
        *self
    }

    fn set(&mut self, new_stepsize: T)
        ensures
            *final(self) == new_stepsize,
    {
        *self = new_stepsize;
    }

    fn update(&mut self, error: &Y) -> (r: StepStatus)
        ensures
            r == StepStatus::Accepted,
            *final(self) == *old(self),
    {
        StepStatus::Accepted
    }
}

} // verus!
