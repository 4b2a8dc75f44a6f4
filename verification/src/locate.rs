//! Location of events on a step where they were detected: markers of the location methods, and
//! the location by the ends of the step.
use vstd::prelude::*;

verus! {

/// Use the previous step time as the location of event
#[derive(Clone, Copy, Debug)]
pub struct StepBegin;

/// Use the current step time as the location of event
#[derive(Clone, Copy, Debug)]
pub struct StepEnd;

/// Use the middle between previous and current step time as the location of event
#[derive(Clone, Copy, Debug)]
pub struct StepMiddle;

/// Use the middle between previous and current step time as the location of event
#[derive(Clone, Copy, Debug)]
pub struct StepHalf;

/// Use the linear interpolation as an approximation for the location of event for float-valued
/// detection functions (not supported for `bool` detection functions)
#[derive(Clone, Copy, Debug)]
pub struct Lerp;

/// Use bisection method to find the location of event for float-valued detection functions.
/// See also: [BisectionBool].
#[derive(Clone, Copy, Debug)]
pub struct Bisection;

/// Use bisection method to find the location of event for bool-valued detection functions. See
/// also: [Bisection].
#[derive(Clone, Copy, Debug)]
pub struct BisectionBool;

/// Use regula falsi method to find the location of event for float-valued detection functions.
/// See also: [Bisection]. Current implementation is not as reliable as [Bisection].
#[derive(Clone, Copy, Debug)]
pub struct RegulaFalsi;

impl StepBegin {
    /// The event, if it was detected on the step, is placed at the start of the step.
    pub fn locate<T: Copy>(&self, detected: bool, t_prev: T, t_curr: T) -> (r: Option<T>)
        ensures
            r == (if detected {
                Some(t_prev)
            } else {
                None
            }),
    {
        if detected {
            Some(t_prev)
        } else {
            None
        }
    }
}

impl StepEnd {
    /// The event, if it was detected on the step, is placed at the end of the step.
    pub fn locate<T: Copy>(&self, detected: bool, t_prev: T, t_curr: T) -> (r: Option<T>)
        ensures
            r == (if detected {
                Some(t_curr)
            } else {
                None
            }),
    {
        if detected {
            Some(t_curr)
        } else {
            None
        }
    }
}

} // verus!
