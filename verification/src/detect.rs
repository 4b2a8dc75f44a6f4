//! Detection of events from the values of a state function at the previous and the current
//! step: markers of the detection methods, and what each decides.
use vstd::prelude::*;

verus! {

/// Where a real value of a state function stands relative to zero. `Unordered` is a value
/// that compares with nothing, such as a NaN: every comparison with zero is false for it.
#[derive(Clone, Copy, Debug, PartialEq, Eq, Structural)]
pub enum ZeroComparison {
    Below,
    At,
    Above,
    Unordered,
}

impl ZeroComparison {
    /// The value is `>= 0`.
    pub open spec fn ge_zero(self) -> bool {
        self == ZeroComparison::Above || self == ZeroComparison::At
    }

    /// The value is `<= 0`.
    pub open spec fn le_zero(self) -> bool {
        self == ZeroComparison::Below || self == ZeroComparison::At
    }

    /// The value is `> 0`.
    pub open spec fn gt_zero(self) -> bool {
        self == ZeroComparison::Above
    }

    /// The value is `< 0`.
    pub open spec fn lt_zero(self) -> bool {
        self == ZeroComparison::Below
    }

    /// Whether the value is `>= 0`.
    pub fn is_ge_zero(self) -> (r: bool)
        ensures
            r == self.ge_zero(),
    {
        match self {
            ZeroComparison::Above | ZeroComparison::At => true,
            _ => false,
        }
    }

    /// Whether the value is `<= 0`.
    pub fn is_le_zero(self) -> (r: bool)
        ensures
            r == self.le_zero(),
    {
        match self {
            ZeroComparison::Below | ZeroComparison::At => true,
            _ => false,
        }
    }

    /// Whether the value is `> 0`.
    pub fn is_gt_zero(self) -> (r: bool)
        ensures
            r == self.gt_zero(),
    {
        match self {
            ZeroComparison::Above => true,
            _ => false,
        }
    }

    /// Whether the value is `< 0`.
    pub fn is_lt_zero(self) -> (r: bool)
        ensures
            r == self.lt_zero(),
    {
        match self {
            ZeroComparison::Below => true,
            _ => false,
        }
    }
}

/// Detection method marker for detection on every step.
#[derive(Clone, Copy, Debug)]
pub struct All;

/// Detection method marker for detection of change of sign of the state function.
#[derive(Clone, Copy, Debug)]
pub struct Zero;

/// Detection method marker for detection of state function value becoming positive.
#[derive(Clone, Copy, Debug)]
pub struct AboveZero;

/// Detection method marker for detection of state function value becoming negative.
#[derive(Clone, Copy, Debug)]
pub struct BelowZero;

/// Detection method marker for detection of state function value being positive.
#[derive(Clone, Copy, Debug)]
pub struct Positive;

/// Detection method marker for detection of state function value being negative.
#[derive(Clone, Copy, Debug)]
pub struct Negative;

/// Detection method marker for detection of change of bool value of the state function.
#[derive(Clone, Copy, Debug)]
pub struct Switch;

/// Detection method marker for detection of state function value becoming `true`.
#[derive(Clone, Copy, Debug)]
pub struct SwitchTrue;

/// Detection method marker for detection of state function value becoming `false`.
#[derive(Clone, Copy, Debug)]
pub struct SwitchFalse;

/// Detection method marker for detection of state function value being `true`.
#[derive(Clone, Copy, Debug)]
pub struct IsTrue;

/// Detection method marker for detection of state function value being `false`.
#[derive(Clone, Copy, Debug)]
pub struct IsFalse;

/// The value became `>= 0` from `< 0`.
pub open spec fn crossed_upward(curr: ZeroComparison, prev: ZeroComparison) -> bool {
    curr.ge_zero() && prev.lt_zero()
}

/// The value became `<= 0` from `> 0`.
pub open spec fn crossed_downward(curr: ZeroComparison, prev: ZeroComparison) -> bool {
    curr.le_zero() && prev.gt_zero()
}

impl Zero {
    /// The state function changed sign on the step: `curr >= 0 && prev < 0 || curr <= 0 && prev > 0`.
    pub fn detect(&self, curr: ZeroComparison, prev: ZeroComparison) -> (r: bool)
        ensures
            r == (crossed_upward(curr, prev) || crossed_downward(curr, prev)),
    {
        curr.is_ge_zero() && prev.is_lt_zero() || curr.is_le_zero() && prev.is_gt_zero()
    }
}

impl AboveZero {
    /// The state function became nonnegative on the step: `curr >= 0 && prev < 0`.
    pub fn detect(&self, curr: ZeroComparison, prev: ZeroComparison) -> (r: bool)
        ensures
            r == crossed_upward(curr, prev),
    {
        curr.is_ge_zero() && prev.is_lt_zero()
    }
}

impl BelowZero {
    /// The state function became nonpositive on the step: `curr <= 0 && prev > 0`.
    pub fn detect(&self, curr: ZeroComparison, prev: ZeroComparison) -> (r: bool)
        ensures
            r == crossed_downward(curr, prev),
    {
        curr.is_le_zero() && prev.is_gt_zero()
    }
}

impl Positive {
    /// The state function is nonnegative at the end of the step: `curr >= 0`.
    pub fn detect(&self, curr: ZeroComparison) -> (r: bool)
        ensures
            r == curr.ge_zero(),
    {
        curr.is_ge_zero()
    }
}

impl Negative {
    /// The state function is nonpositive at the end of the step: `curr <= 0`.
    pub fn detect(&self, curr: ZeroComparison) -> (r: bool)
        ensures
            r == curr.le_zero(),
    {
        curr.is_le_zero()
    }
}

impl Switch {
    /// The boolean state function changed its value on the step.
    pub fn detect(&self, curr: bool, prev: bool) -> (r: bool)
        ensures
            r == (curr != prev),
    {
        curr != prev
    }
}

impl SwitchTrue {
    /// The boolean state function became `true` on the step.
    pub fn detect(&self, curr: bool, prev: bool) -> (r: bool)
        ensures
            r == (curr && !prev),
    {
        curr && !prev
    }
}

impl SwitchFalse {
    /// The boolean state function became `false` on the step.
    pub fn detect(&self, curr: bool, prev: bool) -> (r: bool)
        ensures
            r == (!curr && prev),
    {
        !curr && prev
    }
}

impl IsTrue {
    /// The boolean state function is `true` at the end of the step.
    pub fn detect(&self, curr: bool) -> (r: bool)
        ensures
            r == curr,
    {
        curr
    }
}

impl IsFalse {
    /// The boolean state function is `false` at the end of the step.
    pub fn detect(&self, curr: bool) -> (r: bool)
        ensures
            r == !curr,
    {
        !curr
    }
}

/// A change of sign is a crossing upward or a crossing downward, never both: [`Zero`] detects
/// exactly when one of [`AboveZero`] and [`BelowZero`] does.
pub proof fn lemma_sign_change_is_one_crossing(curr: ZeroComparison, prev: ZeroComparison)
    ensures
        (crossed_upward(curr, prev) || crossed_downward(curr, prev)) <==> (crossed_upward(curr, prev)
            != crossed_downward(curr, prev)),
{
}

/// A value that compares with nothing (a NaN) at either end of the step is never detected as a
/// crossing of zero.
pub proof fn lemma_unordered_never_crosses(curr: ZeroComparison, prev: ZeroComparison)
    requires
        curr == ZeroComparison::Unordered || prev == ZeroComparison::Unordered,
    ensures
        !crossed_upward(curr, prev),
        !crossed_downward(curr, prev),
{
}

/// A value that stays on one side of zero, or at zero, is never detected as a crossing.
pub proof fn lemma_no_crossing_without_change(x: ZeroComparison)
    ensures
        !crossed_upward(x, x),
        !crossed_downward(x, x),
{
}

/// Where the value is exactly zero at the end of the step, [`Positive`] and [`Negative`] both
/// detect; elsewhere at most one of them does.
pub proof fn lemma_positive_negative_overlap_at_zero(curr: ZeroComparison)
    ensures
        (curr.ge_zero() && curr.le_zero()) <==> curr == ZeroComparison::At,
{
}

/// A switch of a boolean value is a switch to `true` or a switch to `false`, never both:
/// [`Switch`] detects exactly when one of [`SwitchTrue`] and [`SwitchFalse`] does.
pub proof fn lemma_switch_is_one_direction(curr: bool, prev: bool)
    ensures
        (curr != prev) <==> ((curr && !prev) != (!curr && prev)),
        (curr != prev) <==> ((curr && !prev) || (!curr && prev)),
{
}

/// Detection method marker for detection of change of sign of the state function.
#[derive(Clone, Copy, Debug)]
pub struct Sign;

/// Detection method marker for detection of state function value becoming positive.
#[derive(Clone, Copy, Debug)]
pub struct Pos;

/// Detection method marker for detection of state function value becoming negative.
#[derive(Clone, Copy, Debug)]
pub struct Neg;

/// Detection method marker for detection of state function value being positive.
#[derive(Clone, Copy, Debug)]
pub struct WhilePos;

/// Detection method marker for detection of state function value being negative.
#[derive(Clone, Copy, Debug)]
pub struct WhileNeg;

/// Detection method marker for detection of change of bool value of the state function.
#[derive(Clone, Copy, Debug)]
pub struct Bool;

/// Detection method marker for detection of state function value becoming `true`.
#[derive(Clone, Copy, Debug)]
pub struct True;

/// Detection method marker for detection of state function value becoming `false`.
#[derive(Clone, Copy, Debug)]
pub struct False;

/// Detection method marker for detection of state function value being `true`.
#[derive(Clone, Copy, Debug)]
pub struct WhileTrue;

/// Detection method marker for detection of state function value being `false`.
#[derive(Clone, Copy, Debug)]
pub struct WhileFalse;

impl Sign {
    /// The state function changed sign on the step, as [`Zero`] decides it.
    pub fn detect(&self, curr: ZeroComparison, prev: ZeroComparison) -> (r: bool)
        ensures
            r == (crossed_upward(curr, prev) || crossed_downward(curr, prev)),
    {
        Zero.detect(curr, prev)
    }
}

impl Pos {
    /// The state function became strictly positive on the step: `curr > 0 && prev <= 0`.
    pub fn detect(&self, curr: ZeroComparison, prev: ZeroComparison) -> (r: bool)
        ensures
            r == (curr.gt_zero() && prev.le_zero()),
    {
        curr.is_gt_zero() && prev.is_le_zero()
    }
}

impl Neg {
    /// The state function became strictly negative on the step: `curr < 0 && prev >= 0`.
    pub fn detect(&self, curr: ZeroComparison, prev: ZeroComparison) -> (r: bool)
        ensures
            r == (curr.lt_zero() && prev.ge_zero()),
    {
        curr.is_lt_zero() && prev.is_ge_zero()
    }
}

impl WhilePos {
    /// The state function is nonnegative at the end of the step: `curr >= 0`.
    pub fn detect(&self, curr: ZeroComparison) -> (r: bool)
        ensures
            r == curr.ge_zero(),
    {
        curr.is_ge_zero()
    }
}

impl WhileNeg {
    /// The state function is nonpositive at the end of the step: `curr <= 0`.
    pub fn detect(&self, curr: ZeroComparison) -> (r: bool)
        ensures
            r == curr.le_zero(),
    {
        curr.is_le_zero()
    }
}

impl Bool {
    /// The boolean state function changed its value on the step.
    pub fn detect(&self, curr: bool, prev: bool) -> (r: bool)
        ensures
            r == (curr != prev),
    {
        curr != prev
    }
}

impl True {
    /// The boolean state function became `true` on the step.
    pub fn detect(&self, curr: bool, prev: bool) -> (r: bool)
        ensures
            r == (curr && !prev),
    {
        curr && !prev
    }
}

impl False {
    /// The boolean state function became `false` on the step.
    pub fn detect(&self, curr: bool, prev: bool) -> (r: bool)
        ensures
            r == (!curr && prev),
    {
        !curr && prev
    }
}

impl WhileTrue {
    /// The boolean state function is `true` at the end of the step.
    pub fn detect(&self, curr: bool) -> (r: bool)
        ensures
            r == curr,
    {
        curr
    }
}

impl WhileFalse {
    /// The boolean state function is `false` at the end of the step.
    pub fn detect(&self, curr: bool) -> (r: bool)
        ensures
            r == !curr,
    {
        !curr
    }
}

/// [`Pos`] and [`AboveZero`] agree except where the value is exactly zero at one end of the
/// step: a step from zero to a positive value is a crossing for [`Pos`] only, and a step from a
/// negative value to zero is a crossing for [`AboveZero`] only.
pub proof fn lemma_pos_and_above_zero(curr: ZeroComparison, prev: ZeroComparison)
    ensures
        curr != ZeroComparison::At && prev != ZeroComparison::At ==> ((curr.gt_zero()
            && prev.le_zero()) == crossed_upward(curr, prev)),
        curr == ZeroComparison::Above && prev == ZeroComparison::At ==> (curr.gt_zero()
            && prev.le_zero()) && !crossed_upward(curr, prev),
        curr == ZeroComparison::At && prev == ZeroComparison::Below ==> !(curr.gt_zero()
            && prev.le_zero()) && crossed_upward(curr, prev),
{
}

} // verus!
