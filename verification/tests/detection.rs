use diffurch::detect::{
    AboveZero, BelowZero, Bool, False, IsFalse, IsTrue, Neg, Negative, Pos, Positive, Sign,
    Switch, SwitchFalse, SwitchTrue, True, WhileFalse, WhileNeg, WhilePos, WhileTrue, Zero,
    ZeroComparison,
};
use diffurch::locate::{StepBegin, StepEnd};
use ZeroComparison::{Above, At, Below, Unordered};

fn cmp(x: f64) -> ZeroComparison {
    if x < 0. {
        Below
    } else if x > 0. {
        Above
    } else if x == 0. {
        At
    } else {
        Unordered
    }
}

#[test]
fn zero_detects_sign_changes() {
    assert!(Zero.detect(cmp(1.), cmp(-1.)));
    assert!(Zero.detect(cmp(-1.), cmp(1.)));
    assert!(Zero.detect(cmp(0.), cmp(-1.)));
    assert!(!Zero.detect(cmp(1.), cmp(2.)));
    assert!(!Zero.detect(cmp(0.), cmp(0.)));
    assert!(!Zero.detect(cmp(f64::NAN), cmp(-1.)));
    assert!(Sign.detect(cmp(-3.), cmp(2.)));
}

#[test]
fn above_and_below_zero() {
    assert!(AboveZero.detect(At, Below));
    assert!(!AboveZero.detect(Below, Above));
    assert!(BelowZero.detect(At, Above));
    assert!(!BelowZero.detect(Above, Below));
    assert!(!AboveZero.detect(Unordered, Below));
}

#[test]
fn positive_and_negative_overlap_at_zero() {
    assert!(Positive.detect(At) && Negative.detect(At));
    assert!(Positive.detect(Above) && !Negative.detect(Above));
    assert!(!Positive.detect(Unordered) && !Negative.detect(Unordered));
    assert!(WhilePos.detect(At) && WhileNeg.detect(At));
}

#[test]
fn pos_and_neg_are_strict_at_the_end() {
    assert!(Pos.detect(Above, At));
    assert!(!Pos.detect(At, Below));
    assert!(Neg.detect(Below, At));
    assert!(!Neg.detect(At, Above));
}

#[test]
fn boolean_switches() {
    assert!(Switch.detect(true, false) && Switch.detect(false, true));
    assert!(!Switch.detect(true, true));
    assert!(SwitchTrue.detect(true, false) && !SwitchTrue.detect(false, true));
    assert!(SwitchFalse.detect(false, true) && !SwitchFalse.detect(true, false));
    assert!(IsTrue.detect(true) && !IsTrue.detect(false));
    assert!(IsFalse.detect(false) && !IsFalse.detect(true));
    assert!(Bool.detect(false, true) && True.detect(true, false) && False.detect(false, true));
    assert!(WhileTrue.detect(true) && WhileFalse.detect(false));
}

#[test]
fn step_ends_locate_detected_events() {
    assert_eq!(StepBegin.locate(true, 1.0, 2.0), Some(1.0));
    assert_eq!(StepEnd.locate(true, 1.0, 2.0), Some(2.0));
    assert_eq!(StepBegin.locate(false, 1.0, 2.0), None);
    assert_eq!(StepEnd.locate(false, 1.0, 2.0), None);
}
