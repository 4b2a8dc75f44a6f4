use diffurch::tower::{BoolTupleTower, BoolTutle, TupleTower, Tutle};

#[test]
fn tutle_append_puts_head_on_top() {
    let t = Tutle(()).append(1).append(2);
    assert_eq!(t, Tutle((2, Tutle((1, Tutle(()))))));
}

#[test]
fn bool_tutle_any_all() {
    let t = Tutle(()).append(true).append(false);
    assert!(t.any());
    assert!(!t.all());
    let u = Tutle(()).append(true).append(true);
    assert!(u.all());
    assert!(!Tutle(()).any());
    assert!(Tutle(()).all());
}

#[test]
fn bool_tuple_tower_any_all() {
    let t = TupleTower(()).append(false).append(false);
    assert!(!t.any());
    assert!(!t.all());
    let TupleTower((top, _)) = TupleTower(()).append(7).append(8);
    assert_eq!(top, 8);
}
