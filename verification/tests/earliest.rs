use diffurch::earliest::locate_earliest;

#[test]
fn earliest_of_located_events() {
    assert_eq!(locate_earliest(&vec![None, Some(5), Some(3), Some(7)]), Some((2, 3)));
}

#[test]
fn first_of_equally_early_events() {
    assert_eq!(locate_earliest(&vec![Some(4), Some(2), Some(2)]), Some((1, 2)));
}

#[test]
fn nothing_located() {
    assert_eq!(locate_earliest(&vec![None, None]), None);
    assert_eq!(locate_earliest(&vec![]), None);
}
