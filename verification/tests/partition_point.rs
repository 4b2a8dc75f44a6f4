use diffurch::partition_point::partition_point_linear;
use std::collections::VecDeque;

#[test]
fn test1() {
    let deque: VecDeque<_> = [1, 2, 3, 3, 5, 6, 7].into();
    let i = partition_point_linear(&deque, 0, |&x| x < 5);

    assert_eq!(i, 4);
    assert!(deque.iter().take(i).all(|&x| x < 5));
    assert!(deque.iter().skip(i).all(|&x| !(x < 5)));
}

#[test]
fn test2() {
    let deque: VecDeque<_> = [1, 2, 3, 3, 5, 6, 7].into();
    let i = partition_point_linear(&deque, 4, |&x| x < 10);
    assert_eq!(i, 7);
}

#[test]
fn test3() {
    let deque: VecDeque<_> = [1, 2, 3, 3, 5, 6, 7].into();
    let i = partition_point_linear(&deque, 4, |&x| x < -4);
    assert_eq!(i, 0);
}

#[test]
fn count_1() {
    let deque: VecDeque<_> = [1, 2, 3, 3, 5, 6, 7].into();
    let mut count_steps = 0;
    let i = partition_point_linear(&deque, 0, |&x| {
        count_steps += 1;
        x < 5
    });
    assert_eq!(count_steps, 5);
    assert_eq!(i, 4);
}

#[test]
fn count_2() {
    let deque: VecDeque<_> = [1, 2, 3, 3, 5, 6, 7].into();
    let mut count_steps = 0;
    let i = partition_point_linear(&deque, 2, |&x| {
        count_steps += 1;
        x < 5
    });
    assert_eq!(count_steps, 3);
    assert_eq!(i, 4);
}

#[test]
fn count_3() {
    let deque: VecDeque<_> = [1, 2, 3, 3, 5, 6, 7].into();
    let mut count_steps = 0;
    let i = partition_point_linear(&deque, 6, |&x| {
        count_steps += 1;
        x < 5
    });
    assert_eq!(count_steps, 4);
    assert_eq!(i, 4);
}

#[test]
fn count_4() {
    let deque: VecDeque<_> = [1, 2, 3, 3, 5, 6, 7].into();
    let mut count_steps = 0;
    let i = partition_point_linear(&deque, 666, |&x| {
        count_steps += 1;
        x < 5
    });
    assert_eq!(count_steps, 4);
    assert_eq!(i, 4);
}

#[test]
fn empty_deque_has_partition_point_zero() {
    let deque: VecDeque<i32> = VecDeque::new();
    assert_eq!(partition_point_linear(&deque, 3, |&x| x < 5), 0);
}

#[test]
fn partition_point_found_from_every_start() {
    let deque: VecDeque<_> = [1, 2, 3, 3, 5, 6, 7].into();
    for start in 0..10 {
        assert_eq!(partition_point_linear(&deque, start, |&x| x <= 3), 4);
        assert_eq!(partition_point_linear(&deque, start, |&x| x < 100), 7);
        assert_eq!(partition_point_linear(&deque, start, |&x| x < 0), 0);
    }
}
