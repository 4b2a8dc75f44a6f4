use diffurch::stable_index_deque::StableIndexVecDeque;

#[test]
fn indexes_survive_pop_front() {
    let mut q = StableIndexVecDeque::new();

    q.push_back(1);
    q.push_back(2);
    q.push_back(3);

    assert_eq!(*q.index(0), 1);
    assert_eq!(*q.index(1), 2);
    assert_eq!(*q.index(2), 3);

    assert_eq!(q.pop_front(), Some(1));
    assert_eq!(*q.index(1), 2);
    assert_eq!(*q.index(2), 3);
    assert_eq!(q.front_idx(), 1);
    assert_eq!(q.back_idx(), 3);
}

#[test]
fn push_front_takes_the_index_before_the_front() {
    let mut q = StableIndexVecDeque::with_capacity(4);
    q.push_back('a');
    q.push_back('b');
    assert_eq!(q.pop_front(), Some('a'));
    q.push_front('z');
    assert_eq!(q.front_idx(), 0);
    assert_eq!(q.get(0), Some(&'z'));
    assert_eq!(q.get(1), Some(&'b'));
    assert_eq!(q.get(2), None);
}

#[test]
fn get_before_the_front_is_none() {
    let mut q = StableIndexVecDeque::new();
    q.push_back(10);
    q.push_back(20);
    q.pop_front();
    assert_eq!(q.get(0), None);
    assert_eq!(q.get(1), Some(&20));
}

#[test]
fn pop_front_of_empty_keeps_the_offset() {
    let mut q: StableIndexVecDeque<i32> = StableIndexVecDeque::new();
    assert_eq!(q.pop_front(), None);
    assert_eq!(q.front_idx(), 0);
    assert!(q.is_empty());
}

#[test]
fn get_mut_writes_through_stable_index() {
    let mut q = StableIndexVecDeque::new();
    q.push_back(1);
    q.push_back(2);
    q.push_back(3);
    q.pop_front();
    if let Some(x) = q.get_mut(2) {
        *x = 30;
    }
    assert_eq!(*q.index(2), 30);
    assert!(q.get_mut(5).is_none());
}

#[test]
fn swap_by_stable_indexes() {
    let mut q = StableIndexVecDeque::new();
    q.push_back(1);
    q.push_back(2);
    q.push_back(3);
    q.pop_front();
    q.swap(1, 2);
    assert_eq!(*q.index(1), 3);
    assert_eq!(*q.index(2), 2);
}

#[test]
fn insert_and_remove_both_insert() {
    let mut q = StableIndexVecDeque::new();
    q.push_back(1);
    q.push_back(3);
    q.insert(1, 2);
    assert_eq!(q.len(), 3);
    assert_eq!(*q.index(1), 2);
    assert_eq!(*q.index(2), 3);
    q.remove(0, 0);
    assert_eq!(q.len(), 4);
    assert_eq!(*q.index(0), 0);
    assert_eq!(*q.index(1), 1);
}
