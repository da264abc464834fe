use netscanner::utils::MaxSizeVec;

#[test]
fn new_history_is_empty() {
    let history: MaxSizeVec<u32> = MaxSizeVec::new(3);
    assert_eq!(history.len(), 0);
    assert_eq!(history.max_len(), 3);
    assert!(history.get_deque().is_empty());
    assert_eq!(history.get_vec(), Vec::<u32>::new());
}

#[test]
fn pushes_below_capacity_are_all_kept_in_order() {
    let mut history = MaxSizeVec::new(5);
    history.push(10);
    history.push(20);
    history.push(30);
    assert_eq!(history.get_vec(), vec![10, 20, 30]);
    assert_eq!(history.len(), 3);
}

#[test]
fn push_into_full_history_drops_the_oldest() {
    let mut history = MaxSizeVec::new(3);
    for n in 1..=3 {
        history.push(n);
    }
    assert_eq!(history.get_vec(), vec![1, 2, 3]);
    history.push(4);
    assert_eq!(history.get_vec(), vec![2, 3, 4]);
    history.push(5);
    assert_eq!(history.get_vec(), vec![3, 4, 5]);
    assert_eq!(history.len(), 3);
}

#[test]
fn history_keeps_the_last_capacity_pushes() {
    for capacity in [1usize, 2, 7, 10] {
        for pushes in [capacity + 1, 3 * capacity, 10 * capacity] {
            let mut history = MaxSizeVec::new(capacity);
            for n in 0..pushes {
                history.push(n);
            }
            let expected: Vec<usize> = (pushes - capacity..pushes).collect();
            assert_eq!(history.len(), capacity);
            assert_eq!(history.get_vec(), expected);
        }
    }
}

#[test]
fn history_of_capacity_zero_keeps_nothing() {
    let mut history = MaxSizeVec::new(0);
    history.push(1);
    history.push(2);
    assert_eq!(history.len(), 0);
    assert_eq!(history.get_vec(), Vec::<i32>::new());
}

#[test]
fn deque_and_copy_hold_the_same() {
    let mut history = MaxSizeVec::new(4);
    for word in ["a", "b", "c", "d", "e", "f"] {
        history.push(word.to_string());
    }
    let seen: Vec<String> = history.get_deque().iter().cloned().collect();
    assert_eq!(seen, history.get_vec());
    assert_eq!(seen, vec!["c", "d", "e", "f"]);
}
