use rust_vad::fixed_deque::FixedLengthQueue;

fn items(q: &FixedLengthQueue<i32>) -> Vec<i32> {
    q.queue.iter().cloned().collect()
}

#[test]
fn new_queue_is_empty() {
    let q: FixedLengthQueue<i32> = FixedLengthQueue::new(3);
    assert_eq!(q.len(), 0);
    assert_eq!(q.size(), 3);
    assert!(q.is_empty());
}

#[test]
fn push_front_evicts_oldest_when_full() {
    let mut q = FixedLengthQueue::new(3);
    for v in 1..=5 {
        q.push_front_(v);
        assert!(q.len() <= q.size());
    }
    assert_eq!(items(&q), vec![5, 4, 3]);
    assert_eq!(q.len(), 3);
    assert!(!q.is_empty());
}

#[test]
fn push_front_by_value_matches_in_place() {
    let mut a = FixedLengthQueue::new(2);
    let mut b = FixedLengthQueue::new(2);
    for v in [7, 8, 9] {
        a.push_front_(v);
        b = b.push_front(v);
    }
    assert_eq!(items(&a), vec![9, 8]);
    assert_eq!(items(&b), vec![9, 8]);
    assert_eq!(b.size(), 2);
}

#[test]
fn history_keeps_last_items_newest_first() {
    let mut q = FixedLengthQueue::new(4);
    let xs = [10, 20, 30, 40, 50, 60, 70];
    for x in xs {
        q.push_front_(x);
    }
    assert_eq!(items(&q), vec![70, 60, 50, 40]);
    let mut short = FixedLengthQueue::new(4);
    for x in [1, 2] {
        short.push_front_(x);
    }
    assert_eq!(items(&short), vec![2, 1]);
}

#[test]
fn pop_oldest_takes_from_back() {
    let mut q = FixedLengthQueue::new(3);
    q.push_front_(1);
    q.push_front_(2);
    assert_eq!(q.pop_oldest(), Some(1));
    assert_eq!(q.pop_oldest(), Some(2));
    assert_eq!(q.pop_oldest(), None);
}

#[test]
fn size_never_changes_and_len_is_min() {
    let mut q = FixedLengthQueue::new(5);
    for k in 1..=12 {
        if k % 2 == 0 {
            q.push_front_(k);
        } else {
            q = q.push_front(k);
        }
        assert_eq!(q.size(), 5);
        assert_eq!(q.len(), std::cmp::min(k as usize, 5));
        assert_eq!(q.len(), q.queue.len());
    }
}
