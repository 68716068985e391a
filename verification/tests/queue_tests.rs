use nacl::queue::{Steal, WorkQueue};

#[test]
fn fifo_push_pop_order() {
    let mut q = WorkQueue::new();
    q.push(1);
    q.push(2);
    q.push(3);
    assert_eq!(q.pop(), Some(1));
    assert_eq!(q.pop(), Some(2));
    assert_eq!(q.pop(), Some(3));
    assert_eq!(q.pop(), None);
}

#[test]
fn pop_empty_returns_none() {
    let mut q = WorkQueue::new();
    assert_eq!(q.pop(), None);
    assert!(q.is_empty());
    assert_eq!(q.len(), 0);
}

#[test]
fn steal_batch_conserves_items() {
    let mut src = WorkQueue::new();
    let mut dst = WorkQueue::new();
    for id in 10..15 {
        src.push(id);
    }
    let before = src.len() + dst.len();
    let res = src.steal_batch(&mut dst);
    let c = match res.success() {
        Some(c) => c,
        None => panic!("steal of a non-empty queue must succeed"),
    };
    assert_eq!(c, 3);
    assert!(c <= 5);
    assert_eq!(src.len(), 5 - c);
    assert_eq!(dst.len(), c);
    assert_eq!(src.len() + dst.len(), before);
}

#[test]
fn steal_batch_takes_contiguous_prefix() {
    let mut src = WorkQueue::new();
    let mut dst = WorkQueue::new();
    for id in [7, 8, 9, 10] {
        src.push(id);
    }
    let res = src.steal_batch(&mut dst);
    assert!(res.is_success());
    assert_eq!(dst.pop(), Some(7));
    assert_eq!(dst.pop(), Some(8));
    assert_eq!(dst.pop(), None);
    assert_eq!(src.pop(), Some(9));
    assert_eq!(src.pop(), Some(10));
}

#[test]
fn steal_batch_from_empty_reports_empty() {
    let mut src = WorkQueue::new();
    let mut dst = WorkQueue::new();
    let res = src.steal_batch(&mut dst);
    assert!(!res.is_success());
    assert!(!res.is_retry());
    assert!(matches!(res, Steal::Empty));
    assert_eq!(dst.len(), 0);
}

#[test]
fn steal_single_takes_front() {
    let mut src = WorkQueue::new();
    src.push(41);
    src.push(42);
    let res = src.steal();
    assert_eq!(res.success(), Some(41));
    assert_eq!(src.len(), 1);
    let res = src.steal();
    assert_eq!(res.success(), Some(42));
    assert!(matches!(src.steal(), Steal::Empty));
}

#[test]
fn steal_batch_and_pop_hands_out_front() {
    let mut global = WorkQueue::new();
    let mut local = WorkQueue::new();
    for id in [1, 2, 3] {
        global.push(id);
    }
    let res = global.steal_batch_and_pop(&mut local);
    assert_eq!(res.success(), Some(1));
    assert_eq!(local.pop(), Some(2));
    assert_eq!(local.pop(), None);
    assert_eq!(global.pop(), Some(3));
}

#[test]
fn steal_batch_from_single_item_queue() {
    let mut src = WorkQueue::new();
    let mut dst = WorkQueue::new();
    src.push(77);
    let res = src.steal_batch(&mut dst);
    assert_eq!(res.success(), Some(1));
    assert!(src.is_empty());
    assert_eq!(dst.pop(), Some(77));
}

#[test]
fn steal_retry_outcome_is_recognised() {
    let res: Steal<usize> = Steal::Retry;
    assert!(res.is_retry());
    assert!(!res.is_success());
    assert_eq!(res.success(), None);
}
