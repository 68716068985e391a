use nacl::queue::WorkQueue;
use nacl::task::{find_task, Poll, Task, TaskId, TaskIdAllocator, Yield};

#[test]
fn task_ids_strictly_increasing_and_distinct() {
    let mut alloc = TaskIdAllocator::new();
    let mut issued: Vec<TaskId> = Vec::new();
    for _ in 0..100 {
        issued.push(alloc.fresh());
    }
    for i in 0..issued.len() {
        for j in (i + 1)..issued.len() {
            assert!(issued[i].0 < issued[j].0);
            assert_ne!(issued[i], issued[j]);
        }
    }
}

#[test]
fn task_id_allocation_starts_at_zero() {
    let mut alloc = TaskIdAllocator::new();
    assert_eq!(alloc.fresh(), TaskId(0));
    assert_eq!(alloc.fresh(), TaskId(1));
}

#[test]
fn task_resolves_on_kth_poll() {
    // With two pending polls the task resolves on its third poll.
    let mut task = Task::new(TaskId(5), 2);
    assert_eq!(task.get_id(), TaskId(5));
    assert!(matches!(task.poll(), Poll::Pending));
    assert_eq!(task.remaining(), 1);
    assert!(matches!(task.poll(), Poll::Pending));
    assert_eq!(task.remaining(), 0);
    assert!(matches!(task.poll(), Poll::Ready(())));
}

#[test]
fn task_with_no_pending_polls_resolves_immediately() {
    let mut task = Task::new(TaskId(0), 0);
    assert!(matches!(task.poll(), Poll::Ready(())));
}

#[test]
fn yield_suspends_once() {
    let mut y = Yield::default();
    assert!(matches!(y.poll(), Poll::Pending));
    assert!(matches!(y.poll(), Poll::Ready(())));
    assert!(matches!(y.poll(), Poll::Ready(())));
}

#[test]
fn find_task_prefers_local_queue() {
    let mut local = WorkQueue::new();
    let mut global = WorkQueue::new();
    let mut stealers = vec![WorkQueue::new()];
    local.push(1);
    global.push(2);
    stealers[0].push(3);
    assert_eq!(find_task(&mut local, &mut global, &mut stealers), Some(1));
    assert_eq!(global.len(), 1);
    assert_eq!(stealers[0].len(), 1);
}

#[test]
fn find_task_falls_back_to_global_injector() {
    let mut local = WorkQueue::new();
    let mut global = WorkQueue::new();
    let mut stealers = vec![WorkQueue::new()];
    for id in [4, 5, 6] {
        global.push(id);
    }
    stealers[0].push(9);
    assert_eq!(find_task(&mut local, &mut global, &mut stealers), Some(4));
    // A batch of two was stolen; its second element stays local.
    assert_eq!(local.pop(), Some(5));
    assert_eq!(global.pop(), Some(6));
    assert_eq!(stealers[0].len(), 1);
}

#[test]
fn find_task_steals_from_first_nonempty_peer() {
    let mut local = WorkQueue::new();
    let mut global = WorkQueue::new();
    let mut stealers = vec![WorkQueue::new(), WorkQueue::new(), WorkQueue::new()];
    stealers[1].push(7);
    stealers[1].push(8);
    stealers[2].push(12);
    assert_eq!(find_task(&mut local, &mut global, &mut stealers), Some(7));
    assert_eq!(stealers[1].len(), 1);
    assert_eq!(stealers[2].len(), 1);
}

#[test]
fn find_task_with_everything_empty() {
    let mut local = WorkQueue::new();
    let mut global = WorkQueue::new();
    let mut stealers = vec![WorkQueue::new(), WorkQueue::new()];
    assert_eq!(find_task(&mut local, &mut global, &mut stealers), None);
    assert!(local.is_empty());
    assert!(global.is_empty());
}
