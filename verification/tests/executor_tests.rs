use nacl::executor::{sleep_if_idle, Executor, WakeHandle};
use nacl::machine::CoreControl;
use nacl::queue::WorkQueue;
use nacl::task::{Task, TaskId, TaskIdAllocator};

#[test]
fn spawn_registers_task_and_enqueues_id() {
    let mut exec = Executor::new();
    let mut queue = WorkQueue::new();
    let mut alloc = TaskIdAllocator::new();
    let id = alloc.fresh();
    exec.spawn(Task::new(id, 0), &mut queue);
    assert_eq!(exec.task_count(), 1);
    assert!(exec.has_task(id.0));
    assert_eq!(queue.pop(), Some(id.0));
}

#[test]
fn completion_removes_task_and_waker_after_kth_poll() {
    // The task resolves on its third poll: two passes leave it pending and
    // cached, the third removes it from table and cache at once.
    let mut exec = Executor::new();
    let mut queue = WorkQueue::new();
    exec.spawn(Task::new(TaskId(0), 2), &mut queue);

    let id = queue.pop().unwrap();
    exec.run_task(id, &mut queue);
    assert!(exec.has_task(0));
    assert!(exec.has_waker(0));
    assert_eq!(queue.len(), 1);

    let id = queue.pop().unwrap();
    exec.run_task(id, &mut queue);
    assert!(exec.has_task(0));
    assert!(exec.has_waker(0));

    let id = queue.pop().unwrap();
    exec.run_task(id, &mut queue);
    assert!(!exec.has_task(0));
    assert!(!exec.has_waker(0));
    assert_eq!(exec.task_count(), 0);
    assert_eq!(queue.len(), 0);
}

#[test]
fn stale_wake_for_completed_task_is_ignored() {
    let mut exec = Executor::new();
    let mut queue = WorkQueue::new();
    exec.spawn(Task::new(TaskId(3), 0), &mut queue);
    // A duplicate wake fires before the first poll.
    WakeHandle::new_waker(3).wake_task(&mut queue);
    let id = queue.pop().unwrap();
    exec.run_task(id, &mut queue);
    assert!(!exec.has_task(3));
    // The stale duplicate id is drained without effect.
    let id = queue.pop().unwrap();
    exec.run_task(id, &mut queue);
    assert!(!exec.has_task(3));
    assert_eq!(queue.len(), 0);
}

#[test]
fn run_ready_tasks_drains_pass_to_completion() {
    let mut exec = Executor::new();
    let mut queue = WorkQueue::new();
    exec.spawn(Task::new(TaskId(0), 1), &mut queue);
    exec.spawn(Task::new(TaskId(1), 0), &mut queue);
    exec.run_ready_tasks(&mut queue);
    // Task 1 completed; task 0 yielded once and sits re-queued.
    assert!(!exec.has_task(1));
    assert!(exec.has_task(0));
    assert_eq!(queue.len(), 1);
    exec.run_ready_tasks(&mut queue);
    assert!(!exec.has_task(0));
    assert_eq!(exec.task_count(), 0);
    assert_eq!(queue.len(), 0);
}

#[test]
fn wake_handle_enqueues_on_invoking_core() {
    let mut other_core_queue = WorkQueue::new();
    let handle = WakeHandle::new_waker(99);
    handle.wake_task(&mut other_core_queue);
    assert_eq!(other_core_queue.pop(), Some(99));
}

#[test]
fn idle_gate_keeps_running_on_local_work() {
    let mut ctl = CoreControl::new();
    let mut local = WorkQueue::new();
    let mut peers: Vec<WorkQueue> = vec![WorkQueue::new()];
    local.push(1);
    let halted = sleep_if_idle(&mut ctl, &mut local, &mut peers);
    assert!(!halted);
    assert_eq!(local.len(), 1);
}

#[test]
fn idle_gate_steals_from_first_busy_peer() {
    let mut ctl = CoreControl::new();
    let mut local = WorkQueue::new();
    let mut peers: Vec<WorkQueue> = vec![WorkQueue::new(), WorkQueue::new()];
    for id in [5, 6, 7] {
        peers[1].push(id);
    }
    let halted = sleep_if_idle(&mut ctl, &mut local, &mut peers);
    assert!(!halted);
    assert_eq!(local.pop(), Some(5));
    assert_eq!(local.pop(), Some(6));
    assert_eq!(local.pop(), None);
    assert_eq!(peers[1].pop(), Some(7));
}

#[test]
fn idle_gate_halts_when_no_work_anywhere() {
    let mut ctl = CoreControl::new();
    let mut local = WorkQueue::new();
    let mut peers: Vec<WorkQueue> = vec![WorkQueue::new(), WorkQueue::new()];
    let halted = sleep_if_idle(&mut ctl, &mut local, &mut peers);
    assert!(halted);
}

#[test]
fn wake_between_recheck_and_halt_is_not_lost() {
    // The racing ordering, simulated step by step on the mock
    // interrupt-disable/halt pair: the re-check sees an empty queue, the
    // wake fires strictly before the halt instruction, and the halt must
    // not outlast the next interrupt.
    let mut ctl = CoreControl::new();
    let mut waker_core_queue = WorkQueue::new();

    ctl.disable_interrupts();
    let local_empty = waker_core_queue.is_empty();
    assert!(local_empty);

    // The wake fires from interrupt context, after the re-check and
    // strictly before the halt instruction.
    WakeHandle::new_waker(11).wake_task(&mut waker_core_queue);

    // Enable-and-halt is one indivisible step; the core is now halted but
    // accepting interrupts.
    ctl.enable_and_hlt();

    // The next interrupt — at the latest the periodic tick — ends the halt.
    ctl.deliver_interrupt();

    // The core runs again and the woken id is still queued, not lost.
    assert_eq!(waker_core_queue.pop(), Some(11));
}
