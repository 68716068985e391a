//! The per-core executor: drives cooperative tasks to completion from the
//! core's run queue, stealing from peers when idle.
//!
//! Each core owns a task table and a cache of wake handles, both keyed by
//! task id and touched by no other core. A task moves from spawned through
//! pending polls to completed; completion removes it from table and cache
//! exactly once, and a stale wake for a completed task is silently
//! ignored. When the local queue runs dry the core tries its peers, and
//! only after disabling interrupts and re-checking emptiness does it halt
//! — re-enabling interrupts and halting in one indivisible step, so a
//! wake slipping in between the re-check and the halt at worst defers to
//! the next interrupt.

use crate::machine::CoreControl;
use crate::queue::{Steal, WorkQueue};
use crate::task::{Poll, Task};
use std::collections::HashMap;
use vstd::prelude::*;

verus! {

/// A wake handle: a capability carrying nothing but a task id. Invoking it
/// re-enqueues that id onto the invoking core's run queue, so a task may
/// resume on a different core than it suspended on.
#[derive(Clone, Copy, Debug, PartialEq, Eq, Structural)]
pub struct WakeHandle {
    pub task_id: u64,
}

impl WakeHandle {
    /// A wake handle for the given task.
    pub fn new_waker(task_id: u64) -> (w: WakeHandle)
        ensures
            w.task_id == task_id,
    {
        WakeHandle { task_id }
    }

    /// Wake the task: enqueue its id on the invoking core's run queue.
    pub fn wake_task(&self, queue: &mut WorkQueue)
        ensures
            final(queue)@ == old(queue)@.push(self.task_id),
    {
        queue.push(self.task_id);
    }
}

/// One core's executor: its task table and wake-handle cache.
pub struct Executor {
    tasks: HashMap<u64, Task>,
    waker_cache: HashMap<u64, WakeHandle>,
}

impl Executor {
    /// The task table, as a map from id to task.
    pub closed spec fn tasks(&self) -> Map<u64, Task> {
        self.tasks@
    }

    /// The wake-handle cache, as a map from id to handle.
    pub closed spec fn wakers(&self) -> Map<u64, WakeHandle> {
        self.waker_cache@
    }

    /// Every table entry is keyed by its task's own id, every cached
    /// handle carries the id it is cached under, and handles are cached
    /// only for live tasks.
    pub open spec fn wf(&self) -> bool {
        &&& forall|id: u64|
            self.tasks().dom().contains(id) ==> (#[trigger] self.tasks()[id]).id().0 == id
        &&& forall|id: u64|
            self.wakers().dom().contains(id) ==> (#[trigger] self.wakers()[id]).task_id == id
        &&& self.wakers().dom().subset_of(self.tasks().dom())
    }

    /// An executor with no tasks.
    pub fn new() -> (e: Executor)
        ensures
            e.wf(),
            e.tasks() == Map::<u64, Task>::empty(),
            e.wakers() == Map::<u64, WakeHandle>::empty(),
    {
        Executor { tasks: HashMap::new(), waker_cache: HashMap::new() }
    }

    /// How many tasks are live.
    pub fn task_count(&self) -> (n: usize)
        ensures
            n == self.tasks().dom().len(),
    {
        self.tasks.len()
    }

    /// Whether the task with this id is still live.
    pub fn has_task(&self, id: u64) -> (r: bool)
        ensures
            r <==> self.tasks().dom().contains(id),
    {
        self.tasks.contains_key(&id)
    }

    /// Whether a wake handle is cached for this id.
    pub fn has_waker(&self, id: u64) -> (r: bool)
        ensures
            r <==> self.wakers().dom().contains(id),
    {
        self.waker_cache.contains_key(&id)
    }

    /// Spawn: insert the task into the table under its id and enqueue the
    /// id on this core's run queue. A duplicate id would mean the globally
    /// unique id generation was violated; that input is excluded outright.
    pub fn spawn(&mut self, task: Task, queue: &mut WorkQueue)
        requires
            old(self).wf(),
            !old(self).tasks().dom().contains(task.id().0),
        ensures
            final(self).wf(),
            final(self).tasks() == old(self).tasks().insert(task.id().0, task),
            final(self).wakers() == old(self).wakers(),
            final(queue)@ == old(queue)@.push(task.id().0),
    {
        let id = task.get_id();
        self.tasks.insert(id.0, task);
        queue.push(id.0);
    }

    /// Process one dequeued id: look the task up — a missing task means a
    /// stale duplicate wake for work that already completed, and is
    /// ignored — cache its wake handle, and poll it. A task that reports
    /// ready is removed from the table and the cache, there and then,
    /// exactly once; polled again it cannot be, since lookups of its id
    /// now fall into the stale case. A task that reports pending consumed
    /// one of its pending polls, wakes itself, and goes to the back of the
    /// queue.
    pub fn run_task(&mut self, id: u64, queue: &mut WorkQueue)
        requires
            old(self).wf(),
        ensures
            final(self).wf(),
            !old(self).tasks().dom().contains(id) ==> {
                &&& *final(self) == *old(self)
                &&& *final(queue) == *old(queue)
            },
            old(self).tasks().dom().contains(id) && old(self).tasks()[id].pending_polls() == 0
                ==> {
                &&& final(self).tasks() == old(self).tasks().remove(id)
                &&& final(self).wakers() == old(self).wakers().remove(id)
                &&& *final(queue) == *old(queue)
            },
            old(self).tasks().dom().contains(id) && old(self).tasks()[id].pending_polls() > 0
                ==> {
                &&& final(self).tasks() == old(self).tasks().insert(
                    id,
                    old(self).tasks()[id].after_pending_poll(),
                )
                &&& final(self).tasks().dom() == old(self).tasks().dom()
                &&& final(self).tasks()[id].id() == old(self).tasks()[id].id()
                &&& final(self).tasks()[id].pending_polls() == old(self).tasks()[id].pending_polls()
                    - 1
                &&& forall|x: u64|
                    old(self).tasks().dom().contains(x) && x != id
                        ==> #[trigger] final(self).tasks()[x] == old(self).tasks()[x]
                &&& final(self).wakers() == old(self).wakers().insert(id, WakeHandle { task_id: id })
                &&& final(queue)@ == old(queue)@.push(id)
            },
    {
        if !self.tasks.contains_key(&id) {
            return;
        }
        let mut task = self.tasks.remove(&id).unwrap();
        let waker = WakeHandle::new_waker(id);
        match task.poll() {
            Poll::Ready(_) => {
                self.waker_cache.remove(&id);
            },
            Poll::Pending => {
                self.tasks.insert(id, task);
                self.waker_cache.insert(id, waker);
                waker.wake_task(queue);
                proof {
                    assert(self.tasks() =~= old(self).tasks().insert(
                        id,
                        old(self).tasks()[id].after_pending_poll(),
                    ));
                    assert(self.tasks().dom() =~= old(self).tasks().dom());
                }
            },
        }
    }

    /// One drain pass: pop and process, in FIFO order, exactly as many ids
    /// as the queue holds on entry — the fold of the per-id step of
    /// `run_task` over that prefix, as `drain_spec` states it. An id that a
    /// pending task re-enqueues during the pass therefore waits for the
    /// next pass; the run loop re-enters the drain immediately, so every
    /// re-woken task is still re-polled before the core can halt.
    pub fn run_ready_tasks(&mut self, queue: &mut WorkQueue)
        requires
            old(self).wf(),
        ensures
            final(self).wf(),
            ({
                let end = drain_spec(
                    old(self).tasks(),
                    old(self).wakers(),
                    old(queue)@,
                    old(queue)@.len(),
                );
                &&& final(self).tasks() == end.0
                &&& final(self).wakers() == end.1
                &&& final(queue)@ == end.2
            }),
            final(self).tasks().dom().subset_of(old(self).tasks().dom()),
            final(queue)@.len() <= old(queue)@.len(),
    {
        let n = queue.len();
        let mut i: usize = 0;
        while i < n
            invariant
                self.wf(),
                i <= n,
                n == old(queue)@.len(),
                n - i <= queue@.len() <= old(queue)@.len(),
                self.tasks().dom().subset_of(old(self).tasks().dom()),
                (self.tasks(), self.wakers(), queue@) == drain_spec(
                    old(self).tasks(),
                    old(self).wakers(),
                    old(queue)@,
                    i as nat,
                ),
            decreases n - i,
        {
            let ghost pre_tasks = self.tasks();
            let ghost pre_wakers = self.wakers();
            let ghost pre_queue = queue@;
            let id = queue.pop().unwrap();
            self.run_task(id, queue);
            proof {
                assert((self.tasks(), self.wakers(), queue@) == drain_one(
                    pre_tasks,
                    pre_wakers,
                    pre_queue,
                ));
                lemma_drain_unfold_last(
                    old(self).tasks(),
                    old(self).wakers(),
                    old(queue)@,
                    i as nat,
                );
            }
            i = i + 1;
        }
    }
}

/// The per-id step of the drain, at the specification level, mirroring the
/// three cases of `run_task`: a stale id changes nothing; a task out of
/// pending polls is removed from table and cache; a pending task loses one
/// pending poll, has its wake handle cached, and its id re-enqueued.
pub open spec fn run_task_spec(
    tasks: Map<u64, Task>,
    wakers: Map<u64, WakeHandle>,
    queue: Seq<u64>,
    id: u64,
) -> (Map<u64, Task>, Map<u64, WakeHandle>, Seq<u64>) {
    if !tasks.dom().contains(id) {
        (tasks, wakers, queue)
    } else if tasks[id].pending_polls() == 0 {
        (tasks.remove(id), wakers.remove(id), queue)
    } else {
        (
            tasks.insert(id, tasks[id].after_pending_poll()),
            wakers.insert(id, WakeHandle { task_id: id }),
            queue.push(id),
        )
    }
}

/// One pop of the drain: take the front id, if any, and apply the per-id
/// step to it.
pub open spec fn drain_one(
    tasks: Map<u64, Task>,
    wakers: Map<u64, WakeHandle>,
    queue: Seq<u64>,
) -> (Map<u64, Task>, Map<u64, WakeHandle>, Seq<u64>) {
    if queue.len() == 0 {
        (tasks, wakers, queue)
    } else {
        run_task_spec(tasks, wakers, queue.drop_first(), queue[0])
    }
}

/// The drain of `n` pops: `drain_one`, iterated.
pub open spec fn drain_spec(
    tasks: Map<u64, Task>,
    wakers: Map<u64, WakeHandle>,
    queue: Seq<u64>,
    n: nat,
) -> (Map<u64, Task>, Map<u64, WakeHandle>, Seq<u64>)
    decreases n,
{
    if n == 0 {
        (tasks, wakers, queue)
    } else {
        let mid = drain_one(tasks, wakers, queue);
        drain_spec(mid.0, mid.1, mid.2, (n - 1) as nat)
    }
}

/// Peeling the last pop off a drain: `n + 1` pops are `n` pops followed by
/// one more.
pub proof fn lemma_drain_unfold_last(
    tasks: Map<u64, Task>,
    wakers: Map<u64, WakeHandle>,
    queue: Seq<u64>,
    n: nat,
)
    ensures
        drain_spec(tasks, wakers, queue, n + 1) == ({
            let mid = drain_spec(tasks, wakers, queue, n);
            drain_one(mid.0, mid.1, mid.2)
        }),
    decreases n,
{
    let mid = drain_one(tasks, wakers, queue);
    if n == 0 {
        assert(drain_spec(tasks, wakers, queue, 1) == drain_spec(mid.0, mid.1, mid.2, 0));
        assert(drain_spec(mid.0, mid.1, mid.2, 0) == (mid.0, mid.1, mid.2));
        assert((mid.0, mid.1, mid.2) == mid);
    } else {
        lemma_drain_unfold_last(mid.0, mid.1, mid.2, (n - 1) as nat);
        assert(drain_spec(tasks, wakers, queue, n + 1) == drain_spec(mid.0, mid.1, mid.2, n));
        assert(drain_spec(tasks, wakers, queue, n) == drain_spec(
            mid.0,
            mid.1,
            mid.2,
            (n - 1) as nat,
        ));
    }
}

impl Default for Executor {
    /// Same as `new`: an executor with no tasks.
    fn default() -> (e: Executor)
        ensures
            e.wf(),
            e.tasks() == Map::<u64, Task>::empty(),
            e.wakers() == Map::<u64, WakeHandle>::empty(),
    {
        Executor::new()
    }
}

/// The idle gate. When the local queue has run dry, try to steal a batch
/// from each peer in turn, re-issuing any attempt that reports contention
/// and stopping at the first peer that yields work. Then disable
/// interrupts, re-check local emptiness — closing the lost-wakeup race
/// between the last poll and halting — and only if still empty, re-enable
/// interrupts and halt in one indivisible step, so a wake slipping in
/// after the re-check at worst defers to the next interrupt, which ends
/// the halt. Whatever happens, interrupts are enabled again on return.
pub fn sleep_if_idle(ctl: &mut CoreControl, local: &mut WorkQueue, peers: &mut Vec<WorkQueue>) -> (halted:
    bool)
    requires
        !old(ctl).halted,
    ensures
        final(ctl).interrupts_enabled,
        final(ctl).halted == halted,
        old(local)@.len() == 0 ==> final(peers)@.len() == old(peers)@.len(),
        old(local)@.len() > 0 ==> {
            &&& !halted
            &&& *final(local) == *old(local)
            &&& final(peers)@ == old(peers)@
        },
        old(local)@.len() == 0 && (forall|i: int|
            0 <= i < old(peers)@.len() ==> (#[trigger] old(peers)@[i]@).len() == 0) ==> {
            &&& halted
            &&& *final(local) == *old(local)
            &&& final(peers)@ == old(peers)@
        },
        old(local)@.len() == 0 && (exists|i: int|
            0 <= i < old(peers)@.len() && (#[trigger] old(peers)@[i]@).len() > 0) ==> {
            &&& !halted
            &&& exists|i: int|
                {
                    &&& 0 <= i < old(peers)@.len()
                    &&& (#[trigger] old(peers)@[i]@).len() > 0
                    &&& forall|j: int| 0 <= j < i ==> old(peers)@[j]@.len() == 0
                    &&& final(local)@ == old(peers)@[i]@.take(
                        crate::queue::steal_count(old(peers)@[i]@.len()) as int,
                    )
                    &&& final(peers)@[i]@ == old(peers)@[i]@.skip(
                        crate::queue::steal_count(old(peers)@[i]@.len()) as int,
                    )
                    &&& forall|j: int|
                        0 <= j < old(peers)@.len() && j != i ==> #[trigger] final(peers)@[j]
                            == old(peers)@[j]
                }
        },
{
    if local.is_empty() {
        let n = peers.len();
        let mut i: usize = 0;
        let mut stolen = false;
        let ghost mut widx: int = 0;
        while i < n && !stolen
            invariant
                n == peers@.len(),
                i <= n,
                old(local)@.len() == 0,
                !ctl.halted,
                *ctl == *old(ctl),
                peers@.len() == old(peers)@.len(),
                !stolen ==> {
                    &&& *local == *old(local)
                    &&& peers@ == old(peers)@
                    &&& forall|j: int| 0 <= j < i ==> old(peers)@[j]@.len() == 0
                },
                stolen ==> {
                    &&& 0 <= widx < old(peers)@.len()
                    &&& old(peers)@[widx]@.len() > 0
                    &&& forall|j: int| 0 <= j < widx ==> old(peers)@[j]@.len() == 0
                    &&& local@ == old(peers)@[widx]@.take(
                        crate::queue::steal_count(old(peers)@[widx]@.len()) as int,
                    )
                    &&& peers@[widx]@ == old(peers)@[widx]@.skip(
                        crate::queue::steal_count(old(peers)@[widx]@.len()) as int,
                    )
                    &&& forall|j: int|
                        0 <= j < old(peers)@.len() && j != widx ==> #[trigger] peers@[j]
                            == old(peers)@[j]
                },
            decreases n - i, (if stolen { 0int } else { 1int }),
        {
            let mut q = peers.remove(i);
            let ghost q0 = q;
            let mut res = q.steal_batch(local);
            while res.is_retry()
                invariant
                    !(res is Retry),
                    q0@.len() == 0 ==> *local == *old(local) && q == q0 && res
                        == Steal::<usize>::Empty,
                    q0@.len() > 0 ==> {
                        let c = crate::queue::steal_count(q0@.len());
                        &&& res == Steal::<usize>::Success(c as usize)
                        &&& q@ == q0@.skip(c as int)
                        &&& local@ == old(local)@ + q0@.take(c as int)
                    },
                decreases 0int,
            {
                res = q.steal_batch(local);
            }
            let success = res.is_success();
            peers.insert(i, q);
            if success {
                proof {
                    widx = i as int;
                    assert(q0@.len() > 0);
                    assert(old(peers)@[i as int]@.len() > 0);
                    assert(forall|j: int|
                        0 <= j < old(peers)@.len() && j != i ==> peers@[j] == old(peers)@[j]);
                    assert(local@ =~= old(peers)@[i as int]@.take(
                        crate::queue::steal_count(old(peers)@[i as int]@.len()) as int,
                    ));
                }
                stolen = true;
            } else {
                proof {
                    assert(peers@ =~= old(peers)@);
                }
                i = i + 1;
            }
        }
    }
    ctl.disable_interrupts();
    if local.is_empty() {
        ctl.enable_and_hlt();
        true
    } else {
        ctl.enable_interrupts();
        false
    }
}

} // verus!
