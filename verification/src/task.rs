//! Cooperative tasks: identifiers, the poll-based task model, and the
//! work-finding routine that drains the local queue before stealing.
//!
//! A task couples a globally unique, monotonically increasing identifier
//! with a cooperative computation. The computation is represented here as a
//! poll-state machine: a count of polls that still report `Pending` before
//! the task resolves, each pending poll re-waking the task, as a chain of
//! yields does. A running kernel boxes an arbitrary suspended computation
//! instead; its scheduler-visible behaviour is exactly this machine.

use crate::queue::{Steal, WorkQueue};
use vstd::prelude::*;

verus! {

/// Result of polling a computation: either it resolved, or it suspended and
/// will be re-enqueued by a wake.
pub enum Poll<T> {
    Ready(T),
    Pending,
}

/// Unique identifier of a spawned task.
#[derive(Clone, Copy, Debug, Hash, PartialEq, Eq, PartialOrd, Ord, Structural)]
pub struct TaskId(pub u64);

/// Source of task identifiers: hands out strictly increasing numbers, one
/// per spawn, so identifiers are unique across every core for the life of
/// the system.
pub struct TaskIdAllocator {
    next: u64,
    issued: Ghost<Seq<u64>>,
}

impl TaskIdAllocator {
    /// Every identifier handed out so far, oldest first.
    pub closed spec fn issued(&self) -> Seq<u64> {
        self.issued@
    }

    /// The number the next call of `fresh` returns.
    pub closed spec fn next_id(&self) -> u64 {
        self.next
    }

    /// Issued identifiers are strictly increasing and all below `next_id`.
    pub open spec fn wf(&self) -> bool {
        &&& forall|i: int, j: int|
            0 <= i < j < self.issued().len() ==> self.issued()[i] < self.issued()[j]
        &&& forall|i: int| 0 <= i < self.issued().len() ==> self.issued()[i] < self.next_id()
    }

    /// A fresh allocator that has issued nothing.
    pub fn new() -> (a: TaskIdAllocator)
        ensures
            a.wf(),
            a.issued() == Seq::<u64>::empty(),
            a.next_id() == 0,
    {
        TaskIdAllocator { next: 0, issued: Ghost(Seq::empty()) }
    }

    /// Hand out the next identifier, strictly above everything issued
    /// before.
    pub fn fresh(&mut self) -> (id: TaskId)
        requires
            old(self).wf(),
            old(self).next_id() < u64::MAX,
        ensures
            final(self).wf(),
            id.0 == old(self).next_id(),
            final(self).next_id() == old(self).next_id() + 1,
            final(self).issued() == old(self).issued().push(id.0),
            forall|i: int| 0 <= i < old(self).issued().len() ==> old(self).issued()[i] < id.0,
    {
        let id = self.next;
        self.next = self.next + 1;
        self.issued = Ghost(self.issued@.push(id));
        TaskId(id)
    }
}

/// Law: a run of spawns yields pairwise-distinct, strictly increasing task
/// identifiers — the identifiers issued by one allocator, in order of
/// issue, always form a strictly increasing and therefore duplicate-free
/// sequence.
pub proof fn lemma_task_ids_unique_and_monotonic(a: &TaskIdAllocator)
    requires
        a.wf(),
    ensures
        forall|i: int, j: int| 0 <= i < j < a.issued().len() ==> a.issued()[i] < a.issued()[j],
        forall|i: int, j: int|
            0 <= i < a.issued().len() && 0 <= j < a.issued().len() && i != j ==> a.issued()[i]
                != a.issued()[j],
{
    assert forall|i: int, j: int|
        0 <= i < a.issued().len() && 0 <= j < a.issued().len() && i != j implies a.issued()[i]
        != a.issued()[j] by {
        if i < j {
            assert(a.issued()[i] < a.issued()[j]);
        } else {
            assert(a.issued()[j] < a.issued()[i]);
        }
    }
}

/// A spawned task: its identifier plus its computation, modelled as the
/// number of polls that still report `Pending` before the task resolves.
/// A task built with `pending_polls == k - 1` resolves on its `k`-th poll.
pub struct Task {
    id: TaskId,
    pending: u64,
}

impl Task {
    /// The task's identifier.
    pub closed spec fn id(&self) -> TaskId {
        self.id
    }

    /// How many further polls report `Pending` before the task resolves.
    pub closed spec fn pending_polls(&self) -> u64 {
        self.pending
    }

    /// Build a task from its identifier and its computation.
    pub fn new(id: TaskId, pending_polls: u64) -> (t: Task)
        ensures
            t.id() == id,
            t.pending_polls() == pending_polls,
    {
        Task { id, pending: pending_polls }
    }

    /// The identifier, for executable callers.
    pub fn get_id(&self) -> (id: TaskId)
        ensures
            id == self.id(),
    {
        self.id
    }

    /// How many further polls report `Pending`, for executable callers.
    pub fn remaining(&self) -> (r: u64)
        ensures
            r == self.pending_polls(),
    {
        self.pending
    }

    /// The same task after one pending poll was consumed: identifier kept,
    /// pending count one lower.
    pub closed spec fn after_pending_poll(self) -> Task {
        Task { id: self.id, pending: (self.pending - 1) as u64 }
    }

    /// Drive the computation one step. It resolves exactly when no pending
    /// polls remain; otherwise it consumes one pending poll and suspends,
    /// re-waking itself.
    pub fn poll(&mut self) -> (r: Poll<()>)
        ensures
            final(self).id() == old(self).id(),
            old(self).pending_polls() == 0 ==> r is Ready && *final(self) == *old(self),
            old(self).pending_polls() > 0 ==> r is Pending && *final(self) == old(
                self,
            ).after_pending_poll() && final(self).pending_polls() == old(self).pending_polls()
                - 1,
    {
        if self.pending == 0 {
            Poll::Ready(())
        } else {
            self.pending = self.pending - 1;
            Poll::Pending
        }
    }
}

/// What consuming a pending poll does to a task, for reasoning about
/// tasks reached through `after_pending_poll`: the identifier is kept and
/// the pending count drops by one.
pub broadcast proof fn lemma_after_pending_poll(t: Task)
    ensures
        (#[trigger] t.after_pending_poll()).id() == t.id(),
        t.pending_polls() > 0 ==> t.after_pending_poll().pending_polls() == t.pending_polls()
            - 1,
{
}

/// A computation that suspends once, waking itself, and resolves on its
/// second poll.
pub struct Yield {
    polled: bool,
}

impl Yield {
    /// Whether the one suspension already happened.
    pub closed spec fn polled(&self) -> bool {
        self.polled
    }

    /// Suspend on the first poll and wake immediately; resolve on the
    /// second.
    pub fn poll(&mut self) -> (r: Poll<()>)
        ensures
            old(self).polled() ==> r is Ready && final(self).polled(),
            !old(self).polled() ==> r is Pending && final(self).polled(),
    {
        if self.polled {
            Poll::Ready(())
        } else {
            self.polled = true;
            Poll::Pending
        }
    }
}

impl Default for Yield {
    /// A yield that has not been polled yet.
    fn default() -> (y: Yield)
        ensures
            !y.polled(),
    {
        Yield { polled: false }
    }
}

/// Pop a task identifier from the local queue; failing that, steal a batch
/// from the global injector and take its first element; failing that, take
/// one identifier from the first peer whose queue is not empty. Returns
/// `None` only when every queue in sight is empty, and then changes
/// nothing.
pub fn find_task(local: &mut WorkQueue, global: &mut WorkQueue, stealers: &mut Vec<WorkQueue>) -> (r:
    Option<u64>)
    ensures
        old(local)@.len() > 0 ==> {
            &&& r == Some(old(local)@[0])
            &&& final(local)@ == old(local)@.drop_first()
            &&& final(global)@ == old(global)@
            &&& final(stealers)@ == old(stealers)@
        },
        old(local)@.len() == 0 && old(global)@.len() > 0 ==> {
            let c = crate::queue::steal_count(old(global)@.len());
            &&& r == Some(old(global)@[0])
            &&& final(global)@ == old(global)@.skip(c as int)
            &&& final(local)@ == old(global)@.take(c as int).drop_first()
            &&& final(stealers)@ == old(stealers)@
        },
        old(local)@.len() == 0 && old(global)@.len() == 0 ==> {
            &&& final(local)@ == old(local)@
            &&& final(global)@ == old(global)@
            &&& final(stealers)@.len() == old(stealers)@.len()
            &&& match r {
                Some(id) => exists|i: int|
                    {
                        &&& 0 <= i < old(stealers)@.len()
                        &&& old(stealers)@[i]@.len() > 0
                        &&& forall|j: int| 0 <= j < i ==> old(stealers)@[j]@.len() == 0
                        &&& id == old(stealers)@[i]@[0]
                        &&& final(stealers)@[i]@ == old(stealers)@[i]@.drop_first()
                        &&& forall|j: int|
                            0 <= j < old(stealers)@.len() && j != i ==> final(stealers)@[j]@
                                == old(stealers)@[j]@
                    },
                None => {
                    &&& forall|j: int| 0 <= j < old(stealers)@.len() ==> old(stealers)@[j]@.len() == 0
                    &&& final(stealers)@ == old(stealers)@
                },
            }
        },
{
    if let Some(id) = local.pop() {
        return Some(id);
    }
    match global.steal_batch_and_pop(local) {
        Steal::Success(id) => {
            return Some(id);
        },
        _ => {},
    }
    let n = stealers.len();
    let mut i: usize = 0;
    while i < n
        invariant
            n == stealers@.len(),
            i <= n,
            old(local)@.len() == 0,
            old(global)@.len() == 0,
            local@ == old(local)@,
            global@ == old(global)@,
            stealers@ == old(stealers)@,
            forall|j: int| 0 <= j < i ==> stealers@[j]@.len() == 0,
        decreases n - i,
    {
        let mut q = stealers.remove(i);
        let got = q.steal();
        match got {
            Steal::Success(id) => {
                stealers.insert(i, q);
                proof {
                    assert(forall|j: int|
                        0 <= j < old(stealers)@.len() && j != i ==> stealers@[j]
                            == old(stealers)@[j]);
                    assert(stealers@[i as int]@ == old(stealers)@[i as int]@.drop_first());
                }
                return Some(id);
            },
            _ => {
                stealers.insert(i, q);
                proof {
                    assert(stealers@ =~= old(stealers)@);
                }
            },
        }
        i = i + 1;
    }
    None
}

} // verus!
