//! Per-core work queue: an owner-exclusive FIFO of task identifiers that
//! remote cores may steal batches from.
//!
//! The owning core pushes newly spawned or re-woken task identifiers at the
//! back and pops from the front, so identifiers leave in the order they
//! entered. A steal transfers a contiguous prefix of the source queue to the
//! back of the destination queue; the total number of queued identifiers is
//! conserved. `Retry` reports transient contention on the lock-free queue of
//! a running kernel; this sequential model never produces it, but callers
//! still handle it, as the running system must.

use std::collections::VecDeque;
use vstd::prelude::*;

verus! {

/// Outcome of a steal attempt.
pub enum Steal<T> {
    /// The source queue was empty; nothing was transferred.
    Empty,
    /// A concurrent operation interfered; the caller must re-issue the call.
    Retry,
    /// The steal went through, carrying the count or item transferred.
    Success(T),
}

impl<T> Steal<T> {
    /// True exactly on `Retry`, the outcome that obliges the caller to call
    /// again.
    pub fn is_retry(&self) -> (r: bool)
        ensures
            r <==> (self is Retry),
    {
        match self {
            Steal::Retry => true,
            _ => false,
        }
    }

    /// True exactly on `Success`.
    pub fn is_success(&self) -> (r: bool)
        ensures
            r <==> (self is Success),
    {
        match self {
            Steal::Success(_) => true,
            _ => false,
        }
    }

    /// The transferred value, if the steal went through.
    pub fn success(self) -> (r: Option<T>)
        ensures
            match r {
                Some(v) => self == Steal::Success(v),
                None => !(self is Success),
            },
    {
        match self {
            Steal::Success(v) => Some(v),
            _ => None,
        }
    }
}

/// Owner-exclusive FIFO of task identifiers.
pub struct WorkQueue {
    items: VecDeque<u64>,
}

impl View for WorkQueue {
    type V = Seq<u64>;

    closed spec fn view(&self) -> Seq<u64> {
        self.items@
    }
}

/// Number of identifiers a steal takes from a queue currently holding `len`:
/// half of them, rounded up, so a single steal leaves the owner at least as
/// much as it gives away, minus one.
pub open spec fn steal_count(len: nat) -> nat {
    ((len + 1) / 2) as nat
}

impl WorkQueue {
    /// An empty queue.
    pub fn new() -> (q: WorkQueue)
        ensures
            q@ == Seq::<u64>::empty(),
    {
        WorkQueue { items: VecDeque::new() }
    }

    /// How many identifiers are queued.
    pub fn len(&self) -> (n: usize)
        ensures
            n == self@.len(),
    {
        self.items.len()
    }

    /// True when nothing is queued.
    pub fn is_empty(&self) -> (r: bool)
        ensures
            r <==> self@.len() == 0,
    {
        self.items.len() == 0
    }

    /// Owner-only: enqueue an identifier at the back.
    pub fn push(&mut self, id: u64)
        ensures
            final(self)@ == old(self)@.push(id),
    {
        self.items.push_back(id);
    }

    /// Owner-only: dequeue the oldest identifier, FIFO relative to the
    /// owner's pushes.
    pub fn pop(&mut self) -> (r: Option<u64>)
        ensures
            match r {
                Some(id) => {
                    &&& old(self)@.len() > 0
                    &&& id == old(self)@[0]
                    &&& final(self)@ == old(self)@.drop_first()
                },
                None => {
                    &&& old(self)@.len() == 0
                    &&& final(self)@ == old(self)@
                },
            },
    {
        self.items.pop_front()
    }

    /// Steal a batch from this queue into `dest`: a contiguous prefix of
    /// half the source, rounded up, moves to the back of `dest`. The count
    /// transferred never exceeds what the source held, the source keeps
    /// exactly the rest, and the destination gains exactly what the source
    /// lost.
    pub fn steal_batch(&mut self, dest: &mut WorkQueue) -> (r: Steal<usize>)
        ensures
            old(self)@.len() == 0 ==> {
                &&& r == Steal::<usize>::Empty
                &&& *final(self) == *old(self)
                &&& *final(dest) == *old(dest)
            },
            old(self)@.len() > 0 ==> {
                let c = steal_count(old(self)@.len());
                &&& r == Steal::<usize>::Success(c as usize)
                &&& c <= old(self)@.len()
                &&& final(self)@ == old(self)@.skip(c as int)
                &&& final(dest)@ == old(dest)@ + old(self)@.take(c as int)
            },
    {
        let m = self.items.len();
        if m == 0 {
            return Steal::Empty;
        }
        let count = m / 2 + m % 2;
        let mut moved: usize = 0;
        while moved < count
            invariant
                moved <= count,
                count == steal_count(old(self)@.len()),
                count <= old(self)@.len(),
                self@ == old(self)@.skip(moved as int),
                dest@ == old(dest)@ + old(self)@.take(moved as int),
            decreases count - moved,
        {
            let id = self.items.pop_front().unwrap();
            dest.items.push_back(id);
            proof {
                assert(old(self)@.take(moved + 1) =~= old(self)@.take(moved as int).push(
                    old(self)@[moved as int],
                ));
            }
            moved = moved + 1;
        }
        Steal::Success(count)
    }

    /// Steal a single identifier: the front of this queue, if any.
    pub fn steal(&mut self) -> (r: Steal<u64>)
        ensures
            old(self)@.len() == 0 ==> {
                &&& r == Steal::<u64>::Empty
                &&& *final(self) == *old(self)
            },
            old(self)@.len() > 0 ==> {
                &&& r == Steal::<u64>::Success(old(self)@[0])
                &&& final(self)@ == old(self)@.drop_first()
            },
    {
        if self.items.len() == 0 {
            return Steal::Empty;
        }
        match self.items.pop_front() {
            Some(id) => Steal::Success(id),
            None => Steal::Empty,
        }
    }

    /// Steal a batch into `dest` and immediately dequeue one identifier from
    /// `dest` for the caller to run.
    pub fn steal_batch_and_pop(&mut self, dest: &mut WorkQueue) -> (r: Steal<u64>)
        ensures
            old(self)@.len() == 0 ==> {
                &&& r == Steal::<u64>::Empty
                &&& *final(self) == *old(self)
                &&& *final(dest) == *old(dest)
            },
            old(self)@.len() > 0 && old(dest)@.len() == 0 ==> {
                let c = steal_count(old(self)@.len());
                &&& r == Steal::<u64>::Success(old(self)@[0])
                &&& final(self)@ == old(self)@.skip(c as int)
                &&& final(dest)@ == old(self)@.take(c as int).drop_first()
            },
            old(self)@.len() > 0 && old(dest)@.len() > 0 ==> {
                let c = steal_count(old(self)@.len());
                &&& r == Steal::<u64>::Success(old(dest)@[0])
                &&& final(self)@ == old(self)@.skip(c as int)
                &&& final(dest)@ == (old(dest)@ + old(self)@.take(c as int)).drop_first()
            },
    {
        let stolen = self.steal_batch(dest);
        match stolen {
            Steal::Empty => Steal::Empty,
            Steal::Retry => Steal::Retry,
            Steal::Success(_) => {
                proof {
                    assert(old(dest)@.len() == 0 ==> (old(dest)@ + old(self)@.take(
                        steal_count(old(self)@.len()) as int,
                    ))[0] == old(self)@[0]);
                }
                match dest.pop() {
                    Some(id) => Steal::Success(id),
                    None => Steal::Empty,
                }
            },
        }
    }
}

/// Law: a successful steal conserves items. From a source holding `m > 0`
/// identifiers the transferred count is `c = steal_count(m) <= m`, at
/// least one; afterwards the source holds exactly `m - c`, the destination
/// gained exactly `c`, and the total across both queues is unchanged.
pub proof fn lemma_steal_conservation(src: Seq<u64>, dst: Seq<u64>)
    requires
        src.len() > 0,
    ensures
        ({
            let c = steal_count(src.len());
            &&& 1 <= c <= src.len()
            &&& src.skip(c as int).len() == src.len() - c
            &&& (dst + src.take(c as int)).len() == dst.len() + c
            &&& src.skip(c as int).len() + (dst + src.take(c as int)).len() == src.len()
                + dst.len()
        }),
{
}

} // verus!
