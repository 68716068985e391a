//! Asynchronous mutual exclusion: a locked flag, the protected value, and
//! at most one remembered waiter.
//!
//! Acquisition hands the protected value out inside a guard; release puts
//! it back, clears the flag and reports the remembered waiter so the caller
//! can re-enqueue it. Because the value itself moves into the guard, at
//! most one guard can be live at a time. Only the most recent waiter is
//! remembered: a second waiter arriving before the first is woken
//! overwrites the registration, and the overwritten waiter stays suspended
//! until some other stimulus probes the lock again. That single-slot
//! behaviour is deliberate and carried as is.

use crate::task::Poll;
use vstd::prelude::*;

verus! {

/// Exclusive access to the value of a `Mutex`, alive until given back with
/// `unlock`.
pub struct MutexGuard<T> {
    value: T,
}

impl<T> MutexGuard<T> {
    /// The protected value held by this guard.
    pub closed spec fn value_spec(&self) -> T {
        self.value
    }

    /// Read access to the protected value.
    pub fn borrow(&self) -> (r: &T)
        ensures
            *r == self.value_spec(),
    {
        &self.value
    }

    /// Replace the protected value, returning the previous one.
    pub fn replace(&mut self, value: T) -> (prev: T)
        ensures
            prev == old(self).value_spec(),
            final(self).value_spec() == value,
    {
        let mut value = value;
        core::mem::swap(&mut self.value, &mut value);
        value
    }
}

/// A CAS-based asynchronous mutex: a locked flag, the protected value while
/// no guard is out, and the wake handle of at most one suspended waiter,
/// identified by its task id.
pub struct Mutex<T> {
    locked: bool,
    value: Option<T>,
    waiter: Option<u64>,
}

impl<T> Mutex<T> {
    /// Whether a guard is currently out.
    pub closed spec fn locked_spec(&self) -> bool {
        self.locked
    }

    /// The protected value, present exactly while no guard is out.
    pub closed spec fn value_spec(&self) -> Option<T> {
        self.value
    }

    /// The remembered waiter, if any.
    pub closed spec fn waiter_spec(&self) -> Option<u64> {
        self.waiter
    }

    /// The locked flag is set exactly while the value is out in a guard.
    pub open spec fn wf(&self) -> bool {
        self.locked_spec() <==> self.value_spec() is None
    }

    /// An unlocked mutex protecting `value`, with no waiter remembered.
    pub fn new(value: T) -> (m: Mutex<T>)
        ensures
            m.wf(),
            !m.locked_spec(),
            m.value_spec() == Some(value),
            m.waiter_spec() == Option::<u64>::None,
    {
        Mutex { locked: false, value: Some(value), waiter: None }
    }

    /// Whether a guard is currently out.
    pub fn is_locked(&self) -> (r: bool)
        ensures
            r == self.locked_spec(),
    {
        self.locked
    }

    /// Non-blocking acquisition: succeeds exactly when the flag moves from
    /// unlocked to locked, and then carries the value out in the guard.
    /// While a guard is out, every further attempt returns `None`.
    pub fn try_lock(&mut self) -> (r: Option<MutexGuard<T>>)
        requires
            old(self).wf(),
        ensures
            final(self).wf(),
            final(self).waiter_spec() == old(self).waiter_spec(),
            old(self).locked_spec() ==> {
                &&& r is None
                &&& *final(self) == *old(self)
            },
            !old(self).locked_spec() ==> {
                &&& final(self).locked_spec()
                &&& final(self).value_spec() is None
                &&& match r {
                    Some(g) => Some(g.value_spec()) == old(self).value_spec(),
                    None => false,
                }
            },
    {
        match check(&mut self.locked) {
            Ok(_) => {
                let value = self.value.take().unwrap();
                Some(MutexGuard { value })
            },
            Err(_) => None,
        }
    }

    /// One poll of a suspending acquisition by the task `waker`. The fast
    /// path takes the lock without registering. On contention the waker is
    /// remembered — overwriting any earlier registration — and the flag is
    /// probed once more, closing the race in which the lock was released
    /// between the first probe and the registration; in this sequential
    /// model that second probe never succeeds, and the attempt suspends.
    pub fn lock(&mut self, waker: u64) -> (r: Poll<MutexGuard<T>>)
        requires
            old(self).wf(),
        ensures
            final(self).wf(),
            !old(self).locked_spec() ==> {
                &&& final(self).locked_spec()
                &&& final(self).waiter_spec() == old(self).waiter_spec()
                &&& match r {
                    Poll::Ready(g) => Some(g.value_spec()) == old(self).value_spec(),
                    Poll::Pending => false,
                }
            },
            old(self).locked_spec() ==> {
                &&& r is Pending
                &&& final(self).locked_spec()
                &&& final(self).value_spec() == old(self).value_spec()
                &&& final(self).waiter_spec() == Some(waker)
            },
    {
        if check(&mut self.locked).is_ok() {
            let value = self.value.take().unwrap();
            return Poll::Ready(MutexGuard { value });
        }
        self.waiter = Some(waker);
        if check(&mut self.locked).is_ok() {
            let value = self.value.take().unwrap();
            return Poll::Ready(MutexGuard { value });
        }
        Poll::Pending
    }

    /// Busy-wait acquisition for contexts with no scheduler to suspend
    /// into: very early boot, or code that must not yield. In a running
    /// kernel this spins on the flag; a spin can only terminate from a
    /// state in which the flag is clear, which the caller must guarantee,
    /// so here that state is required outright.
    pub fn lock_or_spin(&mut self) -> (g: MutexGuard<T>)
        requires
            old(self).wf(),
            !old(self).locked_spec(),
        ensures
            final(self).wf(),
            final(self).locked_spec(),
            final(self).waiter_spec() == old(self).waiter_spec(),
            Some(g.value_spec()) == old(self).value_spec(),
    {
        let value = self.value.take().unwrap();
        self.locked = true;
        MutexGuard { value }
    }

    /// Release: put the value back, clear the flag unconditionally, and
    /// hand out the remembered waiter — exactly once — so the caller can
    /// re-enqueue it. Models the guard going out of scope on every exit
    /// path.
    pub fn unlock(&mut self, guard: MutexGuard<T>) -> (woken: Option<u64>)
        requires
            old(self).wf(),
            old(self).locked_spec(),
        ensures
            final(self).wf(),
            !final(self).locked_spec(),
            final(self).value_spec() == Some(guard.value_spec()),
            final(self).waiter_spec() == Option::<u64>::None,
            woken == old(self).waiter_spec(),
    {
        self.value = Some(guard.value);
        self.locked = false;
        self.waiter.take()
    }
}

/// One compare-and-swap on the locked flag, with the result shape of a
/// hardware compare-exchange: `Ok` carries the previous value on the
/// successful false-to-true transition, `Err` the current value on failure.
pub fn check(locked: &mut bool) -> (r: Result<bool, bool>)
    ensures
        !*old(locked) ==> r == Result::<bool, bool>::Ok(false) && *final(locked),
        *old(locked) ==> r == Result::<bool, bool>::Err(true) && *final(locked),
{
    if !*locked {
        *locked = true;
        Ok(false)
    } else {
        Err(true)
    }
}

/// Law: guards are exclusive. While the locked flag is set — that is,
/// while a guard is live — the protected value is out of the mutex, so no
/// second guard can be produced until the first is given back; conversely,
/// an unlocked mutex always holds its value, ready for the next
/// acquisition.
pub proof fn lemma_mutex_exclusion<T>(m: &Mutex<T>)
    requires
        m.wf(),
    ensures
        m.locked_spec() <==> m.value_spec() is None,
        !m.locked_spec() <==> m.value_spec() is Some,
{
}

} // verus!
