//! Epoch-based garbage collection for the lock-free queues, through
//! crossbeam's collector. One collector serves the whole system; each core
//! registers a participant handle of its own, pins it around queue
//! operations, and the epoch machinery reclaims retired memory once no
//! pinned participant can still see it. All of that machinery lives in the
//! outside crate; this module only declares it and passes values through,
//! promising nothing of states the verifier cannot see.

use crossbeam_epoch::{Collector, Guard, LocalHandle};
use vstd::prelude::*;

verus! {

/// An epoch-based garbage collector of the outside crate; opaque here.
#[verifier::external_type_specification]
#[verifier::external_body]
pub struct ExCollector(Collector);

/// One participant's handle on a collector; opaque here.
#[verifier::external_type_specification]
#[verifier::external_body]
pub struct ExLocalHandle(LocalHandle);

/// A pin witness: while it lives, the participant is pinned and memory it
/// can reach stays unreclaimed; opaque here.
#[verifier::external_type_specification]
#[verifier::external_body]
pub struct ExGuard(Guard);

/// Relies on crossbeam_epoch::Collector::new: creates a fresh collector.
pub assume_specification[ Collector::new ]() -> (c: Collector);

/// Relies on crossbeam_epoch::Collector::register: adds a participant and
/// returns its handle.
pub assume_specification[ Collector::register ](c: &Collector) -> (h: LocalHandle);

/// Relies on crossbeam_epoch::LocalHandle::pin: pins the participant for
/// the life of the returned guard.
pub assume_specification[ LocalHandle::pin ](h: &LocalHandle) -> (g: Guard);

/// Relies on crossbeam_epoch::LocalHandle::is_pinned: reports whether the
/// participant is currently pinned; the answer depends on guard lifetimes
/// the verifier cannot see, so nothing is promised of it.
pub assume_specification[ LocalHandle::is_pinned ](h: &LocalHandle) -> (b: bool);

/// Pin the calling core's participant: memory it can reach stays alive
/// until the returned guard is dropped.
pub fn pin(handle: &LocalHandle) -> Guard {
    handle.pin()
}

/// Whether the calling core's participant is currently pinned.
pub fn is_pinned(handle: &LocalHandle) -> bool {
    handle.is_pinned()
}

} // verus!
