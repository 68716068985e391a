//! Concurrency and timing substrate of a cooperative multiprocessor kernel.
//!
//! Each physical core owns a private state block: a tick counter fed by a
//! periodic timer interrupt, a FIFO run queue that idle peers may steal work
//! from, a table of cooperative tasks and a cache of their wake handles.
//! The crate verifies the bookkeeping of this substrate: the work queue and
//! batch stealing, the executor's task lifecycle, an asynchronous mutex, the
//! per-core registry, the timer-calibration protocol and its delay
//! arithmetic, and the register programming planned for the interrupt
//! controllers and the multiprocessor bring-up.
//!
//! The hardware itself (memory-mapped registers, port accesses, the halt
//! instruction) sits outside what the verifier can observe. Every routine
//! that in a running kernel alternates hardware accesses with decisions is
//! split here into its decision part, a verified state machine or plan whose
//! contracts pin down exactly which register operations are emitted, and a
//! thin unverified driver that replays those operations on the machine.

pub mod apic;
pub mod cores;
pub mod executor;
pub mod gc;
pub mod interrupts;
pub mod lock;
pub mod machine;
pub mod mapper;
pub mod queue;
pub mod smp;
pub mod task;
pub mod time;
