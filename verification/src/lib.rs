//! Waitable synchronization objects — manual- and auto-reset events and
//! counting semaphores — with verified state-machine semantics, plus
//! combinators that wait on one, several, or all objects of a mixed set.
//!
//! The primitives here are in-process values with single-owner semantics:
//! every transition (`set`, `reset`, `increment`, the consumption performed
//! by a successful wait) is an exact, proved state change, and a wait is the
//! poll step of the state machine — it reports `Signaled` and consumes the
//! signal when the condition holds at the call, and `Timeout` otherwise.
//! Genuine blocking belongs to a platform layer: pair a primitive with a lock
//! and a wakeup channel, and re-run the poll step after each signal until the
//! deadline passes.

pub mod event;
pub mod platform;
pub mod semaphore;
pub mod waitable;

pub use event::{Event, EventError};
pub use semaphore::{Semaphore, SemaphoreError};
pub use platform::{name_is_representable, timeout_millis, OsError};
pub use waitable::{
    max_num_waitables, wait_for_all, wait_for_one, AnyWaitable, WaitError, Waitable, WaitableExt,
    WaitableResult, WaitablesResult,
};
