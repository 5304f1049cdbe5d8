//! The event primitive: a boolean signal with one of two reset disciplines,
//! fixed at construction. A manual-reset event stays signaled until it is
//! explicitly reset, however many waits it satisfies; an auto-reset event
//! returns to unsignaled as part of satisfying exactly one wait.

use vstd::prelude::*;

use crate::platform::{name_is_representable, name_valid, OsError};
use crate::waitable::{WaitError, Waitable, WaitableExt, WaitableResult};
use std::time::Duration;

verus! {

/// Failure of an event operation.
#[derive(Clone, Copy, PartialEq, Eq, Structural, Debug)]
pub enum EventError {
    /// The platform rejected the creation of the underlying object. Never
    /// produced by the in-process primitive; carried by platform layers.
    FailedToCreate(OsError),
    /// The requested name cannot be represented in the platform's native name
    /// encoding, for instance because it contains a terminator byte. Detected
    /// before any platform call would be made.
    InvalidName,
    /// The platform rejected a `set` call. Never produced by the in-process
    /// primitive.
    FailedToSet(OsError),
    /// The platform rejected a `reset` call. Never produced by the in-process
    /// primitive.
    FailedToReset(OsError),
    /// The wait itself failed at the platform level. Never produced by the
    /// in-process primitive.
    FailedToWait(OsError),
}

impl EventError {
    /// A short description of the failure.
    pub fn message(&self) -> (s: String)
        ensures
            (match self {
                EventError::FailedToCreate(_) => s@ == "failed to create the event"@,
                EventError::InvalidName => s@ == "invalid event name"@,
                EventError::FailedToSet(_) => s@ == "failed to set the event"@,
                EventError::FailedToReset(_) => s@ == "failed to reset the event"@,
                EventError::FailedToWait(_) => s@ == "failed to wait on the event"@,
            }),
    {
        match self {
            EventError::FailedToCreate(_) => "failed to create the event".to_owned(),
            EventError::InvalidName => "invalid event name".to_owned(),
            EventError::FailedToSet(_) => "failed to set the event".to_owned(),
            EventError::FailedToReset(_) => "failed to reset the event".to_owned(),
            EventError::FailedToWait(_) => "failed to wait on the event".to_owned(),
        }
    }
}

/// A waitable event.
///
/// Auto-reset: a successful wait consumes the signal, so one `set` satisfies
/// at most one wait, ever. Manual-reset: the signal persists across waits
/// until `reset` is called.
pub struct Event {
    manual: bool,
    signaled: bool,
}

impl Event {
    /// Whether this event was created with the manual-reset discipline.
    pub closed spec fn is_manual(&self) -> bool {
        self.manual
    }

    /// Creates a new auto-reset event.
    ///
    /// `set` gives the initial state of the event. `name` would let a platform
    /// layer attach to an already existing object; here it is only validated,
    /// and an absent or empty name means "unnamed".
    ///
    /// Fails with `InvalidName` exactly when the name cannot be represented in
    /// the platform's native name encoding; creation itself cannot fail.
    pub fn new_auto(set: bool, name: Option<&str>) -> (r: Result<Event, EventError>)
        ensures
            name_valid(name) ==> (r matches Ok(e) && !e.is_manual() && e.signaled() == set),
            !name_valid(name) ==> r == Err::<Event, EventError>(EventError::InvalidName),
    {
        Event::new(false, set, name)
    }

    /// Creates a new manual-reset event.
    ///
    /// `set` gives the initial state of the event. `name` would let a platform
    /// layer attach to an already existing object; here it is only validated,
    /// and an absent or empty name means "unnamed".
    ///
    /// Fails with `InvalidName` exactly when the name cannot be represented in
    /// the platform's native name encoding; creation itself cannot fail.
    pub fn new_manual(set: bool, name: Option<&str>) -> (r: Result<Event, EventError>)
        ensures
            name_valid(name) ==> (r matches Ok(e) && e.is_manual() && e.signaled() == set),
            !name_valid(name) ==> r == Err::<Event, EventError>(EventError::InvalidName),
    {
        Event::new(true, set, name)
    }

    /// Sets (signals) the event.
    ///
    /// Manual-reset: the event stays signaled, and every wait succeeds, until
    /// `reset` is called. Auto-reset: the signal satisfies at most one wait —
    /// the first one to consume it — and persists until then. Never fails.
    pub fn set(&mut self) -> (r: Result<(), EventError>)
        ensures
            r == Ok::<(), EventError>(()),
            final(self).signaled(),
            final(self).is_manual() == old(self).is_manual(),
            final(self).ident() == old(self).ident(),
    {
        self.signaled = true;
        Ok(())
    }

    /// Resets the event to unsignaled. Valid for both disciplines; never
    /// fails.
    pub fn reset(&mut self) -> (r: Result<(), EventError>)
        ensures
            r == Ok::<(), EventError>(()),
            !final(self).signaled(),
            final(self).is_manual() == old(self).is_manual(),
            final(self).ident() == old(self).ident(),
    {
        self.signaled = false;
        Ok(())
    }

    fn new(manual: bool, set: bool, name: Option<&str>) -> (r: Result<Event, EventError>)
        ensures
            name_valid(name) ==> (r matches Ok(e) && e.is_manual() == manual && e.signaled()
                == set),
            !name_valid(name) ==> r == Err::<Event, EventError>(EventError::InvalidName),
    {
        if !name_is_representable(name) {
            return Err(EventError::InvalidName);
        }
        Ok(Event { manual, signaled: set })
    }
}

impl WaitableExt for Event {
    closed spec fn signaled(&self) -> bool {
        self.signaled
    }

    closed spec fn consumed(&self) -> Event {
        if self.manual {
            *self
        } else {
            Event { manual: self.manual, signaled: false }
        }
    }

    closed spec fn ident(&self) -> usize {
        0
    }

    fn is_signaled(&self) -> bool {
        self.signaled
    }

    fn consume(&mut self) {
        if !self.manual {
            self.signaled = false;
        }
    }

    fn handle(&self) -> usize {
        0
    }
}

impl Waitable for Event {
    fn wait(&mut self, timeout: Duration) -> Result<WaitableResult, WaitError> {
        if self.is_signaled() {
            self.consume();
            Ok(WaitableResult::Signaled)
        } else {
            Ok(WaitableResult::Timeout)
        }
    }

    fn wait_infinite(&mut self) -> Result<(), WaitError> {
        self.consume();
        Ok(())
    }
}

/// A signaled manual-reset event is not changed by the waits it satisfies:
/// every wait returns `Signaled` and leaves the event signaled, until `reset`
/// is called.
pub proof fn lemma_manual_wait_preserves_signal(e: Event)
    requires
        e.is_manual(),
        e.signaled(),
    ensures
        e.consumed() == e,
{
}

/// A signaled auto-reset event satisfies exactly one wait: consuming its
/// signal leaves it unsignaled (so an immediately following wait times out),
/// with its reset discipline unchanged.
pub proof fn lemma_auto_wait_consumes_signal(e: Event)
    requires
        !e.is_manual(),
        e.signaled(),
    ensures
        !e.consumed().signaled(),
        e.consumed().is_manual() == e.is_manual(),
{
}

/// Consuming a signal never changes an event's reset discipline or identity,
/// and a manual-reset event is never changed at all.
pub proof fn lemma_event_consumed_shape(e: Event)
    ensures
        e.consumed().is_manual() == e.is_manual(),
        e.consumed().ident() == e.ident(),
        e.is_manual() ==> e.consumed() == e,
        !e.is_manual() ==> !e.consumed().signaled(),
{
}

} // verus!
