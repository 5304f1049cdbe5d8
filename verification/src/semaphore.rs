//! The semaphore primitive: a counter of available permits bounded by a
//! ceiling fixed at construction. The semaphore is signaled whenever the
//! counter is above zero; a successful wait consumes exactly one permit, and
//! an increment that would push the counter past the ceiling is rejected
//! whole, leaving the counter untouched.

use vstd::prelude::*;

use crate::platform::{name_is_representable, name_valid, OsError};
use crate::waitable::{WaitError, Waitable, WaitableExt, WaitableResult};
use std::time::Duration;

verus! {

/// Failure of a semaphore operation.
#[derive(Clone, Copy, PartialEq, Eq, Structural, Debug)]
pub enum SemaphoreError {
    /// The platform rejected the creation of the underlying object. Never
    /// produced by the in-process primitive; carried by platform layers.
    FailedToCreate(OsError),
    /// The requested name cannot be represented in the platform's native name
    /// encoding, for instance because it contains a terminator byte. Detected
    /// before any platform call would be made.
    InvalidName,
    /// The platform rejected an increment for a reason other than overflow.
    /// Never produced by the in-process primitive.
    FailedToIncrement(OsError),
    /// The increment would push the counter past its ceiling; the counter is
    /// left entirely unchanged. An expected outcome — "already at capacity" —
    /// rather than a fatal one.
    WouldOverflow,
    /// The wait itself failed at the platform level. Never produced by the
    /// in-process primitive.
    FailedToWait(OsError),
}

impl SemaphoreError {
    /// A short description of the failure.
    pub fn message(&self) -> (s: String)
        ensures
            (match self {
                SemaphoreError::FailedToCreate(_) => s@ == "failed to create the semaphore"@,
                SemaphoreError::InvalidName => s@ == "invalid semaphore name"@,
                SemaphoreError::FailedToIncrement(_) => s@
                    == "failed to increment the semaphore"@,
                SemaphoreError::WouldOverflow => s@
                    == "the semaphore counter would exceed its maximum"@,
                SemaphoreError::FailedToWait(_) => s@ == "failed to wait on the semaphore"@,
            }),
    {
        match self {
            SemaphoreError::FailedToCreate(_) => "failed to create the semaphore".to_owned(),
            SemaphoreError::InvalidName => "invalid semaphore name".to_owned(),
            SemaphoreError::FailedToIncrement(_) => "failed to increment the semaphore".to_owned(),
            SemaphoreError::WouldOverflow => {
                "the semaphore counter would exceed its maximum".to_owned()
            },
            SemaphoreError::FailedToWait(_) => "failed to wait on the semaphore".to_owned(),
        }
    }
}

/// A waitable counting semaphore.
///
/// Signaled whenever the internal counter is above zero. Each successful wait
/// consumes one permit; [`increment`](Semaphore::increment) adds permits and
/// is rejected whole if the result would exceed the ceiling.
pub struct Semaphore {
    count: usize,
    max_count: usize,
}

impl Semaphore {
    /// The current number of available permits.
    pub closed spec fn count(&self) -> usize {
        self.count
    }

    /// The ceiling the counter may never exceed, fixed at construction.
    pub closed spec fn max_count(&self) -> usize {
        self.max_count
    }

    /// Creates a new semaphore.
    ///
    /// `init_count` gives the initial counter value and is clamped to
    /// `max_count`; `max_count` is the ceiling the counter may never exceed.
    /// `name` would let a platform layer attach to an already existing object;
    /// here it is only validated, and an absent or empty name means "unnamed".
    ///
    /// Fails with `InvalidName` exactly when the name cannot be represented in
    /// the platform's native name encoding; creation itself cannot fail.
    pub fn new(init_count: usize, max_count: usize, name: Option<&str>) -> (r: Result<
        Semaphore,
        SemaphoreError,
    >)
        ensures
            name_valid(name) ==> (r matches Ok(s) && s.count() == if init_count <= max_count {
                init_count
            } else {
                max_count
            } && s.max_count() == max_count),
            !name_valid(name) ==> r == Err::<Semaphore, SemaphoreError>(
                SemaphoreError::InvalidName,
            ),
    {
        if !name_is_representable(name) {
            return Err(SemaphoreError::InvalidName);
        }
        let count = if init_count <= max_count {
            init_count
        } else {
            max_count
        };
        Ok(Semaphore { count, max_count })
    }

    /// Whether adding `n` permits would keep the counter within its ceiling.
    pub open spec fn can_increment(&self, n: usize) -> bool {
        self.count() + n <= self.max_count()
    }

    /// Adds `n` permits to the counter, waking up to `n` waiters in a platform
    /// realization.
    ///
    /// Succeeds, returning the counter value immediately before the increment,
    /// exactly when the resulting counter stays within the ceiling; otherwise
    /// fails with `WouldOverflow` and leaves the counter entirely unchanged —
    /// there is no partial increment.
    pub fn increment(&mut self, n: usize) -> (r: Result<usize, SemaphoreError>)
        ensures
            old(self).can_increment(n) ==> (r == Ok::<usize, SemaphoreError>(old(self).count())
                && final(self).count() == old(self).count() + n),
            !old(self).can_increment(n) ==> (r == Err::<usize, SemaphoreError>(
                SemaphoreError::WouldOverflow,
            ) && *final(self) == *old(self)),
            final(self).max_count() == old(self).max_count(),
            final(self).ident() == old(self).ident(),
    {
        let prev = self.count;
        match prev.checked_add(n) {
            Some(total) => {
                if total <= self.max_count {
                    self.count = total;
                    Ok(prev)
                } else {
                    Err(SemaphoreError::WouldOverflow)
                }
            },
            None => Err(SemaphoreError::WouldOverflow),
        }
    }

    /// Adds one permit to the counter, waking at most one waiter in a platform
    /// realization. Behaves exactly as [`increment`](Semaphore::increment)
    /// with `n == 1`.
    pub fn increment_one(&mut self) -> (r: Result<usize, SemaphoreError>)
        ensures
            old(self).can_increment(1) ==> (r == Ok::<usize, SemaphoreError>(old(self).count())
                && final(self).count() == old(self).count() + 1),
            !old(self).can_increment(1) ==> (r == Err::<usize, SemaphoreError>(
                SemaphoreError::WouldOverflow,
            ) && *final(self) == *old(self)),
            final(self).max_count() == old(self).max_count(),
            final(self).ident() == old(self).ident(),
    {
        self.increment(1)
    }
}

impl WaitableExt for Semaphore {
    open spec fn signaled(&self) -> bool {
        self.count() > 0
    }

    closed spec fn consumed(&self) -> Semaphore {
        if self.count > 0 {
            Semaphore { count: (self.count - 1) as usize, max_count: self.max_count }
        } else {
            *self
        }
    }

    closed spec fn ident(&self) -> usize {
        0
    }

    fn is_signaled(&self) -> bool {
        self.count > 0
    }

    fn consume(&mut self) {
        self.count = self.count - 1;
    }

    fn handle(&self) -> usize {
        0
    }
}

impl Waitable for Semaphore {
    fn wait(&mut self, timeout: Duration) -> Result<WaitableResult, WaitError> {
        if self.is_signaled() {
            self.consume();
            Ok(WaitableResult::Signaled)
        } else {
            Ok(WaitableResult::Timeout)
        }
    }

    fn wait_infinite(&mut self) -> Result<(), WaitError> {
        self.consume();
        Ok(())
    }
}

/// Each successful wait consumes exactly one permit: the counter drops by
/// one, the ceiling is untouched, and the semaphore stays signaled exactly
/// when further permits remain.
pub proof fn lemma_wait_consumes_one_permit(s: Semaphore)
    requires
        s.signaled(),
    ensures
        s.consumed().count() == s.count() - 1,
        s.consumed().max_count() == s.max_count(),
        s.consumed().ident() == s.ident(),
        s.consumed().signaled() <==> s.count() > 1,
{
}

/// The counter never leaves `[0, max_count]`: constructors establish the
/// bound and both transitions — consuming a permit, adding permits — preserve
/// it.
pub proof fn lemma_counter_stays_bounded(s: Semaphore, n: usize)
    requires
        s.count() <= s.max_count(),
    ensures
        s.consumed().count() <= s.consumed().max_count(),
        s.can_increment(n) ==> s.count() + n <= s.max_count(),
{
}

} // verus!
