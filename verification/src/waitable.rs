//! The waitable capability — wait with a timeout, wait indefinitely, expose an
//! identity — and the combinators that wait across a whole collection of
//! waitables with "one" or "all" semantics.

use vstd::prelude::*;

use crate::platform::OsError;
use std::time::Duration;

verus! {

/// Outcome of waiting on a single waitable, or on many when all must be
/// signaled.
#[derive(Clone, Copy, PartialEq, Eq, Structural, Debug)]
pub enum WaitableResult {
    /// The waitable was signaled (all waitables were signaled).
    Signaled,
    /// The timeout elapsed before the waitable was signaled (before all
    /// waitables were signaled).
    Timeout,
}

/// Outcome of waiting on a collection of waitables.
#[derive(Clone, Copy, PartialEq, Eq, Structural, Debug)]
pub enum WaitablesResult {
    /// One of the waitables was signaled; carries its position in the input.
    OneSignaled(usize),
    /// All of the waitables were signaled.
    AllSignaled,
    /// The timeout elapsed before any waitable was signaled.
    Timeout,
}

/// Failure of a wait operation.
#[derive(Clone, Copy, PartialEq, Eq, Structural, Debug)]
pub enum WaitError {
    /// More waitables were passed than [`max_num_waitables`] allows.
    CapacityExceeded,
    /// The underlying wait reported a platform failure, for instance an
    /// abandoned object. The in-process primitives never fail this way; the
    /// variant lets a platform layer report its own wait failures through the
    /// same type.
    WaitFailed(OsError),
}

/// The state-machine capability of a signalable primitive: observe whether the
/// signal condition holds, consume one unit of the signal, and expose a stable
/// identity. This is the interface the multi-object wait operations consume.
pub trait WaitableExt: Sized {
    /// Whether the object's signal condition currently holds: a wait on it
    /// would return immediately.
    spec fn signaled(&self) -> bool;

    /// The state after a successful wait consumes the object's signal once: a
    /// manual-reset event is unchanged, an auto-reset event returns to
    /// unsignaled, a semaphore gives up one permit.
    spec fn consumed(&self) -> Self;

    /// The object's identity, fixed for its whole lifetime.
    spec fn ident(&self) -> usize;

    /// Reports whether the object is currently signaled, without consuming
    /// anything.
    fn is_signaled(&self) -> (b: bool)
        ensures
            b == self.signaled(),
    ;

    /// Performs the consumption side effect of a successful wait.
    fn consume(&mut self)
        requires
            old(self).signaled(),
        ensures
            *final(self) == old(self).consumed(),
    ;

    /// Returns the identity used to address the waitable. The in-process
    /// primitives carry no kernel handle and are passed to the multi-object
    /// wait operations directly, so for them this is a placeholder value,
    /// stable over the object's lifetime.
    fn handle(&self) -> (h: usize)
        ensures
            h == self.ident(),
    ;
}

/// A waitable object: the blocking-style interface over the state-machine
/// capability.
///
/// These primitives are in-process values owned by their caller, so while a
/// wait runs no other party can signal the object: a wait is the poll step of
/// the state machine, and the timeout only bounds a block that in this model
/// never has to happen. A platform layer that shares a primitive between
/// threads supplies the real blocking by re-running the poll step after each
/// signal until its deadline passes.
pub trait Waitable: WaitableExt {
    /// Waits until the object is signaled or `timeout` elapses, whichever is
    /// first. Returns `Signaled` and consumes the signal exactly when the
    /// signal condition holds at the call; returns `Timeout` otherwise,
    /// leaving the object unchanged. A zero timeout therefore means "poll, do
    /// not block". Never fails.
    fn wait(&mut self, timeout: Duration) -> (r: Result<WaitableResult, WaitError>)
        ensures
            old(self).signaled() ==> r == Ok::<WaitableResult, WaitError>(
                WaitableResult::Signaled,
            ) && *final(self) == old(self).consumed(),
            !old(self).signaled() ==> r == Ok::<WaitableResult, WaitError>(
                WaitableResult::Timeout,
            ) && *final(self) == *old(self),
    ;

    /// Waits until the object is signaled, with no deadline, and consumes the
    /// signal. An indefinite wait on an unsignaled in-process value would
    /// never return — no other owner exists to signal it — so the signal
    /// condition is required to hold.
    fn wait_infinite(&mut self) -> (r: Result<(), WaitError>)
        requires
            old(self).signaled(),
        ensures
            r == Ok::<(), WaitError>(()),
            *final(self) == old(self).consumed(),
    ;
}

/// The largest number of waitables one multi-object wait accepts.
pub const MAX_NUM_WAITABLES: usize = 64;

/// Returns the maximum number of waitables accepted by one call to
/// [`wait_for_all`] or [`wait_for_one`].
pub fn max_num_waitables() -> (n: usize)
    ensures
        n == MAX_NUM_WAITABLES,
{
    MAX_NUM_WAITABLES
}

/// Holds when every waitable in `ws` is signaled; vacuously true of an empty
/// collection.
pub open spec fn all_signaled<W: WaitableExt>(ws: Seq<W>) -> bool {
    forall|i: int| 0 <= i < ws.len() ==> (#[trigger] ws[i]).signaled()
}

/// Holds when at least one waitable in `ws` is signaled.
pub open spec fn any_signaled<W: WaitableExt>(ws: Seq<W>) -> bool {
    exists|i: int| 0 <= i < ws.len() && (#[trigger] ws[i]).signaled()
}

/// The collection after every member's signal has been consumed once.
pub open spec fn all_consumed<W: WaitableExt>(ws: Seq<W>) -> Seq<W> {
    Seq::new(ws.len(), |i: int| ws[i].consumed())
}

/// Holds when `i` is the position of the first signaled waitable in `ws`.
pub open spec fn is_first_signaled<W: WaitableExt>(ws: Seq<W>, i: int) -> bool {
    &&& 0 <= i < ws.len()
    &&& ws[i].signaled()
    &&& forall|j: int| 0 <= j < i ==> !(#[trigger] ws[j]).signaled()
}

/// Waits until every waitable in `waitables` is observed signaled at once, or
/// `timeout` elapses. On success every member's signal is consumed, exactly
/// as if `wait` had succeeded on each alone, and the result is `Signaled`;
/// otherwise no member is touched and the result is `Timeout`. An empty
/// collection counts as all-signaled and succeeds immediately.
///
/// Fails with `CapacityExceeded`, touching nothing, exactly when the
/// collection is larger than [`max_num_waitables`] allows.
pub fn wait_for_all<W: WaitableExt>(waitables: &mut Vec<W>, timeout: Duration) -> (r: Result<
    WaitableResult,
    WaitError,
>)
    ensures
        old(waitables)@.len() > MAX_NUM_WAITABLES ==> r == Err::<WaitableResult, WaitError>(
            WaitError::CapacityExceeded,
        ) && final(waitables)@ == old(waitables)@,
        old(waitables)@.len() <= MAX_NUM_WAITABLES && all_signaled(old(waitables)@) ==> r
            == Ok::<WaitableResult, WaitError>(WaitableResult::Signaled) && final(waitables)@
            == all_consumed(old(waitables)@),
        old(waitables)@.len() <= MAX_NUM_WAITABLES && !all_signaled(old(waitables)@) ==> r
            == Ok::<WaitableResult, WaitError>(WaitableResult::Timeout) && final(waitables)@
            == old(waitables)@,
{
    match wait_for_waitables_impl(waitables, timeout, true) {
        Ok(WaitablesResult::AllSignaled) => Ok(WaitableResult::Signaled),
        Ok(WaitablesResult::Timeout) => Ok(WaitableResult::Timeout),
        // unreachable: the all-mode never reports a single index
        Ok(WaitablesResult::OneSignaled(_)) => Ok(WaitableResult::Timeout),
        Err(e) => Err(e),
    }
}

/// Waits until at least one waitable in `waitables` is signaled, or `timeout`
/// elapses. On success the result is `OneSignaled(i)` where `i` is the
/// position of the first signaled member, whose signal alone is consumed,
/// exactly as if `wait` had succeeded on it alone; on timeout no member is
/// touched. An empty collection has no member to signal and times out
/// immediately.
///
/// Fails with `CapacityExceeded`, touching nothing, exactly when the
/// collection is larger than [`max_num_waitables`] allows.
pub fn wait_for_one<W: WaitableExt>(waitables: &mut Vec<W>, timeout: Duration) -> (r: Result<
    WaitablesResult,
    WaitError,
>)
    ensures
        old(waitables)@.len() > MAX_NUM_WAITABLES ==> r == Err::<WaitablesResult, WaitError>(
            WaitError::CapacityExceeded,
        ) && final(waitables)@ == old(waitables)@,
        old(waitables)@.len() <= MAX_NUM_WAITABLES && any_signaled(old(waitables)@) ==> (r matches
            Ok(WaitablesResult::OneSignaled(i)) && is_first_signaled(old(waitables)@, i as int)
            && final(waitables)@ == old(waitables)@.update(
            i as int,
            old(waitables)@[i as int].consumed(),
        )),
        old(waitables)@.len() <= MAX_NUM_WAITABLES && !any_signaled(old(waitables)@) ==> r
            == Ok::<WaitablesResult, WaitError>(WaitablesResult::Timeout) && final(waitables)@
            == old(waitables)@,
{
    wait_for_waitables_impl(waitables, timeout, false)
}

/// A waitable of either built-in kind, for waiting on a mixed collection of
/// events and semaphores in one [`wait_for_all`] or [`wait_for_one`] call.
/// This union is only a convenience: the wait operations are generic over
/// [`WaitableExt`], which future waitable kinds implement directly.
pub enum AnyWaitable {
    /// An event.
    Event(crate::event::Event),
    /// A counting semaphore.
    Semaphore(crate::semaphore::Semaphore),
}

impl WaitableExt for AnyWaitable {
    open spec fn signaled(&self) -> bool {
        match self {
            AnyWaitable::Event(e) => e.signaled(),
            AnyWaitable::Semaphore(s) => s.signaled(),
        }
    }

    open spec fn consumed(&self) -> AnyWaitable {
        match self {
            AnyWaitable::Event(e) => AnyWaitable::Event(e.consumed()),
            AnyWaitable::Semaphore(s) => AnyWaitable::Semaphore(s.consumed()),
        }
    }

    open spec fn ident(&self) -> usize {
        match self {
            AnyWaitable::Event(e) => e.ident(),
            AnyWaitable::Semaphore(s) => s.ident(),
        }
    }

    fn is_signaled(&self) -> bool {
        match self {
            AnyWaitable::Event(e) => e.is_signaled(),
            AnyWaitable::Semaphore(s) => s.is_signaled(),
        }
    }

    fn consume(&mut self) {
        match self {
            AnyWaitable::Event(e) => e.consume(),
            AnyWaitable::Semaphore(s) => s.consume(),
        }
    }

    fn handle(&self) -> usize {
        match self {
            AnyWaitable::Event(e) => e.handle(),
            AnyWaitable::Semaphore(s) => s.handle(),
        }
    }
}

impl Waitable for AnyWaitable {
    fn wait(&mut self, timeout: Duration) -> Result<WaitableResult, WaitError> {
        match self {
            AnyWaitable::Event(e) => e.wait(timeout),
            AnyWaitable::Semaphore(s) => s.wait(timeout),
        }
    }

    fn wait_infinite(&mut self) -> Result<(), WaitError> {
        match self {
            AnyWaitable::Event(e) => e.wait_infinite(),
            AnyWaitable::Semaphore(s) => s.wait_infinite(),
        }
    }
}

/// Waiting for "all" of a single waitable behaves exactly like a single wait
/// on it: both succeed precisely when that waitable is signaled, and both
/// consume its signal alone.
pub proof fn lemma_single_waitable_wait<W: WaitableExt>(ws: Seq<W>)
    requires
        ws.len() == 1,
    ensures
        all_signaled(ws) <==> ws[0].signaled(),
        any_signaled(ws) <==> ws[0].signaled(),
        all_consumed(ws) =~= ws.update(0, ws[0].consumed()),
{
    if ws[0].signaled() {
        assert(any_signaled(ws));
    }
}

/// The one shared algorithm behind [`wait_for_all`] and [`wait_for_one`]:
/// bound the collection by the platform maximum, observe which members are
/// signaled, and translate the composite outcome — consuming the signal of
/// every member for "all" semantics, of the first signaled member for "one"
/// semantics, and of nobody on a timeout.
#[verifier::loop_isolation(false)]
fn wait_for_waitables_impl<W: WaitableExt>(
    waitables: &mut Vec<W>,
    timeout: Duration,
    require_all: bool,
) -> (r: Result<WaitablesResult, WaitError>)
    ensures
        old(waitables)@.len() > MAX_NUM_WAITABLES ==> r == Err::<WaitablesResult, WaitError>(
            WaitError::CapacityExceeded,
        ) && final(waitables)@ == old(waitables)@,
        old(waitables)@.len() <= MAX_NUM_WAITABLES && require_all ==> (if all_signaled(
            old(waitables)@,
        ) {
            r == Ok::<WaitablesResult, WaitError>(WaitablesResult::AllSignaled)
                && final(waitables)@ == all_consumed(old(waitables)@)
        } else {
            r == Ok::<WaitablesResult, WaitError>(WaitablesResult::Timeout) && final(waitables)@
                == old(waitables)@
        }),
        old(waitables)@.len() <= MAX_NUM_WAITABLES && !require_all ==> (if any_signaled(
            old(waitables)@,
        ) {
            r matches Ok(WaitablesResult::OneSignaled(i)) && is_first_signaled(
                old(waitables)@,
                i as int,
            ) && final(waitables)@ == old(waitables)@.update(
                i as int,
                old(waitables)@[i as int].consumed(),
            )
        } else {
            r == Ok::<WaitablesResult, WaitError>(WaitablesResult::Timeout) && final(waitables)@
                == old(waitables)@
        }),
{
    let ghost before = waitables@;
    let num_waitables = waitables.len();

    if num_waitables > max_num_waitables() {
        return Err(WaitError::CapacityExceeded);
    }

    if require_all {
        let mut i: usize = 0;
        while i < num_waitables
            invariant
                waitables@ == before,
                num_waitables == before.len(),
                i <= num_waitables,
                forall|j: int| 0 <= j < i ==> (#[trigger] before[j]).signaled(),
            decreases num_waitables - i,
        {
            if !waitables[i].is_signaled() {
                return Ok(WaitablesResult::Timeout);
            }
            i += 1;
        }
        let mut k: usize = 0;
        while k < num_waitables
            invariant
                num_waitables == before.len(),
                waitables@.len() == before.len(),
                k <= num_waitables,
                all_signaled(before),
                forall|j: int| 0 <= j < k ==> waitables@[j] == (#[trigger] before[j]).consumed(),
                forall|j: int| k <= j < before.len() ==> waitables@[j] == before[j],
            decreases num_waitables - k,
        {
            proof {
                assert(waitables@[k as int] == before[k as int]);
                assert(before[k as int].signaled());
            }
            waitables[k].consume();
            k += 1;
        }
        proof {
            assert(waitables@ =~= all_consumed(before));
        }
        Ok(WaitablesResult::AllSignaled)
    } else {
        let mut i: usize = 0;
        while i < num_waitables
            invariant
                waitables@ == before,
                num_waitables == before.len(),
                i <= num_waitables,
                forall|j: int| 0 <= j < i ==> !(#[trigger] before[j]).signaled(),
            decreases num_waitables - i,
        {
            if waitables[i].is_signaled() {
                waitables[i].consume();
                return Ok(WaitablesResult::OneSignaled(i));
            }
            i += 1;
        }
        Ok(WaitablesResult::Timeout)
    }
}

} // verus!
