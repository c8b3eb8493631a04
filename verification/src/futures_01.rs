//! The race combinator for models where an operation reports failure
//! on a separate error channel.

use vstd::prelude::*;

use crate::PollStatus;

verus! {

/// Error returned by the error-channel [`Cancellable`]: the primary
/// operation was either cancelled by the stopper or failed on its own.
#[derive(Debug, Clone, Copy, PartialEq, Eq)]
pub enum CancellableError<C, E> {
    /// The stopper completed first; carries the stopper's own value.
    Cancelled(C),
    /// The primary operation failed with this error.
    Errored(E),
}

impl<C, E> CancellableError<C, E> {
    /// The stopper's value, when the primary operation was cancelled.
    pub open spec fn spec_cancelled(self) -> Option<C> {
        match self {
            CancellableError::Cancelled(c) => Some(c),
            CancellableError::Errored(_) => None,
        }
    }

    /// The primary operation's own error, when it was not cancelled.
    pub open spec fn spec_errored(self) -> Option<E> {
        match self {
            CancellableError::Cancelled(_) => None,
            CancellableError::Errored(e) => Some(e),
        }
    }

    /// Whether this error is a cancellation.
    pub open spec fn spec_is_cancelled(self) -> bool {
        self is Cancelled
    }

    /// Check whether the primary operation was cancelled.
    pub fn is_cancelled(&self) -> (r: bool)
        ensures
            r == self.spec_is_cancelled(),
    {
        match self {
            CancellableError::Cancelled(_) => true,
            _ => false,
        }
    }

    /// Retrieve the error of the primary operation if it was not
    /// cancelled and it failed on its own.
    pub fn errored(self) -> (r: Option<E>)
        ensures
            r == self.spec_errored(),
    {
        match self {
            CancellableError::Errored(e) => Some(e),
            _ => None,
        }
    }

    /// Retrieve the result of the stopper if the primary operation was
    /// cancelled.
    pub fn cancelled(self) -> (r: Option<C>)
        ensures
            r == self.spec_cancelled(),
    {
        match self {
            CancellableError::Cancelled(c) => Some(c),
            _ => None,
        }
    }
}

/// Whether one poll of the race consults the stopper at all: the
/// stopper is polled exactly when its slot is still armed and the
/// primary operation did not just finish with a value. A primary that
/// merely failed does not skip the stopper, because a cancellation on
/// the same turn must still pre-empt the failure.
pub open spec fn stopper_consulted<T, E>(
    stopper_armed: bool,
    primary: Result<PollStatus<T>, E>,
) -> bool {
    stopper_armed && !(primary matches Ok(PollStatus::Ready(_)))
}

/// Whether the stopper slot is still armed after a poll that saw the
/// given statuses: a stopper that fails its own poll is disarmed and
/// never consulted again, and a disarmed slot never re-arms.
pub open spec fn step_armed<T, C, E, SE>(
    stopper_armed: bool,
    primary: Result<PollStatus<T>, E>,
    stopper: Result<PollStatus<C>, SE>,
) -> bool {
    stopper_armed && !(stopper_consulted(stopper_armed, primary) && stopper is Err)
}

/// What the race reports on a poll that saw the given statuses. A
/// finished primary wins at once; otherwise a ready stopper cancels the
/// race, pre-empting even a primary failure seen on the same turn; a
/// failure of the stopper itself is swallowed; and what remains is the
/// primary's own report: its failure, or still pending.
pub open spec fn step_outcome<T, C, E, SE>(
    stopper_armed: bool,
    primary: Result<PollStatus<T>, E>,
    stopper: Result<PollStatus<C>, SE>,
) -> Result<PollStatus<T>, CancellableError<C, E>> {
    match primary {
        Ok(PollStatus::Ready(v)) => Ok(PollStatus::Ready(v)),
        _ => if stopper_consulted(stopper_armed, primary)
                && (stopper matches Ok(PollStatus::Ready(_))) {
            Err(CancellableError::Cancelled(stopper->Ok_0->Ready_0))
        } else {
            match primary {
                Err(e) => Err(CancellableError::Errored(e)),
                _ => Ok(PollStatus::Pending),
            }
        },
    }
}

/// What the race reports once no stopper is left: the primary's own
/// status, with its failure folded into the error channel.
pub open spec fn primary_only_outcome<T, C, E>(
    primary: Result<PollStatus<T>, E>,
) -> Result<PollStatus<T>, CancellableError<C, E>> {
    match primary {
        Ok(status) => Ok(status),
        Err(e) => Err(CancellableError::Errored(e)),
    }
}

/// Decide whether the stopper must be polled this turn, given whether
/// its slot is still armed and what the primary operation just
/// reported.
pub fn consults_stopper<T, E>(stopper_armed: bool, primary: &Result<PollStatus<T>, E>) -> (r: bool)
    ensures
        r == stopper_consulted(stopper_armed, *primary),
{
    stopper_armed && !(matches!(primary, Ok(PollStatus::Ready(_))))
}

/// One poll of the race, over the statuses the two operations reported
/// this turn and the state of the stopper slot. Returns the state of
/// the slot after the turn and what the race reports.
///
/// The primary is decided first: if it finished with a value the race
/// is over and the stopper's status is ignored, so a driver that skips
/// polling the stopper on such a turn (see [`consults_stopper`]) may
/// hand in any placeholder status for it; the same holds once the slot
/// is disarmed.
pub fn poll_step<T, C, E, SE>(
    stopper_armed: bool,
    primary: Result<PollStatus<T>, E>,
    stopper: Result<PollStatus<C>, SE>,
) -> (r: (bool, Result<PollStatus<T>, CancellableError<C, E>>))
    ensures
        r.0 == step_armed(stopper_armed, primary, stopper),
        r.1 == step_outcome(stopper_armed, primary, stopper),
{
    let pending_report: Result<PollStatus<T>, CancellableError<C, E>> = match primary {
        Ok(PollStatus::Pending) => Ok(PollStatus::Pending),
        Ok(PollStatus::Ready(v)) => {
            return (stopper_armed, Ok(PollStatus::Ready(v)));
        },
        Err(e) => Err(CancellableError::Errored(e)),
    };

    if stopper_armed {
        match stopper {
            Ok(PollStatus::Ready(s)) => {
                return (true, Err(CancellableError::Cancelled(s)));
            },
            Ok(PollStatus::Pending) => {},
            Err(_) => {
                return (false, pending_report);
            },
        }
    }

    (stopper_armed, pending_report)
}

/// Cancellation pre-empts failure: when the primary fails on the same
/// poll on which the armed stopper becomes ready, the race reports the
/// cancellation, not the primary's error.
pub proof fn lemma_cancellation_preempts_failure<T, C, E, SE>(e: E, c: C)
    ensures
        step_outcome::<T, C, E, SE>(true, Err(e), Ok(PollStatus::Ready(c)))
            == Err::<PollStatus<T>, CancellableError<C, E>>(CancellableError::Cancelled(c)),
{
}

/// Stopper failure degrades the race permanently: the poll that sees
/// the stopper fail disarms its slot, and from a disarmed slot the
/// stopper is never consulted again, the slot never re-arms, and every
/// later poll reports exactly what the primary alone would have
/// produced.
pub proof fn lemma_stopper_failure_degradation<T, C, E, SE>(
    primary: Result<PollStatus<T>, E>,
    stopper: Result<PollStatus<C>, SE>,
    later_primary: Result<PollStatus<T>, E>,
    later_stopper: Result<PollStatus<C>, SE>,
)
    ensures
        stopper is Err && stopper_consulted(true, primary)
            ==> !step_armed(true, primary, stopper),
        !stopper_consulted(false, later_primary),
        !step_armed(false, later_primary, later_stopper),
        step_outcome(false, later_primary, later_stopper)
            == primary_only_outcome::<T, C, E>(later_primary),
{
}

/// The race combinator for the error-channel policy: holds the primary
/// operation and a slot for the stopper. The slot starts armed and is
/// disarmed for good the first time the stopper fails, so a failed
/// stopper is never polled again and the race then follows the primary
/// alone.
#[derive(Debug)]
#[must_use]
pub struct Cancellable<F, S> {
    inner: F,
    stopper: Option<S>,
}

impl<F, S> Cancellable<F, S> {
    /// The primary operation held by the combinator.
    pub closed spec fn inner_op(self) -> F {
        self.inner
    }

    /// The stopper slot: the stopper while it is still armed, or
    /// nothing once it has been disarmed.
    pub closed spec fn stopper_slot(self) -> Option<S> {
        self.stopper
    }

    /// Check whether the stopper slot is still armed.
    pub fn stopper_armed(&self) -> (r: bool)
        ensures
            r == (self.stopper_slot() is Some),
    {
        self.stopper.is_some()
    }

    /// Disarm the stopper slot: drop the stopper so it is never polled
    /// again. The primary operation is untouched.
    pub fn disarm_stopper(&mut self)
        ensures
            final(self).inner_op() == old(self).inner_op(),
            final(self).stopper_slot() is None,
    {
        self.stopper = None;
    }

    /// Take the combinator apart into the primary operation and
    /// whatever the stopper slot still holds, unchanged.
    pub fn into_parts(self) -> (r: (F, Option<S>))
        ensures
            r.0 == self.inner_op(),
            r.1 == self.stopper_slot(),
    {
        (self.inner, self.stopper)
    }
}

/// An extension trait that provides the error-channel [`Cancellable`]
/// combinator as a chainable method on any operation. Every type
/// implements it.
pub trait FutureCancellable: Sized {
    /// Race this operation against `stopper`, so that it is cancelled
    /// if the stopper completes first.
    ///
    /// Note that this method consumes the receiving operation and
    /// returns a wrapped version of it.
    fn cancel_with<S>(self, stopper: S) -> (r: Cancellable<Self, S>)
        ensures
            r.inner_op() == self,
            r.stopper_slot() == Some(stopper),
    {
        Cancellable { inner: self, stopper: Some(stopper) }
    }
}

impl<T> FutureCancellable for T {
}

/// Creates a new error-channel [`Cancellable`] that races `inner`
/// against `stopper`, with the stopper slot armed.
///
/// This is essentially the same as [`FutureCancellable::cancel_with`],
/// the difference being that this is a function instead of a method.
pub fn cancellable<Fut1, Fut2>(inner: Fut1, stopper: Fut2) -> (r: Cancellable<Fut1, Fut2>)
    ensures
        r.inner_op() == inner,
        r.stopper_slot() == Some(stopper),
{
    Cancellable { inner, stopper: Some(stopper) }
}

/// The error-channel race driven over a whole sequence of polls,
/// starting with the given stopper-slot state. Entry `k` of `polls`
/// holds what the two operations report on poll `k`; the run ends with
/// the first decisive poll's report, or with nothing when every poll
/// leaves the race pending, and the slot state is threaded through the
/// polls by [`step_armed`].
pub open spec fn race_run<T, C, E, SE>(
    stopper_armed: bool,
    polls: Seq<(Result<PollStatus<T>, E>, Result<PollStatus<C>, SE>)>,
) -> Option<Result<T, CancellableError<C, E>>>
    decreases polls.len(),
{
    if polls.len() <= 0 {
        None
    } else {
        match step_outcome(stopper_armed, polls[0].0, polls[0].1) {
            Ok(PollStatus::Ready(v)) => Some(Ok(v)),
            Ok(PollStatus::Pending) => race_run(
                step_armed(stopper_armed, polls[0].0, polls[0].1),
                polls.drop_first(),
            ),
            Err(e) => Some(Err(e)),
        }
    }
}

/// What a run reports when the primary races alone: the first poll on
/// which the primary finishes or fails decides it, with a failure
/// folded into the error channel; what the stopper would have reported
/// is ignored throughout.
pub open spec fn primary_run<T, C, E, SE>(
    polls: Seq<(Result<PollStatus<T>, E>, Result<PollStatus<C>, SE>)>,
) -> Option<Result<T, CancellableError<C, E>>>
    decreases polls.len(),
{
    if polls.len() <= 0 {
        None
    } else {
        match primary_only_outcome::<T, C, E>(polls[0].0) {
            Ok(PollStatus::Ready(v)) => Some(Ok(v)),
            Ok(PollStatus::Pending) => primary_run(polls.drop_first()),
            Err(e) => Some(Err(e)),
        }
    }
}

/// Once the stopper slot is disarmed, the whole remaining run reports
/// exactly what the primary alone would have produced: the stopper is
/// never consulted again, so whatever it would have reported on any
/// later poll is moot.
pub proof fn lemma_degraded_run_follows_primary<T, C, E, SE>(
    polls: Seq<(Result<PollStatus<T>, E>, Result<PollStatus<C>, SE>)>,
)
    ensures
        race_run(false, polls) == primary_run::<T, C, E, SE>(polls),
    decreases polls.len(),
{
    if polls.len() > 0 {
        lemma_degraded_run_follows_primary::<T, C, E, SE>(polls.drop_first());
    }
}

/// Over a whole run: if the stopper fails on poll `k`, before which it
/// was only ever pending and up to which the primary was only ever
/// pending, the run's result is exactly what the primary alone would
/// have produced — finished, or failed through the error channel —
/// whatever the stopper would have reported later.
pub proof fn lemma_stopper_failure_run<T, C, E, SE>(
    polls: Seq<(Result<PollStatus<T>, E>, Result<PollStatus<C>, SE>)>,
    k: int,
)
    requires
        0 <= k < polls.len(),
        forall|i: int|
            0 <= i <= k ==> (#[trigger] polls[i]).0 == Ok::<PollStatus<T>, E>(PollStatus::Pending),
        forall|i: int|
            0 <= i < k ==> (#[trigger] polls[i]).1 == Ok::<PollStatus<C>, SE>(PollStatus::Pending),
        polls[k].1 is Err,
    ensures
        race_run(true, polls) == primary_run::<T, C, E, SE>(polls),
    decreases k,
{
    if k == 0 {
        lemma_degraded_run_follows_primary::<T, C, E, SE>(polls.drop_first());
    } else {
        lemma_stopper_failure_run(polls.drop_first(), k - 1);
    }
}

/// The accessors of [`CancellableError`] are total and mutually
/// exclusive: exactly one of the two extractions yields a value for any
/// error, and the cancellation predicate agrees with the `Cancelled`
/// tag exactly.
pub proof fn lemma_accessor_totality<C, E>(o: CancellableError<C, E>)
    ensures
        o.spec_cancelled() is Some <==> o.spec_errored() is None,
        o.spec_is_cancelled() <==> o.spec_cancelled() is Some,
        o.spec_is_cancelled() <==> o is Cancelled,
{
}

} // verus!
