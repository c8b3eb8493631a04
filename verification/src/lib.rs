//! A combinator that races a primary computation against a "stopper":
//! the primary counts as cancelled the instant the stopper completes.
//!
//! The combinator owns the two operations and is itself pollable. Each
//! poll consults the primary first; a ready primary wins every tie, a
//! ready stopper pre-empts everything else, and when neither is ready
//! the combinator reports that it is still pending. The decision rules
//! are ordinary verified functions over [`PollStatus`] values, so a
//! driver that owns the real operations only has to feed their statuses
//! through [`poll_step`].
//!
//! The sibling module [`futures_01`] carries the same race for models
//! that report failure on a separate error channel.

use vstd::prelude::*;

pub mod futures_01;

verus! {

/// Status of one poll attempt on a single operation: either the
/// operation produced its value, or it is still pending.
#[derive(Debug, PartialEq, Eq, Clone, Copy)]
pub enum PollStatus<T> {
    /// The operation completed with this value.
    Ready(T),
    /// The operation has not completed yet.
    Pending,
}

/// Result returned by [`Cancellable`]: either the primary operation
/// finished, or the stopper fired first and the primary was cancelled.
#[derive(Debug, PartialEq, Eq, Clone, Copy)]
pub enum CancellableResult<T, S> {
    /// The primary operation finished with this value.
    Finished(T),
    /// The stopper completed first; carries the stopper's own value.
    Cancelled(S),
}

impl<T, S> CancellableResult<T, S> {
    /// The finished value, when the primary operation won the race.
    pub open spec fn spec_finished(self) -> Option<T> {
        match self {
            CancellableResult::Finished(t) => Some(t),
            CancellableResult::Cancelled(_) => None,
        }
    }

    /// The stopper's value, when the race ended in cancellation.
    pub open spec fn spec_cancelled(self) -> Option<S> {
        match self {
            CancellableResult::Finished(_) => None,
            CancellableResult::Cancelled(s) => Some(s),
        }
    }

    /// Whether this outcome is a cancellation.
    pub open spec fn spec_is_cancelled(self) -> bool {
        self is Cancelled
    }

    /// Check whether the primary operation was cancelled.
    pub fn is_cancelled(&self) -> (r: bool)
        ensures
            r == self.spec_is_cancelled(),
    {
        match self {
            CancellableResult::Cancelled(_) => true,
            _ => false,
        }
    }

    /// Retrieve the result of the primary operation if it was not
    /// cancelled.
    pub fn finished(self) -> (r: Option<T>)
        ensures
            r == self.spec_finished(),
    {
        match self {
            CancellableResult::Finished(f) => Some(f),
            _ => None,
        }
    }

    /// Retrieve the result of the stopper if the primary operation was
    /// cancelled.
    pub fn cancelled(self) -> (r: Option<S>)
        ensures
            r == self.spec_cancelled(),
    {
        match self {
            CancellableResult::Cancelled(s) => Some(s),
            _ => None,
        }
    }
}

/// The outcome of one poll of the race, as a function of the statuses
/// the two operations reported on that poll: a ready primary finishes
/// the race at once, a ready stopper cancels an unfinished primary,
/// and otherwise the race is still pending.
pub open spec fn race_step<T, S>(
    primary: PollStatus<T>,
    stopper: PollStatus<S>,
) -> PollStatus<CancellableResult<T, S>> {
    match primary {
        PollStatus::Ready(v) => PollStatus::Ready(CancellableResult::Finished(v)),
        PollStatus::Pending => match stopper {
            PollStatus::Ready(s) => PollStatus::Ready(CancellableResult::Cancelled(s)),
            PollStatus::Pending => PollStatus::Pending,
        },
    }
}

/// Whether one poll of the race consults the stopper at all: the
/// stopper is polled exactly when the primary operation has not
/// finished, so a primary that wins the race never grants the stopper
/// another look.
pub open spec fn stopper_consulted<T>(primary: PollStatus<T>) -> bool {
    primary is Pending
}

/// Decide whether the stopper must be polled this turn, given what the
/// primary operation just reported.
pub fn consults_stopper<T>(primary: &PollStatus<T>) -> (r: bool)
    ensures
        r == stopper_consulted(*primary),
{
    match primary {
        PollStatus::Pending => true,
        PollStatus::Ready(_) => false,
    }
}

/// One poll of the race, over the statuses the two operations reported
/// this turn. The primary is decided first: if it is ready the race
/// finishes with its value and the stopper's status is ignored, so a
/// driver that skips polling the stopper on such a turn (see
/// [`consults_stopper`]) may hand in any placeholder status for it.
pub fn poll_step<T, S>(
    primary: PollStatus<T>,
    stopper: PollStatus<S>,
) -> (r: PollStatus<CancellableResult<T, S>>)
    ensures
        r == race_step(primary, stopper),
{
    match primary {
        PollStatus::Ready(ready) => {
            return PollStatus::Ready(CancellableResult::Finished(ready));
        },
        PollStatus::Pending => {},
    };

    match stopper {
        PollStatus::Ready(s) => {
            return PollStatus::Ready(CancellableResult::Cancelled(s));
        },
        PollStatus::Pending => {},
    };

    PollStatus::Pending
}

/// A primary that is ready wins unconditionally: whatever the stopper
/// reported on the same poll, the race finishes with the primary's
/// value and is never reported as cancelled.
pub proof fn lemma_success_priority<T, S>(v: T, stopper: PollStatus<S>)
    ensures
        race_step(PollStatus::Ready(v), stopper)
            == PollStatus::<CancellableResult<T, S>>::Ready(CancellableResult::Finished(v)),
        !(race_step(PollStatus::Ready(v), stopper) matches PollStatus::Ready(o)
            && o is Cancelled),
{
}

/// A stopper that becomes ready while the primary is still pending
/// cancels the race, and the cancellation carries the stopper's value.
/// [`lemma_cancellation_fires_run`] extends this to a whole run of
/// polls.
pub proof fn lemma_cancellation_fires<T, S>(s: S)
    ensures
        race_step(PollStatus::<T>::Pending, PollStatus::Ready(s))
            == PollStatus::<CancellableResult<T, S>>::Ready(CancellableResult::Cancelled(s)),
{
}

/// When neither operation is ready the race reports that it is still
/// pending and produces no outcome.
pub proof fn lemma_pending_propagates<T, S>()
    ensures
        race_step(PollStatus::<T>::Pending, PollStatus::<S>::Pending)
            == PollStatus::<CancellableResult<T, S>>::Pending,
{
}

/// The race driven over a whole sequence of polls, where entry `k` of
/// `polls` holds the statuses the two operations report on poll `k`:
/// the outcome of the first decisive poll, or nothing when every poll
/// leaves the race pending.
pub open spec fn race_run<T, S>(
    polls: Seq<(PollStatus<T>, PollStatus<S>)>,
) -> Option<CancellableResult<T, S>>
    decreases polls.len(),
{
    if polls.len() <= 0 {
        None
    } else {
        match race_step(polls[0].0, polls[0].1) {
            PollStatus::Ready(outcome) => Some(outcome),
            PollStatus::Pending => race_run(polls.drop_first()),
        }
    }
}

/// Over a whole run: while neither operation is ever ready, the race
/// produces no outcome at all.
pub proof fn lemma_pending_run<T, S>(polls: Seq<(PollStatus<T>, PollStatus<S>)>)
    requires
        forall|i: int|
            0 <= i < polls.len() ==> (#[trigger] polls[i]).0 is Pending && polls[i].1 is Pending,
    ensures
        race_run(polls) is None,
    decreases polls.len(),
{
    if polls.len() > 0 {
        lemma_pending_run(polls.drop_first());
    }
}

/// Over a whole run: if the stopper becomes ready on poll `k` while
/// the primary still is not, and no earlier poll saw either side
/// ready, the race ends in cancellation carrying the stopper's value
/// of poll `k` — a stopper that fires strictly before the primary
/// decides the race.
pub proof fn lemma_cancellation_fires_run<T, S>(
    polls: Seq<(PollStatus<T>, PollStatus<S>)>,
    k: int,
)
    requires
        0 <= k < polls.len(),
        forall|i: int| 0 <= i < k ==> (#[trigger] polls[i]).0 is Pending && polls[i].1 is Pending,
        polls[k].0 is Pending,
        polls[k].1 is Ready,
    ensures
        race_run(polls) == Some(CancellableResult::<T, S>::Cancelled(polls[k].1->Ready_0)),
    decreases k,
{
    if k > 0 {
        lemma_cancellation_fires_run(polls.drop_first(), k - 1);
    }
}

/// The accessors of [`CancellableResult`] are total and mutually
/// exclusive: exactly one of the two extractions yields a value for any
/// outcome, and the cancellation predicate agrees with the `Cancelled`
/// tag exactly.
pub proof fn lemma_accessor_totality<T, S>(o: CancellableResult<T, S>)
    ensures
        o.spec_finished() is Some <==> o.spec_cancelled() is None,
        o.spec_is_cancelled() <==> o.spec_cancelled() is Some,
        o.spec_is_cancelled() <==> o is Cancelled,
{
}

/// The race combinator: holds the primary operation and the stopper
/// that can pre-empt it. Built with [`cancellable`] or
/// [`FutureCancellable::cancel_with`]; a driver takes the two
/// operations back out with [`Cancellable::project`] and feeds their
/// poll statuses through [`poll_step`].
#[derive(Debug)]
#[must_use]
pub struct Cancellable<F, S> {
    inner: F,
    stopper: S,
}

/// The two operations of a [`Cancellable`], each in a slot of its own,
/// so a driver can poll them independently without moving the
/// combinator.
#[derive(Debug)]
pub struct Projection<F, S> {
    /// The primary operation.
    pub inner: F,
    /// The stopper.
    pub stopper: S,
}

impl<F, S> Cancellable<F, S> {
    /// The primary operation held by the combinator.
    pub closed spec fn inner_op(self) -> F {
        self.inner
    }

    /// The stopper held by the combinator.
    pub closed spec fn stopper_op(self) -> S {
        self.stopper
    }

    /// Take the combinator apart into its two operations, unchanged.
    pub fn project(self) -> (r: Projection<F, S>)
        ensures
            r.inner == self.inner_op(),
            r.stopper == self.stopper_op(),
    {
        Projection { inner: self.inner, stopper: self.stopper }
    }
}

/// An extension trait that provides the [`Cancellable`] combinator as
/// a chainable method on any operation. Every type implements it.
pub trait FutureCancellable: Sized {
    /// Race this operation against `stopper`, so that it is cancelled
    /// if the stopper completes first.
    ///
    /// Note that this method consumes the receiving operation and
    /// returns a wrapped version of it.
    fn cancel_with<S>(self, stopper: S) -> (r: Cancellable<Self, S>)
        ensures
            r.inner_op() == self,
            r.stopper_op() == stopper,
    {
        Cancellable { inner: self, stopper }
    }

    /// Race this operation against a stopper that is built on the
    /// spot: `make_stopper` is invoked exactly once, at attachment
    /// time, to produce the stopper.
    fn cancel_with_lazy<S, P: FnOnce() -> S>(self, make_stopper: P) -> (r: Cancellable<Self, S>)
        requires
            call_requires(make_stopper, ()),
        ensures
            r.inner_op() == self,
            call_ensures(make_stopper, (), r.stopper_op()),
    {
        let stopper = make_stopper();
        Cancellable { inner: self, stopper }
    }
}

impl<T> FutureCancellable for T {
}

/// Creates a new [`Cancellable`] that races `inner` against `stopper`.
///
/// This is essentially the same as [`FutureCancellable::cancel_with`],
/// the difference being that this is a function instead of a method.
pub fn cancellable<Fut1, Fut2>(inner: Fut1, stopper: Fut2) -> (r: Cancellable<Fut1, Fut2>)
    ensures
        r.inner_op() == inner,
        r.stopper_op() == stopper,
{
    Cancellable { inner, stopper }
}

} // verus!
