use kyansel::{
    cancellable, consults_stopper, poll_step, CancellableResult, FutureCancellable, PollStatus,
};

/// Status of an operation scheduled to become ready (with `value`) on
/// poll number `ready_at`, when polled for the `n`-th time.
fn status_at<T: Clone>(ready_at: Option<u32>, value: &T, n: u32) -> PollStatus<T> {
    match ready_at {
        Some(k) if n >= k => PollStatus::Ready(value.clone()),
        _ => PollStatus::Pending,
    }
}

/// Drive the race for up to `max_polls` polls. Returns the poll number
/// of the decisive poll together with the outcome (or `None` when the
/// race stayed pending throughout), and how often the stopper was
/// actually polled.
fn drive<T: Clone, S: Clone>(
    primary_ready_at: Option<u32>,
    primary_value: T,
    stopper_ready_at: Option<u32>,
    stopper_value: S,
    max_polls: u32,
) -> (u32, Option<CancellableResult<T, S>>, u32) {
    let mut stopper_polls: u32 = 0;
    for n in 1..=max_polls {
        let primary = status_at(primary_ready_at, &primary_value, n);
        let stopper = if consults_stopper(&primary) {
            stopper_polls += 1;
            status_at(stopper_ready_at, &stopper_value, n)
        } else {
            PollStatus::Pending
        };
        match poll_step(primary, stopper) {
            PollStatus::Ready(outcome) => return (n, Some(outcome), stopper_polls),
            PollStatus::Pending => {}
        }
    }
    (max_polls, None, stopper_polls)
}

#[test]
fn immediate_primary_wins_first_poll() {
    // primary is immediately ready with 42, stopper never resolves
    let (polls, outcome, _) = drive(Some(1), 42u32, None, "never", 10);
    assert_eq!(polls, 1);
    assert_eq!(outcome, Some(CancellableResult::Finished(42)));
}

#[test]
fn immediate_stopper_cancels_first_poll() {
    // primary never resolves, stopper is immediately ready
    let (polls, outcome, _) = drive(None, 0u32, Some(1), "reason", 10);
    assert_eq!(polls, 1);
    assert_eq!(outcome, Some(CancellableResult::Cancelled("reason")));
}

#[test]
fn earlier_primary_beats_later_stopper() {
    // primary ready on poll 2 with 7, stopper would be ready on poll 5
    let (polls, outcome, _) = drive(Some(2), 7u32, Some(5), 0u32, 10);
    assert_eq!(polls, 2);
    assert_eq!(outcome, Some(CancellableResult::Finished(7)));
}

#[test]
fn simultaneous_readiness_goes_to_primary() {
    // both sides become ready on the very first poll: primary wins,
    // and the stopper is never even polled on that turn
    let (polls, outcome, stopper_polls) = drive(Some(1), 1u32, Some(1), 2u32, 10);
    assert_eq!(polls, 1);
    assert_eq!(outcome, Some(CancellableResult::Finished(1)));
    assert_eq!(stopper_polls, 0);
}

#[test]
fn neither_ready_stays_pending() {
    let (polls, outcome, stopper_polls) = drive(None, 0u32, None, 0u32, 25);
    assert_eq!(polls, 25);
    assert_eq!(outcome, None);
    // the stopper was offered its chance on every poll
    assert_eq!(stopper_polls, 25);
}

#[test]
fn stopper_not_consulted_after_primary_ready() {
    assert!(consults_stopper(&PollStatus::<u32>::Pending));
    assert!(!consults_stopper(&PollStatus::Ready(3u32)));
}

#[test]
fn poll_step_single_cases() {
    assert_eq!(
        poll_step(PollStatus::Ready(5u8), PollStatus::<u8>::Pending),
        PollStatus::Ready(CancellableResult::Finished(5))
    );
    assert_eq!(
        poll_step(PollStatus::Ready(5u8), PollStatus::Ready(9u8)),
        PollStatus::Ready(CancellableResult::Finished(5))
    );
    assert_eq!(
        poll_step(PollStatus::<u8>::Pending, PollStatus::Ready(9u8)),
        PollStatus::Ready(CancellableResult::Cancelled(9))
    );
    assert_eq!(
        poll_step(PollStatus::<u8>::Pending, PollStatus::<u8>::Pending),
        PollStatus::Pending
    );
}

#[test]
fn accessors_on_finished() {
    let outcome: CancellableResult<u32, &str> = CancellableResult::Finished(42);
    assert!(!outcome.is_cancelled());
    assert_eq!(outcome.finished(), Some(42));
    assert_eq!(outcome.cancelled(), None);
}

#[test]
fn accessors_on_cancelled() {
    let outcome: CancellableResult<u32, &str> = CancellableResult::Cancelled("stopped");
    assert!(outcome.is_cancelled());
    assert_eq!(outcome.finished(), None);
    assert_eq!(outcome.cancelled(), Some("stopped"));
}

#[test]
fn construction_pairs_the_operations() {
    let combinator = cancellable(10u32, 20u32);
    let parts = combinator.project();
    assert_eq!(parts.inner, 10);
    assert_eq!(parts.stopper, 20);
}

#[test]
fn cancel_with_pairs_the_operations() {
    let combinator = 10u32.cancel_with(20u32);
    let parts = combinator.project();
    assert_eq!(parts.inner, 10);
    assert_eq!(parts.stopper, 20);
}

#[test]
fn cancel_with_lazy_builds_the_stopper_once() {
    let combinator = 10u32.cancel_with_lazy(|| 20u32);
    let parts = combinator.project();
    assert_eq!(parts.inner, 10);
    assert_eq!(parts.stopper, 20);
}
