//! Properties of a task's decisions, stated over [`steps`], the relation that
//! [`WrapCancel::step`](crate::WrapCancel::step) is specified by.
use vstd::prelude::*;

verus! {

use crate::task::{steps, Action, Event, Progress, Stage};

/// A computation that finishes in a resumption wins it, even when the
/// shutdown source is ready too: the task reports the value in `Ok` at once,
/// never asks the shutdown handle, and is not cancelled.
pub proof fn lemma_body_wins_tie<T: Clone, F, O>(
    body: F,
    value: O,
    after: Stage<T, F>,
    a: Action<T, O>,
)
    requires
        steps(Stage::Active(body), Event::BodyReported(Progress::Ready(value)), after, a),
    ensures
        a == Action::<T, O>::Report(Progress::Ready(Ok(value))),
        a != Action::<T, O>::ResumeShutdown,
        after == Stage::<T, F>::Active(body),
{
}

/// A shutdown reason that arrives while the computation is still running
/// ends the resumption with `Err(reason)` and cancels the task: it keeps a
/// clone of the reason and no longer holds the computation.
pub proof fn lemma_shutdown_cancels<T: Clone, F, O>(
    body: F,
    reason: T,
    after: Stage<T, F>,
    a: Action<T, O>,
)
    requires
        steps(Stage::Active(body), Event::ShutdownReported(Progress::Ready(reason)), after, a),
    ensures
        a == Action::<T, O>::Report(Progress::Ready(Err(reason))),
        after matches Stage::Cancelled(kept) && cloned(reason, kept),
        !(after is Active),
{
}

/// Once cancelled, a task stays cancelled: whatever it is given later, it
/// reports a clone of the reason it kept and asks for nothing, so the dropped
/// computation is never resumed again.
pub proof fn lemma_cancelled_repeats<T: Clone, F, O>(
    body: F,
    reason: T,
    cancelled: Stage<T, F>,
    a: Action<T, O>,
)
    requires
        steps(Stage::Active(body), Event::ShutdownReported(Progress::Ready(reason)), cancelled, a),
    ensures
        cancelled matches Stage::Cancelled(kept) && cloned(reason, kept),
        forall|e: Event<T, O>, later: Stage<T, F>, b: Action<T, O>|
            #[trigger] steps(cancelled, e, later, b) ==> {
                &&& later == cancelled
                &&& b matches Action::Report(Progress::Ready(Err(c)))
                &&& cloned(cancelled->Cancelled_0, c)
            },
{
}

/// While neither the computation nor the shutdown source has finished, a
/// resumption asks for the computation, then for the shutdown handle, and
/// ends pending, with the computation left as it was.
pub proof fn lemma_no_premature_cancellation<T: Clone, F, O>(
    body: F,
    mid: Stage<T, F>,
    after: Stage<T, F>,
    first: Action<T, O>,
    second: Action<T, O>,
)
    requires
        steps(Stage::Active(body), Event::BodyReported(Progress::Pending), mid, first),
        steps(mid, Event::ShutdownReported(Progress::Pending), after, second),
    ensures
        first == Action::<T, O>::ResumeShutdown,
        second == Action::<T, O>::Report(Progress::Pending),
        mid == Stage::<T, F>::Active(body),
        after == Stage::<T, F>::Active(body),
{
}

/// As long as the shutdown source has not resolved, an active task stays
/// active, and the only value it ever finishes with is the computation's
/// own output, in `Ok`.
pub proof fn lemma_pass_through<T: Clone, F, O>(
    before: Stage<T, F>,
    e: Event<T, O>,
    after: Stage<T, F>,
    a: Action<T, O>,
)
    requires
        before is Active,
        !(e matches Event::ShutdownReported(Progress::Ready(_))),
        steps(before, e, after, a),
    ensures
        after == before,
        a matches Action::Report(Progress::Ready(r)) ==> {
            e matches Event::BodyReported(Progress::Ready(v)) && r == Ok::<O, T>(v)
        },
{
}

} // verus!
