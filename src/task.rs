use vstd::prelude::*;

verus! {

/// What one resumption of an asynchronous source reports.
#[derive(Clone, Debug, PartialEq, Eq)]
pub enum Progress<V> {
    /// Not finished yet; the source has asked to be resumed later.
    Pending,
    /// Finished with a value.
    Ready(V),
}

/// The two states of a task: still running its computation, or cancelled
/// with the shutdown reason it keeps.
#[derive(Clone, Debug, PartialEq, Eq)]
pub enum Stage<T, F> {
    Active(F),
    Cancelled(T),
}

/// What the driver hands a task during one resumption.
#[derive(Clone, Debug, PartialEq, Eq)]
pub enum Event<T, O> {
    /// A resumption begins.
    Resume,
    /// What resuming the computation in place reported.
    BodyReported(Progress<O>),
    /// What resuming the shutdown handle reported.
    ShutdownReported(Progress<T>),
}

/// What a task asks of its driver next.
#[derive(Clone, Debug, PartialEq, Eq)]
pub enum Action<T, O> {
    /// Resume the computation in place, then hand back what it reported.
    ResumeBody,
    /// Resume the shutdown handle, then hand back what it reported.
    ResumeShutdown,
    /// End the resumption with this report: the computation's value in `Ok`,
    /// or the shutdown reason in `Err`.
    Report(Progress<Result<O, T>>),
}

/// One decision of a task: in stage `before`, given `e`, it moves to `after`
/// and asks for `a`.
///
/// A cancelled task reports a clone of its reason again, whatever it is
/// given. An active one asks for its computation first; a finished
/// computation ends the resumption with its value; only after a pending one
/// is the shutdown handle asked, and a shutdown reason then cancels the task,
/// which keeps a clone of it and drops the computation.
pub open spec fn steps<T: Clone, F, O>(
    before: Stage<T, F>,
    e: Event<T, O>,
    after: Stage<T, F>,
    a: Action<T, O>,
) -> bool {
    match before {
        Stage::Cancelled(kept) => {
            &&& after == before
            &&& a matches Action::Report(Progress::Ready(Err(c)))
            &&& cloned(kept, c)
        },
        Stage::Active(_) => match e {
            Event::Resume => after == before && a == Action::<T, O>::ResumeBody,
            Event::BodyReported(Progress::Ready(v)) => {
                after == before && a == Action::<T, O>::Report(Progress::Ready(Ok(v)))
            },
            Event::BodyReported(Progress::Pending) => {
                after == before && a == Action::<T, O>::ResumeShutdown
            },
            Event::ShutdownReported(Progress::Ready(reason)) => {
                &&& after matches Stage::Cancelled(kept)
                &&& cloned(reason, kept)
                &&& a == Action::<T, O>::Report(Progress::Ready(Err(reason)))
            },
            Event::ShutdownReported(Progress::Pending) => {
                after == before && a == Action::<T, O>::Report(Progress::Pending)
            },
        },
    }
}

/// A computation that is cancelled when a shutdown is signalled.
///
/// `T` is the shutdown reason, `F` the wrapped computation and `S` the handle
/// to the shutdown source.
pub struct WrapCancel<T, F, S> {
    shutdown_signal: S,
    future: Stage<T, F>,
}

impl<T: Clone, F, S> WrapCancel<T, F, S> {
    /// The state the task is in.
    pub closed spec fn stage(&self) -> Stage<T, F> {
        self.future
    }

    /// The handle to the shutdown source.
    pub closed spec fn signal(&self) -> S {
        self.shutdown_signal
    }

    /// Wraps `future` so that it is cancelled once `shutdown_signal` resolves.
    pub fn new(shutdown_signal: S, future: F) -> (r: Self)
        ensures
            r.stage() == Stage::<T, F>::Active(future),
            r.signal() == shutdown_signal,
    {
        WrapCancel { shutdown_signal, future: Stage::Active(future) }
    }

    /// Whether the task still holds its computation.
    pub fn is_active(&self) -> (r: bool)
        ensures
            r == self.stage() is Active,
    {
        match &self.future {
            Stage::Active(_) => true,
            Stage::Cancelled(_) => false,
        }
    }

    /// Gives the running computation, to be resumed in place.
    pub fn body_mut(&mut self) -> (b: &mut F)
        requires
            old(self).stage() is Active,
        ensures
            old(self).stage() == Stage::<T, F>::Active(*b),
            final(self).stage() == Stage::<T, F>::Active(*final(b)),
            final(self).signal() == old(self).signal(),
    {
        match &mut self.future {
            Stage::Active(body) => body,
            Stage::Cancelled(_) => vstd::pervasive::unreached(),
        }
    }

    /// Gives the shutdown handle, to be resumed in place.
    pub fn signal_mut(&mut self) -> (s: &mut S)
        ensures
            *s == old(self).signal(),
            final(self).signal() == *final(s),
            final(self).stage() == old(self).stage(),
    {
        &mut self.shutdown_signal
    }

    /// Takes one decision of a resumption; see [`steps`].
    pub fn step<O>(&mut self, e: Event<T, O>) -> (a: Action<T, O>)
        ensures
            steps(old(self).stage(), e, final(self).stage(), a),
            final(self).signal() == old(self).signal(),
    {
        if let Stage::Cancelled(kept) = &self.future {
            return Action::Report(Progress::Ready(Err(kept.clone())));
        }
        match e {
            Event::Resume => Action::ResumeBody,
            Event::BodyReported(Progress::Ready(v)) => Action::Report(Progress::Ready(Ok(v))),
            Event::BodyReported(Progress::Pending) => Action::ResumeShutdown,
            Event::ShutdownReported(Progress::Ready(reason)) => {
                self.future = Stage::Cancelled(reason.clone());
                Action::Report(Progress::Ready(Err(reason)))
            },
            Event::ShutdownReported(Progress::Pending) => Action::Report(Progress::Pending),
        }
    }
}

} // verus!
