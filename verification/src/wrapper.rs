//! Decision core of the coroutine task wrapper: the polling side that
//! presents a stackful coroutine as an ordinary pollable task.

use vstd::prelude::*;

verus! {

/// Lifecycle of one wrapped coroutine instance. It starts not yet run,
/// alternates between executing and suspended an unbounded number of times,
/// and ends in the terminal `Finished` state.
#[derive(Clone, Copy, PartialEq, Eq, Structural, Debug)]
pub enum WrapperState {
    /// Created, never resumed.
    NotStarted,
    /// Yielded at least once; awaiting the next poll.
    Suspended,
    /// The coroutine body returned. Terminal.
    Finished,
}

/// What one resume of the coroutine came back with.
#[derive(Clone, Copy, PartialEq, Eq, Structural, Debug)]
pub enum ResumeOutcome {
    /// The coroutine suspended itself; it is still running.
    Yielded,
    /// The coroutine body returned.
    Returned,
}

/// What the wrapper reports to its external poller after one poll.
#[derive(Clone, Copy, PartialEq, Eq, Structural, Debug)]
pub enum Progress {
    /// The coroutine is still underway; poll again later.
    NotFinished,
    /// The coroutine body has returned.
    Finished,
}

/// The wrapper's transition table: a yield leaves the coroutine suspended
/// and is reported as "not finished"; a return ends it for good.
pub open spec fn wrapper_transition(o: ResumeOutcome) -> (WrapperState, Progress) {
    match o {
        ResumeOutcome::Yielded => (WrapperState::Suspended, Progress::NotFinished),
        ResumeOutcome::Returned => (WrapperState::Finished, Progress::Finished),
    }
}

/// One decision step on the polling side: after depositing the continuation
/// handle and resuming the coroutine, translate the resume outcome into the
/// wrapper's next state and its report to the poller. A finished coroutine
/// is never resumed, so no outcome can be observed from `Finished`.
pub fn wrapper_step(s: WrapperState, o: ResumeOutcome) -> (r: (WrapperState, Progress))
    requires
        !(s is Finished),
    ensures
        r == wrapper_transition(o),
{
    match o {
        ResumeOutcome::Yielded => (WrapperState::Suspended, Progress::NotFinished),
        ResumeOutcome::Returned => (WrapperState::Finished, Progress::Finished),
    }
}

/// Law: "finished" is reported exactly when the coroutine body returned,
/// and that is exactly when the wrapper enters its terminal state.
pub proof fn lemma_finished_iff_returned(o: ResumeOutcome)
    ensures
        wrapper_transition(o).1 is Finished <==> o is Returned,
        wrapper_transition(o).0 is Finished <==> o is Returned,
{
}

} // verus!
