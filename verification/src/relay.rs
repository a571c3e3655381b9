//! Decision core of the suspension relay: the in-coroutine facility that
//! drives an inner asynchronous task to completion by alternating polls of
//! the task with yields back to the outer poller.

use vstd::prelude::*;

verus! {

/// Where the relay stands inside one blocking invocation.
#[derive(Clone, Copy, PartialEq, Eq, Structural, Debug)]
pub enum RelayState {
    /// A fresh continuation handle must be taken from the mailbox before the
    /// inner task may be polled.
    NeedHandle,
    /// A fresh handle is in hand; the inner task may be polled once with it.
    HaveHandle,
    /// The inner task completed and its output was returned to the body.
    Done,
}

/// What the relay just observed.
#[derive(Clone, Copy, PartialEq, Eq, Structural, Debug)]
pub enum RelayEvent {
    /// The mailbox was read and held no handle.
    HandleMissing,
    /// The mailbox was read and a fresh handle was taken from it.
    HandleFresh,
    /// The inner task was polled and reported "not ready".
    InnerPending,
    /// The inner task was polled and reported completion.
    InnerReady,
}

/// What the relay does next.
#[derive(Clone, Copy, PartialEq, Eq, Structural, Debug)]
pub enum RelayAction {
    /// Suspend the coroutine, handing control back to the outer poller.
    YieldToCaller,
    /// Poll the inner task, using the handle just taken as its re-wake
    /// mechanism.
    PollInner,
    /// Return the inner task's output to the coroutine body.
    Finish,
}

/// An event can only be observed in the state that performs the matching
/// read: mailbox events while a handle is needed, poll results while a
/// handle is held, and nothing at all once the relay is done.
pub open spec fn event_fits(s: RelayState, e: RelayEvent) -> bool {
    match s {
        RelayState::NeedHandle => e is HandleMissing || e is HandleFresh,
        RelayState::HaveHandle => e is InnerPending || e is InnerReady,
        RelayState::Done => false,
    }
}

/// The relay's transition table. An empty mailbox or a not-ready task always
/// leads to a yield; a handle permits exactly one poll; after a "not ready"
/// poll the handle is spent, so the relay goes back to waiting for a fresh
/// one.
pub open spec fn relay_transition(e: RelayEvent) -> (RelayState, RelayAction) {
    match e {
        RelayEvent::HandleMissing => (RelayState::NeedHandle, RelayAction::YieldToCaller),
        RelayEvent::HandleFresh => (RelayState::HaveHandle, RelayAction::PollInner),
        RelayEvent::InnerPending => (RelayState::NeedHandle, RelayAction::YieldToCaller),
        RelayEvent::InnerReady => (RelayState::Done, RelayAction::Finish),
    }
}

/// One decision step of the relay: given where it stands and what it just
/// observed, where it stands next and what it does now.
pub fn relay_step(s: RelayState, e: RelayEvent) -> (r: (RelayState, RelayAction))
    requires
        event_fits(s, e),
    ensures
        r == relay_transition(e),
{
    match e {
        RelayEvent::HandleMissing => (RelayState::NeedHandle, RelayAction::YieldToCaller),
        RelayEvent::HandleFresh => (RelayState::HaveHandle, RelayAction::PollInner),
        RelayEvent::InnerPending => (RelayState::NeedHandle, RelayAction::YieldToCaller),
        RelayEvent::InnerReady => (RelayState::Done, RelayAction::Finish),
    }
}

/// Law: the relay never busy-spins across a true suspension. Whenever it is
/// blocked — the mailbox held no handle, or the inner task was not ready —
/// its next action is to yield control back to the caller.
pub proof fn lemma_blocked_implies_yield(s: RelayState, e: RelayEvent)
    requires
        event_fits(s, e),
        e is HandleMissing || e is InnerPending,
    ensures
        relay_transition(e).1 is YieldToCaller,
{
}

/// Law: a handle is never stale-reused across a yield. After the inner task
/// reports "not ready", the relay returns to waiting on the mailbox, so the
/// next poll requires a fresh handle.
pub proof fn lemma_pending_demands_fresh_handle(s: RelayState, e: RelayEvent)
    requires
        event_fits(s, e),
        e is InnerPending,
    ensures
        relay_transition(e).0 is NeedHandle,
{
}

/// Law: the relay finishes exactly when the inner task reports completion,
/// and only a fresh handle ever leads to a poll of the inner task.
pub proof fn lemma_poll_needs_fresh_handle(s: RelayState, e: RelayEvent)
    requires
        event_fits(s, e),
    ensures
        relay_transition(e).1 is Finish <==> e is InnerReady,
        relay_transition(e).1 is PollInner <==> e is HandleFresh,
{
}

} // verus!
