//! The composed protocol: mailbox, relay, inner task, wrapper and output
//! cell wired together, with the bridge's guarantees proved end to end.
//!
//! One `Bridge` stands for one wrapped coroutine whose body blocks on one
//! inner task and, when that task completes, writes the output cell and
//! returns. Each `poll` performs exactly what one poll of the real wrapper
//! performs: deposit the continuation handle, resume the coroutine, let the
//! relay take the handle and poll the inner task, and translate the resume
//! outcome into a report for the poller.

use vstd::prelude::*;

use crate::mailbox::Mailbox;
use crate::relay::RelayAction;
use crate::relay::RelayEvent;
use crate::relay::RelayState;
use crate::relay::relay_step;
use crate::task::InnerTask;
use crate::wrapper::Progress;
use crate::wrapper::ResumeOutcome;
use crate::wrapper::WrapperState;
use crate::wrapper::wrapper_step;

verus! {

/// One coroutine-task bridge: the wrapper on the polling side, and inside
/// the coroutine the relay blocking on an inner task.
pub struct Bridge<V> {
    /// Single-slot exchange point for continuation handles.
    pub mailbox: Mailbox,
    /// Where the relay stands inside the coroutine.
    pub relay: RelayState,
    /// The inner task the coroutine body blocks on.
    pub task: InnerTask<V>,
    /// Lifecycle of the wrapped coroutine, as the polling side sees it.
    pub wrapper: WrapperState,
    /// The output cell: written once, by the coroutine body as it returns.
    pub output: Option<V>,
    /// How many times the coroutine has yielded so far.
    pub yields: Ghost<nat>,
}

impl<V> Bridge<V> {
    /// The wrapper has reported "finished".
    pub open spec fn finished(self) -> bool {
        self.wrapper is Finished
    }

    /// The protocol's invariant. The output cell is initialized exactly when
    /// the coroutine has finished; while it runs, the relay is between polls
    /// (a handle spent by a poll is never held across a yield) and the inner
    /// task still owns its payload.
    pub open spec fn wf(self) -> bool {
        &&& (self.wrapper is Finished <==> self.relay is Done)
        &&& (self.wrapper is Finished <==> self.output is Some)
        &&& (!(self.wrapper is Finished) ==> self.relay is NeedHandle)
        &&& (!(self.wrapper is Finished) ==> self.task.wf())
    }

    /// A bridge around a not-yet-started coroutine blocking on `task`.
    pub fn new(task: InnerTask<V>) -> (b: Self)
        requires
            task.wf(),
        ensures
            b.wf(),
            b.wrapper is NotStarted,
            b.task == task,
            b.mailbox.slot is None,
            b.output is None,
            b.yields@ == 0,
    {
        Bridge {
            mailbox: Mailbox::empty(),
            relay: RelayState::NeedHandle,
            task,
            wrapper: WrapperState::NotStarted,
            output: None,
            yields: Ghost(0),
        }
    }

    /// Whether the wrapper has reached its terminal state.
    pub fn is_finished(&self) -> (b: bool)
        ensures
            b == self.finished(),
    {
        matches!(self.wrapper, WrapperState::Finished)
    }

    /// One poll from the external scheduler, carrying its continuation
    /// `handle`.
    ///
    /// Once finished, the bridge is inert: further polls report "finished"
    /// again and resume nothing. Otherwise the handle is deposited, the
    /// coroutine resumed, and either the inner task needs more polls — one
    /// "not ready" is consumed, the relay yields, the poller hears "not
    /// finished" — or the task is ready, the body writes the output cell and
    /// returns, and the poller hears "finished" on this very resume, with no
    /// yield in between.
    pub fn poll(&mut self, handle: u64) -> (r: Progress)
        requires
            old(self).wf(),
        ensures
            final(self).wf(),
            old(self).finished() ==> r is Finished && *final(self) == *old(self),
            !old(self).finished() && old(self).task.pending_polls > 0 ==> {
                &&& r is NotFinished
                &&& final(self).wrapper is Suspended
                &&& final(self).task.pending_polls == old(self).task.pending_polls - 1
                &&& final(self).task.payload == old(self).task.payload
                &&& final(self).output is None
                &&& final(self).mailbox.slot is None
                &&& final(self).yields@ == old(self).yields@ + 1
            },
            !old(self).finished() && old(self).task.pending_polls == 0 ==> {
                &&& r is Finished
                &&& final(self).wrapper is Finished
                &&& final(self).output == old(self).task.payload
                &&& final(self).yields@ == old(self).yields@
            },
    {
        if self.is_finished() {
            return Progress::Finished;
        }
        // Deposit, then resume: the poller's side of the freshness guarantee.
        self.mailbox.deposit(handle);
        // From here to the report, control is on the coroutine's stack. The
        // relay re-checks the mailbox first, as it does after every yield.
        let taken = self.mailbox.take();
        let ev = if taken.is_some() {
            RelayEvent::HandleFresh
        } else {
            RelayEvent::HandleMissing
        };
        let (s1, a1) = relay_step(self.relay, ev);
        self.relay = s1;
        match a1 {
            RelayAction::PollInner => {
                let polled = self.task.poll();
                let ev2 = if polled.is_some() {
                    RelayEvent::InnerReady
                } else {
                    RelayEvent::InnerPending
                };
                let (s2, a2) = relay_step(self.relay, ev2);
                self.relay = s2;
                match a2 {
                    RelayAction::YieldToCaller => {
                        // The coroutine suspends; the wrapper reports.
                        self.yields = Ghost(self.yields@ + 1);
                        let (w, rep) = wrapper_step(self.wrapper, ResumeOutcome::Yielded);
                        self.wrapper = w;
                        rep
                    },
                    RelayAction::Finish => {
                        // The body receives the output, writes the cell and
                        // returns; the wrapper sees the coroutine return.
                        self.output = polled;
                        let (w, rep) = wrapper_step(self.wrapper, ResumeOutcome::Returned);
                        self.wrapper = w;
                        rep
                    },
                    // A poll result never leads to another immediate poll.
                    RelayAction::PollInner => vstd::pervasive::unreached(),
                }
            },
            // Deposit-then-resume guarantees the first mailbox read after
            // waking finds a handle, so the relay never yields for want of
            // one here; proving this arm unreachable is that guarantee.
            RelayAction::YieldToCaller => vstd::pervasive::unreached(),
            // A mailbox read never completes the relay by itself.
            RelayAction::Finish => vstd::pervasive::unreached(),
        }
    }

    /// Drive the bridge the way an external executor would: poll until it
    /// reports "finished", with a fresh handle for every poll, counting the
    /// "not finished" reports.
    ///
    /// For an inner task that completes after exactly N "not ready" polls,
    /// the wrapper reports "not finished" exactly N times before reporting
    /// "finished".
    pub fn run_until_finished(&mut self) -> (n: u64)
        requires
            old(self).wf(),
        ensures
            final(self).wf(),
            final(self).finished(),
            !old(self).finished() ==> {
                &&& n == old(self).task.pending_polls
                &&& final(self).output == old(self).task.payload
            },
            old(self).finished() ==> n == 0 && *final(self) == *old(self),
    {
        if self.is_finished() {
            return 0;
        }
        let mut n: u64 = 0;
        loop
            invariant
                !old(self).finished(),
                self.wf(),
                !self.finished(),
                self.task.payload == old(self).task.payload,
                n + self.task.pending_polls == old(self).task.pending_polls,
            decreases self.task.pending_polls,
        {
            match self.poll(n) {
                Progress::Finished => {
                    return n;
                },
                Progress::NotFinished => {
                    n = n + 1;
                },
            }
        }
    }

    /// Read the output cell, consuming the bridge. Callable only once the
    /// wrapper has reported "finished": before that the cell is empty, and
    /// the requirement on this function is what makes an early read
    /// impossible rather than merely wrong.
    pub fn into_output(self) -> (v: V)
        requires
            self.wf(),
            self.finished(),
        ensures
            Some(v) == self.output,
    {
        match self.output {
            Some(v) => v,
            None => vstd::pervasive::unreached(),
        }
    }
}

/// Law: in every reachable bridge state, the output cell is initialized
/// exactly when the wrapper has finished — it is never readable before the
/// single write that the returning coroutine body performs.
pub proof fn lemma_output_initialized_iff_finished<V>(b: Bridge<V>)
    requires
        b.wf(),
    ensures
        b.finished() <==> b.output is Some,
{
}

} // verus!
