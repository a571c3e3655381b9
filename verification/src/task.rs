//! A model of the inner asynchronous task the relay blocks on: it reports
//! "not ready" a fixed number of times and then completes with its payload.
//!
//! An arbitrary task is characterized, for the protocol, by exactly these
//! two things: how many polls come back pending before it is ready, and
//! what it yields when it is. The bridge's guarantees are proved for every
//! such task.

use vstd::prelude::*;

verus! {

/// An inner task that completes with `payload` after `pending_polls`
/// "not ready" polls.
pub struct InnerTask<V> {
    /// How many more polls will report "not ready".
    pub pending_polls: u64,
    /// The task's output; handed out once, on the completing poll.
    pub payload: Option<V>,
}

impl<V> InnerTask<V> {
    /// The task can still complete: its payload has not been handed out yet.
    pub open spec fn wf(self) -> bool {
        self.payload is Some
    }

    /// A task that completes with `value` after `pending_polls` "not ready"
    /// polls.
    pub fn new(pending_polls: u64, value: V) -> (t: Self)
        ensures
            t.pending_polls == pending_polls,
            t.payload == Some(value),
    {
        InnerTask { pending_polls, payload: Some(value) }
    }

    /// One poll: `None` stands for "not ready", `Some(v)` for completion
    /// with output `v`.
    pub fn poll(&mut self) -> (r: Option<V>)
        requires
            old(self).wf(),
        ensures
            old(self).pending_polls > 0 ==> {
                &&& r is None
                &&& final(self).pending_polls == old(self).pending_polls - 1
                &&& final(self).payload == old(self).payload
            },
            old(self).pending_polls == 0 ==> {
                &&& r == old(self).payload
                &&& final(self).payload is None
                &&& final(self).pending_polls == 0
            },
    {
        if self.pending_polls > 0 {
            self.pending_polls = self.pending_polls - 1;
            None
        } else {
            self.payload.take()
        }
    }
}

} // verus!
