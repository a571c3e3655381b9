//! The value-producing adapter: run a computation that blocks on an inner
//! task inside a fresh coroutine, and hand its result back as an ordinary
//! value once the wrapper reports "finished".

use vstd::prelude::*;

use crate::bridge::Bridge;
use crate::task::InnerTask;

verus! {

/// Token for the value-returning convenience path.
#[derive(Clone, Copy, PartialEq, Eq, PartialOrd, Ord, Debug, Hash, Default)]
pub struct CoroutineToken;

impl CoroutineToken {
    /// Run `task` to completion through the whole protocol — output cell,
    /// wrapper, relay — and return its output.
    ///
    /// The cell is written by the coroutine body strictly before the wrapper
    /// reports "finished", and read strictly after, so the value read is
    /// exactly the task's payload.
    pub fn exec<V>(&self, task: InnerTask<V>) -> (v: V)
        requires
            task.wf(),
        ensures
            Some(v) == task.payload,
    {
        let mut bridge = Bridge::new(task);
        let _polls: u64 = bridge.run_until_finished();
        bridge.into_output()
    }
}

} // verus!
