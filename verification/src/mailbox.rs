//! The mailbox: a single-slot exchange point through which the outer poller
//! passes its continuation handle into the running coroutine.
//!
//! A handle is modelled as a plain identifier. The protocol only ever cares
//! about a handle's freshness — which poll it was deposited for — never
//! about its wake-up machinery, so an identifier carries everything the
//! contracts need to say.

use vstd::prelude::*;

verus! {

/// Holds zero or one pending continuation handle.
///
/// Written only by the polling side, immediately before each resume;
/// read-and-cleared only by the relay while the coroutine is running.
#[derive(Clone, Copy, PartialEq, Eq, Structural, Debug)]
pub struct Mailbox {
    /// The pending handle, if any.
    pub slot: Option<u64>,
}

impl Mailbox {
    /// A fresh, empty mailbox.
    pub fn empty() -> (m: Mailbox)
        ensures
            m.slot is None,
    {
        Mailbox { slot: None }
    }

    /// Deposit a handle. Last writer wins: a handle not yet consumed is
    /// silently overwritten, which is safe because a handle is re-derivable
    /// from the current poll call and a stale one must never be reused.
    pub fn deposit(&mut self, handle: u64)
        ensures
            final(self).slot == Some(handle),
    {
        self.slot = Some(handle);
    }

    /// Read and clear the slot: the taken handle, if any, is spent.
    pub fn take(&mut self) -> (r: Option<u64>)
        ensures
            r == old(self).slot,
            final(self).slot is None,
    {
        let r = self.slot;
        self.slot = None;
        r
    }
}

} // verus!
