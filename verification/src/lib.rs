//! Verified core of a bridge between a stackful coroutine and a
//! cooperatively-polled asynchronous task.
//!
//! Code running inside a stackful coroutine wants to block on an asynchronous
//! task as if it were an ordinary call, while the coroutine itself is, from
//! the outside, just another pollable task. The bridge rests on a small
//! suspension-relay protocol:
//!
//! * the outer poller deposits its continuation handle into a single-slot
//!   [`mailbox`] and then resumes the coroutine;
//! * inside the coroutine, the [`relay`] takes the handle, polls the inner
//!   task with it, and yields back to the poller whenever the task is not
//!   ready (or no fresh handle is available);
//! * the [`wrapper`] translates each resume outcome into the "not finished" /
//!   "finished" report the outer poller expects;
//! * the [`bridge`] composes these pieces with a model inner [`task`] and an
//!   output cell, and proves the protocol's guarantees end to end; the
//!   [`adapter`] adds the value-returning convenience path.
//!
//! The stack-switching and waker plumbing themselves live outside this
//! library; the decision tables here are what that plumbing follows.

pub mod adapter;
pub mod bridge;
pub mod mailbox;
pub mod relay;
pub mod task;
pub mod wrapper;
