//! Tests of the protocol's building blocks: the relay and wrapper decision
//! tables, the mailbox, and the model inner task.

use minicoro_awaiters::mailbox::Mailbox;
use minicoro_awaiters::relay::relay_step;
use minicoro_awaiters::relay::RelayAction;
use minicoro_awaiters::relay::RelayEvent;
use minicoro_awaiters::relay::RelayState;
use minicoro_awaiters::task::InnerTask;
use minicoro_awaiters::wrapper::wrapper_step;
use minicoro_awaiters::wrapper::Progress;
use minicoro_awaiters::wrapper::ResumeOutcome;
use minicoro_awaiters::wrapper::WrapperState;

#[test]
fn relay_yields_when_mailbox_is_empty() {
    let (next, action) = relay_step(RelayState::NeedHandle, RelayEvent::HandleMissing);
    assert_eq!(next, RelayState::NeedHandle);
    assert_eq!(action, RelayAction::YieldToCaller);
}

#[test]
fn relay_polls_once_a_handle_is_taken() {
    let (next, action) = relay_step(RelayState::NeedHandle, RelayEvent::HandleFresh);
    assert_eq!(next, RelayState::HaveHandle);
    assert_eq!(action, RelayAction::PollInner);
}

#[test]
fn relay_yields_and_demands_a_fresh_handle_after_pending() {
    let (next, action) = relay_step(RelayState::HaveHandle, RelayEvent::InnerPending);
    assert_eq!(next, RelayState::NeedHandle);
    assert_eq!(action, RelayAction::YieldToCaller);
}

#[test]
fn relay_finishes_when_the_inner_task_is_ready() {
    let (next, action) = relay_step(RelayState::HaveHandle, RelayEvent::InnerReady);
    assert_eq!(next, RelayState::Done);
    assert_eq!(action, RelayAction::Finish);
}

#[test]
fn wrapper_reports_not_finished_on_yield() {
    let (next, report) = wrapper_step(WrapperState::NotStarted, ResumeOutcome::Yielded);
    assert_eq!(next, WrapperState::Suspended);
    assert_eq!(report, Progress::NotFinished);
}

#[test]
fn wrapper_reports_finished_on_return() {
    let (next, report) = wrapper_step(WrapperState::Suspended, ResumeOutcome::Returned);
    assert_eq!(next, WrapperState::Finished);
    assert_eq!(report, Progress::Finished);
}

#[test]
fn mailbox_starts_empty() {
    let mut mailbox = Mailbox::empty();
    assert_eq!(mailbox.take(), None);
}

#[test]
fn mailbox_hands_back_the_deposited_handle_once() {
    let mut mailbox = Mailbox::empty();
    mailbox.deposit(7);
    assert_eq!(mailbox.take(), Some(7));
    assert_eq!(mailbox.take(), None);
}

#[test]
fn mailbox_overwrites_a_stale_handle() {
    let mut mailbox = Mailbox::empty();
    mailbox.deposit(1);
    mailbox.deposit(2);
    assert_eq!(mailbox.take(), Some(2));
    assert_eq!(mailbox.take(), None);
}

#[test]
fn inner_task_reports_pending_then_completes() {
    let mut task = InnerTask::new(2, 41u32);
    assert_eq!(task.poll(), None);
    assert_eq!(task.poll(), None);
    assert_eq!(task.poll(), Some(41));
}

#[test]
fn inner_task_with_no_pending_polls_is_ready_at_once() {
    let mut task = InnerTask::new(0, String::from("now"));
    assert_eq!(task.poll(), Some(String::from("now")));
}
