//! End-to-end tests of the composed protocol: the bridge polled like a task
//! by an external scheduler, and the value-producing adapter.

use minicoro_awaiters::adapter::CoroutineToken;
use minicoro_awaiters::bridge::Bridge;
use minicoro_awaiters::task::InnerTask;
use minicoro_awaiters::wrapper::Progress;

#[test]
fn ready_immediately_finishes_on_the_first_poll() {
    // body = block on a task that is ready on its first poll:
    // a single poll of the wrapper reports "finished".
    let mut bridge = Bridge::new(InnerTask::new(0, 5u32));
    assert_eq!(bridge.poll(0), Progress::Finished);
    assert!(bridge.is_finished());
    assert_eq!(bridge.into_output(), 5);
}

#[test]
fn adapter_returns_the_value_of_an_immediately_ready_task() {
    let value = CoroutineToken.exec(InnerTask::new(0, 5u32));
    assert_eq!(value, 5);
}

#[test]
fn two_pending_polls_mean_two_not_finished_reports() {
    // body = block on a task that completes after two "not ready" polls:
    // the wrapper reports "not finished" at least once, then "finished".
    let mut bridge = Bridge::new(InnerTask::new(2, String::from("x")));
    assert_eq!(bridge.poll(0), Progress::NotFinished);
    assert_eq!(bridge.poll(1), Progress::NotFinished);
    assert_eq!(bridge.poll(2), Progress::Finished);
    assert_eq!(bridge.into_output(), String::from("x"));
}

#[test]
fn adapter_returns_the_value_of_a_task_that_suspends_twice() {
    let value = CoroutineToken.exec(InnerTask::new(2, String::from("x")));
    assert_eq!(value, String::from("x"));
}

#[test]
fn not_finished_is_reported_exactly_as_often_as_the_task_was_pending() {
    for n in [0u64, 1, 3, 17] {
        let mut bridge = Bridge::new(InnerTask::new(n, n));
        assert_eq!(bridge.run_until_finished(), n);
        assert_eq!(bridge.into_output(), n);
    }
}

#[test]
fn polling_after_finished_is_idempotent() {
    let mut bridge = Bridge::new(InnerTask::new(1, 9u8));
    assert_eq!(bridge.run_until_finished(), 1);
    // Further polls keep reporting "finished" and resume nothing: the
    // output cell still holds exactly the value written once.
    assert_eq!(bridge.poll(100), Progress::Finished);
    assert_eq!(bridge.poll(101), Progress::Finished);
    assert!(bridge.is_finished());
    assert_eq!(bridge.into_output(), 9);
}

#[test]
fn running_a_finished_bridge_again_counts_no_reports() {
    let mut bridge = Bridge::new(InnerTask::new(4, ()));
    assert_eq!(bridge.run_until_finished(), 4);
    assert_eq!(bridge.run_until_finished(), 0);
}

#[test]
fn each_poll_consumes_exactly_one_pending_report() {
    let mut bridge = Bridge::new(InnerTask::new(3, -1i64));
    assert_eq!(bridge.poll(0), Progress::NotFinished);
    assert_eq!(bridge.poll(1), Progress::NotFinished);
    assert!(!bridge.is_finished());
    assert_eq!(bridge.poll(2), Progress::NotFinished);
    assert_eq!(bridge.poll(3), Progress::Finished);
    assert_eq!(bridge.into_output(), -1);
}
