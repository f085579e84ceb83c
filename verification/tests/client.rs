use incrementer::client::IncrementerClient;
use incrementer::sleep::SleepStep;
use incrementer::sum::SumStep;
use std::io::{Error, ErrorKind};
use std::time::Duration;

#[test]
fn a_new_handle_has_an_executor_that_runs() {
    let client = IncrementerClient::new().unwrap();
    let value = client.runtime().block_on(async {
        tokio::task::yield_now().await;
        tokio::time::sleep(Duration::from_millis(1)).await;
        5
    });
    assert_eq!(value, 5);
}

#[test]
fn a_handle_owns_the_executor_it_was_given() {
    let runtime = tokio::runtime::Builder::new_current_thread().build().unwrap();
    let id = runtime.handle().id();
    let client = IncrementerClient::from_built(Ok(runtime)).unwrap();
    assert_eq!(client.runtime().handle().id(), id);
    assert_eq!(client.runtime().handle().id(), id);
}

#[test]
fn two_handles_have_two_executors() {
    let one = IncrementerClient::new().unwrap();
    let other = IncrementerClient::new().unwrap();
    assert_ne!(one.runtime().handle().id(), other.runtime().handle().id());
}

#[test]
fn no_executor_no_handle() {
    let refused = Error::new(ErrorKind::OutOfMemory, "no more descriptors");
    let err = IncrementerClient::from_built(Err(refused)).unwrap_err();
    assert_eq!(err.0.kind(), ErrorKind::OutOfMemory);
    assert_eq!(err.0.to_string(), "no more descriptors");
}

#[test]
fn a_handle_starts_the_sum_at_its_first_value() {
    let client = IncrementerClient::new().unwrap();
    let mut task = client.sum(2, 3, false);
    assert_eq!(task.step(), SumStep::Yield { result: 3, milestone: false });
    let mut empty = client.sum(9, 0, true);
    assert_eq!(empty.step(), SumStep::Done { result: 9 });
}

#[test]
fn a_handle_starts_the_sleep_that_was_asked_for() {
    let client = IncrementerClient::new().unwrap();
    let mut task = client.sleep_unless_interrupted(Duration::from_secs(3));
    match task.step() {
        SleepStep::Wait(duration) => assert_eq!(duration, Duration::from_secs(3)),
        SleepStep::Done => panic!("the sleep was over before it began"),
    }
    assert!(matches!(task.step(), SleepStep::Done));
}
