use incrementer::sleep::{SleepStep, SleepTask};
use std::time::Duration;

#[test]
fn a_sleep_waits_once_for_the_time_asked() {
    let mut task = SleepTask::new(Duration::from_micros(1500));
    match task.step() {
        SleepStep::Wait(duration) => assert_eq!(duration, Duration::from_micros(1500)),
        SleepStep::Done => panic!("the sleep was over before it began"),
    }
    assert!(matches!(task.step(), SleepStep::Done));
    assert!(matches!(task.step(), SleepStep::Done));
}

#[test]
fn a_sleep_of_no_time_still_waits_once() {
    let mut task = SleepTask::new(Duration::ZERO);
    match task.step() {
        SleepStep::Wait(duration) => assert_eq!(duration, Duration::ZERO),
        SleepStep::Done => panic!("the sleep was over before it began"),
    }
    assert!(matches!(task.step(), SleepStep::Done));
}
