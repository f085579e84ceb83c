use incrementer::client::IncrementerClient;
use incrementer::poller::{check_signals_in_background, PollStep, Poller};
use incrementer::race::{run_unless_interrupted, RaceOutcome};
use incrementer::signal::FatalPythonException;
use incrementer::sleep::SleepStep;
use incrementer::sum::SumStep;
use pyo3::exceptions::PyKeyboardInterrupt;
use pyo3::prelude::PyAnyMethods;
use pyo3::Python;
use std::future::Future;
use std::pin::Pin;
use std::task::{Context, Poll};
use std::time::{Duration, Instant};

#[derive(Debug)]
enum Failure {
    Ordinary(&'static str),
    Fatal(FatalPythonException),
}

impl From<FatalPythonException> for Failure {
    fn from(signal: FatalPythonException) -> Self {
        Failure::Fatal(signal)
    }
}

/// The two sides of a race, polled in turn: whichever is ready first ends it.
struct Race<T, E> {
    work: Pin<Box<dyn Future<Output = Result<T, E>>>>,
    poller: Pin<Box<dyn Future<Output = FatalPythonException>>>,
}

impl<T, E> Future for Race<T, E> {
    type Output = RaceOutcome<T, E>;

    fn poll(mut self: Pin<&mut Self>, cx: &mut Context<'_>) -> Poll<Self::Output> {
        if let Poll::Ready(result) = self.work.as_mut().poll(cx) {
            return Poll::Ready(RaceOutcome::Completed(result));
        }
        if let Poll::Ready(signal) = self.poller.as_mut().poll(cx) {
            return Poll::Ready(RaceOutcome::Interrupted(signal));
        }
        Poll::Pending
    }
}

async fn poll_for_interrupt() -> FatalPythonException {
    let mut poller = Poller::new();
    loop {
        match check_signals_in_background(&mut poller) {
            PollStep::Sleep { millis } => tokio::time::sleep(Duration::from_millis(millis)).await,
            PollStep::Fatal(signal) => return signal,
        }
    }
}

fn block_unless_interrupted<T, E>(
    client: &IncrementerClient,
    work: impl Future<Output = Result<T, E>> + 'static,
) -> Result<T, E>
where
    E: From<FatalPythonException>,
{
    let race = Race { work: Box::pin(work), poller: Box::pin(poll_for_interrupt()) };
    run_unless_interrupted(client.runtime().block_on(race))
}

fn sum(client: &IncrementerClient, a: usize, b: usize, sleepy: bool) -> Result<usize, Failure> {
    let mut task = client.sum(a, b, sleepy);
    block_unless_interrupted(client, async move {
        loop {
            match task.step() {
                SumStep::Yield { .. } => tokio::task::yield_now().await,
                SumStep::Pause { millis } => tokio::time::sleep(Duration::from_millis(millis)).await,
                SumStep::Done { result } => return Ok(result),
            }
        }
    })
}

fn sleep(client: &IncrementerClient, duration: Duration) -> Result<(), Failure> {
    let mut task = client.sleep_unless_interrupted(duration);
    block_unless_interrupted(client, async move {
        loop {
            match task.step() {
                SleepStep::Wait(duration) => tokio::time::sleep(duration).await,
                SleepStep::Done => return Ok(()),
            }
        }
    })
}

fn handle_interrupts_as_python_does() {
    Python::with_gil(|py| {
        let signal = py.import("signal").unwrap();
        let handler = signal.getattr("default_int_handler").unwrap();
        signal.getattr("signal").unwrap().call1((2, handler)).unwrap();
    });
}

fn request_interrupt() {
    Python::with_gil(|py| {
        let thread = py.import("_thread").unwrap();
        thread.getattr("interrupt_main").unwrap().call0().unwrap();
    });
}

fn is_keyboard_interrupt(res: &Result<usize, Failure>) -> bool {
    match res {
        Err(Failure::Fatal(signal)) => {
            Python::with_gil(|py| signal.0.is_instance_of::<PyKeyboardInterrupt>(py))
        }
        _ => false,
    }
}

#[test]
fn sum_of_two_and_three_without_an_interrupt() {
    let client = IncrementerClient::new().unwrap();
    assert!(matches!(sum(&client, 2, 3, false), Ok(5)));
}

#[test]
fn sum_of_nothing_is_back_before_the_poller_wakes() {
    let client = IncrementerClient::new().unwrap();
    let start = Instant::now();
    assert!(matches!(sum(&client, 0, 0, false), Ok(0)));
    assert!(start.elapsed() < Duration::from_millis(100));
}

#[test]
fn a_sleepy_thousand_takes_two_pauses_of_a_second() {
    let client = IncrementerClient::new().unwrap();
    let start = Instant::now();
    assert!(matches!(sum(&client, 0, 1000, true), Ok(1000)));
    assert!(start.elapsed() >= Duration::from_millis(2000));
}

#[test]
fn an_interrupt_ends_a_sum_that_is_still_busy() {
    handle_interrupts_as_python_does();
    let client = IncrementerClient::new().unwrap();
    request_interrupt();
    let start = Instant::now();
    let res = sum(&client, 0, usize::MAX, false);
    let taken = start.elapsed();
    assert!(is_keyboard_interrupt(&res));
    assert!(taken >= Duration::from_millis(100));
    assert!(taken < Duration::from_millis(5000));
}

#[test]
fn an_interrupt_ends_a_sum_in_the_middle_of_a_pause() {
    handle_interrupts_as_python_does();
    let client = IncrementerClient::new().unwrap();
    request_interrupt();
    let start = Instant::now();
    let res = sum(&client, 499, 1, true);
    assert!(is_keyboard_interrupt(&res));
    assert!(start.elapsed() < Duration::from_millis(1000));
}

#[test]
fn an_interrupt_of_one_call_does_not_reach_the_next() {
    handle_interrupts_as_python_does();
    let client = IncrementerClient::new().unwrap();
    assert!(matches!(sum(&client, 1, 1, false), Ok(2)));
    request_interrupt();
    assert!(is_keyboard_interrupt(&sum(&client, 0, usize::MAX, false)));
    assert!(matches!(sum(&client, 2, 3, false), Ok(5)));
    assert!(matches!(sleep(&client, Duration::from_millis(250)), Ok(())));
    request_interrupt();
    assert!(matches!(sleep(&client, Duration::from_secs(10)), Err(Failure::Fatal(_))));
    assert!(matches!(sum(&client, 0, 700, false), Ok(700)));
}

#[test]
fn a_sleep_lasts_as_long_as_asked() {
    let client = IncrementerClient::new().unwrap();
    let start = Instant::now();
    assert!(matches!(sleep(&client, Duration::from_millis(350)), Ok(())));
    assert!(start.elapsed() >= Duration::from_millis(350));
}

#[test]
fn an_interrupt_ends_a_sleep() {
    handle_interrupts_as_python_does();
    let client = IncrementerClient::new().unwrap();
    request_interrupt();
    let start = Instant::now();
    assert!(matches!(sleep(&client, Duration::from_secs(10)), Err(Failure::Fatal(_))));
    assert!(start.elapsed() < Duration::from_millis(5000));
}

#[test]
fn an_ordinary_error_comes_back_as_it_is() {
    let client = IncrementerClient::new().unwrap();
    let res: Result<usize, Failure> = block_unless_interrupted(&client, async {
        tokio::task::yield_now().await;
        Err(Failure::Ordinary("queue is closed"))
    });
    assert!(matches!(res, Err(Failure::Ordinary("queue is closed"))));
}
